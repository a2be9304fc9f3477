//! Small operations on text that the services share.

use vstd::prelude::*;

verus! {

/// What is left of `text` after `prefix`, where `text` starts with it.
pub open spec fn spec_strip_prefix(text: Seq<char>, prefix: Seq<char>) -> Option<Seq<char>> {
    if prefix.is_prefix_of(text) {
        Some(text.skip(prefix.len() as int))
    } else {
        None
    }
}

/// Whether two texts hold the same characters.
pub fn same_text(a: &str, b: &str) -> (same: bool)
    ensures
        same == (a@ == b@),
{
    let left = a.to_owned();
    let right = b.to_owned();
    left == right
}

/// Removes `prefix` from the front of `text`, character for character; `None`
/// where `text` does not start with it.
pub fn strip_prefix<'a>(text: &'a str, prefix: &str) -> (rest: Option<&'a str>)
    ensures
        match spec_strip_prefix(text@, prefix@) {
            Some(tail) => rest matches Some(r) && r@ == tail,
            None => rest is None,
        },
{
    let text_len = text.unicode_len();
    let prefix_len = prefix.unicode_len();
    if prefix_len > text_len {
        return None;
    }
    let mut i: usize = 0;
    while i < prefix_len
        invariant
            i <= prefix_len <= text_len,
            prefix_len == prefix@.len(),
            text_len == text@.len(),
            forall|j: int| 0 <= j < i ==> text@[j] == prefix@[j],
        decreases prefix_len - i,
    {
        if text.get_char(i) != prefix.get_char(i) {
            assert(text@[i as int] != prefix@[i as int]);
            assert(!prefix@.is_prefix_of(text@));
            return None;
        }
        i += 1;
    }
    assert(prefix@ =~= text@.subrange(0, prefix@.len() as int));
    assert(prefix@.is_prefix_of(text@));
    let rest = text.substring_char(prefix_len, text_len);
    assert(rest@ =~= text@.skip(prefix@.len() as int));
    Some(rest)
}

} // verus!
