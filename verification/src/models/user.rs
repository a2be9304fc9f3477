//! The identity record: one per registered principal.

use vstd::prelude::*;

verus! {

/// A registered principal as the directory stores it.
#[derive(Debug, Clone, PartialEq, Eq)]
pub struct User {
    /// The directory's identifier, absent until the record is stored.
    pub id: Option<[u8; 12]>,
    /// Display label.
    pub username: String,
    /// Unique login key.
    pub email: String,
    /// The stored password hash, only ever read by the password hasher.
    pub password: String,
    /// The one refresh token that is live for this identity, if any.
    pub refresh_token: Option<String>,
}

/// The mathematical value of [`User`].
pub struct UserView {
    pub id: Option<[u8; 12]>,
    pub username: Seq<char>,
    pub email: Seq<char>,
    pub password: Seq<char>,
    pub refresh_token: Option<Seq<char>>,
}

impl View for User {
    type V = UserView;

    open spec fn view(&self) -> UserView {
        UserView {
            id: self.id,
            username: self.username@,
            email: self.email@,
            password: self.password@,
            refresh_token: match self.refresh_token {
                Some(token) => Some(token@),
                None => None,
            },
        }
    }
}

impl UserView {
    /// The record with `token` as its live refresh token.
    pub open spec fn with_refresh_token(self, token: Seq<char>) -> UserView {
        UserView { refresh_token: Some(token), ..self }
    }

    /// The record with no live refresh token.
    pub open spec fn without_refresh_token(self) -> UserView {
        UserView { refresh_token: None, ..self }
    }

    /// Whether `token` is the record's live refresh token.
    pub open spec fn holds_refresh_token(self, token: Seq<char>) -> bool {
        self.refresh_token == Some(token)
    }
}

impl User {
    /// A record that has not been stored yet: no identifier and no refresh
    /// session.
    pub fn new(username: String, email: String, password: String) -> (user: User)
        ensures
            user@ == (UserView {
                id: None,
                username: username@,
                email: email@,
                password: password@,
                refresh_token: None,
            }),
    {
        User { id: None, username, email, password, refresh_token: None }
    }

    /// Whether `token` equals the live refresh token, character for
    /// character. No live token matches nothing.
    pub fn holds_refresh_token(&self, token: &str) -> (held: bool)
        ensures
            held == self@.holds_refresh_token(token@),
    {
        match &self.refresh_token {
            Some(stored) => crate::utils::text::same_text(stored.as_str(), token),
            None => false,
        }
    }
}

} // verus!
