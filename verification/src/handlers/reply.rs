//! What an endpoint answers: a status code and a body.

use crate::handlers::auth::{ProfileResponse, ProfileResponseView, TokenResponse, TokenResponseView};
use vstd::prelude::*;

verus! {

/// The body of an answer.
#[derive(Debug, Clone, PartialEq, Eq)]
pub enum ReplyBody {
    /// A plain message.
    Text(String),
    /// A freshly issued pair of tokens, sent as JSON.
    Tokens(TokenResponse),
    /// The profile of the caller, sent as JSON.
    Profile(ProfileResponse),
}

/// The mathematical value of [`ReplyBody`].
pub enum ReplyBodyView {
    Text(Seq<char>),
    Tokens(TokenResponseView),
    Profile(ProfileResponseView),
}

impl View for ReplyBody {
    type V = ReplyBodyView;

    open spec fn view(&self) -> ReplyBodyView {
        match self {
            ReplyBody::Text(message) => ReplyBodyView::Text(message@),
            ReplyBody::Tokens(tokens) => ReplyBodyView::Tokens(tokens@),
            ReplyBody::Profile(profile) => ReplyBodyView::Profile(profile@),
        }
    }
}

/// An answer to an HTTP request.
#[derive(Debug, Clone, PartialEq, Eq)]
pub struct HttpReply {
    pub status: u16,
    pub body: ReplyBody,
}

/// The mathematical value of [`HttpReply`].
pub struct HttpReplyView {
    pub status: u16,
    pub body: ReplyBodyView,
}

impl View for HttpReply {
    type V = HttpReplyView;

    open spec fn view(&self) -> HttpReplyView {
        HttpReplyView { status: self.status, body: self.body@ }
    }
}

/// Status of a request that was served.
pub const OK: u16 = 200;

/// Status of a request that the caller must change.
pub const BAD_REQUEST: u16 = 400;

/// Status of a request that lacks valid credentials.
pub const UNAUTHORIZED: u16 = 401;

/// Status of a request that failed on the server's side.
pub const INTERNAL_SERVER_ERROR: u16 = 500;

/// The answer with a status and a plain message.
pub open spec fn spec_text_reply(status: u16, message: Seq<char>) -> HttpReplyView {
    HttpReplyView { status, body: ReplyBodyView::Text(message) }
}

impl HttpReply {
    /// An answer with a status and a plain message.
    pub fn text(status: u16, message: &str) -> (reply: HttpReply)
        ensures
            reply@ == spec_text_reply(status, message@),
    {
        HttpReply { status, body: ReplyBody::Text(message.to_owned()) }
    }

    /// The answer that carries a freshly issued pair of tokens.
    pub fn tokens(tokens: TokenResponse) -> (reply: HttpReply)
        ensures
            reply@ == (HttpReplyView { status: OK, body: ReplyBodyView::Tokens(tokens@) }),
    {
        HttpReply { status: OK, body: ReplyBody::Tokens(tokens) }
    }

    /// The answer that carries the caller's profile.
    pub fn profile(profile: ProfileResponse) -> (reply: HttpReply)
        ensures
            reply@ == (HttpReplyView { status: OK, body: ReplyBodyView::Profile(profile@) }),
    {
        HttpReply { status: OK, body: ReplyBody::Profile(profile) }
    }
}

} // verus!
