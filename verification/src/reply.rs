//! What a handler answers: an HTTP status and a text for the caller.

use vstd::prelude::*;
use vstd::string::StringExecFns;

verus! {

/// The statuses that the service answers with.
#[derive(Clone, Copy, Debug, PartialEq, Eq, Structural)]
pub enum Status {
    Success,
    Created,
    BadRequest,
    Unauthorized,
    NotFound,
    InternalServerError,
}

impl Status {
    /// The status as its HTTP number.
    pub open spec fn code_of(self) -> u16 {
        match self {
            Status::Success => 200,
            Status::Created => 201,
            Status::BadRequest => 400,
            Status::Unauthorized => 401,
            Status::NotFound => 404,
            Status::InternalServerError => 500,
        }
    }

    /// The status as its HTTP number.
    pub fn code(&self) -> (code: u16)
        ensures
            code == self.code_of(),
    {
        match self {
            Status::Success => 200,
            Status::Created => 201,
            Status::BadRequest => 400,
            Status::Unauthorized => 401,
            Status::NotFound => 404,
            Status::InternalServerError => 500,
        }
    }

    /// Whether the status reports success.
    pub open spec fn is_success_of(self) -> bool {
        self == Status::Success || self == Status::Created
    }

    /// Whether the status reports success: its number lies in 200..300.
    pub fn is_success(&self) -> (r: bool)
        ensures
            r == self.is_success_of(),
            r == (200 <= self.code_of() < 300),
    {
        match self {
            Status::Success => true,
            Status::Created => true,
            _ => false,
        }
    }
}

/// A status with its text.
#[derive(Clone, Debug, PartialEq, Eq)]
pub struct Reply {
    pub status: Status,
    pub body: String,
}

/// A reply as a status and a sequence of characters.
pub struct ReplyView {
    pub status: Status,
    pub body: Seq<char>,
}

impl View for Reply {
    type V = ReplyView;

    open spec fn view(&self) -> ReplyView {
        ReplyView { status: self.status, body: self.body@ }
    }
}

impl Reply {
    /// The reply with the given status and the given text.
    pub fn with_text(status: Status, text: &str) -> (reply: Reply)
        ensures
            reply@ == (ReplyView { status, body: text@ }),
    {
        Reply { status, body: String::from_str(text) }
    }

    /// The reply that reports an internal error in the words of `message`.
    pub fn internal(message: String) -> (reply: Reply)
        ensures
            reply@ == (ReplyView { status: Status::InternalServerError, body: message@ }),
    {
        Reply { status: Status::InternalServerError, body: message }
    }
}

} // verus!
