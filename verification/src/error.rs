//! What can go wrong, as callers see it.

use vstd::prelude::*;

verus! {

/// An error of the library.
#[derive(Debug)]
pub enum Error {
    /// A request is refused with an HTTP status.
    Status { message: String, code: u16 },
    /// Something is not as it has to be.
    Message(String),
    /// Redis, or the client for it, reported an error.
    Redis(redis::RedisError),
}

impl Error {
    /// Whether this refuses a request with a given message and status.
    pub open spec fn refuses_with(self, message: Seq<char>, code: u16) -> bool {
        self matches Error::Status { message: m, code: c } && m@ == message && c == code
    }

    /// A refusal with an HTTP status.
    pub fn status(message: &str, code: u16) -> (error: Error)
        ensures
            error.refuses_with(message@, code),
    {
        Error::Status { message: message.to_owned(), code }
    }

    /// What a user is told of the error.
    pub fn user_message(&self) -> (message: &str)
        ensures
            match self {
                Error::Status { message: text, .. } => message@ == text@,
                Error::Message(text) => message@ == text@,
                Error::Redis(_) => message@ == "Redis error"@,
            },
    {
        match self {
            Error::Status { message, .. } => message,
            Error::Message(message) => message,
            Error::Redis(_) => "Redis error",
        }
    }
}

impl From<redis::RedisError> for Error {
    fn from(err: redis::RedisError) -> (error: Error) {
        Error::Redis(err)
    }
}

impl vstd::std_specs::convert::FromSpecImpl<redis::RedisError> for Error {
    open spec fn obeys_from_spec() -> bool {
        true
    }

    open spec fn from_spec(err: redis::RedisError) -> Error {
        Error::Redis(err)
    }
}

/// A refusal is an error with a status that bears exactly the message and the status.
pub proof fn law_refusal_bears_message_and_status(error: Error, message: Seq<char>, code: u16)
    ensures
        error.refuses_with(message, code) <==> (error is Status && error->message@ == message
            && error->code == code),
{
}

}
