use vstd::prelude::*;

use crate::client::{spec_error_text, ClientError};

verus! {

/// A failure of the engine, described by a message.
#[derive(Clone, Debug, PartialEq)]
pub struct Error {
    message: String,
}

impl Error {
    pub closed spec fn spec_message(&self) -> Seq<char> {
        self.message@
    }

    pub fn new(message: String) -> (r: Self)
        ensures
            r.spec_message() == message@,
    {
        Self { message }
    }

    /// The message describing the failure.
    pub fn message(&self) -> (r: String)
        ensures
            r@ == self.spec_message(),
    {
        self.message.clone()
    }

    /// The failure of a call to the world server.
    pub fn from_client_error(err: &ClientError) -> (r: Self)
        ensures
            r.spec_message() == "client error: "@ + spec_error_text(*err),
    {
        let text = ClientError::get_message(err);
        Self { message: String::from_str("client error: ").concat(text.as_str()) }
    }
}

} // verus!
