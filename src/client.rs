use vstd::prelude::*;

use crate::ac::{animated_corpse_from_value, spec_corpse_from_value, AnimatedCorpse};
use crate::json::{spec_member, spec_str_of, JsonValue};

verus! {

/// The body of an error response of the world server.
#[derive(Clone, Debug, PartialEq)]
pub struct ErrorResponse {
    pub message: String,
}

impl ErrorResponse {
    /// Reads an error response body.
    pub fn from_value(value: &JsonValue) -> (r: Option<ErrorResponse>)
        ensures
            match r {
                Some(e) => spec_str_of(spec_member(*value, "message"@)) == Some(e.message@),
                None => spec_str_of(spec_member(*value, "message"@)) is None,
            },
    {
        match value.member_str("message") {
            Some(message) => Some(ErrorResponse { message }),
            None => None,
        }
    }
}

/// A failure of a call to the world server.
#[derive(Debug, PartialEq)]
pub enum ClientError {
    NotFound { message: String },
    ClientSideError { message: String },
    ServerSideError { message: String },
    InternalError { message: String },
}

/// The text of a client error: its kind, then its message.
pub open spec fn spec_error_text(e: ClientError) -> Seq<char> {
    match e {
        ClientError::NotFound { message } => "Not found: "@ + message@,
        ClientError::ClientSideError { message } => "Client side error: "@ + message@,
        ClientError::ServerSideError { message } => "Server side error: "@ + message@,
        ClientError::InternalError { message } => "Internal error: "@ + message@,
    }
}

impl ClientError {
    pub fn get_message(client_error: &ClientError) -> (r: String)
        ensures
            r@ == spec_error_text(*client_error),
    {
        match client_error {
            ClientError::NotFound { message } => String::from_str("Not found: ").concat(message.as_str()),
            ClientError::ClientSideError { message } => String::from_str("Client side error: ").concat(message.as_str()),
            ClientError::ServerSideError { message } => String::from_str("Server side error: ").concat(message.as_str()),
            ClientError::InternalError { message } => String::from_str("Internal error: ").concat(message.as_str()),
        }
    }
}

/// The message that an error response body carries, when it carries one.
pub open spec fn body_message(body: Option<JsonValue>) -> Option<Seq<char>> {
    match body {
        Some(v) => spec_str_of(spec_member(v, "message"@)),
        None => None,
    }
}

/// Checks the HTTP status of a response. 404 is `NotFound`; another 4xx is a
/// `ClientSideError` and any other status outside 2xx a `ServerSideError`, both
/// with the message of the response body (`body`, when it is JSON); a body
/// without one is an `InternalError`.
pub fn check_status(status: u16, body: Option<JsonValue>) -> (r: Result<(), ClientError>)
    ensures
        200 <= status <= 299 ==> r is Ok,
        status == 404 ==> r matches Err(ClientError::NotFound { .. }),
        status != 404 && 400 <= status <= 499 && body_message(body) is Some ==> (r matches Err(
            ClientError::ClientSideError { message },
        ) && Some(message@) == body_message(body)),
        !(200 <= status <= 299) && !(400 <= status <= 499) && body_message(body) is Some ==> (r matches Err(
            ClientError::ServerSideError { message },
        ) && Some(message@) == body_message(body)),
        !(200 <= status <= 299) && status != 404 && body_message(body) is None ==> r matches Err(
            ClientError::InternalError { .. },
        ),
{
    if status == 404 {
        return Err(ClientError::NotFound { message: String::from_str("Not Found") });
    }
    if 200 <= status && status <= 299 {
        return Ok(());
    }
    let error = match body {
        Some(v) => ErrorResponse::from_value(&v),
        None => None,
    };
    match error {
        None => Err(ClientError::InternalError { message: String::from_str("Error response without message") }),
        Some(error) => if 400 <= status && status <= 499 {
            Err(ClientError::ClientSideError { message: error.message })
        } else {
            Err(ClientError::ServerSideError { message: error.message })
        },
    }
}

/// The raw tile source that a zone response carries.
pub fn raw_source_from(value: &JsonValue) -> (r: Result<String, ClientError>)
    ensures
        match r {
            Ok(s) => spec_str_of(spec_member(*value, "raw_source"@)) == Some(s@),
            Err(e) => spec_str_of(spec_member(*value, "raw_source"@)) is None && e is InternalError,
        },
{
    match value.member_str("raw_source") {
        None => Err(ClientError::InternalError { message: String::from_str("Response do not contains raw_source key") }),
        Some(raw_source) => Ok(raw_source),
    }
}

/// The corpses of the first `n` roster entries, skipping the entries that do not describe one.
pub open spec fn corpses_of_entries(entries: Seq<JsonValue>, n: int) -> Seq<AnimatedCorpse>
    decreases n,
{
    if n <= 0 {
        seq![]
    } else {
        let prev = corpses_of_entries(entries, n - 1);
        match spec_corpse_from_value(entries[n - 1]) {
            Some(c) => prev.push(c),
            None => prev,
        }
    }
}

/// The corpses of an animated-corpse roster, which is an array.
pub fn animated_corpses_from_value(value: &JsonValue) -> (r: Result<Vec<AnimatedCorpse>, ClientError>)
    ensures
        match *value {
            JsonValue::Array(entries) => r matches Ok(cs) && cs@ == corpses_of_entries(entries@, entries@.len() as int),
            _ => r matches Err(ClientError::InternalError { .. }),
        },
{
    match value {
        JsonValue::Array(entries) => {
            let mut corpses: Vec<AnimatedCorpse> = Vec::new();
            let mut i: usize = 0;
            while i < entries.len()
                invariant
                    0 <= i <= entries.len(),
                    corpses@ == corpses_of_entries(entries@, i as int),
                decreases entries.len() - i,
            {
                match animated_corpse_from_value(&entries[i]) {
                    Ok(c) => corpses.push(c),
                    Err(_) => {},
                }
                i = i + 1;
            }
            Ok(corpses)
        },
        _ => Err(ClientError::InternalError { message: String::from_str("No array found in response") }),
    }
}

} // verus!
