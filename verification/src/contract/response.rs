//! The response fragment: any non-success status fails before any decoding
//! is attempted; a success is decoded as the `deserialized` tag directs.

use vstd::prelude::*;
use crate::util::eq_str;

verus! {

/// The response-side decoding strategy.  Any tag other than the four
/// recognized ones, and an absent tag, discard the payload and yield unit.
#[derive(Clone, Copy, Debug, PartialEq, Eq, Structural)]
pub enum ResponseFormat {
    Json,
    Text,
    Bytes,
    Response,
    Unit,
}

/// The decoding a `deserialized` tag selects.
pub open spec fn response_format_of(tag: Option<String>) -> ResponseFormat {
    match tag {
        None => ResponseFormat::Unit,
        Some(s) => if s@ == "Json"@ {
            ResponseFormat::Json
        } else if s@ == "Text"@ {
            ResponseFormat::Text
        } else if s@ == "Bytes"@ {
            ResponseFormat::Bytes
        } else if s@ == "Response"@ {
            ResponseFormat::Response
        } else {
            ResponseFormat::Unit
        },
    }
}

/// What a completed call yields: the payload under the selected decoding,
/// the whole response for a pass-through, or unit when the payload is
/// discarded.  Decoding the bytes any further is the caller's collaborator's
/// work.
#[derive(Debug)]
pub enum Outcome {
    Json(Vec<u8>),
    Text(Vec<u8>),
    Bytes(Vec<u8>),
    Response(u16, Vec<u8>),
    Unit,
}

/// The only runtime failures a generated call surfaces: a non-success
/// status, or a transport failure reported by the HTTP client collaborator.
#[derive(Debug)]
pub enum RequestError {
    Status(u16),
    Transport(String),
}

/// The response fragment of one method.
#[derive(Debug)]
pub struct ResponsePlan {
    pub deserialized: Option<String>,
}

impl ResponsePlan {
    /// Keeps the effective `deserialized` tag.
    pub fn new(deserialized: Option<String>) -> (r: ResponsePlan)
        ensures
            r.deserialized == deserialized,
    {
        ResponsePlan { deserialized }
    }

    /// The decoding the plan selects.
    pub fn format(&self) -> (r: ResponseFormat)
        ensures
            r == response_format_of(self.deserialized),
    {
        match &self.deserialized {
            None => ResponseFormat::Unit,
            Some(s) => {
                if eq_str(s.as_str(), "Json") {
                    ResponseFormat::Json
                } else if eq_str(s.as_str(), "Text") {
                    ResponseFormat::Text
                } else if eq_str(s.as_str(), "Bytes") {
                    ResponseFormat::Bytes
                } else if eq_str(s.as_str(), "Response") {
                    ResponseFormat::Response
                } else {
                    ResponseFormat::Unit
                }
            },
        }
    }

    /// Interprets a completed exchange: any status outside 2xx fails at
    /// once, before any decoding; a success yields the payload under the
    /// selected decoding.
    pub fn interpret(&self, status: u16, payload: Vec<u8>) -> (r: Result<Outcome, RequestError>)
        ensures
            !(200 <= status < 300) ==> r == Err::<Outcome, RequestError>(
                RequestError::Status(status),
            ),
            200 <= status < 300 ==> match response_format_of(self.deserialized) {
                ResponseFormat::Json => r == Ok::<Outcome, RequestError>(Outcome::Json(payload)),
                ResponseFormat::Text => r == Ok::<Outcome, RequestError>(Outcome::Text(payload)),
                ResponseFormat::Bytes => r == Ok::<Outcome, RequestError>(
                    Outcome::Bytes(payload),
                ),
                ResponseFormat::Response => r == Ok::<Outcome, RequestError>(
                    Outcome::Response(status, payload),
                ),
                ResponseFormat::Unit => r == Ok::<Outcome, RequestError>(Outcome::Unit),
            },
    {
        if !(200 <= status && status < 300) {
            return Err(RequestError::Status(status));
        }
        match self.format() {
            ResponseFormat::Json => Ok(Outcome::Json(payload)),
            ResponseFormat::Text => Ok(Outcome::Text(payload)),
            ResponseFormat::Bytes => Ok(Outcome::Bytes(payload)),
            ResponseFormat::Response => Ok(Outcome::Response(status, payload)),
            ResponseFormat::Unit => Ok(Outcome::Unit),
        }
    }
}

} // verus!
