//! One round trip with the service, seen from both ends.

use vstd::prelude::*;
use crate::error::ClientError;
use crate::json::{from_bytes, json_document};
use crate::request::{Reply, Request, RequestView};

verus! {

/// A request on its way, and the status that answers it with success.
///
/// The transport sends `request`, and [`Exchange::finish`] reads what came
/// back.
#[derive(Clone, Debug, PartialEq, Eq)]
pub struct Exchange {
    pub request: Request,
    pub success: u16,
}

/// An exchange as a mathematical value.
pub struct ExchangeView {
    pub request: RequestView,
    pub success: u16,
}

impl View for Exchange {
    type V = ExchangeView;

    open spec fn view(&self) -> ExchangeView {
        ExchangeView { request: self.request@, success: self.success }
    }
}

/// Whether `description` is the account that `error` gives of itself when
/// it is displayed.
pub open spec fn describes(error: serde_json::Error, description: String) -> bool {
    vstd::string::to_string_from_display_ensures::<serde_json::Error>(&error, description)
}

/// What the parser's result on the body of an accepted reply means: the
/// document itself, or a decoding error that carries the parser's account
/// of what is wrong.
pub open spec fn delivered(
    parsed: Result<serde_json::Value, serde_json::Error>,
    result: Result<serde_json::Value, ClientError>,
) -> bool {
    match parsed {
        Ok(document) => result matches Ok(value) && value == document,
        Err(error) => result matches Err(ClientError::DeserializationFailed(description))
            && describes(error, description),
    }
}

/// What the outcome of a round trip means for an exchange that `success`
/// answers: a transport failure is passed on with its account, any other
/// status is reported with its code, and the body of a reply with the
/// right status is the result, provided that it is JSON.
pub open spec fn settled(
    success: u16,
    outcome: Result<Reply, String>,
    result: Result<serde_json::Value, ClientError>,
) -> bool {
    match outcome {
        Err(account) => result matches Err(ClientError::RequestFailed(text)) && text@ == account@,
        Ok(reply) => if reply.status != success {
            result matches Err(ClientError::UnexpectedStatusCode(status)) && status == reply.status
        } else {
            delivered(json_document(reply.body@), result)
        },
    }
}

impl Exchange {
    /// Whether `status` answers this exchange with success. A transport
    /// need not read the body of a reply that is not accepted.
    pub fn accepts(&self, status: u16) -> (yes: bool)
        ensures
            yes == (status == self.success),
    {
        status == self.success
    }

    /// Turns what the parser made of an accepted body into the result of
    /// the operation.
    pub fn deliver(parsed: Result<serde_json::Value, serde_json::Error>) -> (result: Result<
        serde_json::Value,
        ClientError,
    >)
        ensures
            delivered(parsed, result),
    {
        match parsed {
            Ok(document) => Ok(document),
            Err(error) => Err(ClientError::DeserializationFailed(error.to_string())),
        }
    }

    /// Reads the outcome of the round trip.
    pub fn finish(&self, outcome: Result<Reply, String>) -> (result: Result<
        serde_json::Value,
        ClientError,
    >)
        ensures
            settled(self.success, outcome, result),
    {
        match outcome {
            Err(account) => Err(ClientError::RequestFailed(account)),
            Ok(reply) => {
                if reply.status != self.success {
                    Err(ClientError::UnexpectedStatusCode(reply.status))
                } else {
                    Exchange::deliver(from_bytes(reply.body.as_slice()))
                }
            },
        }
    }
}

} // verus!
