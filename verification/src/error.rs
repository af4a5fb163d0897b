//! What can go wrong between a caller's arguments and the service's answer.

use vstd::prelude::*;

verus! {

/// The ways in which an operation of the client fails.
///
/// The `Empty*` variants reject an argument before anything is sent.
/// The others report a round trip that did not end as hoped.
#[derive(Clone, Debug, PartialEq, Eq)]
pub enum ClientError {
    /// The login is the empty string.
    EmptyLogin,
    /// The password is the empty string.
    EmptyPassword,
    /// The phone number is the empty string.
    EmptyPhoneNumber,
    /// The pool identifier is the empty string.
    EmptyPoolId,
    /// The verification code is the empty string.
    EmptyCode,
    /// The language is the empty string.
    EmptyLang,
    /// The call identifier is the empty string.
    EmptyId,
    /// The transport could not complete the round trip; holds its account
    /// of the failure.
    RequestFailed(String),
    /// The service answered with a status other than the one that means
    /// success for the operation; holds that status.
    UnexpectedStatusCode(u16),
    /// The body of the answer is not the JSON that was expected; holds a
    /// description of what is wrong with it.
    DeserializationFailed(String),
    /// The answer to the authentication names a token and gives none: the
    /// token is the empty string.
    JwtNotFound,
}

impl ClientError {
    /// Whether the error rejects an argument, so that nothing was sent.
    pub open spec fn rejects_input(self) -> bool {
        match self {
            ClientError::EmptyLogin
            | ClientError::EmptyPassword
            | ClientError::EmptyPhoneNumber
            | ClientError::EmptyPoolId
            | ClientError::EmptyCode
            | ClientError::EmptyLang
            | ClientError::EmptyId => true,
            _ => false,
        }
    }
}

} // verus!
