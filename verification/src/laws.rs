//! What holds of the client as a whole, proved from the contracts of its
//! operations.

use vstd::prelude::*;
use crate::client::{
    admitted, call_fields, full_uri, info_method, opening, pool_method, token_of, Client,
    ClientView,
};
use crate::error::ClientError;
use crate::exchange::settled;
use crate::json::json_document;
use crate::request::Reply;

verus! {

/// Every exchange that `client` opens carries `token` as its bearer.
pub open spec fn bears(client: ClientView, token: Seq<char>) -> bool {
    &&& forall|phone_number: Seq<char>, callback_url: Seq<char>|
        (#[trigger] client.call(phone_number, callback_url)) matches Ok(exchange)
            ==> exchange.request.bearer == Some(token)
    &&& forall|phone_number: Seq<char>, pool_id: Seq<char>, use_six_digits: bool|
        (#[trigger] client.call_via_last_digits(phone_number, pool_id, use_six_digits)) matches Ok(
            exchange,
        ) ==> exchange.request.bearer == Some(token)
    &&& forall|phone_number: Seq<char>, code: Seq<char>, lang: Seq<char>|
        (#[trigger] client.call_with_code(phone_number, code, lang)) matches Ok(exchange)
            ==> exchange.request.bearer == Some(token)
    &&& forall|id: Seq<char>|
        (#[trigger] client.info(id)) matches Ok(exchange) ==> exchange.request.bearer == Some(
            token,
        )
}

/// An empty argument is rejected, and nothing is there to send: each
/// operation looks at its arguments in their order and fails with the
/// error of the first that is empty, without opening an exchange.
pub proof fn empty_arguments_are_rejected(
    client: ClientView,
    login: Seq<char>,
    password: Seq<char>,
    phone_number: Seq<char>,
    callback_url: Seq<char>,
    pool_id: Seq<char>,
    use_six_digits: bool,
    code: Seq<char>,
    lang: Seq<char>,
    id: Seq<char>,
)
    ensures
        login.len() == 0 ==> opening(login, password) matches Err(ClientError::EmptyLogin),
        login.len() > 0 && password.len() == 0 ==> opening(login, password) matches Err(
            ClientError::EmptyPassword,
        ),
        phone_number.len() == 0 ==> {
            &&& client.call(phone_number, callback_url) matches Err(
                ClientError::EmptyPhoneNumber,
            )
            &&& client.call_via_last_digits(phone_number, pool_id, use_six_digits) matches Err(
                ClientError::EmptyPhoneNumber,
            )
            &&& client.call_with_code(phone_number, code, lang) matches Err(
                ClientError::EmptyPhoneNumber,
            )
        },
        phone_number.len() > 0 && pool_id.len() == 0 ==> client.call_via_last_digits(
            phone_number,
            pool_id,
            use_six_digits,
        ) matches Err(ClientError::EmptyPoolId),
        phone_number.len() > 0 && code.len() == 0 ==> client.call_with_code(
            phone_number,
            code,
            lang,
        ) matches Err(ClientError::EmptyCode),
        phone_number.len() > 0 && code.len() > 0 && lang.len() == 0 ==> client.call_with_code(
            phone_number,
            code,
            lang,
        ) matches Err(ClientError::EmptyLang),
        id.len() == 0 ==> client.info(id) matches Err(ClientError::EmptyId),
        opening(login, password) matches Err(error) ==> error.rejects_input(),
        client.call(phone_number, callback_url) matches Err(error) ==> error.rejects_input(),
        client.call_via_last_digits(phone_number, pool_id, use_six_digits) matches Err(error)
            ==> error.rejects_input(),
        client.call_with_code(phone_number, code, lang) matches Err(error)
            ==> error.rejects_input(),
        client.info(id) matches Err(error) ==> error.rejects_input(),
{
}

/// Authentication. The handshake of any credentials is answered by 200
/// and by nothing else: a reply with another status fails with that
/// status. A reply with 200 whose body is a document with a string member
/// `jwt` that is not empty gives a client that holds this token and the
/// handshake's address and version, and every exchange that the client
/// opens carries the token. Where the member is empty, no token was
/// found. A reply with 200 whose body is no document, or one without such
/// a member, fails with a decoding error.
pub proof fn authentication_gives_the_token(
    login: Seq<char>,
    password: Seq<char>,
    reply: Reply,
    result: Result<Client, ClientError>,
)
    requires
        opening(login, password) is Ok,
        admitted(opening(login, password)->Ok_0, Ok(reply), result),
    ensures
        reply.status != 200 ==> (result matches Err(ClientError::UnexpectedStatusCode(status))
            && status == reply.status),
        reply.status == 200 ==> match json_document(reply.body@) {
            Ok(document) => match token_of(document) {
                Some(token) => if token.len() > 0 {
                    result matches Ok(client) && bears(client@, token) && client@.holds_token()
                        && client@.jwt == token
                        && client@.base_uri == opening(login, password)->Ok_0.base_uri
                        && client@.version == opening(login, password)->Ok_0.version
                } else {
                    result matches Err(ClientError::JwtNotFound)
                },
                None => result matches Err(ClientError::DeserializationFailed(_)),
            },
            Err(_) => result matches Err(ClientError::DeserializationFailed(_)),
        },
{
}

/// A client that holds a token sends it with every exchange, and goes on
/// holding it whatever version it is made to speak.
pub proof fn the_token_goes_with_every_exchange(client: ClientView)
    requires
        client.holds_token(),
    ensures
        bears(client, client.jwt),
        forall|version: Seq<char>| (#[trigger] client.with_version(version)).holds_token(),
{
}

/// The callback address is a member of a call's body exactly where one is
/// given: without it the body holds the phone number alone, with it the
/// phone number and then the address.
pub proof fn callback_only_where_given(phone_number: Seq<char>, callback_url: Seq<char>)
    ensures
        callback_url.len() == 0 ==> call_fields(phone_number, callback_url) == seq![
            ("phone_number"@, phone_number),
        ],
        callback_url.len() > 0 ==> call_fields(phone_number, callback_url) == seq![
            ("phone_number"@, phone_number),
            ("callback_url"@, callback_url),
        ],
        callback_url.len() == 0 ==> forall|i: int|
            0 <= i < call_fields(phone_number, callback_url).len() ==> (#[trigger] call_fields(
                phone_number,
                callback_url,
            )[i]).0 != "callback_url"@,
{
    reveal_strlit("phone_number");
    reveal_strlit("callback_url");
    assert("phone_number"@[0] != "callback_url"@[0]);
}

/// The start of a call is answered by 201 and a query by 200. Under 201
/// a reply with that status gives the document in its body as it was
/// read, and a reply with 200 fails with that status; under 200 a reply
/// with 200 gives the document.
pub proof fn created_answers_calls(
    client: ClientView,
    phone_number: Seq<char>,
    callback_url: Seq<char>,
    pool_id: Seq<char>,
    use_six_digits: bool,
    code: Seq<char>,
    lang: Seq<char>,
    id: Seq<char>,
    reply: Reply,
    result: Result<serde_json::Value, ClientError>,
)
    ensures
        client.call(phone_number, callback_url) matches Ok(exchange) ==> exchange.success == 201,
        client.call_via_last_digits(phone_number, pool_id, use_six_digits) matches Ok(exchange)
            ==> exchange.success == 201,
        client.call_with_code(phone_number, code, lang) matches Ok(exchange) ==> exchange.success
            == 201,
        client.info(id) matches Ok(exchange) ==> exchange.success == 200,
        settled(201, Ok(reply), result) && reply.status == 201 ==> match json_document(
            reply.body@,
        ) {
            Ok(document) => result matches Ok(value) && value == document,
            Err(_) => result matches Err(ClientError::DeserializationFailed(_)),
        },
        settled(201, Ok(reply), result) && reply.status == 200 ==> (result matches Err(
            ClientError::UnexpectedStatusCode(status),
        ) && status == 200),
        settled(200, Ok(reply), result) && reply.status == 200 ==> match json_document(
            reply.body@,
        ) {
            Ok(document) => result matches Ok(value) && value == document,
            Err(_) => result matches Err(ClientError::DeserializationFailed(_)),
        },
{
}

/// A new version takes effect on every exchange opened after it: the
/// address of each is built from the client's address, the new version
/// and the method. The address of the service and the token are as they
/// were.
pub proof fn version_takes_effect(
    client: ClientView,
    version: Seq<char>,
    phone_number: Seq<char>,
    callback_url: Seq<char>,
    pool_id: Seq<char>,
    use_six_digits: bool,
    code: Seq<char>,
    lang: Seq<char>,
    id: Seq<char>,
)
    ensures
        client.with_version(version).version == version,
        client.with_version(version).base_uri == client.base_uri,
        client.with_version(version).jwt == client.jwt,
        client.with_version(version).call(phone_number, callback_url) matches Ok(exchange) ==> {
            &&& exchange.request.uri == full_uri(client.base_uri, version, "call"@)
            &&& exchange.request.bearer == Some(client.jwt)
        },
        client.with_version(version).call_via_last_digits(
            phone_number,
            pool_id,
            use_six_digits,
        ) matches Ok(exchange) ==> {
            &&& exchange.request.uri == full_uri(
                client.base_uri,
                version,
                pool_method(pool_id, use_six_digits),
            )
            &&& exchange.request.bearer == Some(client.jwt)
        },
        client.with_version(version).call_with_code(phone_number, code, lang) matches Ok(
            exchange,
        ) ==> {
            &&& exchange.request.uri == full_uri(client.base_uri, version, "code/call"@)
            &&& exchange.request.bearer == Some(client.jwt)
        },
        client.with_version(version).info(id) matches Ok(exchange) ==> {
            &&& exchange.request.uri == full_uri(client.base_uri, version, info_method(id))
            &&& exchange.request.bearer == Some(client.jwt)
        },
{
}

} // verus!
