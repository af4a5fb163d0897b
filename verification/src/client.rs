//! The client: authentication first, then calls and queries under the
//! token that authentication gave.

use vstd::prelude::*;
use crate::error::ClientError;
use crate::exchange::{describes, Exchange, ExchangeView};
use crate::json::{
    encode, json_document, json_strings, object_text, string_member, views, Field,
};
use crate::request::{Method, Reply, Request, RequestView, CREATED, OK};

verus! {

/// Where the service lives.
pub open spec fn service_uri() -> Seq<char> {
    "https://api-call2fa.rikkicom.io"@
}

/// The version of the service's interface that a new client speaks.
pub open spec fn first_version() -> Seq<char> {
    "v1"@
}

/// The address of `method` under `base_uri` and `version`: the three
/// joined by slashes, with a slash at the end.
pub open spec fn full_uri(base_uri: Seq<char>, version: Seq<char>, method: Seq<char>) -> Seq<char> {
    base_uri + "/"@ + version + "/"@ + method + "/"@
}

/// The method path of a call through the pool `pool_id`.
pub open spec fn pool_method(pool_id: Seq<char>, use_six_digits: bool) -> Seq<char> {
    if use_six_digits {
        "pool/"@ + pool_id + "/call/six-digits"@
    } else {
        "pool/"@ + pool_id + "/call"@
    }
}

/// The method path of a query about the call `id`.
pub open spec fn info_method(id: Seq<char>) -> Seq<char> {
    "call/"@ + id
}

/// The body of an authentication.
pub open spec fn auth_fields(login: Seq<char>, password: Seq<char>) -> Seq<(Seq<char>, Seq<char>)> {
    seq![("login"@, login), ("password"@, password)]
}

/// The body of a plain call: the callback address is a member only where
/// there is one.
pub open spec fn call_fields(phone_number: Seq<char>, callback_url: Seq<char>) -> Seq<
    (Seq<char>, Seq<char>),
> {
    if callback_url.len() == 0 {
        seq![("phone_number"@, phone_number)]
    } else {
        seq![("phone_number"@, phone_number), ("callback_url"@, callback_url)]
    }
}

/// The body of a call through a pool.
pub open spec fn pool_fields(phone_number: Seq<char>) -> Seq<(Seq<char>, Seq<char>)> {
    seq![("phone_number"@, phone_number)]
}

/// The body of a call that speaks a code.
pub open spec fn code_fields(phone_number: Seq<char>, code: Seq<char>, lang: Seq<char>) -> Seq<
    (Seq<char>, Seq<char>),
> {
    seq![("phone_number"@, phone_number), ("code"@, code), ("lang"@, lang)]
}

/// An authenticated client as a mathematical value.
pub struct ClientView {
    pub base_uri: Seq<char>,
    pub version: Seq<char>,
    pub jwt: Seq<char>,
}

/// A client before authentication, as a mathematical value.
pub struct HandshakeView {
    pub base_uri: Seq<char>,
    pub version: Seq<char>,
    pub exchange: ExchangeView,
}

impl ClientView {
    /// Whether the client holds a token: what every client does once it
    /// has come out of its handshake.
    pub open spec fn holds_token(self) -> bool {
        self.jwt.len() > 0
    }

    /// The address of `method` for this client.
    pub open spec fn uri(self, method: Seq<char>) -> Seq<char> {
        full_uri(self.base_uri, self.version, method)
    }

    /// The exchange that starts a call: a POST of `fields` to `method`
    /// under the client's token, answered by 201.
    pub open spec fn post(
        self,
        method: Seq<char>,
        fields: Seq<(Seq<char>, Seq<char>)>,
    ) -> ExchangeView {
        ExchangeView {
            request: RequestView {
                method: Method::Post,
                uri: self.uri(method),
                bearer: Some(self.jwt),
                body: Some(object_text(fields)),
            },
            success: CREATED,
        }
    }

    /// The exchange that asks a question: a GET of `method` under the
    /// client's token, answered by 200.
    pub open spec fn get(self, method: Seq<char>) -> ExchangeView {
        ExchangeView {
            request: RequestView {
                method: Method::Get,
                uri: self.uri(method),
                bearer: Some(self.jwt),
                body: None,
            },
            success: OK,
        }
    }

    /// What [`Client::call`] returns.
    pub open spec fn call(self, phone_number: Seq<char>, callback_url: Seq<char>) -> Result<
        ExchangeView,
        ClientError,
    > {
        if phone_number.len() == 0 {
            Err(ClientError::EmptyPhoneNumber)
        } else {
            Ok(self.post("call"@, call_fields(phone_number, callback_url)))
        }
    }

    /// What [`Client::call_via_last_digits`] returns.
    pub open spec fn call_via_last_digits(
        self,
        phone_number: Seq<char>,
        pool_id: Seq<char>,
        use_six_digits: bool,
    ) -> Result<ExchangeView, ClientError> {
        if phone_number.len() == 0 {
            Err(ClientError::EmptyPhoneNumber)
        } else if pool_id.len() == 0 {
            Err(ClientError::EmptyPoolId)
        } else {
            Ok(self.post(pool_method(pool_id, use_six_digits), pool_fields(phone_number)))
        }
    }

    /// What [`Client::call_with_code`] returns.
    pub open spec fn call_with_code(
        self,
        phone_number: Seq<char>,
        code: Seq<char>,
        lang: Seq<char>,
    ) -> Result<ExchangeView, ClientError> {
        if phone_number.len() == 0 {
            Err(ClientError::EmptyPhoneNumber)
        } else if code.len() == 0 {
            Err(ClientError::EmptyCode)
        } else if lang.len() == 0 {
            Err(ClientError::EmptyLang)
        } else {
            Ok(self.post("code/call"@, code_fields(phone_number, code, lang)))
        }
    }

    /// What [`Client::info`] returns.
    pub open spec fn info(self, id: Seq<char>) -> Result<ExchangeView, ClientError> {
        if id.len() == 0 {
            Err(ClientError::EmptyId)
        } else {
            Ok(self.get(info_method(id)))
        }
    }

    /// The client after [`Client::set_version`].
    pub open spec fn with_version(self, version: Seq<char>) -> ClientView {
        ClientView { version, ..self }
    }
}

/// What [`Client::new`] returns: the credentials are looked at in turn,
/// and where both are there, the authentication is a POST of them to
/// `auth` under no token, answered by 200.
pub open spec fn opening(login: Seq<char>, password: Seq<char>) -> Result<
    HandshakeView,
    ClientError,
> {
    if login.len() == 0 {
        Err(ClientError::EmptyLogin)
    } else if password.len() == 0 {
        Err(ClientError::EmptyPassword)
    } else {
        Ok(
            HandshakeView {
                base_uri: service_uri(),
                version: first_version(),
                exchange: ExchangeView {
                    request: RequestView {
                        method: Method::Post,
                        uri: full_uri(service_uri(), first_version(), "auth"@),
                        bearer: None,
                        body: Some(object_text(auth_fields(login, password))),
                    },
                    success: OK,
                },
            },
        )
    }
}

/// The token in the answer to an authentication: the string member `jwt`
/// of the document, where it has one.
pub open spec fn token_of(document: serde_json::Value) -> Option<Seq<char>> {
    if json_strings(document).dom().contains("jwt"@) {
        Some(json_strings(document)["jwt"@])
    } else {
        None
    }
}

/// What a decoding error says where the answer to the authentication
/// holds no token.
pub open spec fn missing_token() -> Seq<char> {
    "missing field `jwt`"@
}

/// What a token, or the want of one, makes of a handshake. A token that
/// is not empty gives the client that holds it together with the
/// handshake's address and version. An empty one is no token at all, and
/// an answer without the member is a decoding error that says what is
/// missing.
pub open spec fn authenticated(
    handshake: HandshakeView,
    token: Option<Seq<char>>,
    result: Result<Client, ClientError>,
) -> bool {
    match token {
        Some(token) => if token.len() > 0 {
            result matches Ok(client) && client@ == (ClientView {
                base_uri: handshake.base_uri,
                version: handshake.version,
                jwt: token,
            })
        } else {
            result matches Err(ClientError::JwtNotFound)
        },
        None => result matches Err(ClientError::DeserializationFailed(description))
            && description@ == missing_token(),
    }
}

/// What the outcome of the authentication's round trip makes of a
/// handshake.
pub open spec fn admitted(
    handshake: HandshakeView,
    outcome: Result<Reply, String>,
    result: Result<Client, ClientError>,
) -> bool {
    match outcome {
        Err(account) => result matches Err(ClientError::RequestFailed(text)) && text@ == account@,
        Ok(reply) => if reply.status != handshake.exchange.success {
            result matches Err(ClientError::UnexpectedStatusCode(status)) && status == reply.status
        } else {
            match json_document(reply.body@) {
                Ok(document) => authenticated(handshake, token_of(document), result),
                Err(error) => result matches Err(ClientError::DeserializationFailed(description))
                    && describes(error, description),
            }
        },
    }
}

/// Whether `result` is what `expected` says: the same error, or an
/// exchange with the expected view.
pub open spec fn agrees(
    result: Result<Exchange, ClientError>,
    expected: Result<ExchangeView, ClientError>,
) -> bool {
    match result {
        Ok(exchange) => expected == Ok::<ExchangeView, ClientError>(exchange@),
        Err(error) => expected == Err::<ExchangeView, ClientError>(error),
    }
}

/// A client that has authenticated: it holds the service's address, the
/// version it speaks, and the token that the service gave it. The token
/// is never empty.
#[derive(Debug)]
pub struct Client {
    base_uri: String,
    version: String,
    jwt: String,
}

/// A client on its way to authentication: the exchange that authenticates
/// it, and what the client will hold besides the token.
#[derive(Debug)]
pub struct Handshake {
    base_uri: String,
    version: String,
    exchange: Exchange,
}

impl View for Client {
    type V = ClientView;

    closed spec fn view(&self) -> ClientView {
        ClientView { base_uri: self.base_uri@, version: self.version@, jwt: self.jwt@ }
    }
}

impl Client {
    /// A client holds a token from the moment it exists.
    #[verifier::type_invariant]
    spec fn authentic(self) -> bool {
        self@.holds_token()
    }
}

impl View for Handshake {
    type V = HandshakeView;

    closed spec fn view(&self) -> HandshakeView {
        HandshakeView {
            base_uri: self.base_uri@,
            version: self.version@,
            exchange: self.exchange@,
        }
    }
}

/// Joins an address, a version and a method path into the address of the
/// method.
fn join_uri(base_uri: &str, version: &str, method: &str) -> (uri: String)
    ensures
        uri@ == full_uri(base_uri@, version@, method@),
{
    let mut uri = String::from_str(base_uri);
    uri.append("/");
    uri.append(version);
    uri.append("/");
    uri.append(method);
    uri.append("/");
    uri
}

/// A field of a request body.
fn field(name: &str, value: &str) -> (field: Field)
    ensures
        field@ == (name@, value@),
{
    Field { name: String::from_str(name), value: String::from_str(value) }
}

impl Handshake {
    /// The exchange that authenticates.
    pub fn exchange(&self) -> (exchange: &Exchange)
        ensures
            exchange@ == self@.exchange,
    {
        &self.exchange
    }

    /// Makes the client out of the token that the service's answer held,
    /// or reports that it held none.
    pub fn authenticate(self, token: Option<String>) -> (result: Result<Client, ClientError>)
        ensures
            match token {
                Some(token) => authenticated(self@, Some(token@), result),
                None => authenticated(self@, None, result),
            },
    {
        match token {
            Some(jwt) => {
                if jwt.as_str().is_empty() {
                    Err(ClientError::JwtNotFound)
                } else {
                    Ok(Client { base_uri: self.base_uri, version: self.version, jwt })
                }
            },
            None => Err(
                ClientError::DeserializationFailed(String::from_str("missing field `jwt`")),
            ),
        }
    }

    /// Reads the outcome of the authentication's round trip.
    pub fn finish(self, outcome: Result<Reply, String>) -> (result: Result<Client, ClientError>)
        ensures
            admitted(self@, outcome, result),
    {
        match self.exchange.finish(outcome) {
            Ok(document) => {
                let token = string_member(&document, "jwt");
                self.authenticate(token)
            },
            Err(error) => Err(error),
        }
    }
}

impl Client {
    /// Looks at the credentials and, where both are there, opens the
    /// handshake that authenticates with them.
    #[allow(clippy::new_ret_no_self)]
    pub fn new(login: &str, password: &str) -> (result: Result<Handshake, ClientError>)
        ensures
            match result {
                Ok(handshake) => opening(login@, password@) == Ok::<HandshakeView, ClientError>(
                    handshake@,
                ),
                Err(error) => opening(login@, password@) == Err::<HandshakeView, ClientError>(
                    error,
                ),
            },
    {
        if login.is_empty() {
            return Err(ClientError::EmptyLogin);
        }
        if password.is_empty() {
            return Err(ClientError::EmptyPassword);
        }
        let base_uri = String::from_str("https://api-call2fa.rikkicom.io");
        let version = String::from_str("v1");
        let mut fields: Vec<Field> = Vec::new();
        fields.push(field("login", login));
        fields.push(field("password", password));
        proof {
            assert(views(fields@) =~= auth_fields(login@, password@));
        }
        let request = Request {
            method: Method::Post,
            uri: join_uri(base_uri.as_str(), version.as_str(), "auth"),
            bearer: None,
            body: Some(encode(&fields)),
        };
        Ok(Handshake { base_uri, version, exchange: Exchange { request, success: OK } })
    }

    /// The address of `method` for this client.
    fn make_full_uri(&self, method: &str) -> (uri: String)
        ensures
            uri@ == self@.uri(method@),
    {
        join_uri(self.base_uri.as_str(), self.version.as_str(), method)
    }

    /// The exchange that starts a call.
    fn post(&self, method: &str, fields: &Vec<Field>) -> (exchange: Exchange)
        ensures
            exchange@ == self@.post(method@, views(fields@)),
    {
        let request = Request {
            method: Method::Post,
            uri: self.make_full_uri(method),
            bearer: Some(self.jwt.clone()),
            body: Some(encode(fields)),
        };
        Exchange { request, success: CREATED }
    }

    /// Starts a call to `phone_number`. The service reports on the call
    /// to `callback_url`, where one is given.
    pub fn call(&self, phone_number: &str, callback_url: &str) -> (result: Result<
        Exchange,
        ClientError,
    >)
        ensures
            self@.holds_token(),
            agrees(result, self@.call(phone_number@, callback_url@)),
    {
        proof {
            use_type_invariant(self);
        }
        if phone_number.is_empty() {
            return Err(ClientError::EmptyPhoneNumber);
        }
        let mut fields: Vec<Field> = Vec::new();
        fields.push(field("phone_number", phone_number));
        if !callback_url.is_empty() {
            fields.push(field("callback_url", callback_url));
        }
        proof {
            assert(views(fields@) =~= call_fields(phone_number@, callback_url@));
        }
        Ok(self.post("call", &fields))
    }

    /// Starts a call to `phone_number` from a number of the pool
    /// `pool_id`, whose last digits are the code: six of them where
    /// `use_six_digits` is set.
    pub fn call_via_last_digits(
        &self,
        phone_number: &str,
        pool_id: &str,
        use_six_digits: bool,
    ) -> (result: Result<Exchange, ClientError>)
        ensures
            self@.holds_token(),
            agrees(result, self@.call_via_last_digits(phone_number@, pool_id@, use_six_digits)),
    {
        proof {
            use_type_invariant(self);
        }
        if phone_number.is_empty() {
            return Err(ClientError::EmptyPhoneNumber);
        }
        if pool_id.is_empty() {
            return Err(ClientError::EmptyPoolId);
        }
        let mut method = String::from_str("pool/");
        method.append(pool_id);
        if use_six_digits {
            method.append("/call/six-digits");
        } else {
            method.append("/call");
        }
        let mut fields: Vec<Field> = Vec::new();
        fields.push(field("phone_number", phone_number));
        proof {
            assert(views(fields@) =~= pool_fields(phone_number@));
        }
        Ok(self.post(method.as_str(), &fields))
    }

    /// Starts a call to `phone_number` that speaks `code` in the language
    /// `lang`.
    pub fn call_with_code(&self, phone_number: &str, code: &str, lang: &str) -> (result: Result<
        Exchange,
        ClientError,
    >)
        ensures
            self@.holds_token(),
            agrees(result, self@.call_with_code(phone_number@, code@, lang@)),
    {
        proof {
            use_type_invariant(self);
        }
        if phone_number.is_empty() {
            return Err(ClientError::EmptyPhoneNumber);
        }
        if code.is_empty() {
            return Err(ClientError::EmptyCode);
        }
        if lang.is_empty() {
            return Err(ClientError::EmptyLang);
        }
        let mut fields: Vec<Field> = Vec::new();
        fields.push(field("phone_number", phone_number));
        fields.push(field("code", code));
        fields.push(field("lang", lang));
        proof {
            assert(views(fields@) =~= code_fields(phone_number@, code@, lang@));
        }
        Ok(self.post("code/call", &fields))
    }

    /// Asks about the call `id`.
    pub fn info(&self, id: &str) -> (result: Result<Exchange, ClientError>)
        ensures
            self@.holds_token(),
            agrees(result, self@.info(id@)),
    {
        proof {
            use_type_invariant(self);
        }
        if id.is_empty() {
            return Err(ClientError::EmptyId);
        }
        let mut method = String::from_str("call/");
        method.append(id);
        let request = Request {
            method: Method::Get,
            uri: self.make_full_uri(method.as_str()),
            bearer: Some(self.jwt.clone()),
            body: None,
        };
        Ok(Exchange { request, success: OK })
    }

    /// The version of the service's interface that the client speaks.
    pub fn version(&self) -> (version: &str)
        ensures
            version@ == self@.version,
    {
        self.version.as_str()
    }

    /// Makes the client speak another version from now on. Exchanges
    /// that were made before are as they were.
    pub fn set_version(&mut self, version: String)
        ensures
            final(self)@ == old(self)@.with_version(version@),
    {
        proof {
            use_type_invariant(&*self);
        }
        self.version = version;
    }
}

} // verus!
