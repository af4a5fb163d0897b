use call2fa::json::{encode, frame, quote, Field};
use call2fa::{Client, ClientError, Exchange, Reply};

fn client() -> Client {
    Client::new("user", "secret").unwrap().authenticate(Some(String::from("X"))).unwrap()
}

fn answer(status: u16, body: &str) -> Result<Reply, String> {
    Ok(Reply { status, body: body.as_bytes().to_vec() })
}

fn document(text: &str) -> serde_json::Value {
    serde_json::from_str(text).unwrap()
}

fn field(name: &str, value: &str) -> Field {
    Field { name: String::from(name), value: String::from(value) }
}

#[test]
fn created_gives_the_body_of_a_call_as_it_was_read() {
    let body = r#"{"call_id": "95831458", "nested": {"a": [1, 2.5, null, true]}}"#;
    let client = client();
    let exchanges = [
        client.call("+123", "").unwrap(),
        client.call_via_last_digits("+123", "pool1", false).unwrap(),
        client.call_with_code("+123", "4321", "en").unwrap(),
    ];
    for exchange in exchanges {
        assert_eq!(exchange.finish(answer(201, body)), Ok(document(body)));
    }
}

#[test]
fn ok_is_no_success_for_a_call() {
    let client = client();
    let exchanges = [
        client.call("+123", "https://x").unwrap(),
        client.call_via_last_digits("+123", "pool1", true).unwrap(),
        client.call_with_code("+123", "4321", "en").unwrap(),
    ];
    for exchange in exchanges {
        assert!(!exchange.accepts(200));
        assert_eq!(
            exchange.finish(answer(200, r#"{"call_id": "95831458"}"#)),
            Err(ClientError::UnexpectedStatusCode(200))
        );
    }
}

#[test]
fn ok_gives_the_body_of_a_query() {
    let exchange = client().info("95831458").unwrap();
    assert!(exchange.accepts(200));
    assert_eq!(
        exchange.finish(answer(200, r#"{"status": "answered"}"#)),
        Ok(document(r#"{"status": "answered"}"#))
    );
}

#[test]
fn created_is_no_success_for_a_query() {
    let exchange = client().info("95831458").unwrap();
    assert!(!exchange.accepts(201));
    assert_eq!(
        exchange.finish(answer(201, r#"{"status": "answered"}"#)),
        Err(ClientError::UnexpectedStatusCode(201))
    );
}

#[test]
fn the_body_may_be_any_json() {
    let exchange = client().call("+123", "").unwrap();
    for body in ["null", "17", "\"text\"", "[1, 2, 3]", "  {}  "] {
        assert_eq!(exchange.finish(answer(201, body)), Ok(document(body)));
    }
}

#[test]
fn an_unexpected_status_is_reported_whatever_the_body() {
    let exchange = client().call("+123", "").unwrap();
    for status in [200u16, 202, 400, 401, 404, 500] {
        assert_eq!(
            exchange.finish(answer(status, "no json at all")),
            Err(ClientError::UnexpectedStatusCode(status))
        );
    }
}

#[test]
fn a_body_that_is_no_json_is_a_decoding_error() {
    let exchange = client().call("+123", "").unwrap();
    for body in ["", "{", "{\"call_id\": }", "{} trailing", "\u{0}"] {
        let result = exchange.finish(answer(201, body));
        assert!(matches!(result, Err(ClientError::DeserializationFailed(_))));
    }
}

#[test]
fn a_body_that_is_no_utf8_is_a_decoding_error() {
    let exchange = client().info("1").unwrap();
    let result = exchange.finish(Ok(Reply { status: 200, body: vec![b'"', 0xff, b'"'] }));
    assert!(matches!(result, Err(ClientError::DeserializationFailed(_))));
}

#[test]
fn a_failed_round_trip_is_passed_on_with_its_account() {
    let exchange = client().call("+123", "").unwrap();
    assert_eq!(
        exchange.finish(Err(String::from("dns error"))),
        Err(ClientError::RequestFailed(String::from("dns error")))
    );
}

#[test]
fn deliver_hands_the_document_through() {
    let parsed = serde_json::from_str::<serde_json::Value>(r#"{"call_id": "1"}"#);
    assert_eq!(Exchange::deliver(parsed), Ok(document(r#"{"call_id": "1"}"#)));
}

#[test]
fn deliver_describes_what_the_parser_refused() {
    let parsed = serde_json::from_str::<serde_json::Value>("{");
    let description = parsed.as_ref().err().map(|error| error.to_string()).unwrap();
    assert_eq!(
        Exchange::deliver(parsed),
        Err(ClientError::DeserializationFailed(description))
    );
}

#[test]
fn quote_writes_a_json_string() {
    assert_eq!(quote("+123"), "\"+123\"");
    assert_eq!(quote(""), "\"\"");
    assert_eq!(quote("a\"b\\c"), "\"a\\\"b\\\\c\"");
    assert_eq!(quote("line\nbreak\ttab\u{1}"), "\"line\\nbreak\\ttab\\u0001\"");
    assert_eq!(quote("жовтень"), "\"жовтень\"");
}

#[test]
fn frame_joins_members_that_are_json_already() {
    assert_eq!(frame(&vec![]), "{}");
    assert_eq!(frame(&vec![field("\"a\"", "1")]), "{\"a\":1}");
    assert_eq!(
        frame(&vec![field("\"a\"", "1"), field("\"b\"", "[]"), field("\"c\"", "null")]),
        "{\"a\":1,\"b\":[],\"c\":null}"
    );
}

#[test]
fn encode_quotes_and_frames() {
    assert_eq!(encode(&vec![]), "{}");
    assert_eq!(encode(&vec![field("a", "1")]), r#"{"a":"1"}"#);
    assert_eq!(
        encode(&vec![field("phone_number", "+123"), field("code", "4321"), field("lang", "en")]),
        r#"{"phone_number":"+123","code":"4321","lang":"en"}"#
    );
}

#[test]
fn encode_writes_what_the_parser_reads_back() {
    let fields = vec![field("na\"me", "va\\lue\r\n"), field("", "\u{8}\u{c}\u{1f}")];
    let text = encode(&fields);
    let parsed = document(&text);
    assert_eq!(parsed.get("na\"me").and_then(|v| v.as_str()), Some("va\\lue\r\n"));
    assert_eq!(parsed.get("").and_then(|v| v.as_str()), Some("\u{8}\u{c}\u{1f}"));
}
