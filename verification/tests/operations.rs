use call2fa::{Client, ClientError, Method};

fn client() -> Client {
    Client::new("user", "secret").unwrap().authenticate(Some(String::from("X"))).unwrap()
}

fn members(body: &Option<String>) -> serde_json::Map<String, serde_json::Value> {
    let text = body.as_deref().unwrap();
    match serde_json::from_str::<serde_json::Value>(text).unwrap() {
        serde_json::Value::Object(map) => map,
        other => panic!("the body is no object: {other}"),
    }
}

#[test]
fn call_rejects_an_empty_phone_number() {
    assert_eq!(client().call("", "https://x").err(), Some(ClientError::EmptyPhoneNumber));
    assert_eq!(client().call("", "").err(), Some(ClientError::EmptyPhoneNumber));
}

#[test]
fn call_without_a_callback_sends_the_phone_number_alone() {
    let exchange = client().call("+123", "").unwrap();
    assert_eq!(exchange.request.body.as_deref(), Some(r#"{"phone_number":"+123"}"#));
    let members = members(&exchange.request.body);
    assert_eq!(members.len(), 1);
    assert!(!members.contains_key("callback_url"));
    assert_eq!(members.get("phone_number").and_then(|v| v.as_str()), Some("+123"));
}

#[test]
fn call_with_a_callback_sends_both() {
    let exchange = client().call("+123", "https://x").unwrap();
    assert_eq!(
        exchange.request.body.as_deref(),
        Some(r#"{"phone_number":"+123","callback_url":"https://x"}"#)
    );
    let members = members(&exchange.request.body);
    assert_eq!(members.len(), 2);
    assert_eq!(members.get("phone_number").and_then(|v| v.as_str()), Some("+123"));
    assert_eq!(members.get("callback_url").and_then(|v| v.as_str()), Some("https://x"));
}

#[test]
fn call_is_a_post_answered_by_created() {
    let exchange = client().call("+380631010121", "https://httpbin.org/post").unwrap();
    assert_eq!(exchange.request.method, Method::Post);
    assert_eq!(exchange.request.uri, "https://api-call2fa.rikkicom.io/v1/call/");
    assert_eq!(exchange.request.bearer, Some(String::from("X")));
    assert_eq!(exchange.success, 201);
}

#[test]
fn call_via_last_digits_targets_the_pool() {
    let six = client().call_via_last_digits("+123", "pool1", true).unwrap();
    assert_eq!(
        six.request.uri,
        "https://api-call2fa.rikkicom.io/v1/pool/pool1/call/six-digits/"
    );
    let four = client().call_via_last_digits("+123", "pool1", false).unwrap();
    assert_eq!(four.request.uri, "https://api-call2fa.rikkicom.io/v1/pool/pool1/call/");
    for exchange in [six, four] {
        assert_eq!(exchange.request.method, Method::Post);
        assert_eq!(exchange.request.body.as_deref(), Some(r#"{"phone_number":"+123"}"#));
        assert_eq!(exchange.request.bearer, Some(String::from("X")));
        assert_eq!(exchange.success, 201);
    }
}

#[test]
fn call_via_last_digits_rejects_empty_arguments_in_order() {
    let client = client();
    assert_eq!(
        client.call_via_last_digits("", "pool1", false).err(),
        Some(ClientError::EmptyPhoneNumber)
    );
    assert_eq!(
        client.call_via_last_digits("+123", "", true).err(),
        Some(ClientError::EmptyPoolId)
    );
    assert_eq!(
        client.call_via_last_digits("", "", true).err(),
        Some(ClientError::EmptyPhoneNumber)
    );
}

#[test]
fn call_with_code_sends_number_code_and_language() {
    let exchange = client().call_with_code("+123", "4321", "en").unwrap();
    assert_eq!(exchange.request.method, Method::Post);
    assert_eq!(exchange.request.uri, "https://api-call2fa.rikkicom.io/v1/code/call/");
    assert_eq!(
        exchange.request.body.as_deref(),
        Some(r#"{"phone_number":"+123","code":"4321","lang":"en"}"#)
    );
    assert_eq!(exchange.request.bearer, Some(String::from("X")));
    assert_eq!(exchange.success, 201);
}

#[test]
fn call_with_code_rejects_empty_arguments_in_order() {
    let client = client();
    assert_eq!(
        client.call_with_code("", "4321", "en").err(),
        Some(ClientError::EmptyPhoneNumber)
    );
    assert_eq!(client.call_with_code("+123", "", "en").err(), Some(ClientError::EmptyCode));
    assert_eq!(client.call_with_code("+123", "4321", "").err(), Some(ClientError::EmptyLang));
    assert_eq!(client.call_with_code("", "", "").err(), Some(ClientError::EmptyPhoneNumber));
    assert_eq!(client.call_with_code("+123", "", "").err(), Some(ClientError::EmptyCode));
}

#[test]
fn info_is_a_get_answered_by_ok() {
    let exchange = client().info("95831458").unwrap();
    assert_eq!(exchange.request.method, Method::Get);
    assert_eq!(exchange.request.uri, "https://api-call2fa.rikkicom.io/v1/call/95831458/");
    assert_eq!(exchange.request.bearer, Some(String::from("X")));
    assert_eq!(exchange.request.body, None);
    assert_eq!(exchange.success, 200);
}

#[test]
fn a_body_travels_as_json() {
    let call = client().call("+123", "").unwrap();
    assert_eq!(call.request.content_type(), Some("application/json"));
    let info = client().info("95831458").unwrap();
    assert_eq!(info.request.content_type(), None);
}

#[test]
fn info_rejects_an_empty_id() {
    assert_eq!(client().info("").err(), Some(ClientError::EmptyId));
}

#[test]
fn an_empty_argument_leaves_nothing_to_send() {
    let client = client();
    let attempts = [
        client.call("", "https://x"),
        client.call_via_last_digits("", "pool1", true),
        client.call_via_last_digits("+123", "", false),
        client.call_with_code("", "4321", "en"),
        client.call_with_code("+123", "", "en"),
        client.call_with_code("+123", "4321", ""),
        client.info(""),
    ];
    let mut sent = 0;
    for attempt in attempts {
        if let Ok(exchange) = attempt {
            sent += 1;
            assert!(exchange.request.uri.is_empty());
        }
    }
    assert_eq!(sent, 0);
    assert!(Client::new("", "secret").is_err());
    assert!(Client::new("user", "").is_err());
}

#[test]
fn a_new_client_speaks_the_first_version() {
    assert_eq!(client().version(), "v1");
}

#[test]
fn set_version_takes_effect_on_what_follows() {
    let mut client = client();
    let before = client.call("+123", "").unwrap();
    client.set_version(String::from("v2"));
    assert_eq!(client.version(), "v2");
    assert_eq!(before.request.uri, "https://api-call2fa.rikkicom.io/v1/call/");

    let call = client.call("+123", "").unwrap();
    assert_eq!(call.request.uri, "https://api-call2fa.rikkicom.io/v2/call/");
    assert_eq!(call.request.bearer, Some(String::from("X")));
    let pool = client.call_via_last_digits("+123", "pool1", true).unwrap();
    assert_eq!(pool.request.uri, "https://api-call2fa.rikkicom.io/v2/pool/pool1/call/six-digits/");
    assert_eq!(pool.request.bearer, Some(String::from("X")));
    let code = client.call_with_code("+123", "4321", "en").unwrap();
    assert_eq!(code.request.uri, "https://api-call2fa.rikkicom.io/v2/code/call/");
    assert_eq!(code.request.bearer, Some(String::from("X")));
    let info = client.info("7").unwrap();
    assert_eq!(info.request.uri, "https://api-call2fa.rikkicom.io/v2/call/7/");
    assert_eq!(info.request.bearer, Some(String::from("X")));
}

#[test]
fn set_version_takes_any_text() {
    let mut client = client();
    client.set_version(String::new());
    assert_eq!(client.version(), "");
    assert_eq!(
        client.info("7").unwrap().request.uri,
        "https://api-call2fa.rikkicom.io//call/7/"
    );
}

#[test]
fn arguments_go_into_the_body_escaped() {
    let exchange = client().call("+1 \"23\"", "https://x/?a=\\b\tc").unwrap();
    assert_eq!(
        exchange.request.body.as_deref(),
        Some(r#"{"phone_number":"+1 \"23\"","callback_url":"https://x/?a=\\b\tc"}"#)
    );
    let members = members(&exchange.request.body);
    assert_eq!(members.get("phone_number").and_then(|v| v.as_str()), Some("+1 \"23\""));
    assert_eq!(
        members.get("callback_url").and_then(|v| v.as_str()),
        Some("https://x/?a=\\b\tc")
    );
}
