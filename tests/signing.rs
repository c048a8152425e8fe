use coinex_auth::{
    decimal_text, http_payload, sign_message, sub_account_api_list_path, sub_account_list_path,
    ws_payload, APIAuth, APIType, HTTPVerb, MasterAPI, SignPayload,
};

fn json(text: &str) -> serde_json::Value {
    serde_json::from_str(text).unwrap()
}

fn http(verb: HTTPVerb, path: &str, body: Option<&str>, timestamp: i64) -> SignPayload {
    SignPayload::HTTP { verb, method: path.to_string(), body: body.map(json), timestamp }
}

fn sign(auth: &APIAuth, payload: SignPayload) -> String {
    auth.sign(payload).unwrap().0
}

#[test]
fn hmac_matches_published_vectors() {
    assert_eq!(
        sign_message("Jefe", "what do ya want for nothing?"),
        "5bdcc146bf60754e6a042426089575c75a003f089d2739839dec58b964ec3843"
    );
    assert_eq!(
        sign_message("key", "The quick brown fox jumps over the lazy dog"),
        "f7bc83f430538424b13298e6aa6fb143ef4d59a14946175997479dbc2d1a3cd8"
    );
}

#[test]
fn canonical_string_of_a_bodiless_get() {
    let text = http_payload(HTTPVerb::GET, "/v2/account/subs", "", 1700000000000);
    assert_eq!(text, "GET/v2/account/subs1700000000000");
    let auth = APIAuth::new("key", "s3cr3t", None);
    let signed = sign(&auth, http(HTTPVerb::GET, "/v2/account/subs", None, 1700000000000));
    assert_eq!(signed, sign_message("s3cr3t", "GET/v2/account/subs1700000000000"));
}

#[test]
fn canonical_string_keeps_the_query_and_body() {
    let text = http_payload(HTTPVerb::POST, "/v2/a?x=1", "{\"a\":1}", -7);
    assert_eq!(text, "POST/v2/a?x=1{\"a\":1}-7");
}

#[test]
fn websocket_message_is_the_timestamp() {
    assert_eq!(ws_payload(1700000000000), "1700000000000");
    let auth = APIAuth::new("key", "s3cr3t", None);
    let signed = sign(&auth, SignPayload::Websocket { timestamp: 1700000000000 });
    assert_eq!(signed, sign_message("s3cr3t", "1700000000000"));
}

#[test]
fn decimal_text_covers_the_range() {
    assert_eq!(decimal_text(0), "0");
    assert_eq!(decimal_text(9), "9");
    assert_eq!(decimal_text(10), "10");
    assert_eq!(decimal_text(-5), "-5");
    assert_eq!(decimal_text(i64::MAX), "9223372036854775807");
    assert_eq!(decimal_text(i64::MIN), "-9223372036854775808");
}

#[test]
fn signing_twice_gives_the_same_signature() {
    let auth = APIAuth::new("key", "s3cr3t", None);
    let body = Some("{\"name\":\"sub1\",\"remark\":\"x\"}");
    let a = sign(&auth, http(HTTPVerb::POST, "/v2/account/subs", body, 1700000000000));
    let b = sign(&auth, http(HTTPVerb::POST, "/v2/account/subs", body, 1700000000000));
    assert_eq!(a, b);
}

#[test]
fn body_is_signed_as_its_json_text() {
    let auth = APIAuth::new("key", "s3cr3t", None);
    let signed = sign(&auth, http(HTTPVerb::POST, "/v2/p", Some("{\"b\": 1, \"a\": [true, null]}"), 5));
    let expected = auth.sign_http(HTTPVerb::POST, "/v2/p", "{\"a\":[true,null],\"b\":1}", 5);
    assert_eq!(signed, expected.0);
    assert_eq!(signed, sign_message("s3cr3t", "POST/v2/p{\"a\":[true,null],\"b\":1}5"));
}

#[test]
fn changing_one_field_changes_the_signature() {
    let auth = APIAuth::new("key", "s3cr3t", None);
    let base = sign(&auth, http(HTTPVerb::POST, "/v2/p", Some("{\"a\":1}"), 1000));
    assert_ne!(base, sign(&auth, http(HTTPVerb::DELETE, "/v2/p", Some("{\"a\":1}"), 1000)));
    assert_ne!(base, sign(&auth, http(HTTPVerb::POST, "/v2/q", Some("{\"a\":1}"), 1000)));
    assert_ne!(base, sign(&auth, http(HTTPVerb::POST, "/v2/p", Some("{\"a\":2}"), 1000)));
    assert_ne!(base, sign(&auth, http(HTTPVerb::POST, "/v2/p", None, 1000)));
    assert_ne!(base, sign(&auth, http(HTTPVerb::POST, "/v2/p", Some("{\"a\":1}"), 1001)));
}

#[test]
fn websocket_signature_depends_on_timestamp_and_secret_only() {
    let a = APIAuth::new("key-a", "shared", None);
    let b = APIAuth::new("key-b", "shared", Some(vec!["1.1.1.1".to_string()]));
    let c = APIAuth::new("key-a", "other", None);
    let sa = sign(&a, SignPayload::Websocket { timestamp: 42 });
    assert_eq!(sa, sign(&b, SignPayload::Websocket { timestamp: 42 }));
    assert_ne!(sa, sign(&c, SignPayload::Websocket { timestamp: 42 }));
    assert_ne!(sa, sign(&a, SignPayload::Websocket { timestamp: 43 }));
}

#[test]
fn signatures_are_64_lower_hex_digits() {
    let auth = APIAuth::new("key", "", None);
    let payloads = vec![
        http(HTTPVerb::GET, "", None, 0),
        http(HTTPVerb::DELETE, "/v2/é?x=ü", Some("[1,2,3]"), i64::MIN),
        SignPayload::Websocket { timestamp: i64::MAX },
    ];
    for p in payloads {
        let s = sign(&auth, p);
        assert_eq!(s.len(), 64);
        assert!(s.chars().all(|c| c.is_ascii_digit() || ('a'..='f').contains(&c)));
    }
}

#[test]
fn sub_account_list_paths() {
    assert_eq!(sub_account_list_path(None, None, None, None), "/v2/account/subs");
    assert_eq!(
        sub_account_list_path(Some("bob"), Some(false), Some(2), Some(-1)),
        "/v2/account/subs?&sub_user_name=bob&is_frozen=false&page=2&limit=-1"
    );
    assert_eq!(sub_account_list_path(None, Some(true), None, None), "/v2/account/subs?&is_frozen=true");
    assert_eq!(sub_account_list_path(None, None, None, Some(100)), "/v2/account/subs?&limit=100");
}

#[test]
fn sub_account_api_list_paths() {
    assert_eq!(sub_account_api_list_path("bob", None, None), "/v2/account/subs/api?sub_user_name=bob");
    assert_eq!(
        sub_account_api_list_path("bob", Some(1), Some(10)),
        "/v2/account/subs/api?sub_user_name=bob&page=1&limit=10"
    );
}

#[test]
fn auth_headers_carry_key_signature_and_signed_timestamp() {
    let api = MasterAPI::new(APIType::ALL(APIAuth::new("master-key", "s3cr3t", None)));
    let h = api.auth_headers(HTTPVerb::GET, "/v2/account/subs".to_string(), None, 1700000000000).unwrap();
    assert_eq!(h.key, "master-key");
    assert_eq!(h.timestamp, 1700000000000);
    assert_eq!(h.sign, sign_message("s3cr3t", "GET/v2/account/subs1700000000000"));
}
