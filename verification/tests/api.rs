use dict_lookup::greet;
use dict_lookup::lookup::{lookup_outcome, LookupError, TransportOutcome};
use dict_lookup::url::{build_url, dict_spec_json};

const URL_PREFIX: &str = "https://dict.youdao.com/jsonapi?jsonversion=2&client=mobile&q=";

fn split_params(url: &str) -> (String, String) {
    let rest = url.strip_prefix(URL_PREFIX).expect("fixed prefix");
    let sep = rest.find("&dicts=").expect("dicts separator");
    (rest[..sep].to_string(), rest[sep + "&dicts=".len()..].to_string())
}

#[test]
fn greet_world() {
    assert_eq!(greet("World"), "Hello, World! You've been greeted from Rust!");
}

#[test]
fn greet_other_names() {
    assert_eq!(greet("Ada"), "Hello, Ada! You've been greeted from Rust!");
    assert_eq!(greet(""), "Hello, ! You've been greeted from Rust!");
}

#[test]
fn url_for_plain_query_is_exact() {
    let url = build_url("hello");
    assert_eq!(
        url,
        "https://dict.youdao.com/jsonapi?jsonversion=2&client=mobile&q=hello&dicts=\
         %7B%22count%22%3A99%2C%22dicts%22%3A%5B%5B%22simple%22%2C%22phrs%22%2C\
         %22syno%22%2C%22ec%22%2C%22rel_word%22%5D%5D%7D"
    );
}

#[test]
fn query_with_reserved_characters_round_trips() {
    let q = "a&b=c d+e?f";
    let (q_param, _) = split_params(&build_url(q));
    assert_eq!(q_param, "a%26b%3Dc%20d%2Be%3Ff");
    assert_eq!(urlencoding::decode(&q_param).unwrap(), q);
}

#[test]
fn unicode_query_round_trips() {
    let q = "caf\u{e9} \u{4f60}\u{597d}";
    let (q_param, _) = split_params(&build_url(q));
    assert_eq!(q_param, "caf%C3%A9%20%E4%BD%A0%E5%A5%BD");
    assert_eq!(urlencoding::decode(&q_param).unwrap(), q);
}

#[test]
fn dicts_param_is_fixed_spec_for_any_query() {
    let expected: serde_json::Value = serde_json::from_str(
        "{ \"dicts\": [[\"simple\", \"phrs\", \"syno\", \"ec\", \"rel_word\"]], \"count\": 99 }",
    )
    .unwrap();
    for q in ["", "hello", "a&b=c", "caf\u{e9}"] {
        let (_, dicts_param) = split_params(&build_url(q));
        let decoded = urlencoding::decode(&dicts_param).unwrap();
        let parsed: serde_json::Value = serde_json::from_str(&decoded).unwrap();
        assert_eq!(parsed, expected);
    }
}

#[test]
fn dict_spec_json_parses_to_fixed_spec() {
    let parsed: serde_json::Value = serde_json::from_str(&dict_spec_json()).unwrap();
    let expected: serde_json::Value = serde_json::from_str(
        "{ \"count\": 99, \"dicts\": [[\"simple\", \"phrs\", \"syno\", \"ec\", \"rel_word\"]] }",
    )
    .unwrap();
    assert_eq!(parsed, expected);
}

#[test]
fn transport_failure_yields_network_error() {
    let r = lookup_outcome(TransportOutcome::SendFailure("connection refused".to_string()));
    match r {
        Err(LookupError::Network(m)) => assert_eq!(m, "connection refused"),
        _ => panic!("expected a network error"),
    }
}

#[test]
fn body_read_failure_yields_body_read_error() {
    let r = lookup_outcome(TransportOutcome::ReadFailure("truncated body".to_string()));
    match r {
        Err(LookupError::BodyRead(m)) => assert_eq!(m, "truncated body"),
        _ => panic!("expected a body-read error"),
    }
}

#[test]
fn non_json_body_yields_parse_failure() {
    let r = lookup_outcome(TransportOutcome::Response("not json".to_string()));
    let parser_message = serde_json::from_str::<serde_json::Value>("not json")
        .unwrap_err()
        .to_string();
    match r {
        Err(LookupError::ParseFailure(m)) => assert_eq!(m, parser_message),
        _ => panic!("expected a parse failure"),
    }
}

#[test]
fn json_body_is_returned_unchanged() {
    let body = "{\"count\":1,\"dicts\":[]}";
    let r = lookup_outcome(TransportOutcome::Response(body.to_string()));
    let expected: serde_json::Value = serde_json::from_str(body).unwrap();
    match r {
        Ok(v) => assert_eq!(v, expected),
        Err(_) => panic!("expected a successful lookup"),
    }
}

#[test]
fn error_message_returns_wrapped_text() {
    assert_eq!(LookupError::Network("a".to_string()).message(), "a");
    assert_eq!(LookupError::BodyRead("b".to_string()).message(), "b");
    assert_eq!(LookupError::ParseFailure("c".to_string()).message(), "c");
}
