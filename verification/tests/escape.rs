//! The options serializer against the real JSON serializer: both must
//! produce the same compact document for any method string.

use capbridge::fetch_io::FetchOptions;
use capbridge::json::escape_json_string;

fn serde_reference(method: &str) -> String {
    let mut object = serde_json::Map::new();
    object.insert(
        "method".to_string(),
        serde_json::Value::String(method.to_string()),
    );
    serde_json::to_string(&serde_json::Value::Object(object)).unwrap()
}

fn check(method: &str) {
    assert_eq!(FetchOptions::new(method).to_string(), serde_reference(method));
}

#[test]
fn plain_methods_match_serde() {
    check("GET");
    check("POST");
    check("");
    check("a longer method name with spaces");
}

#[test]
fn escaped_characters_match_serde() {
    check("quote\"inside");
    check("back\\slash");
    check("tab\tnewline\nreturn\rbackspace\u{08}formfeed\u{0C}");
    check("control\u{01}and\u{1f}");
    check("unicode \u{e9}\u{4e16}\u{1f600} stays raw");
}

#[test]
fn exact_escapes() {
    assert_eq!(escape_json_string("plain"), "plain");
    assert_eq!(escape_json_string("a\"b"), "a\\\"b");
    assert_eq!(escape_json_string("a\\b"), "a\\\\b");
    assert_eq!(escape_json_string("\n"), "\\n");
    assert_eq!(escape_json_string("\u{01}"), "\\u0001");
    assert_eq!(escape_json_string("\u{1f}"), "\\u001f");
    assert_eq!(
        FetchOptions::new("GE\"T").to_string(),
        "{\"method\":\"GE\\\"T\"}"
    );
}

#[test]
fn decode_uses_real_parser() {
    // A body our serializer wrote is accepted by the bridge's decoder;
    // the decoded method survives the round trip.
    let body = FetchOptions::new("PATCH").to_string().into_bytes();
    let args = vec![
        capbridge::fetch_io::ScriptArg::Str("https://example.com".to_string()),
        capbridge::fetch_io::ScriptArg::Bytes(body.clone()),
        capbridge::fetch_io::ScriptArg::Uint(0),
        capbridge::fetch_io::ScriptArg::Uint(body.len()),
    ];
    match capbridge::fetch_io::fetchio_request(&args, true).unwrap() {
        capbridge::fetch_io::FetchOutcome::Transport(session) => {
            let (_, options) = session.open_args();
            assert_eq!(options, "{\"method\":\"PATCH\"}");
        },
        capbridge::fetch_io::FetchOutcome::Done(_) => panic!("gate is enabled"),
    }
}
