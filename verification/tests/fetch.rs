//! The fetch bridge: arity, marshalling, decoding, the capability gate and
//! the transport session.

use capbridge::errors::BridgeError;
use capbridge::fetch_io::{fetchio_request, FetchOptions, FetchOutcome, ScriptArg};

fn request_args(url: &str, body: &[u8], offset: usize, length: usize) -> Vec<ScriptArg> {
    vec![
        ScriptArg::Str(url.to_string()),
        ScriptArg::Bytes(body.to_vec()),
        ScriptArg::Uint(offset),
        ScriptArg::Uint(length),
    ]
}

#[test]
fn gate_disabled_returns_stub() {
    // Request body {"method":"GET"}, capability disabled: exactly
    // {ok: false, body: "{}"}.
    let body = br#"{"method":"GET"}"#;
    let args = request_args("https://example.com", body, 0, body.len());
    match fetchio_request(&args, false).unwrap() {
        FetchOutcome::Done(resp) => {
            assert!(!resp.ok);
            assert_eq!(resp.body, "{}");
        },
        FetchOutcome::Transport(_) => panic!("gate is disabled"),
    }
}

#[test]
fn gate_disabled_ignores_url_and_method() {
    let body = br#"{"method":"DELETE","extra":3}"#;
    let args = request_args("not even a url", body, 0, body.len());
    match fetchio_request(&args, false).unwrap() {
        FetchOutcome::Done(resp) => {
            assert!(!resp.ok);
            assert_eq!(resp.body, "{}");
        },
        FetchOutcome::Transport(_) => panic!("gate is disabled"),
    }
}

#[test]
fn windowed_body_is_decoded() {
    // The body sits in the middle of a larger buffer.
    let mut buffer = vec![b'x'; 4];
    buffer.extend_from_slice(br#"{"method":"PUT"}"#);
    buffer.extend_from_slice(&[b'y'; 3]);
    let args = request_args("https://example.com", &buffer, 4, 16);
    let outcome = fetchio_request(&args, true).unwrap();
    match outcome {
        FetchOutcome::Transport(session) => {
            let (url, options) = session.open_args();
            assert_eq!(url, "https://example.com");
            assert_eq!(options, r#"{"method":"PUT"}"#);
        },
        FetchOutcome::Done(_) => panic!("gate is enabled"),
    }
}

#[test]
fn wrong_arity_reports_received_count() {
    let args = vec![ScriptArg::Uint(1), ScriptArg::Uint(2), ScriptArg::Uint(3)];
    assert_eq!(
        fetchio_request(&args, false),
        Err(BridgeError::ArgumentCount { received: 3 })
    );
    let empty: Vec<ScriptArg> = vec![];
    assert_eq!(
        fetchio_request(&empty, true),
        Err(BridgeError::ArgumentCount { received: 0 })
    );
    let five = vec![
        ScriptArg::Uint(1),
        ScriptArg::Uint(2),
        ScriptArg::Uint(3),
        ScriptArg::Uint(4),
        ScriptArg::Uint(5),
    ];
    assert_eq!(
        fetchio_request(&five, false),
        Err(BridgeError::ArgumentCount { received: 5 })
    );
}

#[test]
fn wrong_argument_type_is_rejected() {
    let args = vec![
        ScriptArg::Bytes(vec![1, 2]),
        ScriptArg::Bytes(vec![]),
        ScriptArg::Uint(0),
        ScriptArg::Uint(0),
    ];
    assert_eq!(fetchio_request(&args, false), Err(BridgeError::WrongType));
}

#[test]
fn out_of_bounds_window_is_rejected() {
    let body = br#"{"method":"GET"}"#;
    let args = request_args("https://example.com", body, 1, body.len());
    assert_eq!(fetchio_request(&args, false), Err(BridgeError::OutOfBounds));
    let overflowing = request_args("https://example.com", body, usize::MAX, 2);
    assert_eq!(
        fetchio_request(&overflowing, true),
        Err(BridgeError::OutOfBounds)
    );
}

#[test]
fn malformed_json_fails_decode() {
    let body = b"{\"method\":";
    let args = request_args("https://example.com", body, 0, body.len());
    assert_eq!(fetchio_request(&args, false), Err(BridgeError::Decode));
    // The same failure when the capability is enabled: decoding comes first.
    assert_eq!(fetchio_request(&args, true), Err(BridgeError::Decode));
}

#[test]
fn missing_method_fails_decode() {
    let body = br#"{"verb":"GET"}"#;
    let args = request_args("https://example.com", body, 0, body.len());
    assert_eq!(fetchio_request(&args, false), Err(BridgeError::Decode));
}

#[test]
fn non_string_method_fails_decode() {
    let body = br#"{"method":7}"#;
    let args = request_args("https://example.com", body, 0, body.len());
    assert_eq!(fetchio_request(&args, true), Err(BridgeError::Decode));
}

#[test]
fn options_round_trip_through_serializer() {
    // new followed by to_string yields the exact compact JSON object.
    let options = FetchOptions::new("GET");
    assert_eq!(options.method, "GET");
    assert_eq!(options.to_string(), r#"{"method":"GET"}"#);
}

#[test]
fn error_messages_are_fixed() {
    assert_eq!(
        BridgeError::OutOfBounds.message(),
        "buffer offset and length are out of bounds"
    );
    assert_eq!(
        BridgeError::ArgumentCount { received: 9 }.message(),
        "wrong number of arguments"
    );
    assert_eq!(BridgeError::WrongType.message(), "argument has the wrong type");
    assert_eq!(
        BridgeError::Decode.message(),
        "request body is not a valid request object"
    );
}
