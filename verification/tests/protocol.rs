use serde_json::Value;
use wallcove::client::{connection_failed, invalid_response, response_data};
use wallcove::engine;
use wallcove::error::Error;
use wallcove::protocol::{Response, DAEMON_TCP_ADDR};

#[test]
fn success_and_failure_shapes() {
    let r = Response::success(Value::String("hello from wallcovedaemon".into()));
    assert!(r.ok);
    assert_eq!(r.data, Some(Value::String("hello from wallcovedaemon".into())));
    assert_eq!(r.error, None);
    let r = Response::failure("nope".to_string());
    assert!(!r.ok);
    assert_eq!(r.data, None);
    assert_eq!(r.error.as_deref(), Some("nope"));
}

#[test]
fn engine_failure_is_answered_with_its_report() {
    let r = Response::from_outcome(Err(engine::Error::UnsupportedType(
        ".txt is not a supported image format".into(),
    )));
    assert!(!r.ok);
    assert_eq!(r.data, None);
    assert_eq!(
        r.error.as_deref(),
        Some("unsupported file type: .txt is not a supported image format")
    );
    let r = Response::from_outcome(Ok(Value::Bool(true)));
    assert!(r.ok);
    assert_eq!(r.data, Some(Value::Bool(true)));
}

#[test]
fn invalid_request_answer() {
    let r = Response::invalid_request("expected value at line 1 column 1");
    assert!(!r.ok);
    assert_eq!(r.error.as_deref(), Some("invalid request: expected value at line 1 column 1"));
}

#[test]
fn client_reads_refusals_and_data() {
    match response_data(Response::failure("bad".into())) {
        Err(Error::Daemon(m)) => assert_eq!(m, "bad"),
        other => panic!("unexpected {:?}", other),
    }
    let silent = Response { ok: false, data: Some(Value::Null), error: None };
    match response_data(silent) {
        Err(Error::Daemon(m)) => assert_eq!(m, "unknown daemon error"),
        other => panic!("unexpected {:?}", other),
    }
    let empty = Response { ok: true, data: None, error: None };
    match response_data(empty) {
        Err(Error::Protocol(m)) => assert_eq!(m, "response missing data"),
        other => panic!("unexpected {:?}", other),
    }
    let v = response_data(Response::success(Value::from(42))).unwrap();
    assert_eq!(v, Value::from(42));
}

#[test]
fn engine_refusal_reaches_client_as_daemon_error() {
    let e = engine::Error::NotFound("/nope.png".into());
    match response_data(Response::from_outcome(Err(e))) {
        Err(Error::Daemon(m)) => assert_eq!(m, "wallpaper file not found: /nope.png"),
        other => panic!("unexpected {:?}", other),
    }
}

#[test]
fn client_error_texts() {
    assert_eq!(DAEMON_TCP_ADDR, "127.0.0.1:42069");
    match connection_failed("Connection refused (os error 111)") {
        Error::Connection(m) => assert_eq!(
            m,
            "daemon not running at 127.0.0.1:42069: Connection refused (os error 111)"
        ),
        other => panic!("unexpected {:?}", other),
    }
    match invalid_response("EOF while parsing") {
        Error::Protocol(m) => assert_eq!(m, "invalid response: EOF while parsing"),
        other => panic!("unexpected {:?}", other),
    }
}
