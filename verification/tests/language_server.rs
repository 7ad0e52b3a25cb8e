use sala_devtools::lsp_frame::{frame, parse_content_length, read_body, read_header_byte, ReaderStep};
use sala_devtools::lsp_session::{
    exit_message, frame_message, initialize_message, initialized_message, interpret_message,
    interpret_text, shutdown_message, Answer,
};
use serde_json::Value;

fn object(members: Vec<(&str, Value)>) -> Value {
    let mut map = serde_json::Map::new();
    for (key, value) in members {
        map.insert(key.to_string(), value);
    }
    Value::Object(map)
}

#[test]
fn frames_count_bytes() {
    assert_eq!(frame("{}"), b"Content-Length: 2\r\n\r\n{}");
    assert_eq!(frame("\u{e9}"), b"Content-Length: 2\r\n\r\n\xc3\xa9");
    assert_eq!(frame(""), b"Content-Length: 0\r\n\r\n");
}

fn read_all(data: &[u8]) -> Result<String, String> {
    let mut header = Vec::new();
    let mut at = 0;
    loop {
        let step = read_header_byte(&mut header, data[at]);
        at += 1;
        match step {
            ReaderStep::Byte => {}
            ReaderStep::Body(size) => return read_body(data[at..at + size].to_vec()),
            ReaderStep::Fail(message) => return Err(message),
        }
    }
}

#[test]
fn frames_are_read_back() {
    for body in ["", "{}", "{\"a\":\"\u{2014}\"}", "\r\n\r\n", "Content-Length: 9"] {
        assert_eq!(read_all(&frame(body)), Ok(body.to_string()));
    }
    let long = "x".repeat(5000);
    assert_eq!(read_all(&frame(&long)), Ok(long));
}

#[test]
fn other_headers_are_passed_over() {
    let data = b"Content-Type: json\r\n content-length : 5\r\nCONTENT-LENGTH:  2 \r\n\r\nok";
    assert_eq!(read_all(data), Ok("ok".to_string()));
    assert_eq!(parse_content_length(&b"Content-Length: 3: 4\r\n\r\n".to_vec()), Some(3));
    assert_eq!(parse_content_length(&b"Content-Length: x\r\nContent-Length: 4\r\n".to_vec()), Some(4));
    assert_eq!(parse_content_length(&b"Length: 3\r\n\r\n".to_vec()), None);
    assert_eq!(parse_content_length(&b"\xff\r\nContent-Length: 1\r\n\r\n".to_vec()), Some(1));
}

#[test]
fn headers_without_a_length_are_refused() {
    assert_eq!(
        read_all(b"X: 1\r\n\r\n"),
        Err("missing Content-Length header in LSP response".to_string())
    );
}

#[test]
fn headers_that_do_not_end_are_refused() {
    let mut header = Vec::new();
    for _ in 0..4096 {
        assert!(matches!(read_header_byte(&mut header, b'a'), ReaderStep::Byte));
    }
    match read_header_byte(&mut header, b'a') {
        ReaderStep::Fail(message) => assert_eq!(message, "LSP header too large (>4096 bytes)"),
        _ => panic!("accepted"),
    }
}

#[test]
fn bodies_that_are_not_text_are_refused() {
    assert_eq!(
        read_body(vec![0xff, 0xfe]),
        Err("LSP response body is not valid UTF-8".to_string())
    );
}

#[test]
fn messages_of_the_client() {
    let message = initialize_message("/workspaces/p", "p");
    assert_eq!(message["jsonrpc"], "2.0");
    assert_eq!(message["id"], 1);
    assert_eq!(message["method"], "initialize");
    assert_eq!(message["params"]["processId"], Value::Null);
    assert_eq!(message["params"]["rootUri"], "file:///workspaces/p");
    assert_eq!(message["params"]["capabilities"], object(vec![]));
    assert_eq!(message["params"]["workspaceFolders"][0]["uri"], "file:///workspaces/p");
    assert_eq!(message["params"]["workspaceFolders"][0]["name"], "p");
    assert_eq!(
        frame_message(&initialized_message()),
        frame("{\"jsonrpc\":\"2.0\",\"method\":\"initialized\",\"params\":{}}")
    );
    assert_eq!(
        frame_message(&shutdown_message()),
        frame("{\"jsonrpc\":\"2.0\",\"id\":2,\"method\":\"shutdown\",\"params\":null}")
    );
    assert_eq!(
        frame_message(&exit_message()),
        frame("{\"jsonrpc\":\"2.0\",\"method\":\"exit\",\"params\":null}")
    );
}

#[test]
fn notifications_are_told_by_their_method() {
    let log = object(vec![("method", Value::from("window/logMessage"))]);
    assert!(matches!(interpret_message(&log), Answer::Notification(m) if m == "window/logMessage"));
    assert!(matches!(interpret_message(&object(vec![])), Answer::Notification(m) if m == "<unknown>"));
    let odd = object(vec![("method", Value::from(3))]);
    assert!(matches!(interpret_message(&odd), Answer::Notification(m) if m == "<unknown>"));
}

#[test]
fn other_ids_are_passed_over() {
    let two = object(vec![("id", Value::from(2))]);
    assert!(matches!(interpret_message(&two), Answer::Other(id) if id == "Number(2)"));
    let text = object(vec![("id", Value::from("1"))]);
    assert!(matches!(interpret_message(&text), Answer::Other(id) if id == "String(\"1\")"));
    let minus = object(vec![("id", Value::from(-1))]);
    assert!(matches!(interpret_message(&minus), Answer::Other(id) if id == "Number(-1)"));
    let null = object(vec![("id", Value::Null)]);
    assert!(matches!(interpret_message(&null), Answer::Other(id) if id == "Null"));
    assert!(matches!(interpret_text("{\"id\":1.0}"), Some(Answer::Other(id)) if id == "Number(1.0)"));
}

#[test]
fn the_answer_names_the_server() {
    let raw = "{\"id\":1,\"result\":{\"serverInfo\":{\"name\":\"ra\",\"version\":\"0.3\"}}}";
    match interpret_text(raw) {
        Some(Answer::Ready { name, version }) => {
            assert_eq!(name, "ra");
            assert_eq!(version, "0.3");
        }
        _ => panic!("not ready"),
    }
    match interpret_text("{\"id\":1,\"result\":{\"serverInfo\":{\"name\":3}}}") {
        Some(Answer::Ready { name, version }) => {
            assert_eq!(name, "unknown");
            assert_eq!(version, "?");
        }
        _ => panic!("not ready"),
    }
    assert!(matches!(interpret_text("{\"id\":1}"), Some(Answer::Ready { .. })));
}

#[test]
fn the_answer_may_refuse() {
    match interpret_text("{\"id\":1,\"error\":{\"code\":-1}}") {
        Some(Answer::Refused(error)) => assert_eq!(error, "{\n  \"code\": -1\n}"),
        _ => panic!("not refused"),
    }
    assert!(matches!(interpret_text("{\"id\":1,\"error\":null}"), Some(Answer::Refused(e)) if e == "null"));
}

#[test]
fn text_that_is_not_json_is_no_answer() {
    assert!(interpret_text("{").is_none());
    assert!(interpret_text("").is_none());
}
