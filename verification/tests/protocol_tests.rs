use term_chat::protocol::decode_line;
use term_chat::protocol::stderr_event;
use term_chat::protocol::BridgeEvent;

#[test]
fn decodes_status_ready() {
    let r = decode_line("{\"type\":\"status\",\"content\":\"ready\"}");
    match r {
        Some(BridgeEvent::Status { content }) => assert_eq!(content, "ready"),
        _ => panic!("expected a status event"),
    }
}

#[test]
fn decodes_thinking() {
    let r = decode_line("{\"type\":\"thinking\",\"content\":\"hmm\"}");
    match r {
        Some(BridgeEvent::Thinking { content }) => assert_eq!(content, "hmm"),
        _ => panic!("expected a thinking event"),
    }
}

#[test]
fn decodes_content_with_escapes() {
    let r = decode_line("{\"type\":\"content\",\"content\":\"line one\\nline two\"}");
    match r {
        Some(BridgeEvent::Content { content }) => assert_eq!(content, "line one\nline two"),
        _ => panic!("expected a content event"),
    }
}

#[test]
fn decodes_error() {
    let r = decode_line("{\"type\":\"error\",\"content\":\"boom\"}");
    match r {
        Some(BridgeEvent::Error { content }) => assert_eq!(content, "boom"),
        _ => panic!("expected an error event"),
    }
}

#[test]
fn decodes_tokens() {
    let r = decode_line("{\"type\":\"tokens\",\"total\":10,\"prompt\":4,\"completion\":6}");
    match r {
        Some(BridgeEvent::Tokens { total, prompt, completion }) => {
            assert_eq!(total, 10);
            assert_eq!(prompt, 4);
            assert_eq!(completion, 6);
        },
        _ => panic!("expected a tokens event"),
    }
}

#[test]
fn malformed_line_is_dropped() {
    assert!(decode_line("not json at all").is_none());
    assert!(decode_line("").is_none());
    assert!(decode_line("[1,2,3]").is_none());
}

#[test]
fn unknown_type_is_dropped() {
    assert!(decode_line("{\"type\":\"telemetry\",\"content\":\"x\"}").is_none());
}

#[test]
fn missing_or_wrongly_typed_fields_are_dropped() {
    assert!(decode_line("{\"type\":\"status\"}").is_none());
    assert!(decode_line("{\"type\":\"status\",\"content\":5}").is_none());
    assert!(decode_line("{\"type\":\"tokens\",\"total\":10,\"prompt\":4}").is_none());
    assert!(decode_line("{\"type\":\"tokens\",\"total\":-1,\"prompt\":4,\"completion\":6}").is_none());
}

#[test]
fn blank_stderr_line_is_dropped() {
    assert!(stderr_event("").is_none());
    assert!(stderr_event("   \t ").is_none());
}

#[test]
fn stderr_line_becomes_prefixed_error() {
    let r = stderr_event("Traceback (most recent call last):");
    match r {
        Some(BridgeEvent::Error { content }) => {
            assert_eq!(content, "Backend stderr: Traceback (most recent call last):");
        },
        _ => panic!("expected an error event"),
    }
}
