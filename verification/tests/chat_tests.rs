use term_chat::chat::Author;
use term_chat::chat::ChatApp;
use term_chat::chat::KeyInput;
use term_chat::chat::PaneRect;
use term_chat::chat::SessionState;
use term_chat::chat::WheelDirection;
use term_chat::protocol::BridgeEvent;
use term_chat::protocol::stderr_event;

fn ready_app() -> ChatApp {
    let mut app = ChatApp::new();
    app.apply_event(BridgeEvent::Status { content: "ready".to_string() });
    app
}

fn type_text(app: &mut ChatApp, text: &str) {
    for c in text.chars() {
        app.handle_key(KeyInput::Character(c));
    }
}

#[test]
fn new_app_has_one_complete_placeholder() {
    let app = ChatApp::new();
    assert_eq!(app.messages.len(), 1);
    assert_eq!(app.messages[0].author, Author::Assistant);
    assert!(app.messages[0].is_complete);
    assert_eq!(app.messages[0].content, "你好！我是你的智能助手 Alice。系统正在初始化...");
    assert_eq!(app.status, SessionState::Starting);
}

#[test]
fn ready_replaces_placeholder_and_idles() {
    let app = ready_app();
    assert_eq!(app.status, SessionState::Idle);
    assert_eq!(app.messages.len(), 1);
    assert_eq!(app.messages[0].content, "你好！我是你的智能助手 Alice。我已经准备好了！");
}

#[test]
fn send_then_stream_then_done() {
    // The full round: send("hello") while idle, stream an answer, finish.
    let mut app = ready_app();
    type_text(&mut app, "hello");
    let raw = app.start_send();
    assert_eq!(raw, Some("hello".to_string()));
    app.finish_send(true);

    assert_eq!(app.messages.len(), 3);
    assert_eq!(app.messages[1].author, Author::User);
    assert_eq!(app.messages[1].content, "hello");
    assert!(app.messages[1].is_complete);
    assert_eq!(app.messages[2].author, Author::Assistant);
    assert_eq!(app.messages[2].content, "");
    assert!(!app.messages[2].is_complete);
    assert_eq!(app.status, SessionState::Thinking);
    assert!(app.main_scroll.auto_follow);
    assert_eq!(app.input, "");

    app.apply_event(BridgeEvent::Content { content: "Hi".to_string() });
    assert_eq!(app.messages[2].content, "Hi");
    assert_eq!(app.status, SessionState::Responding);

    app.apply_event(BridgeEvent::Status { content: "done".to_string() });
    assert!(app.messages[2].is_complete);
    assert_eq!(app.status, SessionState::Idle);
}

#[test]
fn at_most_one_incomplete_message() {
    let mut app = ready_app();
    type_text(&mut app, "hello");
    app.start_send();
    app.finish_send(true);
    app.apply_event(BridgeEvent::Thinking { content: "mulling".to_string() });
    app.apply_event(BridgeEvent::Content { content: "Hi".to_string() });
    let open: Vec<usize> = (0..app.messages.len()).filter(|i| !app.messages[*i].is_complete).collect();
    assert_eq!(open, vec![app.messages.len() - 1]);
    assert_eq!(app.messages[app.messages.len() - 1].author, Author::Assistant);
}

#[test]
fn orphan_stream_text_is_dropped_but_moves_the_state() {
    // No open assistant message: the placeholder is complete.
    let mut app = ready_app();
    app.apply_event(BridgeEvent::Content { content: "stray".to_string() });
    assert_eq!(app.messages.len(), 1);
    assert_eq!(app.messages[0].content, "你好！我是你的智能助手 Alice。我已经准备好了！");
    assert_eq!(app.status, SessionState::Responding);

    app.apply_event(BridgeEvent::Thinking { content: "stray".to_string() });
    assert_eq!(app.messages.len(), 1);
    assert_eq!(app.messages[0].thinking, "");
    assert_eq!(app.status, SessionState::Thinking);
}

#[test]
fn sending_outside_idle_changes_nothing() {
    let mut app = ready_app();
    type_text(&mut app, "hi");
    app.apply_event(BridgeEvent::Status { content: "thinking".to_string() });
    let before_len = app.messages.len();
    let r = app.start_send();
    assert!(r.is_none());
    assert_eq!(app.messages.len(), before_len);
    assert_eq!(app.status, SessionState::Thinking);
    assert_eq!(app.input, "hi");
}

#[test]
fn sending_blank_input_changes_nothing() {
    let mut app = ready_app();
    type_text(&mut app, "   ");
    let r = app.start_send();
    assert!(r.is_none());
    assert_eq!(app.messages.len(), 1);
    assert_eq!(app.status, SessionState::Idle);
    assert_eq!(app.input, "   ");
}

#[test]
fn user_message_is_trimmed_but_raw_text_is_dispatched() {
    let mut app = ready_app();
    type_text(&mut app, "  hi there  ");
    let raw = app.start_send();
    assert_eq!(raw, Some("  hi there  ".to_string()));
    assert_eq!(app.messages[1].content, "hi there");
    // The buffer waits for the dispatch outcome and clears on success.
    assert_eq!(app.input, "  hi there  ");
    app.finish_send(true);
    assert_eq!(app.input, "");
}

#[test]
fn failed_dispatch_leaves_the_state_and_reports() {
    let mut app = ready_app();
    type_text(&mut app, "hello");
    app.start_send();
    app.finish_send(false);
    assert_eq!(app.status, SessionState::Idle);
    // No request was delivered: the input stays for the user to retry.
    assert_eq!(app.input, "hello");
    let last = &app.messages[app.messages.len() - 1];
    assert_eq!(last.author, Author::Assistant);
    assert!(last.is_complete);
    assert_eq!(last.content, "错误: 无法连接到后端引擎。");
}

#[test]
fn stderr_line_becomes_one_complete_warning_message() {
    let mut app = ready_app();
    let before = app.messages.len();
    let ev = stderr_event("Traceback (most recent call last):").expect("non-blank line");
    app.apply_event(ev);
    assert_eq!(app.messages.len(), before + 1);
    let last = &app.messages[app.messages.len() - 1];
    assert_eq!(last.content, "⚠️ Backend stderr: Traceback (most recent call last):");
    assert_eq!(last.author, Author::Assistant);
    assert!(last.is_complete);
    assert_eq!(app.status, SessionState::Idle);
}

#[test]
fn tokens_update_only_the_counters() {
    let mut app = ready_app();
    app.apply_event(BridgeEvent::Tokens { total: 12, prompt: 5, completion: 7 });
    assert_eq!(app.total_tokens, 12);
    assert_eq!(app.prompt_tokens, 5);
    assert_eq!(app.completion_tokens, 7);
    assert_eq!(app.status, SessionState::Idle);
    assert_eq!(app.messages.len(), 1);
}

#[test]
fn typing_is_accepted_only_while_idle() {
    let mut app = ChatApp::new();
    type_text(&mut app, "early");
    assert_eq!(app.input, "");
    app.apply_event(BridgeEvent::Status { content: "ready".to_string() });
    type_text(&mut app, "ok");
    assert_eq!(app.input, "ok");
    app.handle_key(KeyInput::Backspace);
    assert_eq!(app.input, "o");
    app.handle_key(KeyInput::Backspace);
    app.handle_key(KeyInput::Backspace);
    assert_eq!(app.input, "");
}

#[test]
fn quit_and_sidebar_toggle() {
    let mut app = ChatApp::new();
    assert!(!app.should_quit);
    app.handle_key(KeyInput::ToggleThinking);
    assert!(app.show_thinking);
    app.handle_key(KeyInput::ToggleThinking);
    assert!(!app.show_thinking);
    app.handle_key(KeyInput::Quit);
    assert!(app.should_quit);
}

#[test]
fn key_scrolling_targets_the_visible_pane() {
    let mut app = ChatApp::new();
    app.main_scroll.offset = 5;
    app.thinking_scroll.offset = 5;
    app.handle_key(KeyInput::ScrollUp);
    assert_eq!(app.main_scroll.offset, 4);
    assert!(!app.main_scroll.auto_follow);
    assert_eq!(app.thinking_scroll.offset, 5);
    app.handle_key(KeyInput::ToggleThinking);
    app.handle_key(KeyInput::ScrollUp);
    assert_eq!(app.thinking_scroll.offset, 4);
    assert_eq!(app.main_scroll.offset, 4);
    app.handle_key(KeyInput::ScrollDown);
    assert_eq!(app.thinking_scroll.offset, 5);
}

#[test]
fn wheel_scrolling_uses_the_pane_under_the_pointer() {
    let mut app = ChatApp::new();
    app.chat_area = PaneRect { x: 0, y: 0, width: 60, height: 20 };
    app.sidebar_area = PaneRect { x: 60, y: 0, width: 20, height: 20 };
    app.show_thinking = true;
    app.main_scroll.offset = 5;
    app.thinking_scroll.offset = 5;

    app.handle_mouse(WheelDirection::Up, 10, 10);
    assert_eq!(app.main_scroll.offset, 4);
    assert_eq!(app.thinking_scroll.offset, 5);

    app.handle_mouse(WheelDirection::Up, 70, 10);
    assert_eq!(app.thinking_scroll.offset, 4);

    app.handle_mouse(WheelDirection::Down, 90, 10);
    assert_eq!(app.main_scroll.offset, 4);
    assert_eq!(app.thinking_scroll.offset, 4);
}

#[test]
fn spinner_cycles_through_ten_frames() {
    let mut app = ChatApp::new();
    assert_eq!(app.spinner_index, 0);
    for _ in 0..10 {
        app.on_tick();
    }
    assert_eq!(app.spinner_index, 0);
    app.on_tick();
    assert_eq!(app.spinner_index, 1);
    assert_eq!(app.spinner_frame(), "⠙");
}

#[test]
fn transcript_lines_show_labels_bodies_and_separators() {
    let app = ChatApp::new();
    let lines = app.transcript_lines(100);
    assert_eq!(
        lines,
        vec![
            " Alice: ".to_string(),
            "你好！我是你的智能助手 Alice。系统正在初始化...".to_string(),
            "".to_string(),
        ]
    );
}

#[test]
fn open_empty_message_shows_the_spinner_note() {
    let mut app = ready_app();
    type_text(&mut app, "hello");
    app.start_send();
    app.finish_send(true);
    let lines = app.transcript_lines(100);
    assert_eq!(lines[lines.len() - 2], "⠋ 正在处理中...");
}

#[test]
fn sidebar_shows_newest_thinking_or_a_note() {
    let mut app = ready_app();
    assert_eq!(app.sidebar_lines(100), vec!["暂无思考过程...".to_string()]);
    type_text(&mut app, "hello");
    app.start_send();
    app.finish_send(true);
    app.apply_event(BridgeEvent::Thinking { content: "step one".to_string() });
    app.apply_event(BridgeEvent::Thinking { content: ", step two".to_string() });
    assert_eq!(app.sidebar_lines(100), vec!["step one, step two".to_string()]);
}
