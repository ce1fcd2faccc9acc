use vstd::prelude::*;

use crate::protocol::BridgeEvent;
use crate::protocol::EventModel;
use crate::scroll::ScrollState;
use crate::scroll::scrolled_down;
use crate::scroll::scrolled_up;
use crate::strutil::blank;
use crate::strutil::is_blank;
use crate::strutil::pop_char;
use crate::strutil::push_char;
use crate::strutil::string_eq;
use crate::strutil::trim_spaces;
use crate::strutil::trimmed;
use crate::wrap::wrap_model;
use crate::wrap::wrap_text;

verus! {

/// Who wrote a message.
#[derive(Clone, Copy, PartialEq, Eq, Structural, Debug)]
pub enum Author {
    User,
    Assistant,
}

/// The backend's activity. Only `Idle` accepts typed input and send actions.
#[derive(Clone, Copy, PartialEq, Eq, Structural, Debug)]
pub enum SessionState {
    Starting,
    Idle,
    Thinking,
    Responding,
    ExecutingTool,
}

/// One turn of the conversation, with its streaming buffers.
pub struct Message {
    pub author: Author,
    pub thinking: String,
    pub content: String,
    pub is_complete: bool,
}

/// The shape of a message over character sequences, for contracts.
#[verifier::ext_equal]
pub struct MessageModel {
    pub author: Author,
    pub thinking: Seq<char>,
    pub content: Seq<char>,
    pub is_complete: bool,
}

impl View for Message {
    type V = MessageModel;

    open spec fn view(&self) -> MessageModel {
        MessageModel {
            author: self.author,
            thinking: self.thinking@,
            content: self.content@,
            is_complete: self.is_complete,
        }
    }
}

impl DeepView for Message {
    type V = MessageModel;

    open spec fn deep_view(&self) -> MessageModel {
        self.view()
    }
}

/// The part of the client that backend events act on: the transcript, the
/// session state and the token counters.
#[verifier::ext_equal]
pub struct ConvModel {
    pub messages: Seq<MessageModel>,
    pub status: SessionState,
    pub total_tokens: u64,
    pub prompt_tokens: u64,
    pub completion_tokens: u64,
}

/// Whether the last message is still receiving streamed text.
pub open spec fn streaming_target(msgs: Seq<MessageModel>) -> bool {
    msgs.len() > 0 && msgs.last().author == Author::Assistant && !msgs.last().is_complete
}

/// Whether every message is complete.
pub open spec fn all_complete(msgs: Seq<MessageModel>) -> bool {
    forall|i: int| 0 <= i < msgs.len() ==> (#[trigger] msgs[i]).is_complete
}

/// Whether no assistant message is still open.
pub open spec fn no_open_assistant(msgs: Seq<MessageModel>) -> bool {
    forall|i: int|
        0 <= i < msgs.len() ==> (#[trigger] msgs[i]).is_complete || msgs[i].author != Author::Assistant
}

/// The streaming invariant: any incomplete message is the last one and is
/// assistant-authored, so at most one message is ever incomplete.
pub open spec fn msgs_wf(msgs: Seq<MessageModel>) -> bool {
    forall|i: int|
        0 <= i < msgs.len() && !(#[trigger] msgs[i]).is_complete ==> i == msgs.len() - 1
            && msgs[i].author == Author::Assistant
}

/// The greeting shown while the backend is still starting.
pub open spec fn placeholder_text() -> Seq<char> {
    "你好！我是你的智能助手 Alice。系统正在初始化..."@
}

/// The greeting that replaces the placeholder once the backend is ready.
pub open spec fn greeting_text() -> Seq<char> {
    "你好！我是你的智能助手 Alice。我已经准备好了！"@
}

/// The prefix put before a surfaced backend diagnostic.
pub open spec fn warning_prefix() -> Seq<char> {
    "⚠️ "@
}

/// A complete assistant message carrying `content`.
pub open spec fn assistant_note_model(content: Seq<char>) -> MessageModel {
    MessageModel {
        author: Author::Assistant,
        thinking: Seq::<char>::empty(),
        content: content,
        is_complete: true,
    }
}

/// How one decoded backend event moves the conversation, the session state
/// and the token counters.
pub open spec fn apply_model(m: ConvModel, ev: EventModel) -> ConvModel {
    match ev {
        EventModel::Status { content } => {
            if content == "ready"@ {
                let moved = ConvModel { status: SessionState::Idle, ..m };
                if m.messages.len() > 0 && m.messages.last().author == Author::Assistant
                    && m.messages.last().content == placeholder_text() {
                    ConvModel {
                        messages: m.messages.update(
                            m.messages.len() - 1,
                            MessageModel { content: greeting_text(), ..m.messages.last() },
                        ),
                        ..moved
                    }
                } else {
                    moved
                }
            } else if content == "thinking"@ {
                ConvModel { status: SessionState::Thinking, ..m }
            } else if content == "executing_tool"@ {
                ConvModel { status: SessionState::ExecutingTool, ..m }
            } else if content == "done"@ {
                let moved = ConvModel { status: SessionState::Idle, ..m };
                if m.messages.len() > 0 {
                    ConvModel {
                        messages: m.messages.update(
                            m.messages.len() - 1,
                            MessageModel { is_complete: true, ..m.messages.last() },
                        ),
                        ..moved
                    }
                } else {
                    moved
                }
            } else {
                m
            }
        },
        EventModel::Thinking { content } => {
            let moved = ConvModel { status: SessionState::Thinking, ..m };
            if streaming_target(m.messages) {
                ConvModel {
                    messages: m.messages.update(
                        m.messages.len() - 1,
                        MessageModel {
                            thinking: m.messages.last().thinking + content,
                            ..m.messages.last()
                        },
                    ),
                    ..moved
                }
            } else {
                moved
            }
        },
        EventModel::Content { content } => {
            let moved = ConvModel { status: SessionState::Responding, ..m };
            if streaming_target(m.messages) {
                ConvModel {
                    messages: m.messages.update(
                        m.messages.len() - 1,
                        MessageModel {
                            content: m.messages.last().content + content,
                            ..m.messages.last()
                        },
                    ),
                    ..moved
                }
            } else {
                moved
            }
        },
        EventModel::Tokens { total, prompt, completion } => ConvModel {
            total_tokens: total,
            prompt_tokens: prompt,
            completion_tokens: completion,
            ..m
        },
        EventModel::Error { content } => ConvModel {
            messages: m.messages.push(assistant_note_model(warning_prefix() + content)),
            ..m
        },
    }
}

/// Law (streaming invariant): applying a backend event keeps the invariant
/// that at most one message is incomplete, and that it is the last one and
/// assistant-authored. A diagnostic can only be stated for a transcript
/// with no open message, since it appends a complete message at the end.
pub proof fn lemma_apply_preserves_wf(m: ConvModel, ev: EventModel)
    requires
        msgs_wf(m.messages),
        (ev matches EventModel::Error { .. }) ==> all_complete(m.messages),
    ensures
        msgs_wf(apply_model(m, ev).messages),
{
}

/// Law (orphan stream text): a content or thinking event that arrives with
/// no open assistant message leaves the transcript and the token counters
/// alone, and still moves the session state.
pub proof fn lemma_orphan_stream_event_is_noop(m: ConvModel, ev: EventModel)
    requires
        no_open_assistant(m.messages),
        (ev matches EventModel::Content { .. }) || (ev matches EventModel::Thinking { .. }),
    ensures
        apply_model(m, ev).messages == m.messages,
        apply_model(m, ev).total_tokens == m.total_tokens,
        apply_model(m, ev).prompt_tokens == m.prompt_tokens,
        apply_model(m, ev).completion_tokens == m.completion_tokens,
        (ev matches EventModel::Content { .. }) ==> apply_model(m, ev).status
            == SessionState::Responding,
        (ev matches EventModel::Thinking { .. }) ==> apply_model(m, ev).status
            == SessionState::Thinking,
{
    if m.messages.len() > 0 {
        assert(msgs_wf(m.messages) ==> true);
        assert(m.messages.last().is_complete || m.messages.last().author != Author::Assistant);
    }
}

/// A complete user message carrying `content`.
pub open spec fn user_message_model(content: Seq<char>) -> MessageModel {
    MessageModel {
        author: Author::User,
        thinking: Seq::<char>::empty(),
        content: content,
        is_complete: true,
    }
}

/// The open assistant placeholder that a successful dispatch appends.
pub open spec fn open_assistant_model() -> MessageModel {
    MessageModel {
        author: Author::Assistant,
        thinking: Seq::<char>::empty(),
        content: Seq::<char>::empty(),
        is_complete: false,
    }
}

/// The note shown when writing to the backend fails.
pub open spec fn send_failure_text() -> Seq<char> {
    "错误: 无法连接到后端引擎。"@
}

/// One keyboard action, after the terminal layer has translated the raw
/// key event.
#[derive(Clone, Copy, PartialEq, Eq, Structural, Debug)]
pub enum KeyInput {
    Quit,
    ToggleThinking,
    Character(char),
    Backspace,
    Submit,
    ScrollUp,
    ScrollDown,
}

/// Which way the mouse wheel turned.
#[derive(Clone, Copy, PartialEq, Eq, Structural, Debug)]
pub enum WheelDirection {
    Up,
    Down,
}

/// The pane state after one wheel step.
pub open spec fn wheel_step(dir: WheelDirection, s: ScrollState) -> ScrollState {
    if dir == WheelDirection::Up {
        scrolled_up(s)
    } else {
        scrolled_down(s)
    }
}

/// A rectangle of the terminal cell grid, kept from the last render for
/// mouse hit testing.
pub struct PaneRect {
    pub x: u16,
    pub y: u16,
    pub width: u16,
    pub height: u16,
}

impl PaneRect {
    /// Whether the cell at column `px`, row `py` lies inside the rectangle.
    pub open spec fn holds(self, px: u16, py: u16) -> bool {
        self.x <= px && px < self.x + self.width && self.y <= py && py < self.y + self.height
    }

    pub fn empty() -> (r: PaneRect)
        ensures
            r == (PaneRect { x: 0, y: 0, width: 0, height: 0 }),
    {
        PaneRect { x: 0, y: 0, width: 0, height: 0 }
    }

    /// Tests whether the cell at column `px`, row `py` lies inside.
    pub fn hit(&self, px: u16, py: u16) -> (r: bool)
        ensures
            r == self.holds(px, py),
    {
        px >= self.x && (px as u32) < (self.x as u32) + (self.width as u32) && py >= self.y && (
        py as u32) < (self.y as u32) + (self.height as u32)
    }
}

/// The whole client state that the event loop owns.
pub struct ChatApp {
    pub input: String,
    pub messages: Vec<Message>,
    pub status: SessionState,
    pub show_thinking: bool,
    pub should_quit: bool,
    pub spinner_index: usize,
    pub main_scroll: ScrollState,
    pub thinking_scroll: ScrollState,
    pub total_tokens: u64,
    pub prompt_tokens: u64,
    pub completion_tokens: u64,
    pub chat_area: PaneRect,
    pub sidebar_area: PaneRect,
}

impl ChatApp {
    /// The event-driven part of the state, as a model value.
    pub open spec fn conv(self) -> ConvModel {
        ConvModel {
            messages: self.messages.deep_view(),
            status: self.status,
            total_tokens: self.total_tokens,
            prompt_tokens: self.prompt_tokens,
            completion_tokens: self.completion_tokens,
        }
    }

    /// The streaming invariant, on the transcript held by the app.
    pub open spec fn wf(self) -> bool {
        msgs_wf(self.messages.deep_view())
    }

    /// A fresh client: one complete placeholder message, a starting
    /// session, both panes following, nothing typed.
    pub fn new() -> (r: ChatApp)
        ensures
            r.conv() == (ConvModel {
                messages: seq![assistant_note_model(placeholder_text())],
                status: SessionState::Starting,
                total_tokens: 0,
                prompt_tokens: 0,
                completion_tokens: 0,
            }),
            r.input@ == Seq::<char>::empty(),
            !r.show_thinking,
            !r.should_quit,
            r.spinner_index == 0,
            r.main_scroll == (ScrollState { offset: 0, auto_follow: true }),
            r.thinking_scroll == (ScrollState { offset: 0, auto_follow: true }),
            r.chat_area == (PaneRect { x: 0, y: 0, width: 0, height: 0 }),
            r.sidebar_area == (PaneRect { x: 0, y: 0, width: 0, height: 0 }),
            r.wf(),
    {
        let mut messages: Vec<Message> = Vec::new();
        messages.push(
            Message {
                author: Author::Assistant,
                thinking: String::new(),
                content: "你好！我是你的智能助手 Alice。系统正在初始化...".to_owned(),
                is_complete: true,
            },
        );
        let r = ChatApp {
            input: String::new(),
            messages,
            status: SessionState::Starting,
            show_thinking: false,
            should_quit: false,
            spinner_index: 0,
            main_scroll: ScrollState::new(),
            thinking_scroll: ScrollState::new(),
            total_tokens: 0,
            prompt_tokens: 0,
            completion_tokens: 0,
            chat_area: PaneRect::empty(),
            sidebar_area: PaneRect::empty(),
        };
        proof {
            assert(r.messages.deep_view() =~~= seq![assistant_note_model(placeholder_text())]);
        }
        r
    }

    /// Applies one decoded backend event, exactly as `apply_model` says;
    /// nothing outside the conversation, the session state and the token
    /// counters moves. The streaming invariant is preserved whenever a
    /// diagnostic does not land in the middle of a streamed response.
    pub fn apply_event(&mut self, ev: BridgeEvent)
        ensures
            final(self).conv() == apply_model(old(self).conv(), ev@),
            final(self).input == old(self).input,
            final(self).show_thinking == old(self).show_thinking,
            final(self).should_quit == old(self).should_quit,
            final(self).spinner_index == old(self).spinner_index,
            final(self).main_scroll == old(self).main_scroll,
            final(self).thinking_scroll == old(self).thinking_scroll,
            final(self).chat_area == old(self).chat_area,
            final(self).sidebar_area == old(self).sidebar_area,
            old(self).wf() && ((ev@ matches EventModel::Error { .. }) ==> all_complete(
                old(self).conv().messages,
            )) ==> final(self).wf(),
    {
        let ghost pre = self.messages.deep_view();
        match ev {
            BridgeEvent::Status { content } => {
                if string_eq(&content, "ready") {
                    self.status = SessionState::Idle;
                    if self.messages.len() > 0 {
                        let mut last = self.messages.pop().unwrap();
                        let is_placeholder = last.author == Author::Assistant && string_eq(
                            &last.content,
                            "你好！我是你的智能助手 Alice。系统正在初始化...",
                        );
                        if is_placeholder {
                            last.content = "你好！我是你的智能助手 Alice。我已经准备好了！".to_owned();
                        }
                        self.messages.push(last);
                        proof {
                            if is_placeholder {
                                assert(self.messages.deep_view() =~~= pre.update(
                                    pre.len() - 1,
                                    MessageModel { content: greeting_text(), ..pre.last() },
                                ));
                            } else {
                                assert(self.messages.deep_view() =~~= pre);
                            }
                        }
                    }
                } else if string_eq(&content, "thinking") {
                    self.status = SessionState::Thinking;
                } else if string_eq(&content, "executing_tool") {
                    self.status = SessionState::ExecutingTool;
                } else if string_eq(&content, "done") {
                    self.status = SessionState::Idle;
                    if self.messages.len() > 0 {
                        let mut last = self.messages.pop().unwrap();
                        last.is_complete = true;
                        self.messages.push(last);
                        proof {
                            assert(self.messages.deep_view() =~~= pre.update(
                                pre.len() - 1,
                                MessageModel { is_complete: true, ..pre.last() },
                            ));
                        }
                    }
                }
            },
            BridgeEvent::Thinking { content } => {
                self.status = SessionState::Thinking;
                if self.messages.len() > 0 {
                    let mut last = self.messages.pop().unwrap();
                    let streaming = last.author == Author::Assistant && !last.is_complete;
                    if streaming {
                        last.thinking.append(content.as_str());
                    }
                    self.messages.push(last);
                    proof {
                        if streaming {
                            assert(self.messages.deep_view() =~~= pre.update(
                                pre.len() - 1,
                                MessageModel {
                                    thinking: pre.last().thinking + content@,
                                    ..pre.last()
                                },
                            ));
                        } else {
                            assert(self.messages.deep_view() =~~= pre);
                        }
                    }
                }
            },
            BridgeEvent::Content { content } => {
                self.status = SessionState::Responding;
                if self.messages.len() > 0 {
                    let mut last = self.messages.pop().unwrap();
                    let streaming = last.author == Author::Assistant && !last.is_complete;
                    if streaming {
                        last.content.append(content.as_str());
                    }
                    self.messages.push(last);
                    proof {
                        if streaming {
                            assert(self.messages.deep_view() =~~= pre.update(
                                pre.len() - 1,
                                MessageModel {
                                    content: pre.last().content + content@,
                                    ..pre.last()
                                },
                            ));
                        } else {
                            assert(self.messages.deep_view() =~~= pre);
                        }
                    }
                }
            },
            BridgeEvent::Tokens { total, prompt, completion } => {
                self.total_tokens = total;
                self.prompt_tokens = prompt;
                self.completion_tokens = completion;
            },
            BridgeEvent::Error { content } => {
                let mut text: String = "⚠️ ".to_owned();
                text.append(content.as_str());
                self.messages.push(
                    Message {
                        author: Author::Assistant,
                        thinking: String::new(),
                        content: text,
                        is_complete: true,
                    },
                );
                proof {
                    assert(self.messages.deep_view() =~~= pre.push(
                        assistant_note_model(warning_prefix() + content@),
                    ));
                }
            },
        }
        proof {
            assert(final(self).conv() =~~= apply_model(old(self).conv(), ev@));
            if old(self).wf() && ((ev@ matches EventModel::Error { .. }) ==> all_complete(pre)) {
                lemma_apply_preserves_wf(old(self).conv(), ev@);
            }
        }
    }

    /// Whether a send action is permitted: an idle session and an input
    /// that holds more than white space.
    pub open spec fn can_send(self) -> bool {
        self.status == SessionState::Idle && !blank(self.input@)
    }

    /// The first half of the send action: when sending is permitted, the
    /// trimmed input is appended as a complete user message and the raw
    /// text to dispatch is handed back; otherwise nothing at all changes.
    /// The input buffer is untouched either way: it is cleared only once
    /// the dispatch has succeeded.
    pub fn start_send(&mut self) -> (r: Option<String>)
        ensures
            send_started(*old(self), *final(self), r),
            old(self).wf() && all_complete(old(self).conv().messages) ==> final(self).wf(),
    {
        if is_blank(self.input.as_str()) {
            return Option::None;
        }
        if !(self.status == SessionState::Idle) {
            return Option::None;
        }
        let ghost pre = self.messages.deep_view();
        let raw = self.input.clone();
        let content = trim_spaces(self.input.as_str());
        self.messages.push(
            Message { author: Author::User, thinking: String::new(), content, is_complete: true },
        );
        proof {
            assert(self.messages.deep_view() =~~= pre.push(
                user_message_model(trimmed(old(self).input@)),
            ));
        }
        Option::Some(raw)
    }

    /// The second half of the send action, told whether writing the raw
    /// text to the backend succeeded: on success the input buffer is
    /// cleared, the session starts thinking, an open assistant placeholder
    /// is appended and the main pane follows the content again; on failure
    /// a complete error note is appended and the session state and the
    /// input buffer are left alone, since no request was delivered and the
    /// user may retry.
    pub fn finish_send(&mut self, write_ok: bool)
        ensures
            write_ok ==> final(self).conv().messages == old(self).conv().messages.push(
                open_assistant_model(),
            ) && final(self).status == SessionState::Thinking && final(self).main_scroll == (
            ScrollState { offset: old(self).main_scroll.offset, auto_follow: true })
                && final(self).input@ == Seq::<char>::empty(),
            !write_ok ==> final(self).conv().messages == old(self).conv().messages.push(
                assistant_note_model(send_failure_text()),
            ) && final(self).status == old(self).status
                && final(self).main_scroll == old(self).main_scroll
                && final(self).input == old(self).input,
            final(self).total_tokens == old(self).total_tokens,
            final(self).prompt_tokens == old(self).prompt_tokens,
            final(self).completion_tokens == old(self).completion_tokens,
            chrome_unchanged(*old(self), *final(self)),
            old(self).wf() && all_complete(old(self).conv().messages) ==> final(self).wf(),
    {
        let ghost pre = self.messages.deep_view();
        if write_ok {
            self.status = SessionState::Thinking;
            self.messages.push(
                Message {
                    author: Author::Assistant,
                    thinking: String::new(),
                    content: String::new(),
                    is_complete: false,
                },
            );
            self.main_scroll.auto_follow = true;
            self.input = String::new();
            proof {
                assert(self.messages.deep_view() =~~= pre.push(open_assistant_model()));
            }
        } else {
            self.messages.push(
                Message {
                    author: Author::Assistant,
                    thinking: String::new(),
                    content: "错误: 无法连接到后端引擎。".to_owned(),
                    is_complete: true,
                },
            );
            proof {
                assert(self.messages.deep_view() =~~= pre.push(
                    assistant_note_model(send_failure_text()),
                ));
            }
        }
    }

    /// Dispatches one keyboard action: quitting, toggling the sidebar,
    /// typing (only while idle), erasing, submitting, and line scrolling
    /// of whichever pane is active. Hands back the raw text to write to
    /// the backend when the action was an accepted submit.
    pub fn handle_key(&mut self, key: KeyInput) -> (r: Option<String>)
        ensures
            key == KeyInput::Quit ==> same_but_flags(*old(self), *final(self))
                && final(self).should_quit
                && final(self).show_thinking == old(self).show_thinking
                && r is None,
            key == KeyInput::ToggleThinking ==> same_but_flags(*old(self), *final(self))
                && final(self).should_quit == old(self).should_quit
                && final(self).show_thinking == !old(self).show_thinking
                && r is None,
            key matches KeyInput::Character(c) ==> same_but_input(*old(self), *final(self))
                && (if old(self).status == SessionState::Idle {
                    final(self).input@ == old(self).input@.push(c)
                } else {
                    final(self).input == old(self).input
                })
                && r is None,
            key == KeyInput::Backspace ==> same_but_input(*old(self), *final(self))
                && (if old(self).input@.len() > 0 {
                    final(self).input@ == old(self).input@.drop_last()
                } else {
                    final(self).input@ == old(self).input@
                })
                && r is None,
            key == KeyInput::Submit ==> send_started(*old(self), *final(self), r)
                && (old(self).wf() && all_complete(old(self).conv().messages) ==> final(self).wf()),
            key == KeyInput::ScrollUp ==> same_but_scroll(*old(self), *final(self))
                && scroll_moved(*old(self), *final(self), WheelDirection::Up)
                && r is None,
            key == KeyInput::ScrollDown ==> same_but_scroll(*old(self), *final(self))
                && scroll_moved(*old(self), *final(self), WheelDirection::Down)
                && r is None,
    {
        match key {
            KeyInput::Quit => {
                self.should_quit = true;
                Option::None
            },
            KeyInput::ToggleThinking => {
                self.show_thinking = !self.show_thinking;
                Option::None
            },
            KeyInput::Character(c) => {
                if self.status == SessionState::Idle {
                    push_char(&mut self.input, c);
                }
                Option::None
            },
            KeyInput::Backspace => {
                pop_char(&mut self.input);
                Option::None
            },
            KeyInput::Submit => self.start_send(),
            KeyInput::ScrollUp => {
                if self.show_thinking {
                    self.thinking_scroll.scroll_up();
                } else {
                    self.main_scroll.scroll_up();
                }
                Option::None
            },
            KeyInput::ScrollDown => {
                if self.show_thinking {
                    self.thinking_scroll.scroll_down();
                } else {
                    self.main_scroll.scroll_down();
                }
                Option::None
            },
        }
    }

    /// Dispatches one mouse wheel event at cell (`x`, `y`): the sidebar
    /// pane wins when visible and hit, else the transcript pane when hit,
    /// else the event is ignored.
    pub fn handle_mouse(&mut self, dir: WheelDirection, x: u16, y: u16)
        ensures
            same_but_scroll(*old(self), *final(self)),
            (old(self).show_thinking && old(self).sidebar_area.holds(x, y))
                ==> final(self).thinking_scroll == wheel_step(dir, old(self).thinking_scroll)
                && final(self).main_scroll == old(self).main_scroll,
            (!(old(self).show_thinking && old(self).sidebar_area.holds(x, y))
                && old(self).chat_area.holds(x, y))
                ==> final(self).main_scroll == wheel_step(dir, old(self).main_scroll)
                && final(self).thinking_scroll == old(self).thinking_scroll,
            (!(old(self).show_thinking && old(self).sidebar_area.holds(x, y))
                && !old(self).chat_area.holds(x, y))
                ==> final(self).main_scroll == old(self).main_scroll
                && final(self).thinking_scroll == old(self).thinking_scroll,
    {
        let in_sidebar = self.show_thinking && self.sidebar_area.hit(x, y);
        let in_chat = self.chat_area.hit(x, y);
        match dir {
            WheelDirection::Up => {
                if in_sidebar {
                    self.thinking_scroll.scroll_up();
                } else if in_chat {
                    self.main_scroll.scroll_up();
                }
            },
            WheelDirection::Down => {
                if in_sidebar {
                    self.thinking_scroll.scroll_down();
                } else if in_chat {
                    self.main_scroll.scroll_down();
                }
            },
        }
    }

    /// Advances the spinner by one animation frame; the position cycles
    /// through ten frames.
    pub fn on_tick(&mut self)
        ensures
            final(self).spinner_index == if old(self).spinner_index >= 9 {
                0
            } else {
                old(self).spinner_index + 1
            },
            old(self).spinner_index < 10 ==> final(self).spinner_index == (old(self).spinner_index
                + 1) % 10,
            same_but_spinner(*old(self), *final(self)),
    {
        self.spinner_index = if self.spinner_index >= 9 {
            0
        } else {
            self.spinner_index + 1
        };
    }

    /// The display lines of the whole transcript at the given wrap width:
    /// for each message a label line, the wrapped body and a blank
    /// separator line.
    pub fn transcript_lines(&self, width: usize) -> (r: Vec<String>)
        ensures
            r.deep_view() == transcript_model(
                self.messages.deep_view(),
                width as nat,
                spinner_glyph(self.spinner_index as int),
            ),
    {
        let spin = self.spinner_frame();
        let n = self.messages.len();
        let ghost dv = self.messages.deep_view();
        let ghost g = spinner_glyph(self.spinner_index as int);
        let mut out: Vec<String> = Vec::new();
        let mut i: usize = 0;
        proof {
            assert(out.deep_view() =~~= transcript_model(dv.take(0), width as nat, g));
        }
        while i < n
            invariant
                i <= n,
                n == self.messages@.len(),
                dv == self.messages.deep_view(),
                g == spinner_glyph(self.spinner_index as int),
                spin@ == g,
                out.deep_view() == transcript_model(dv.take(i as int), width as nat, g),
            decreases n - i,
        {
            let ghost pre = out.deep_view();
            let m = &self.messages[i];
            proof {
                assert(m@ == dv[i as int]);
            }
            let label: String = if m.author == Author::User {
                " 你: ".to_owned()
            } else {
                " Alice: ".to_owned()
            };
            out.push(label);
            let body: String = if m.content.as_str().is_empty() && !m.is_complete && m.author
                == Author::Assistant {
                let mut b = spin.to_owned();
                b.append(" 正在处理中...");
                b
            } else {
                m.content.clone()
            };
            proof {
                assert(body@ == message_body(dv[i as int], g));
            }
            let mut block = wrap_text(body.as_str(), width);
            out.append(&mut block);
            out.push(String::new());
            proof {
                assert(dv.take(i + 1).drop_last() =~= dv.take(i as int));
                assert(dv.take(i + 1).last() == dv[i as int]);
                assert(out.deep_view() =~~= pre + message_lines(dv[i as int], width as nat, g));
            }
            i += 1;
        }
        proof {
            assert(dv.take(n as int) =~= dv);
        }
        out
    }

    /// The display lines of the thinking sidebar at the given wrap width:
    /// the newest thinking text, or a fixed note when none exists yet.
    pub fn sidebar_lines(&self, width: usize) -> (r: Vec<String>)
        ensures
            r.deep_view() == wrap_model(
                latest_thinking(self.messages.deep_view()),
                width as nat,
            ),
    {
        let n = self.messages.len();
        let ghost dv = self.messages.deep_view();
        let mut i: usize = n;
        proof {
            assert(dv.take(n as int) =~= dv);
        }
        while i > 0
            invariant
                i <= n,
                n == self.messages@.len(),
                dv == self.messages.deep_view(),
                latest_thinking(dv) == latest_thinking(dv.take(i as int)),
            decreases i,
        {
            let m = &self.messages[i - 1];
            proof {
                assert(m@ == dv[i - 1]);
                assert(dv.take(i as int).drop_last() =~= dv.take(i - 1));
                assert(dv.take(i as int).last() == dv[i - 1]);
            }
            if !m.thinking.as_str().is_empty() {
                proof {
                    assert(latest_thinking(dv) == m.thinking@);
                }
                return wrap_text(m.thinking.as_str(), width);
            }
            i -= 1;
        }
        proof {
            assert(dv.take(0) =~= Seq::<MessageModel>::empty());
        }
        wrap_text("暂无思考过程...", width)
    }

    /// The glyph of the spinner's current frame.
    pub fn spinner_frame(&self) -> (r: &'static str)
        ensures
            r@ == spinner_glyph(self.spinner_index as int),
    {
        match self.spinner_index {
            0 => "⠋",
            1 => "⠙",
            2 => "⠹",
            3 => "⠸",
            4 => "⠼",
            5 => "⠴",
            6 => "⠦",
            7 => "⠧",
            8 => "⠇",
            _ => "⠏",
        }
    }
}

/// The label line put above a message.
pub open spec fn author_label(a: Author) -> Seq<char> {
    if a == Author::User {
        " 你: "@
    } else {
        " Alice: "@
    }
}

/// The body text shown for a message: an open assistant message with
/// nothing streamed yet shows the spinner and a working note instead.
pub open spec fn message_body(m: MessageModel, spin: Seq<char>) -> Seq<char> {
    if m.content.len() == 0 && !m.is_complete && m.author == Author::Assistant {
        spin + " 正在处理中..."@
    } else {
        m.content
    }
}

/// The display lines of one message: its label line, its wrapped body,
/// and a blank separator line.
pub open spec fn message_lines(m: MessageModel, w: nat, spin: Seq<char>) -> Seq<Seq<char>> {
    seq![author_label(m.author)] + wrap_model(message_body(m, spin), w) + seq![
        Seq::<char>::empty(),
    ]
}

/// The display lines of the whole transcript, message after message.
pub open spec fn transcript_model(msgs: Seq<MessageModel>, w: nat, spin: Seq<char>) -> Seq<
    Seq<char>,
>
    decreases msgs.len(),
{
    if msgs.len() == 0 {
        Seq::<Seq<char>>::empty()
    } else {
        transcript_model(msgs.drop_last(), w, spin) + message_lines(msgs.last(), w, spin)
    }
}

/// The thinking text of the newest message that has any, or a fixed note
/// when none does.
pub open spec fn latest_thinking(msgs: Seq<MessageModel>) -> Seq<char>
    decreases msgs.len(),
{
    if msgs.len() == 0 {
        "暂无思考过程..."@
    } else if msgs.last().thinking.len() > 0 {
        msgs.last().thinking
    } else {
        latest_thinking(msgs.drop_last())
    }
}

/// The animation glyph for one spinner position.
pub open spec fn spinner_glyph(i: int) -> Seq<char> {
    if i == 0 {
        "⠋"@
    } else if i == 1 {
        "⠙"@
    } else if i == 2 {
        "⠹"@
    } else if i == 3 {
        "⠸"@
    } else if i == 4 {
        "⠼"@
    } else if i == 5 {
        "⠴"@
    } else if i == 6 {
        "⠦"@
    } else if i == 7 {
        "⠧"@
    } else if i == 8 {
        "⠇"@
    } else {
        "⠏"@
    }
}

/// Whether everything except the two boolean flags is the same.
pub open spec fn same_but_flags(pre: ChatApp, post: ChatApp) -> bool {
    &&& post.conv() == pre.conv()
    &&& post.input == pre.input
    &&& post.spinner_index == pre.spinner_index
    &&& post.main_scroll == pre.main_scroll
    &&& post.thinking_scroll == pre.thinking_scroll
    &&& post.chat_area == pre.chat_area
    &&& post.sidebar_area == pre.sidebar_area
}

/// Whether everything except the input buffer is the same.
pub open spec fn same_but_input(pre: ChatApp, post: ChatApp) -> bool {
    &&& post.conv() == pre.conv()
    &&& post.show_thinking == pre.show_thinking
    &&& post.should_quit == pre.should_quit
    &&& post.spinner_index == pre.spinner_index
    &&& post.main_scroll == pre.main_scroll
    &&& post.thinking_scroll == pre.thinking_scroll
    &&& post.chat_area == pre.chat_area
    &&& post.sidebar_area == pre.sidebar_area
}

/// Whether everything except the two pane scroll states is the same.
pub open spec fn same_but_scroll(pre: ChatApp, post: ChatApp) -> bool {
    &&& post.conv() == pre.conv()
    &&& post.input == pre.input
    &&& post.show_thinking == pre.show_thinking
    &&& post.should_quit == pre.should_quit
    &&& post.spinner_index == pre.spinner_index
    &&& post.chat_area == pre.chat_area
    &&& post.sidebar_area == pre.sidebar_area
}

/// Whether everything except the spinner position is the same.
pub open spec fn same_but_spinner(pre: ChatApp, post: ChatApp) -> bool {
    &&& post.conv() == pre.conv()
    &&& post.input == pre.input
    &&& post.show_thinking == pre.show_thinking
    &&& post.should_quit == pre.should_quit
    &&& post.main_scroll == pre.main_scroll
    &&& post.thinking_scroll == pre.thinking_scroll
    &&& post.chat_area == pre.chat_area
    &&& post.sidebar_area == pre.sidebar_area
}

/// Whether the active pane, and only it, moved one wheel step.
pub open spec fn scroll_moved(pre: ChatApp, post: ChatApp, dir: WheelDirection) -> bool {
    if pre.show_thinking {
        post.thinking_scroll == wheel_step(dir, pre.thinking_scroll) && post.main_scroll
            == pre.main_scroll
    } else {
        post.main_scroll == wheel_step(dir, pre.main_scroll) && post.thinking_scroll
            == pre.thinking_scroll
    }
}

/// What an attempted send leaves behind: when sending is permitted (an idle
/// session, a non-blank input) the trimmed input stands appended as a
/// complete user message and the raw text is handed back, while the input
/// buffer waits for the dispatch outcome; otherwise the whole state is
/// untouched.
pub open spec fn send_started(pre: ChatApp, post: ChatApp, r: Option<String>) -> bool {
    if pre.can_send() {
        &&& (r matches Some(raw) && raw@ == pre.input@)
        &&& post.input == pre.input
        &&& post.conv().messages == pre.conv().messages.push(
            user_message_model(trimmed(pre.input@)),
        )
        &&& post.status == pre.status
        &&& post.total_tokens == pre.total_tokens
        &&& post.prompt_tokens == pre.prompt_tokens
        &&& post.completion_tokens == pre.completion_tokens
        &&& post.main_scroll == pre.main_scroll
        &&& chrome_unchanged(pre, post)
    } else {
        post == pre && r is None
    }
}

/// Whether the sidebar flag, the quit flag, the spinner, the thinking
/// pane and the stored areas are the same.
pub open spec fn chrome_unchanged(pre: ChatApp, post: ChatApp) -> bool {
    &&& post.show_thinking == pre.show_thinking
    &&& post.should_quit == pre.should_quit
    &&& post.spinner_index == pre.spinner_index
    &&& post.thinking_scroll == pre.thinking_scroll
    &&& post.chat_area == pre.chat_area
    &&& post.sidebar_area == pre.sidebar_area
}

} // verus!
