use vstd::prelude::*;

use crate::strutil::blank;
use crate::strutil::is_blank;
use crate::strutil::string_eq;

verus! {

/// One decoded unit of backend output: a status change, a piece of streamed
/// thinking or answer text, a token count report, or a diagnostic.
pub enum BridgeEvent {
    Status { content: String },
    Thinking { content: String },
    Content { content: String },
    Tokens { total: u64, prompt: u64, completion: u64 },
    Error { content: String },
}

/// The shape of a bridge event over character sequences, for contracts.
pub enum EventModel {
    Status { content: Seq<char> },
    Thinking { content: Seq<char> },
    Content { content: Seq<char> },
    Tokens { total: u64, prompt: u64, completion: u64 },
    Error { content: Seq<char> },
}

impl View for BridgeEvent {
    type V = EventModel;

    open spec fn view(&self) -> EventModel {
        match self {
            BridgeEvent::Status { content } => EventModel::Status { content: content@ },
            BridgeEvent::Thinking { content } => EventModel::Thinking { content: content@ },
            BridgeEvent::Content { content } => EventModel::Content { content: content@ },
            BridgeEvent::Tokens { total, prompt, completion } => EventModel::Tokens {
                total: *total,
                prompt: *prompt,
                completion: *completion,
            },
            BridgeEvent::Error { content } => EventModel::Error { content: content@ },
        }
    }
}

/// What reading the string field `key` of the JSON object on `line` yields:
/// `None` when `line` is not a JSON object, has no field `key`, or holds a
/// non-string value there.
pub uninterp spec fn json_str_field(line: Seq<char>, key: Seq<char>) -> Option<Seq<char>>;

/// What reading the unsigned integer field `key` of the JSON object on
/// `line` yields, under the same conventions as `json_str_field`.
pub uninterp spec fn json_u64_field(line: Seq<char>, key: Seq<char>) -> Option<u64>;

/// Relies on `serde_json::from_str::<Value>`, `Value::get` and
/// `Value::as_str`: parsing one line of JSON and reading one string field of
/// it is a function of the line and the key alone.
#[verifier::external_body]
fn get_str_field(line: &str, key: &str) -> (r: Option<String>)
    ensures
        r matches Some(s) ==> json_str_field(line@, key@) == Some(s@),
        r is None ==> json_str_field(line@, key@) is None,
{
    match serde_json::from_str::<serde_json::Value>(line) {
        Ok(v) => v.get(key).and_then(|f| f.as_str().map(|x| x.to_string())),
        Err(_) => None,
    }
}

/// Relies on `serde_json::from_str::<Value>`, `Value::get` and
/// `Value::as_u64`: parsing one line of JSON and reading one unsigned
/// integer field of it is a function of the line and the key alone.
#[verifier::external_body]
fn get_u64_field(line: &str, key: &str) -> (r: Option<u64>)
    ensures
        r == json_u64_field(line@, key@),
{
    match serde_json::from_str::<serde_json::Value>(line) {
        Ok(v) => v.get(key).and_then(|f| f.as_u64()),
        Err(_) => None,
    }
}

/// What decoding one line of the backend's output stream yields: the line
/// must be a JSON object whose `type` field selects the event, with a string
/// `content` field for status, thinking, content and error events, and
/// three unsigned integer fields for a tokens event. Anything else fails.
pub open spec fn decode_model(line: Seq<char>) -> Option<EventModel> {
    match json_str_field(line, "type"@) {
        Option::None => Option::None,
        Option::Some(tag) => if tag == "status"@ || tag == "thinking"@ || tag == "content"@ || tag
            == "error"@ {
            match json_str_field(line, "content"@) {
                Option::None => Option::None,
                Option::Some(c) => if tag == "status"@ {
                    Option::Some(EventModel::Status { content: c })
                } else if tag == "thinking"@ {
                    Option::Some(EventModel::Thinking { content: c })
                } else if tag == "content"@ {
                    Option::Some(EventModel::Content { content: c })
                } else {
                    Option::Some(EventModel::Error { content: c })
                },
            }
        } else if tag == "tokens"@ {
            match (json_u64_field(line, "total"@), json_u64_field(line, "prompt"@), json_u64_field(
                line,
                "completion"@,
            )) {
                (Option::Some(t), Option::Some(p), Option::Some(c)) => Option::Some(
                    EventModel::Tokens { total: t, prompt: p, completion: c },
                ),
                _ => Option::None,
            }
        } else {
            Option::None
        },
    }
}

/// Decodes one line read from the backend's output stream; a line that does
/// not follow the wire protocol yields `None` and is dropped by the caller.
pub fn decode_line(line: &str) -> (r: Option<BridgeEvent>)
    ensures
        match r {
            Option::Some(ev) => decode_model(line@) == Some(ev@),
            Option::None => decode_model(line@) is None,
        },
{
    let tag = match get_str_field(line, "type") {
        Option::Some(t) => t,
        Option::None => {
            return Option::None;
        },
    };
    if string_eq(&tag, "status") || string_eq(&tag, "thinking") || string_eq(&tag, "content")
        || string_eq(&tag, "error") {
        match get_str_field(line, "content") {
            Option::Some(c) => {
                if string_eq(&tag, "status") {
                    Option::Some(BridgeEvent::Status { content: c })
                } else if string_eq(&tag, "thinking") {
                    Option::Some(BridgeEvent::Thinking { content: c })
                } else if string_eq(&tag, "content") {
                    Option::Some(BridgeEvent::Content { content: c })
                } else {
                    Option::Some(BridgeEvent::Error { content: c })
                }
            },
            Option::None => Option::None,
        }
    } else if string_eq(&tag, "tokens") {
        let total = match get_u64_field(line, "total") {
            Option::Some(v) => v,
            Option::None => {
                return Option::None;
            },
        };
        let prompt = match get_u64_field(line, "prompt") {
            Option::Some(v) => v,
            Option::None => {
                return Option::None;
            },
        };
        let completion = match get_u64_field(line, "completion") {
            Option::Some(v) => v,
            Option::None => {
                return Option::None;
            },
        };
        Option::Some(BridgeEvent::Tokens { total, prompt, completion })
    } else {
        Option::None
    }
}

/// The warning text that carries one line of the backend's error stream
/// into the conversation.
pub open spec fn stderr_text(line: Seq<char>) -> Seq<char> {
    "Backend stderr: "@ + line
}

/// The event synthesized from one line of the backend's error stream: a
/// blank line is dropped, any other line is carried verbatim, behind a
/// fixed prefix, as an error event.
pub fn stderr_event(line: &str) -> (r: Option<BridgeEvent>)
    ensures
        blank(line@) <==> r is None,
        !blank(line@) ==> (r matches Some(ev) && ev@ == (EventModel::Error {
            content: stderr_text(line@),
        })),
{
    if is_blank(line) {
        Option::None
    } else {
        let mut content: String = "Backend stderr: ".to_owned();
        content.append(line);
        Option::Some(BridgeEvent::Error { content })
    }
}

} // verus!
