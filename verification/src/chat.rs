//! The chat webhook: its message envelope and the reading of its reply.

use vstd::prelude::*;
use crate::decimal::{decimal, decimal_text};
use crate::json::{json_string, quote};

verus! {

/// The body of a text message.
#[derive(Debug, PartialEq, Eq)]
pub struct Content {
    pub text: String,
}

/// The envelope that the chat webhook accepts.
#[derive(Debug, PartialEq, Eq)]
pub struct ChatMessage {
    pub msg_type: String,
    pub content: Content,
}

/// Why a chat post did not deliver.
#[derive(Debug, PartialEq, Eq)]
pub enum ChatError {
    /// The webhook answered with a status outside 200..=299.
    Status(u16),
    /// The request never got an answer.
    Transport(String),
}

/// The mathematical value of a [`ChatError`].
pub enum ChatErrorView {
    Status(u16),
    Transport(Seq<char>),
}

impl View for ChatError {
    type V = ChatErrorView;

    open spec fn view(&self) -> ChatErrorView {
        match self {
            ChatError::Status(code) => ChatErrorView::Status(*code),
            ChatError::Transport(cause) => ChatErrorView::Transport(cause@),
        }
    }
}

/// The message body around two JSON string literals: the message type and
/// the text.
pub open spec fn chat_body(msg_type: Seq<char>, text: Seq<char>) -> Seq<char> {
    "{\"msg_type\":"@ + msg_type + ",\"content\":{\"text\":"@ + text + "}}"@
}

/// Whether an HTTP status reports success.
pub open spec fn is_success_spec(status: u16) -> bool {
    200 <= status <= 299
}

/// The diagnostic for a chat post that did not deliver.
pub open spec fn chat_diagnostic(e: ChatErrorView) -> Seq<char> {
    match e {
        ChatErrorView::Status(code) => "chat post failed: webhook returned status "@ + decimal(
            code as nat,
        ),
        ChatErrorView::Transport(cause) => "chat post failed: "@ + cause,
    }
}

/// Whether an HTTP status reports success.
pub fn is_success(status: u16) -> (ok: bool)
    ensures
        ok == is_success_spec(status),
{
    200 <= status && status <= 299
}

/// Reads the webhook's reply: its body is never looked at, and any status
/// outside 200..=299 is an error that carries the status.
pub fn chat_result(status: u16) -> (r: Result<(), ChatError>)
    ensures
        r is Ok <==> is_success_spec(status),
        r matches Err(e) ==> e@ == ChatErrorView::Status(status),
{
    if is_success(status) {
        Ok(())
    } else {
        Err(ChatError::Status(status))
    }
}

/// Frames the message body around two JSON string literals.
pub fn frame_chat_body(msg_type: &str, text: &str) -> (body: String)
    ensures
        body@ == chat_body(msg_type@, text@),
{
    String::from_str("{\"msg_type\":").concat(msg_type).concat(",\"content\":{\"text\":").concat(
        text,
    ).concat("}}")
}

impl ChatMessage {
    /// The text envelope around `text`, which is kept as it is.
    pub fn text(text: &str) -> (msg: ChatMessage)
        ensures
            msg.msg_type@ == "text"@,
            msg.content.text@ == text@,
    {
        ChatMessage {
            msg_type: String::from_str("text"),
            content: Content { text: String::from_str(text) },
        }
    }

    /// The message body on the wire.
    pub open spec fn wire(&self) -> Seq<char> {
        chat_body(json_string(self.msg_type@), json_string(self.content.text@))
    }

    /// Writes the message body: each field quoted by the JSON writer, in
    /// the frame of the wire format. The writer refuses no string, so a
    /// body always comes back.
    pub fn to_json(&self) -> (r: Option<String>)
        ensures
            r is Some,
            r matches Some(body) ==> body@ == self.wire(),
    {
        let msg_type = match quote(self.msg_type.as_str()) {
            Ok(literal) => literal,
            Err(_) => {
                return None;
            },
        };
        let text = match quote(self.content.text.as_str()) {
            Ok(literal) => literal,
            Err(_) => {
                return None;
            },
        };
        Some(frame_chat_body(msg_type.as_str(), text.as_str()))
    }
}

impl ChatError {
    /// The diagnostic for the operator.
    pub fn describe(&self) -> (text: String)
        ensures
            text@ == chat_diagnostic(self@),
    {
        match self {
            ChatError::Status(code) => {
                let digits = decimal_text(*code);
                String::from_str("chat post failed: webhook returned status ").concat(
                    digits.as_str(),
                )
            },
            ChatError::Transport(cause) => String::from_str("chat post failed: ").concat(
                cause.as_str(),
            ),
        }
    }
}

} // verus!
