//! The completion endpoint: its request, its credentials header and the
//! reading of its reply.

use vstd::prelude::*;
use crate::chat::is_success;
use crate::chat::is_success_spec;
use crate::decimal::{decimal, decimal_text};
use crate::json::{
    decode,
    decoded_members,
    error_text,
    json_string,
    quote,
    string_member,
    string_members,
};

verus! {

/// The variable part of a completion request.
#[derive(Debug, PartialEq, Eq)]
pub struct Inputs {
    pub query: String,
}

/// The request that asks the completion endpoint about one alert.
#[derive(Debug, PartialEq, Eq)]
pub struct CompletionRequest {
    pub inputs: Inputs,
    pub response_mode: String,
    pub user: String,
    pub query: String,
}

/// Why a completion call gave no answer.
#[derive(Debug, PartialEq, Eq)]
pub enum ModelError {
    /// The request never got an answer.
    Transport(String),
    /// The endpoint answered with a status outside 200..=299.
    Status(u16),
    /// The reply is not a JSON document.
    Decode(String),
    /// The reply is no JSON object with a string under `answer`.
    MissingAnswer,
}

/// The mathematical value of a [`ModelError`].
pub enum ModelErrorView {
    Transport(Seq<char>),
    Status(u16),
    Decode(Seq<char>),
    MissingAnswer,
}

impl View for ModelError {
    type V = ModelErrorView;

    open spec fn view(&self) -> ModelErrorView {
        match self {
            ModelError::Transport(cause) => ModelErrorView::Transport(cause@),
            ModelError::Status(code) => ModelErrorView::Status(*code),
            ModelError::Decode(cause) => ModelErrorView::Decode(cause@),
            ModelError::MissingAnswer => ModelErrorView::MissingAnswer,
        }
    }
}

/// The cause of a failed completion call, as the chat text shows it.
pub open spec fn model_cause(e: ModelErrorView) -> Seq<char> {
    match e {
        ModelErrorView::Transport(cause) => "transport failure: "@ + cause,
        ModelErrorView::Status(code) => "completion endpoint returned status "@ + decimal(
            code as nat,
        ),
        ModelErrorView::Decode(cause) => "undecodable response: "@ + cause,
        ModelErrorView::MissingAnswer => "response holds no answer"@,
    }
}

/// The value of the `Authorization` header for a key.
pub open spec fn bearer(key: Seq<char>) -> Seq<char> {
    "Bearer "@ + key
}

/// The request body around four JSON string literals: the alert, the
/// response mode, the user and the instruction.
pub open spec fn completion_body(
    alert: Seq<char>,
    response_mode: Seq<char>,
    user: Seq<char>,
    query: Seq<char>,
) -> Seq<char> {
    "{\"inputs\":{\"query\":"@ + alert + "},\"response_mode\":"@ + response_mode
        + ",\"user\":"@ + user + ",\"query\":"@ + query + "}"@
}

/// The answer that a reply body carries: the string under `answer` of the
/// JSON object it decodes to. Other members are ignored.
pub open spec fn answer_of(body: Seq<char>) -> Option<Seq<char>> {
    match decoded_members(body) {
        Some(members) => if members.contains_key("answer"@) {
            Some(members["answer"@])
        } else {
            None
        },
        None => None,
    }
}

impl CompletionRequest {
    /// The request for an alert: the alert goes in as the inner query, the
    /// other fields are fixed.
    pub fn for_alert(alert: &str) -> (req: CompletionRequest)
        ensures
            req.inputs.query@ == alert@,
            req.response_mode@ == "blocking"@,
            req.user@ == "zabbix"@,
            req.query@ == "please help resolve the problem"@,
    {
        CompletionRequest {
            inputs: Inputs { query: String::from_str(alert) },
            response_mode: String::from_str("blocking"),
            user: String::from_str("zabbix"),
            query: String::from_str("please help resolve the problem"),
        }
    }

    /// The request body on the wire.
    pub open spec fn wire(&self) -> Seq<char> {
        completion_body(
            json_string(self.inputs.query@),
            json_string(self.response_mode@),
            json_string(self.user@),
            json_string(self.query@),
        )
    }

    /// Writes the request body: each field quoted by the JSON writer, in
    /// the frame of the wire format. The writer refuses no string, so a
    /// body always comes back.
    pub fn to_json(&self) -> (r: Option<String>)
        ensures
            r is Some,
            r matches Some(body) ==> body@ == self.wire(),
    {
        let alert = match quote(self.inputs.query.as_str()) {
            Ok(literal) => literal,
            Err(_) => {
                return None;
            },
        };
        let response_mode = match quote(self.response_mode.as_str()) {
            Ok(literal) => literal,
            Err(_) => {
                return None;
            },
        };
        let user = match quote(self.user.as_str()) {
            Ok(literal) => literal,
            Err(_) => {
                return None;
            },
        };
        let query = match quote(self.query.as_str()) {
            Ok(literal) => literal,
            Err(_) => {
                return None;
            },
        };
        Some(
            frame_completion_body(
                alert.as_str(),
                response_mode.as_str(),
                user.as_str(),
                query.as_str(),
            ),
        )
    }
}

/// Frames the request body around four JSON string literals.
pub fn frame_completion_body(
    alert: &str,
    response_mode: &str,
    user: &str,
    query: &str,
) -> (body: String)
    ensures
        body@ == completion_body(alert@, response_mode@, user@, query@),
{
    String::from_str("{\"inputs\":{\"query\":").concat(alert).concat(
        "},\"response_mode\":",
    ).concat(response_mode).concat(",\"user\":").concat(user).concat(",\"query\":").concat(
        query,
    ).concat("}")
}

/// Builds the value of the `Authorization` header.
pub fn authorization_header(key: &str) -> (value: String)
    ensures
        value@ == bearer(key@),
{
    String::from_str("Bearer ").concat(key)
}

/// Takes the answer out of a decoded reply, verbatim.
pub fn answer_in(doc: &serde_json::Value) -> (r: Result<String, ModelError>)
    ensures
        match r {
            Ok(answer) => string_members(*doc).contains_key("answer"@) && answer@
                == string_members(*doc)["answer"@],
            Err(e) => !string_members(*doc).contains_key("answer"@) && e@
                == ModelErrorView::MissingAnswer,
        },
{
    match string_member(doc, "answer") {
        Some(answer) => Ok(answer),
        None => Err(ModelError::MissingAnswer),
    }
}

/// Reads the answer out of a reply body.
pub fn parse_answer(body: &str) -> (r: Result<String, ModelError>)
    ensures
        match r {
            Ok(answer) => answer_of(body@) == Some(answer@),
            Err(ModelError::Decode(_)) => decoded_members(body@) is None,
            Err(ModelError::MissingAnswer) => decoded_members(body@) is Some && answer_of(body@)
                is None,
            Err(_) => false,
        },
{
    match decode(body) {
        Ok(doc) => answer_in(&doc),
        Err(e) => Err(ModelError::Decode(error_text(&e))),
    }
}

/// Reads the endpoint's reply: a status outside 200..=299 is an error that
/// carries the status, whatever the body; otherwise the body decides.
pub fn completion_result(status: u16, body: &str) -> (r: Result<String, ModelError>)
    ensures
        match r {
            Ok(answer) => is_success_spec(status) && answer_of(body@) == Some(answer@),
            Err(ModelError::Status(code)) => !is_success_spec(status) && code == status,
            Err(ModelError::Decode(_)) => is_success_spec(status) && decoded_members(body@)
                is None,
            Err(ModelError::MissingAnswer) => is_success_spec(status) && decoded_members(body@)
                is Some && answer_of(body@) is None,
            Err(ModelError::Transport(_)) => false,
        },
{
    if is_success(status) {
        parse_answer(body)
    } else {
        Err(ModelError::Status(status))
    }
}

impl ModelError {
    /// The cause, as the chat text shows it.
    pub fn describe(&self) -> (text: String)
        ensures
            text@ == model_cause(self@),
    {
        match self {
            ModelError::Transport(cause) => String::from_str("transport failure: ").concat(
                cause.as_str(),
            ),
            ModelError::Status(code) => {
                let digits = decimal_text(*code);
                String::from_str("completion endpoint returned status ").concat(digits.as_str())
            },
            ModelError::Decode(cause) => String::from_str("undecodable response: ").concat(
                cause.as_str(),
            ),
            ModelError::MissingAnswer => String::from_str("response holds no answer"),
        }
    }
}

} // verus!
