//! One invocation as a state machine. The caller performs each action that
//! a step hands out and reports what came of it as the next event.

use vstd::prelude::*;
use crate::chat::{chat_diagnostic, ChatError, ChatErrorView};
use crate::classify::{check_input, check_input_spec, input_diagnostic, AlertKind};
use crate::completion::{model_cause, ModelError, ModelErrorView};
use crate::compose::{
    compose_model_error,
    compose_success,
    compose_timeout,
    model_error_text,
    success_text,
    timeout_text,
};

verus! {

/// Where an invocation stands.
#[derive(Clone, Copy, Debug, PartialEq, Eq, Structural)]
pub enum Phase {
    /// Nothing has happened yet.
    Start,
    /// The completion call is under way.
    CallModel,
    /// The chat post is under way.
    PostChat,
    /// The chat post was delivered.
    Done,
    /// The invocation ended with an error.
    Fail,
}

/// What the caller reports to the machine.
#[derive(Debug, PartialEq, Eq)]
pub enum Event {
    /// The invocation begins.
    Begin,
    /// The completion call answered within its bound.
    ModelAnswered(String),
    /// The completion call failed within its bound.
    ModelFailed(ModelError),
    /// The bound elapsed before the completion call returned.
    ModelTimedOut,
    /// The chat webhook accepted the post.
    ChatDelivered,
    /// The chat post did not deliver.
    ChatFailed(ChatError),
}

/// The mathematical value of an [`Event`].
pub enum EventView {
    Begin,
    ModelAnswered(Seq<char>),
    ModelFailed(ModelErrorView),
    ModelTimedOut,
    ChatDelivered,
    ChatFailed(ChatErrorView),
}

impl View for Event {
    type V = EventView;

    open spec fn view(&self) -> EventView {
        match self {
            Event::Begin => EventView::Begin,
            Event::ModelAnswered(answer) => EventView::ModelAnswered(answer@),
            Event::ModelFailed(e) => EventView::ModelFailed(e@),
            Event::ModelTimedOut => EventView::ModelTimedOut,
            Event::ChatDelivered => EventView::ChatDelivered,
            Event::ChatFailed(e) => EventView::ChatFailed(e@),
        }
    }
}

/// What the machine asks of the caller.
#[derive(Debug, PartialEq, Eq)]
pub enum Action {
    /// Post the alert to the completion endpoint and wait for the reply no
    /// longer than the bound.
    CallModel { alert: String, timeout_secs: u64 },
    /// Post the text to the chat webhook.
    PostChat { text: String },
    /// End the process with the code, after printing the diagnostic if it
    /// is not empty.
    Exit { code: i32, diagnostic: String },
    /// The event does not belong to the current phase: do nothing.
    Idle,
}

/// The mathematical value of an [`Action`].
pub enum ActionView {
    CallModel { alert: Seq<char>, timeout_secs: u64 },
    PostChat { text: Seq<char> },
    Exit { code: i32, diagnostic: Seq<char> },
    Idle,
}

impl View for Action {
    type V = ActionView;

    open spec fn view(&self) -> ActionView {
        match self {
            Action::CallModel { alert, timeout_secs } => ActionView::CallModel {
                alert: alert@,
                timeout_secs: *timeout_secs,
            },
            Action::PostChat { text } => ActionView::PostChat { text: text@ },
            Action::Exit { code, diagnostic } => ActionView::Exit {
                code: *code,
                diagnostic: diagnostic@,
            },
            Action::Idle => ActionView::Idle,
        }
    }
}

/// The state of one invocation: the phase, and what was fixed at its start.
pub struct Orchestrator {
    phase: Phase,
    alert: String,
    user_tag: String,
    timeout_secs: u64,
}

/// The mathematical value of an [`Orchestrator`].
pub struct Machine {
    pub phase: Phase,
    pub alert: Seq<char>,
    pub user_tag: Seq<char>,
    pub timeout_secs: u64,
}

impl View for Orchestrator {
    type V = Machine;

    closed spec fn view(&self) -> Machine {
        Machine {
            phase: self.phase,
            alert: self.alert@,
            user_tag: self.user_tag@,
            timeout_secs: self.timeout_secs,
        }
    }
}

/// The exit code of a delivered alert.
pub const EXIT_OK: i32 = 0;

/// The exit code of every surfaced error.
pub const EXIT_ERROR: i32 = 1;

/// The machine in another phase, all else kept.
pub open spec fn at(m: Machine, phase: Phase) -> Machine {
    Machine { phase, ..m }
}

/// The first transition: the alert's kind selects the path.
pub open spec fn begin_spec(m: Machine) -> (Machine, ActionView) {
    match check_input_spec(m.alert) {
        Ok(AlertKind::Problem) => (
            at(m, Phase::CallModel),
            ActionView::CallModel { alert: m.alert, timeout_secs: m.timeout_secs },
        ),
        Ok(_) => (at(m, Phase::PostChat), ActionView::PostChat { text: m.alert }),
        Err(e) => (
            at(m, Phase::Fail),
            ActionView::Exit { code: EXIT_ERROR, diagnostic: input_diagnostic(e) },
        ),
    }
}

/// The transition function: the next state and the action for an event.
/// Whatever the completion call came to, the next action is a chat post.
/// An event that the phase does not wait for changes nothing.
pub open spec fn step_spec(m: Machine, event: EventView) -> (Machine, ActionView) {
    match (m.phase, event) {
        (Phase::Start, EventView::Begin) => begin_spec(m),
        (Phase::CallModel, EventView::ModelAnswered(answer)) => (
            at(m, Phase::PostChat),
            ActionView::PostChat { text: success_text(m.alert, answer, m.user_tag) },
        ),
        (Phase::CallModel, EventView::ModelFailed(e)) => (
            at(m, Phase::PostChat),
            ActionView::PostChat { text: model_error_text(m.alert, model_cause(e)) },
        ),
        (Phase::CallModel, EventView::ModelTimedOut) => (
            at(m, Phase::PostChat),
            ActionView::PostChat { text: timeout_text(m.alert) },
        ),
        (Phase::PostChat, EventView::ChatDelivered) => (
            at(m, Phase::Done),
            ActionView::Exit { code: EXIT_OK, diagnostic: Seq::empty() },
        ),
        (Phase::PostChat, EventView::ChatFailed(e)) => (
            at(m, Phase::Fail),
            ActionView::Exit { code: EXIT_ERROR, diagnostic: chat_diagnostic(e) },
        ),
        _ => (m, ActionView::Idle),
    }
}

/// Whether an event reports the end of a completion call.
pub open spec fn is_model_outcome(event: EventView) -> bool {
    event is ModelAnswered || event is ModelFailed || event is ModelTimedOut
}

/// The number of completion calls that a run of events asks for.
pub open spec fn model_calls(m: Machine, events: Seq<EventView>) -> nat
    decreases events.len(),
{
    if events.len() == 0 {
        0
    } else {
        let (next, action) = step_spec(m, events[0]);
        let here: nat = if action is CallModel {
            1
        } else {
            0
        };
        here + model_calls(next, events.drop_first())
    }
}

/// The number of chat posts that a run of events asks for.
pub open spec fn chat_posts(m: Machine, events: Seq<EventView>) -> nat
    decreases events.len(),
{
    if events.len() == 0 {
        0
    } else {
        let (next, action) = step_spec(m, events[0]);
        let here: nat = if action is PostChat {
            1
        } else {
            0
        };
        here + chat_posts(next, events.drop_first())
    }
}

/// The completion calls that a phase can still lead to.
pub open spec fn calls_ahead(phase: Phase) -> nat {
    if phase == Phase::Start {
        1
    } else {
        0
    }
}

/// The chat posts that a phase can still lead to.
pub open spec fn posts_ahead(phase: Phase) -> nat {
    if phase == Phase::Start || phase == Phase::CallModel {
        1
    } else {
        0
    }
}

impl Event {
    /// The event for a completion call that returned within its bound.
    pub fn from_model_result(result: Result<String, ModelError>) -> (event: Event)
        ensures
            event@ == match result {
                Ok(answer) => EventView::ModelAnswered(answer@),
                Err(e) => EventView::ModelFailed(e@),
            },
    {
        match result {
            Ok(answer) => Event::ModelAnswered(answer),
            Err(e) => Event::ModelFailed(e),
        }
    }

    /// The event for a chat post that returned.
    pub fn from_chat_result(result: Result<(), ChatError>) -> (event: Event)
        ensures
            event@ == match result {
                Ok(_) => EventView::ChatDelivered,
                Err(e) => EventView::ChatFailed(e@),
            },
    {
        match result {
            Ok(_) => Event::ChatDelivered,
            Err(e) => Event::ChatFailed(e),
        }
    }
}

impl Orchestrator {
    /// An invocation at its start.
    pub fn new(alert: String, user_tag: String, timeout_secs: u64) -> (o: Orchestrator)
        ensures
            o@ == (Machine { phase: Phase::Start, alert: alert@, user_tag: user_tag@, timeout_secs }),
    {
        Orchestrator { phase: Phase::Start, alert, user_tag, timeout_secs }
    }

    /// The current phase.
    pub fn phase(&self) -> (phase: Phase)
        ensures
            phase == self@.phase,
    {
        self.phase
    }

    /// The alert of this invocation.
    pub fn alert(&self) -> (alert: &str)
        ensures
            alert@ == self@.alert,
    {
        self.alert.as_str()
    }

    /// Whether the invocation has ended.
    pub fn is_finished(&self) -> (finished: bool)
        ensures
            finished == (self@.phase == Phase::Done || self@.phase == Phase::Fail),
    {
        self.phase == Phase::Done || self.phase == Phase::Fail
    }

    fn begin(&mut self) -> (action: Action)
        requires
            old(self)@.phase == Phase::Start,
        ensures
            (final(self)@, action@) == begin_spec(old(self)@),
    {
        match check_input(self.alert.as_str()) {
            Ok(AlertKind::Problem) => {
                self.phase = Phase::CallModel;
                Action::CallModel { alert: self.alert.clone(), timeout_secs: self.timeout_secs }
            },
            Ok(_) => {
                self.phase = Phase::PostChat;
                Action::PostChat { text: self.alert.clone() }
            },
            Err(e) => {
                self.phase = Phase::Fail;
                Action::Exit { code: EXIT_ERROR, diagnostic: e.describe() }
            },
        }
    }

    /// Takes one event and hands out the action that follows from it.
    pub fn step(&mut self, event: Event) -> (action: Action)
        ensures
            (final(self)@, action@) == step_spec(old(self)@, event@),
    {
        match (self.phase, event) {
            (Phase::Start, Event::Begin) => self.begin(),
            (Phase::CallModel, Event::ModelAnswered(answer)) => {
                self.phase = Phase::PostChat;
                Action::PostChat {
                    text: compose_success(
                        self.alert.as_str(),
                        answer.as_str(),
                        self.user_tag.as_str(),
                    ),
                }
            },
            (Phase::CallModel, Event::ModelFailed(e)) => {
                self.phase = Phase::PostChat;
                let cause = e.describe();
                Action::PostChat { text: compose_model_error(self.alert.as_str(), cause.as_str()) }
            },
            (Phase::CallModel, Event::ModelTimedOut) => {
                self.phase = Phase::PostChat;
                Action::PostChat { text: compose_timeout(self.alert.as_str()) }
            },
            (Phase::PostChat, Event::ChatDelivered) => {
                self.phase = Phase::Done;
                Action::Exit { code: EXIT_OK, diagnostic: String::new() }
            },
            (Phase::PostChat, Event::ChatFailed(e)) => {
                self.phase = Phase::Fail;
                Action::Exit { code: EXIT_ERROR, diagnostic: e.describe() }
            },
            _ => Action::Idle,
        }
    }
}

} // verus!
