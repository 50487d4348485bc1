//! What holds of every invocation, proved over the transition function.

use vstd::prelude::*;
use crate::classify::{check_input_spec, classify_spec, AlertKind};
use crate::compose::{lemma_composed_text_leads_with_alert, separator};
use crate::completion::model_cause;
use crate::orchestrator::{
    at,
    calls_ahead,
    chat_posts,
    is_model_outcome,
    model_calls,
    posts_ahead,
    step_spec,
    ActionView,
    EventView,
    Machine,
    Phase,
    EXIT_ERROR,
    EXIT_OK,
};

verus! {

/// However many events arrive and in whatever order, an invocation asks for
/// no more completion calls and no more chat posts than its phase still
/// allows: at most one of each, counted from the start.
pub proof fn lemma_at_most_one_call_and_one_post(m: Machine, events: Seq<EventView>)
    ensures
        model_calls(m, events) <= calls_ahead(m.phase) <= 1,
        chat_posts(m, events) <= posts_ahead(m.phase) <= 1,
    decreases events.len(),
{
    if events.len() > 0 {
        let (next, _action) = step_spec(m, events[0]);
        lemma_at_most_one_call_and_one_post(next, events.drop_first());
    }
}

/// On the problem path the first action is the completion call, for the
/// alert itself and under the configured bound; and whether that call
/// answers, fails or times out, the action after it is a chat post whose
/// text opens with the alert and a blank line.
pub proof fn lemma_problem_always_reaches_chat(m: Machine, outcome: EventView)
    requires
        m.phase == Phase::Start,
        classify_spec(m.alert) == AlertKind::Problem,
        is_model_outcome(outcome),
    ensures
        step_spec(m, EventView::Begin) == (
            at(m, Phase::CallModel),
            ActionView::CallModel { alert: m.alert, timeout_secs: m.timeout_secs },
        ),
        step_spec(at(m, Phase::CallModel), outcome).0 == at(m, Phase::PostChat),
        step_spec(at(m, Phase::CallModel), outcome).1 is PostChat,
        (m.alert + separator()).is_prefix_of(
            step_spec(at(m, Phase::CallModel), outcome).1->PostChat_text,
        ),
{
    match outcome {
        EventView::ModelAnswered(answer) => {
            lemma_composed_text_leads_with_alert(m.alert, answer, m.user_tag, Seq::empty());
        },
        EventView::ModelFailed(e) => {
            lemma_composed_text_leads_with_alert(
                m.alert,
                Seq::empty(),
                m.user_tag,
                model_cause(e),
            );
        },
        _ => {
            lemma_composed_text_leads_with_alert(
                m.alert,
                Seq::empty(),
                m.user_tag,
                Seq::empty(),
            );
        },
    }
}

/// A problem invocation that runs to its end asks for exactly one
/// completion call and exactly one chat post, whatever the call and the
/// post came to.
pub proof fn lemma_problem_run_counts(m: Machine, outcome: EventView, posted: EventView)
    requires
        m.phase == Phase::Start,
        classify_spec(m.alert) == AlertKind::Problem,
        is_model_outcome(outcome),
        posted is ChatDelivered || posted is ChatFailed,
    ensures
        model_calls(m, seq![EventView::Begin, outcome, posted]) == 1,
        chat_posts(m, seq![EventView::Begin, outcome, posted]) == 1,
{
    let run = seq![EventView::Begin, outcome, posted];
    let after_begin = seq![outcome, posted];
    let after_call = seq![posted];
    assert(run.drop_first() =~= after_begin);
    assert(after_begin.drop_first() =~= after_call);
    assert(after_call.drop_first() =~= Seq::<EventView>::empty());
    reveal_with_fuel(model_calls, 4);
    reveal_with_fuel(chat_posts, 4);
}

/// On the recovery path the first action is the chat post, its text is the
/// alert exactly, and no completion call is ever asked for.
pub proof fn lemma_resolved_is_forwarded_verbatim(m: Machine, events: Seq<EventView>)
    requires
        m.phase == Phase::Start,
        classify_spec(m.alert) == AlertKind::Resolved,
    ensures
        step_spec(m, EventView::Begin) == (
            at(m, Phase::PostChat),
            ActionView::PostChat { text: m.alert },
        ),
        model_calls(m, events) == 0,
    decreases events.len(),
{
    if events.len() > 0 {
        let (next, action) = step_spec(m, events[0]);
        if next.phase == Phase::Start {
            assert(next == m);
            lemma_resolved_is_forwarded_verbatim(m, events.drop_first());
        } else {
            lemma_at_most_one_call_and_one_post(next, events.drop_first());
        }
    }
}

/// A message that cannot be routed ends the invocation at its first step
/// with the error code, and no request of either kind is ever asked for.
pub proof fn lemma_refused_input_makes_no_request(m: Machine, events: Seq<EventView>)
    requires
        m.phase == Phase::Start,
        check_input_spec(m.alert) is Err,
    ensures
        step_spec(m, EventView::Begin).0 == at(m, Phase::Fail),
        step_spec(m, EventView::Begin).1 is Exit,
        step_spec(m, EventView::Begin).1->Exit_code == EXIT_ERROR,
        model_calls(m, events) == 0,
        chat_posts(m, events) == 0,
    decreases events.len(),
{
    if events.len() > 0 {
        let (next, action) = step_spec(m, events[0]);
        if next.phase == Phase::Start {
            assert(next == m);
            lemma_refused_input_makes_no_request(m, events.drop_first());
        } else {
            assert(next.phase == Phase::Fail);
            lemma_at_most_one_call_and_one_post(next, events.drop_first());
        }
    }
}

/// Once a chat post has been asked for, no completion call follows it: the
/// post never precedes the call.
pub proof fn lemma_no_call_after_post(m: Machine, event: EventView, later: Seq<EventView>)
    requires
        step_spec(m, event).1 is PostChat,
    ensures
        model_calls(step_spec(m, event).0, later) == 0,
{
    lemma_at_most_one_call_and_one_post(step_spec(m, event).0, later);
}

/// An invocation ends exactly once, on the step that takes it into one of
/// its two final phases. It ends with the success code exactly when the
/// chat post was delivered, and with the error code exactly when the input
/// was refused or the chat post failed: a completion call that failed or
/// timed out never ends it.
pub proof fn lemma_exit_codes(m: Machine, event: EventView)
    ensures
        ({
            let (next, action) = step_spec(m, event);
            let ended = m.phase == Phase::Done || m.phase == Phase::Fail;
            &&& action is Exit <==> !ended && (next.phase == Phase::Done || next.phase
                == Phase::Fail)
            &&& (action is Exit && action->Exit_code == EXIT_OK) <==> (m.phase == Phase::PostChat
                && event is ChatDelivered)
            &&& (action is Exit && action->Exit_code == EXIT_ERROR) <==> ((m.phase
                == Phase::PostChat && event is ChatFailed) || (m.phase == Phase::Start && event
                is Begin && check_input_spec(m.alert) is Err))
        }),
{
}

/// An ended invocation ignores every event.
pub proof fn lemma_ended_invocation_is_idle(m: Machine, event: EventView)
    requires
        m.phase == Phase::Done || m.phase == Phase::Fail,
    ensures
        step_spec(m, event) == (m, ActionView::Idle),
{
}

} // verus!
