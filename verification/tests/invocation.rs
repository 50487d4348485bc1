use alert_bridge::chat::{chat_result, ChatError};
use alert_bridge::completion::{completion_result, ModelError};
use alert_bridge::orchestrator::{Action, Event, Orchestrator, Phase, EXIT_ERROR, EXIT_OK};

fn start(alert: &str) -> Orchestrator {
    Orchestrator::new(alert.to_string(), "<@all>".to_string(), 60)
}

fn every_event() -> Vec<Event> {
    vec![
        Event::Begin,
        Event::ModelAnswered("a".to_string()),
        Event::ModelFailed(ModelError::Status(500)),
        Event::ModelTimedOut,
        Event::ChatDelivered,
        Event::ChatFailed(ChatError::Status(500)),
    ]
}

#[test]
fn problem_happy_path() {
    let mut o = start("Problem: disk full on host X");
    assert_eq!(o.phase(), Phase::Start);
    assert_eq!(
        o.step(Event::Begin),
        Action::CallModel { alert: "Problem: disk full on host X".to_string(), timeout_secs: 60 }
    );
    assert_eq!(o.phase(), Phase::CallModel);
    let reply = completion_result(200, "{\"answer\":\"check /var/log\"}");
    assert_eq!(
        o.step(Event::from_model_result(reply)),
        Action::PostChat {
            text: "Problem: disk full on host X\n\nAI analysis:\ncheck /var/log\n\n<@all>"
                .to_string()
        }
    );
    assert_eq!(o.phase(), Phase::PostChat);
    assert!(!o.is_finished());
    assert_eq!(
        o.step(Event::from_chat_result(chat_result(200))),
        Action::Exit { code: 0, diagnostic: String::new() }
    );
    assert_eq!(o.phase(), Phase::Done);
    assert!(o.is_finished());
}

#[test]
fn problem_with_model_error_status() {
    let mut o = start("Problem: disk full on host X");
    o.step(Event::Begin);
    let reply = completion_result(500, "internal error");
    match o.step(Event::from_model_result(reply)) {
        Action::PostChat { text } => {
            assert!(text.starts_with("Problem: disk full on host X\n\n[model call failed] "));
            assert_eq!(
                text,
                "Problem: disk full on host X\n\n[model call failed] completion endpoint returned status 500"
            );
        }
        other => panic!("unexpected {:?}", other),
    }
    assert_eq!(
        o.step(Event::ChatDelivered),
        Action::Exit { code: EXIT_OK, diagnostic: String::new() }
    );
}

#[test]
fn problem_with_model_timeout() {
    let mut o = start("Problem: disk full on host X");
    o.step(Event::Begin);
    assert_eq!(
        o.step(Event::ModelTimedOut),
        Action::PostChat {
            text: "Problem: disk full on host X\n\n[error] model response timed out".to_string()
        }
    );
    assert_eq!(
        o.step(Event::ChatDelivered),
        Action::Exit { code: 0, diagnostic: String::new() }
    );
}

#[test]
fn resolved_passthrough() {
    let mut o = start("Resolved: disk ok on host X");
    assert_eq!(
        o.step(Event::Begin),
        Action::PostChat { text: "Resolved: disk ok on host X".to_string() }
    );
    assert_eq!(o.phase(), Phase::PostChat);
    assert_eq!(
        o.step(Event::ChatDelivered),
        Action::Exit { code: 0, diagnostic: String::new() }
    );
    assert_eq!(o.phase(), Phase::Done);
}

#[test]
fn unknown_prefix_fails_without_requests() {
    let mut o = start("Warning: ...");
    assert_eq!(
        o.step(Event::Begin),
        Action::Exit {
            code: 1,
            diagnostic: "alert message must start with Problem or Resolved".to_string()
        }
    );
    assert_eq!(o.phase(), Phase::Fail);
    assert!(o.is_finished());
}

#[test]
fn empty_message_fails_without_requests() {
    let mut o = start("");
    match o.step(Event::Begin) {
        Action::Exit { code, diagnostic } => {
            assert_eq!(code, EXIT_ERROR);
            assert!(diagnostic.contains("empty"));
        }
        other => panic!("unexpected {:?}", other),
    }
    assert_eq!(o.phase(), Phase::Fail);
}

#[test]
fn chat_failure_on_problem() {
    let mut o = start("Problem: disk full on host X");
    o.step(Event::Begin);
    o.step(Event::ModelAnswered("check /var/log".to_string()));
    assert_eq!(
        o.step(Event::from_chat_result(chat_result(500))),
        Action::Exit {
            code: 1,
            diagnostic: "chat post failed: webhook returned status 500".to_string()
        }
    );
    assert_eq!(o.phase(), Phase::Fail);
}

#[test]
fn chat_failure_after_model_failure_is_reported() {
    let mut o = start("Problem: p");
    o.step(Event::Begin);
    o.step(Event::ModelTimedOut);
    assert_eq!(
        o.step(Event::ChatFailed(ChatError::Transport("reset".to_string()))),
        Action::Exit { code: 1, diagnostic: "chat post failed: reset".to_string() }
    );
}

#[test]
fn chat_failure_on_resolved() {
    let mut o = start("Resolved: ok");
    o.step(Event::Begin);
    assert_eq!(
        o.step(Event::ChatFailed(ChatError::Status(403))),
        Action::Exit {
            code: 1,
            diagnostic: "chat post failed: webhook returned status 403".to_string()
        }
    );
}

#[test]
fn model_transport_failure_is_annotated() {
    let mut o = start("Problem: p");
    o.step(Event::Begin);
    assert_eq!(
        o.step(Event::ModelFailed(ModelError::Transport("connection refused".to_string()))),
        Action::PostChat {
            text: "Problem: p\n\n[model call failed] transport failure: connection refused"
                .to_string()
        }
    );
}

#[test]
fn empty_answer_is_a_success() {
    let mut o = start("Problem: p");
    o.step(Event::Begin);
    assert_eq!(
        o.step(Event::from_model_result(completion_result(200, "{\"answer\":\"\"}"))),
        Action::PostChat { text: "Problem: p\n\nAI analysis:\n\n\n<@all>".to_string() }
    );
}

#[test]
fn bound_and_tag_come_from_the_start() {
    let mut o = Orchestrator::new("Problem: p".to_string(), "@ops".to_string(), 5);
    assert_eq!(o.alert(), "Problem: p");
    assert_eq!(
        o.step(Event::Begin),
        Action::CallModel { alert: "Problem: p".to_string(), timeout_secs: 5 }
    );
    assert_eq!(
        o.step(Event::ModelAnswered("a".to_string())),
        Action::PostChat { text: "Problem: p\n\nAI analysis:\na\n\n@ops".to_string() }
    );
}

#[test]
fn events_out_of_phase_change_nothing() {
    let mut o = start("Problem: p");
    assert_eq!(o.step(Event::ChatDelivered), Action::Idle);
    assert_eq!(o.step(Event::ModelTimedOut), Action::Idle);
    assert_eq!(o.phase(), Phase::Start);
    o.step(Event::Begin);
    assert_eq!(o.step(Event::Begin), Action::Idle);
    assert_eq!(o.step(Event::ChatFailed(ChatError::Status(500))), Action::Idle);
    assert_eq!(o.phase(), Phase::CallModel);
    o.step(Event::ModelTimedOut);
    assert_eq!(o.step(Event::ModelAnswered("late".to_string())), Action::Idle);
    assert_eq!(o.phase(), Phase::PostChat);
}

#[test]
fn ended_invocation_ignores_every_event() {
    let mut o = start("Resolved: ok");
    o.step(Event::Begin);
    o.step(Event::ChatDelivered);
    for event in every_event() {
        assert_eq!(o.step(event), Action::Idle);
        assert_eq!(o.phase(), Phase::Done);
    }
}

#[test]
fn at_most_one_call_and_one_post_whatever_arrives() {
    for alert in ["Problem: p", "Resolved: r", "Warning: w", ""] {
        for first in every_event() {
            let mut o = start(alert);
            let mut calls = 0;
            let mut posts = 0;
            let mut events = vec![first];
            for _ in 0..3 {
                events.extend(every_event());
            }
            for event in events {
                match o.step(event) {
                    Action::CallModel { .. } => calls += 1,
                    Action::PostChat { .. } => posts += 1,
                    _ => {}
                }
            }
            assert!(calls <= 1);
            assert!(posts <= 1);
            if alert.starts_with("Problem") {
                assert_eq!((calls, posts), (1, 1));
            }
            if alert.starts_with("Resolved") {
                assert_eq!((calls, posts), (0, 1));
            }
            if alert.starts_with("Warning") || alert.is_empty() {
                assert_eq!((calls, posts), (0, 0));
            }
        }
    }
}

#[test]
fn events_from_results() {
    assert_eq!(
        Event::from_model_result(Ok("a".to_string())),
        Event::ModelAnswered("a".to_string())
    );
    assert_eq!(
        Event::from_model_result(Err(ModelError::MissingAnswer)),
        Event::ModelFailed(ModelError::MissingAnswer)
    );
    assert_eq!(Event::from_chat_result(Ok(())), Event::ChatDelivered);
    assert_eq!(
        Event::from_chat_result(Err(ChatError::Status(502))),
        Event::ChatFailed(ChatError::Status(502))
    );
}
