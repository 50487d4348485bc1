//! The chat text for each outcome of the completion call.

use vstd::prelude::*;

verus! {

/// What separates the alert from whatever follows it.
pub open spec fn separator() -> Seq<char> {
    seq!['\n', '\n']
}

/// The text posted when the completion call answered: the alert, the
/// analysis under its heading, then the mention tag.
pub open spec fn success_text(alert: Seq<char>, answer: Seq<char>, user_tag: Seq<char>) -> Seq<
    char,
> {
    alert + "\n\nAI analysis:\n"@ + answer + "\n\n"@ + user_tag
}

/// The text posted when the completion call failed: the alert and the cause.
pub open spec fn model_error_text(alert: Seq<char>, cause: Seq<char>) -> Seq<char> {
    alert + "\n\n[model call failed] "@ + cause
}

/// The text posted when the completion call outlasted its bound.
pub open spec fn timeout_text(alert: Seq<char>) -> Seq<char> {
    alert + "\n\n[error] model response timed out"@
}

/// Composes the text for an answered completion call. An empty answer
/// leaves an empty analysis block.
pub fn compose_success(alert: &str, answer: &str, user_tag: &str) -> (text: String)
    ensures
        text@ == success_text(alert@, answer@, user_tag@),
{
    String::from_str(alert).concat("\n\nAI analysis:\n").concat(answer).concat("\n\n").concat(
        user_tag,
    )
}

/// Composes the text for a failed completion call.
pub fn compose_model_error(alert: &str, cause: &str) -> (text: String)
    ensures
        text@ == model_error_text(alert@, cause@),
{
    String::from_str(alert).concat("\n\n[model call failed] ").concat(cause)
}

/// Composes the text for a completion call that timed out.
pub fn compose_timeout(alert: &str) -> (text: String)
    ensures
        text@ == timeout_text(alert@),
{
    String::from_str(alert).concat("\n\n[error] model response timed out")
}

/// Every text composed on the problem path opens with the alert, unchanged,
/// followed by a blank line.
pub proof fn lemma_composed_text_leads_with_alert(
    alert: Seq<char>,
    answer: Seq<char>,
    user_tag: Seq<char>,
    cause: Seq<char>,
)
    ensures
        (alert + separator()).is_prefix_of(success_text(alert, answer, user_tag)),
        (alert + separator()).is_prefix_of(model_error_text(alert, cause)),
        (alert + separator()).is_prefix_of(timeout_text(alert)),
{
    reveal_strlit("\n\nAI analysis:\n");
    reveal_strlit("\n\n[model call failed] ");
    reveal_strlit("\n\n[error] model response timed out");
    let lead = alert + separator();
    let n = lead.len() as int;
    assert(success_text(alert, answer, user_tag).subrange(0, n) =~= lead);
    assert(model_error_text(alert, cause).subrange(0, n) =~= lead);
    assert(timeout_text(alert).subrange(0, n) =~= lead);
}

/// An empty answer still gives the success text, with nothing between the
/// heading and the tag's blank line.
pub proof fn lemma_empty_answer_keeps_heading(alert: Seq<char>, user_tag: Seq<char>)
    ensures
        success_text(alert, Seq::empty(), user_tag) == alert + "\n\nAI analysis:\n"@ + "\n\n"@
            + user_tag,
{
    assert(alert + "\n\nAI analysis:\n"@ + Seq::<char>::empty() =~= alert
        + "\n\nAI analysis:\n"@);
}

} // verus!
