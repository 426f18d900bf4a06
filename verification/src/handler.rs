//! The command handler as a state machine: from an inbound command through
//! the acknowledgement that satisfies the chat platform's response deadline,
//! to exactly one final reply. The surrounding application performs each
//! returned action and feeds the outcome back as the next event.

use vstd::prelude::*;

use crate::gemini::build_prompt;
use crate::gemini::commentary_error_view;
use crate::gemini::prompt_view;
use crate::gemini::CommentaryError;
use crate::riot::human_view;
use crate::riot::verbose_view;
use crate::riot::Match;
use crate::riot::RetrievalError;

verus! {

/// Where one command invocation stands.
pub enum HandlerState {
    /// No command arrived yet.
    Idle,
    /// The placeholder reply was requested; retrieval is under way.
    Acknowledged,
    /// An eligible match was found; commentary is under way.
    AwaitingCommentary(Match),
    /// The final reply was requested; every further event is ignored.
    Completed,
}

/// What the surrounding application reports.
pub enum HandlerEvent {
    /// The slash command arrived.
    Command,
    /// Retrieval finished with its outcome.
    Retrieved(Result<Option<Match>, RetrievalError>),
    /// The commentary request finished with its outcome.
    Commented(Result<String, CommentaryError>),
}

/// What the surrounding application must do next.
pub enum HandlerAction {
    NoAction,
    /// Send the placeholder reply, then run retrieval.
    SendPlaceholder(String),
    /// Send this prompt to the generation service.
    AskCommentary(String),
    /// Send the final reply.
    Reply(String),
}

pub open spec fn placeholder_message() -> Seq<char> {
    "fetching..."@
}

pub open spec fn no_match_message() -> Seq<char> {
    "No recent match found."@
}

pub open spec fn retrieval_failure_message(detail: Seq<char>) -> Seq<char> {
    "Failed to get most recent match: "@ + detail
}

pub open spec fn commentary_failure_message(detail: Seq<char>) -> Seq<char> {
    "AI failed to analyze the result: "@ + detail
}

/// The successful reply: the compact rendering, a newline, the commentary.
pub open spec fn combined_reply(compact: Seq<char>, judgment: Seq<char>) -> Seq<char> {
    compact + "\n"@ + judgment
}

/// The state after one step. A mismatched event leaves the state unchanged;
/// `Completed` is terminal.
pub open spec fn spec_next_state(state: HandlerState, event: HandlerEvent) -> HandlerState {
    match (state, event) {
        (HandlerState::Idle, HandlerEvent::Command) => HandlerState::Acknowledged,
        (HandlerState::Acknowledged, HandlerEvent::Retrieved(res)) => match res {
            Ok(Some(m)) => HandlerState::AwaitingCommentary(m),
            _ => HandlerState::Completed,
        },
        (HandlerState::AwaitingCommentary(_), HandlerEvent::Commented(_)) => HandlerState::Completed,
        (s, _) => s,
    }
}

/// The action one step produces: the placeholder on the command; on the
/// retrieval outcome either a failure reply, the no-match reply, or the
/// commentary prompt; on the commentary outcome the final reply. A
/// mismatched event produces nothing — in particular, no commentary is ever
/// requested without an eligible match.
pub open spec fn spec_action(state: HandlerState, event: HandlerEvent, a: HandlerAction) -> bool {
    match (state, event) {
        (HandlerState::Idle, HandlerEvent::Command) => a matches HandlerAction::SendPlaceholder(t)
            && t@ == placeholder_message(),
        (HandlerState::Acknowledged, HandlerEvent::Retrieved(res)) => match res {
            Err(e) => a matches HandlerAction::Reply(t) && t@ == retrieval_failure_message(
                e.message@,
            ),
            Ok(None) => a matches HandlerAction::Reply(t) && t@ == no_match_message(),
            Ok(Some(m)) => a matches HandlerAction::AskCommentary(p) && p@ == prompt_view(
                verbose_view(m),
            ),
        },
        (HandlerState::AwaitingCommentary(m), HandlerEvent::Commented(res)) => match res {
            Ok(j) => a matches HandlerAction::Reply(t) && t@ == combined_reply(human_view(m), j@),
            Err(e) => a matches HandlerAction::Reply(t) && t@ == commentary_failure_message(
                commentary_error_view(e),
            ),
        },
        _ => a is NoAction,
    }
}

/// `Completed` is terminal: every further event leaves it in place, so the
/// final reply of an invocation is requested exactly once.
pub proof fn lemma_completed_is_terminal(event: HandlerEvent)
    ensures
        spec_next_state(HandlerState::Completed, event) == HandlerState::Completed,
        forall|a: HandlerAction|
            spec_action(HandlerState::Completed, event, a) ==> a is NoAction,
{
}

/// One transition of the command handler.
pub fn handler_step(state: HandlerState, event: HandlerEvent) -> (r: (HandlerState, HandlerAction))
    ensures
        r.0 == spec_next_state(state, event),
        spec_action(state, event, r.1),
{
    match (state, event) {
        (HandlerState::Idle, HandlerEvent::Command) => (
            HandlerState::Acknowledged,
            HandlerAction::SendPlaceholder("fetching...".to_owned()),
        ),
        (HandlerState::Acknowledged, HandlerEvent::Retrieved(res)) => match res {
            Err(e) => {
                let mut t = "Failed to get most recent match: ".to_owned();
                t.append(e.message.as_str());
                (HandlerState::Completed, HandlerAction::Reply(t))
            },
            Ok(None) => (
                HandlerState::Completed,
                HandlerAction::Reply("No recent match found.".to_owned()),
            ),
            Ok(Some(m)) => {
                let verbose = m.verbose_format();
                let prompt = build_prompt(verbose.as_str());
                (HandlerState::AwaitingCommentary(m), HandlerAction::AskCommentary(prompt))
            },
        },
        (HandlerState::AwaitingCommentary(m), HandlerEvent::Commented(res)) => match res {
            Ok(j) => {
                let mut t = m.human_format();
                t.append("\n");
                t.append(j.as_str());
                (HandlerState::Completed, HandlerAction::Reply(t))
            },
            Err(e) => {
                let mut t = "AI failed to analyze the result: ".to_owned();
                let msg = e.message();
                t.append(msg.as_str());
                (HandlerState::Completed, HandlerAction::Reply(t))
            },
        },
        (s, _) => (s, HandlerAction::NoAction),
    }
}

} // verus!
