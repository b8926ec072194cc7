//! Classification of inbound events: decide whether an event deserves a
//! fresh reply, a continuation reply, or no reply at all.

use vstd::prelude::*;
use vstd::string::StringExecFns;
use crate::event::{Event, text_or_empty};

verus! {

/// What the pipeline decided to do with one inbound event.
pub enum ActionDecision {
    /// Do nothing: the event is a closed-issue notification, a self-echo of
    /// the bot's own comment, or a duplicate delivery.
    Ignore,
    /// Start (or reset) the issue's conversation, seeded with the carried
    /// text.
    RespondFresh { text: String },
    /// Append the carried text to the issue's existing conversation.
    RespondContinuation { text: String },
}

/// Mathematical model of an [`ActionDecision`]: the carried text as its
/// character sequence.
pub enum DecisionView {
    Ignore,
    RespondFresh { text: Seq<char> },
    RespondContinuation { text: Seq<char> },
}

impl View for ActionDecision {
    type V = DecisionView;

    open spec fn view(&self) -> DecisionView {
        match self {
            ActionDecision::Ignore => DecisionView::Ignore,
            ActionDecision::RespondFresh { text } => (DecisionView::RespondFresh {
                text: text@,
            }),
            ActionDecision::RespondContinuation { text } => (DecisionView::RespondContinuation {
                text: text@,
            }),
        }
    }
}

/// The decision taken for an event, given the id of the comment the bot
/// created last (`last_record`, 0 when no reply was recorded yet).
///
/// Closed issues are suppressed; every other issue event asks for a fresh
/// reply seeded with `title + "\n" + body`; a comment asks for a continuation
/// reply with the comment's body, unless its id equals `last_record`, in
/// which case it is the bot's own output (or a duplicate delivery) and is
/// suppressed.
pub open spec fn spec_classify(e: Event, last_record: u64) -> DecisionView {
    match e {
        Event::IssueClosed { .. } => DecisionView::Ignore,
        Event::IssueOpened { title, body, .. } => (DecisionView::RespondFresh {
            text: title@ + "\n"@ + text_or_empty(body),
        }),
        Event::IssueOtherAction { title, body, .. } => (DecisionView::RespondFresh {
            text: title@ + "\n"@ + text_or_empty(body),
        }),
        Event::CommentCreated { comment_id, body, .. } => {
            if comment_id == last_record {
                DecisionView::Ignore
            } else {
                DecisionView::RespondContinuation { text: text_or_empty(body) }
            }
        },
    }
}

/// The first user turn of a fresh conversation: the issue's title and body
/// joined by a newline; a missing body reads as empty text.
fn issue_text(title: &String, body: &Option<String>) -> (t: String)
    ensures
        t@ == title@ + "\n"@ + text_or_empty(*body),
{
    let mut t = title.clone();
    t.append("\n");
    match body {
        Some(b) => {
            t.append(b.as_str());
        },
        None => {
            proof {
                assert(t@ =~= title@ + "\n"@ + text_or_empty(*body));
            }
        },
    }
    t
}

/// The body of a comment, or empty text when the comment has none.
fn comment_text(body: &Option<String>) -> (t: String)
    ensures
        t@ == text_or_empty(*body),
{
    match body {
        Some(b) => b.clone(),
        None => String::new(),
    }
}

/// Classifies one inbound event against the current last-reply record.
///
/// Malformed or partial payloads never fail: a missing text field degrades
/// to empty text.
pub fn classify(e: &Event, last_record: u64) -> (d: ActionDecision)
    ensures
        d@ == spec_classify(*e, last_record),
{
    match e {
        Event::IssueClosed { .. } => ActionDecision::Ignore,
        Event::IssueOpened { title, body, .. } => (ActionDecision::RespondFresh {
            text: issue_text(title, body),
        }),
        Event::IssueOtherAction { title, body, .. } => (ActionDecision::RespondFresh {
            text: issue_text(title, body),
        }),
        Event::CommentCreated { comment_id, body, .. } => {
            if *comment_id == last_record {
                ActionDecision::Ignore
            } else {
                ActionDecision::RespondContinuation { text: comment_text(body) }
            }
        },
    }
}

} // verus!
