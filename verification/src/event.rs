//! Inbound events from the issue tracker, reduced to the fields the pipeline
//! reads.

use vstd::prelude::*;

verus! {

/// One inbound webhook event about the configured repository.
///
/// Issue events carry the issue's title and optional body; comment events
/// carry the comment's id and optional body. Every event names the issue it
/// belongs to.
pub enum Event {
    /// A new issue was opened.
    IssueOpened { number: u64, title: String, body: Option<String> },
    /// An issue was closed.
    IssueClosed { number: u64, title: String, body: Option<String> },
    /// Any other action on an issue (edited, reopened, labeled, ...).
    IssueOtherAction { number: u64, title: String, body: Option<String> },
    /// A comment was created on an issue.
    CommentCreated { number: u64, comment_id: u64, body: Option<String> },
}

impl Event {
    /// The number of the issue this event belongs to.
    pub open spec fn spec_issue_number(self) -> u64 {
        match self {
            Event::IssueOpened { number, .. } => number,
            Event::IssueClosed { number, .. } => number,
            Event::IssueOtherAction { number, .. } => number,
            Event::CommentCreated { number, .. } => number,
        }
    }

    /// Returns the number of the issue this event belongs to.
    pub fn issue_number(&self) -> (n: u64)
        ensures
            n == self.spec_issue_number(),
    {
        match self {
            Event::IssueOpened { number, .. } => *number,
            Event::IssueClosed { number, .. } => *number,
            Event::IssueOtherAction { number, .. } => *number,
            Event::CommentCreated { number, .. } => *number,
        }
    }
}

/// The characters of an optional text field; a missing field reads as empty
/// text rather than failing.
pub open spec fn text_or_empty(t: Option<String>) -> Seq<char> {
    match t {
        Some(s) => s@,
        None => Seq::<char>::empty(),
    }
}

} // verus!
