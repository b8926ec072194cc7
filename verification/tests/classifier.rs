use issue_responder::classifier::{classify, ActionDecision};
use issue_responder::event::Event;

#[test]
fn closed_issue_is_ignored() {
    let e = Event::IssueClosed {
        number: 3,
        title: String::from("Anything"),
        body: Some(String::from("any body at all")),
    };
    assert!(matches!(classify(&e, 0), ActionDecision::Ignore));
    assert!(matches!(classify(&e, 99), ActionDecision::Ignore));
}

#[test]
fn opened_issue_gets_fresh_text() {
    let e = Event::IssueOpened {
        number: 42,
        title: String::from("Bug"),
        body: Some(String::from("It crashes")),
    };
    match classify(&e, 0) {
        ActionDecision::RespondFresh { text } => assert_eq!(text.as_str(), "Bug\nIt crashes"),
        _ => panic!("expected a fresh reply"),
    }
}

#[test]
fn opened_issue_missing_body_reads_empty() {
    let e = Event::IssueOpened {
        number: 42,
        title: String::from("Bug"),
        body: None,
    };
    match classify(&e, 0) {
        ActionDecision::RespondFresh { text } => assert_eq!(text.as_str(), "Bug\n"),
        _ => panic!("expected a fresh reply"),
    }
}

#[test]
fn other_issue_action_gets_fresh_text() {
    let e = Event::IssueOtherAction {
        number: 7,
        title: String::from("Feature"),
        body: Some(String::from("please")),
    };
    match classify(&e, 0) {
        ActionDecision::RespondFresh { text } => assert_eq!(text.as_str(), "Feature\nplease"),
        _ => panic!("expected a fresh reply"),
    }
}

#[test]
fn self_echo_comment_is_ignored() {
    let e = Event::CommentCreated {
        number: 42,
        comment_id: 5,
        body: Some(String::from("the bot's own words")),
    };
    assert!(matches!(classify(&e, 5), ActionDecision::Ignore));
}

#[test]
fn new_comment_gets_continuation_text() {
    let e = Event::CommentCreated {
        number: 42,
        comment_id: 6,
        body: Some(String::from("and another thing")),
    };
    match classify(&e, 5) {
        ActionDecision::RespondContinuation { text } => {
            assert_eq!(text.as_str(), "and another thing")
        }
        _ => panic!("expected a continuation reply"),
    }
}

#[test]
fn comment_missing_body_still_forwarded() {
    let e = Event::CommentCreated {
        number: 42,
        comment_id: 6,
        body: None,
    };
    match classify(&e, 5) {
        ActionDecision::RespondContinuation { text } => assert_eq!(text.as_str(), ""),
        _ => panic!("expected a continuation reply"),
    }
}

#[test]
fn issue_number_read_from_every_variant() {
    let opened = Event::IssueOpened {
        number: 1,
        title: String::new(),
        body: None,
    };
    let closed = Event::IssueClosed {
        number: 2,
        title: String::new(),
        body: None,
    };
    let other = Event::IssueOtherAction {
        number: 3,
        title: String::new(),
        body: None,
    };
    let comment = Event::CommentCreated {
        number: 4,
        comment_id: 9,
        body: None,
    };
    assert_eq!(opened.issue_number(), 1);
    assert_eq!(closed.issue_number(), 2);
    assert_eq!(other.issue_number(), 3);
    assert_eq!(comment.issue_number(), 4);
}
