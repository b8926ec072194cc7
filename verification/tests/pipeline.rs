use issue_responder::dispatcher::{Machine, PipelineState, PostError};
use issue_responder::event::Event;
use issue_responder::prompt::{preamble, Mode, ModelTier};

#[test]
fn round_trip_fresh_issue_records_new_comment() {
    // AI returns text T for fresh issue #42 "Bug" / "It crashes": the posted
    // text equals T and afterwards the record equals the new comment's id.
    let mut m = Machine::new(0);
    let e = Event::IssueOpened {
        number: 42,
        title: String::from("Bug"),
        body: Some(String::from("It crashes")),
    };
    m.classify_step(&e);
    assert!(matches!(m.state(), PipelineState::Classified));

    let req = m.build_step().expect("an opened issue yields a request");
    assert_eq!(req.conversation_key.as_str(), "issue#42");
    assert_eq!(req.input.as_str(), "Bug\nIt crashes");
    assert!(matches!(req.mode, Mode::Fresh));
    assert!(matches!(req.model, ModelTier::MostCapable));
    assert_eq!(req.preamble.as_deref(), Some(preamble().as_str()));

    let reply = Some(String::from("T"));
    m.ai_step(&reply);
    assert!(matches!(m.state(), PipelineState::AIResponded));
    let posted_text = reply.expect("the machine only proceeds on a reply");
    assert_eq!(posted_text.as_str(), "T");

    let outcome: Result<u64, PostError> = Ok(77);
    m.post_step(&outcome);
    assert!(matches!(m.state(), PipelineState::Posted));

    let id = m.record_step();
    assert_eq!(id, 77);
    assert_eq!(m.record(), 77);
    assert!(matches!(m.state(), PipelineState::Recorded));
}

#[test]
fn self_echo_aborts_with_record_untouched() {
    let mut m = Machine::new(5);
    let e = Event::CommentCreated {
        number: 42,
        comment_id: 5,
        body: Some(String::from("the bot's own words")),
    };
    m.classify_step(&e);
    assert!(matches!(m.state(), PipelineState::Aborted));
    assert_eq!(m.record(), 5);
}

#[test]
fn closed_issue_aborts_right_after_classification() {
    let mut m = Machine::new(5);
    let e = Event::IssueClosed {
        number: 42,
        title: String::from("whatever title"),
        body: Some(String::from("whatever body")),
    };
    m.classify_step(&e);
    assert!(matches!(m.state(), PipelineState::Aborted));
    assert_eq!(m.record(), 5);
}

#[test]
fn new_comment_continues_conversation_and_records() {
    let mut m = Machine::new(5);
    let e = Event::CommentCreated {
        number: 42,
        comment_id: 6,
        body: Some(String::from("and another thing")),
    };
    m.classify_step(&e);
    let req = m.build_step().expect("a new comment yields a request");
    assert_eq!(req.input.as_str(), "and another thing");
    assert!(matches!(req.mode, Mode::Continuation));
    assert!(matches!(req.model, ModelTier::Standard));
    assert!(req.preamble.is_none());

    let reply = Some(String::from("a further answer"));
    m.ai_step(&reply);
    let outcome: Result<u64, PostError> = Ok(88);
    m.post_step(&outcome);
    let id = m.record_step();
    assert_eq!(id, 88);
    assert_eq!(m.record(), 88);
}

#[test]
fn no_completion_leaves_record_unchanged() {
    let mut m = Machine::new(5);
    let e = Event::IssueOpened {
        number: 42,
        title: String::from("Bug"),
        body: None,
    };
    m.classify_step(&e);
    let _req = m.build_step().expect("an opened issue yields a request");
    m.ai_step(&None);
    assert!(matches!(m.state(), PipelineState::Aborted));
    assert_eq!(m.record(), 5);
}

#[test]
fn failed_post_leaves_record_unchanged() {
    let mut m = Machine::new(5);
    let e = Event::CommentCreated {
        number: 42,
        comment_id: 6,
        body: Some(String::from("more")),
    };
    m.classify_step(&e);
    let _req = m.build_step().expect("a new comment yields a request");
    m.ai_step(&Some(String::from("an answer")));
    let outcome: Result<u64, PostError> = Err(PostError {
        detail: String::from("transport error"),
    });
    m.post_step(&outcome);
    assert!(matches!(m.state(), PipelineState::Aborted));
    assert_eq!(m.record(), 5);
}
