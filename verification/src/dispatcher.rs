//! The reply pipeline: a state machine that classifies one inbound event,
//! builds the AI request, and — only after a comment was successfully posted
//! — updates the last-reply record.
//!
//! The machine takes every external outcome (the AI's reply, the result of
//! posting the comment) as an argument; performing those calls is the
//! caller's business. Each step states exactly how the machine moves, so the
//! idempotency laws at the end of this module are proved from the step
//! contracts alone.

use vstd::prelude::*;
use crate::classifier::{ActionDecision, DecisionView, classify, spec_classify};
use crate::event::Event;
use crate::prompt::{ReplyRequest, RequestView, build, opt_request_view, spec_build};

verus! {

/// The stations of one event's pipeline. `Aborted` is terminal and reachable
/// from any other state; it is the expected, silent outcome for suppressed
/// events and failed external calls alike.
#[derive(Clone, Copy, PartialEq, Eq, Structural)]
pub enum PipelineState {
    Start,
    Classified,
    PromptBuilt,
    AIResponded,
    Posted,
    Recorded,
    Aborted,
}

/// A failed attempt to post a comment: the transport or permission error the
/// issue-tracker client reported, as text for the diagnostic log.
pub struct PostError {
    pub detail: String,
}

/// Mathematical model of a [`Machine`].
#[verifier::ext_equal]
pub struct MachineView {
    pub state: PipelineState,
    /// The id of the comment the bot created last; 0 when none was recorded.
    pub record: u64,
    pub issue_number: u64,
    pub decision: DecisionView,
    pub posted_id: u64,
}

/// The dispatch state machine for one inbound event.
///
/// It is created on the last-reply record read from the store, stepped once
/// per pipeline transition, and its `record` is persisted by the caller when
/// (and only when) a step reports a newly recorded comment id.
pub struct Machine {
    state: PipelineState,
    record: u64,
    issue_number: u64,
    decision: ActionDecision,
    posted_id: u64,
}

impl View for Machine {
    type V = MachineView;

    closed spec fn view(&self) -> MachineView {
        MachineView {
            state: self.state,
            record: self.record,
            issue_number: self.issue_number,
            decision: self.decision@,
            posted_id: self.posted_id,
        }
    }
}

/// The characters of the AI's reply, when it produced one.
pub open spec fn opt_reply_view(reply: Option<String>) -> Option<Seq<char>> {
    match reply {
        Some(t) => Some(t@),
        None => None,
    }
}

/// Start → Classified (or Aborted): the event is classified against the
/// current record; an `Ignore` decision aborts the pipeline silently.
pub open spec fn spec_classify_step(m: MachineView, e: Event) -> MachineView {
    let d = spec_classify(e, m.record);
    MachineView {
        state: if d is Ignore {
            PipelineState::Aborted
        } else {
            PipelineState::Classified
        },
        issue_number: e.spec_issue_number(),
        decision: d,
        ..m
    }
}

/// Classified → PromptBuilt: the AI request is built from the decision; the
/// record is untouched.
pub open spec fn spec_build_step(m: MachineView) -> (MachineView, Option<RequestView>) {
    (MachineView { state: PipelineState::PromptBuilt, ..m }, spec_build(m.decision, m.issue_number))
}

/// PromptBuilt → AIResponded (or Aborted): an empty or failed completion
/// aborts the pipeline with nothing posted and nothing mutated.
pub open spec fn spec_ai_step(m: MachineView, reply: Option<Seq<char>>) -> MachineView {
    MachineView {
        state: if reply is Some {
            PipelineState::AIResponded
        } else {
            PipelineState::Aborted
        },
        ..m
    }
}

/// AIResponded → Posted (or Aborted): a failed post aborts the pipeline and
/// leaves the record untouched; a successful post remembers the new
/// comment's id, still without touching the record.
pub open spec fn spec_post_step(m: MachineView, outcome: Result<u64, PostError>) -> MachineView {
    match outcome {
        Ok(id) => MachineView { state: PipelineState::Posted, posted_id: id, ..m },
        Err(_) => MachineView { state: PipelineState::Aborted, ..m },
    }
}

/// Posted → Recorded: the one state mutation of the pipeline — the record
/// becomes the id of the comment just posted.
pub open spec fn spec_record_step(m: MachineView) -> MachineView {
    MachineView { state: PipelineState::Recorded, record: m.posted_id, ..m }
}

/// The whole pipeline on one event, with the outcomes of both external calls
/// given: classification, prompt building, the AI call, the comment post,
/// and the record update, stopping at the first abort.
pub open spec fn spec_pipeline(
    m: MachineView,
    e: Event,
    reply: Option<Seq<char>>,
    outcome: Result<u64, PostError>,
) -> MachineView {
    let m1 = spec_classify_step(m, e);
    if m1.state is Aborted {
        m1
    } else {
        let m2 = spec_build_step(m1).0;
        let m3 = spec_ai_step(m2, reply);
        if m3.state is Aborted {
            m3
        } else {
            let m4 = spec_post_step(m3, outcome);
            if m4.state is Aborted {
                m4
            } else {
                spec_record_step(m4)
            }
        }
    }
}

impl Machine {
    /// A machine in `Classified` state always carries a decision to respond;
    /// `Ignore` decisions abort at classification instead.
    pub open spec fn wf(self) -> bool {
        self@.state is Classified ==> !(self@.decision is Ignore)
    }

    /// A machine at `Start`, holding the last-reply record read from the
    /// store (0 when the store held none).
    pub fn new(last_record: u64) -> (m: Machine)
        ensures
            m@ == (MachineView {
                state: PipelineState::Start,
                record: last_record,
                issue_number: 0,
                decision: DecisionView::Ignore,
                posted_id: 0,
            }),
            m.wf(),
    {
        Machine {
            state: PipelineState::Start,
            record: last_record,
            issue_number: 0,
            decision: ActionDecision::Ignore,
            posted_id: 0,
        }
    }

    /// The machine's current station in the pipeline.
    pub fn state(&self) -> (s: PipelineState)
        ensures
            s == self@.state,
    {
        self.state
    }

    /// The last-reply record as this machine knows it.
    pub fn record(&self) -> (r: u64)
        ensures
            r == self@.record,
    {
        self.record
    }

    /// Step 1: classify the event. An ignored event aborts the pipeline
    /// here, silently and with zero external effects.
    pub fn classify_step(&mut self, e: &Event)
        requires
            old(self)@.state is Start,
        ensures
            final(self)@ == spec_classify_step(old(self)@, *e),
            final(self).wf(),
    {
        let d = classify(e, self.record);
        self.issue_number = e.issue_number();
        let ignored = matches!(d, ActionDecision::Ignore);
        self.decision = d;
        self.state = if ignored {
            PipelineState::Aborted
        } else {
            PipelineState::Classified
        };
    }

    /// Step 2: build the AI request from the decision. Always yields a
    /// request: only responding decisions reach `Classified`.
    pub fn build_step(&mut self) -> (r: Option<ReplyRequest>)
        requires
            old(self)@.state is Classified,
            old(self).wf(),
        ensures
            final(self)@ == spec_build_step(old(self)@).0,
            opt_request_view(r) == spec_build_step(old(self)@).1,
            r is Some,
    {
        let r = build(&self.decision, self.issue_number);
        self.state = PipelineState::PromptBuilt;
        r
    }

    /// Step 3: take the AI capability's answer. No answer aborts the
    /// pipeline: nothing is posted and no state is mutated.
    pub fn ai_step(&mut self, reply: &Option<String>)
        requires
            old(self)@.state is PromptBuilt,
        ensures
            final(self)@ == spec_ai_step(old(self)@, opt_reply_view(*reply)),
    {
        self.state = match reply {
            Some(_) => PipelineState::AIResponded,
            None => PipelineState::Aborted,
        };
    }

    /// Step 4: take the issue-tracker client's answer to the comment post.
    /// Failure aborts the pipeline with the record untouched; the event is
    /// dropped, not retried.
    pub fn post_step(&mut self, outcome: &Result<u64, PostError>)
        requires
            old(self)@.state is AIResponded,
        ensures
            final(self)@ == spec_post_step(old(self)@, *outcome),
    {
        match outcome {
            Ok(id) => {
                self.posted_id = *id;
                self.state = PipelineState::Posted;
            },
            Err(_) => {
                self.state = PipelineState::Aborted;
            },
        }
    }

    /// Step 5: record the posted comment's id. This is the pipeline's only
    /// state mutation and is reachable only after a successful post. Returns
    /// the id for the caller to persist.
    pub fn record_step(&mut self) -> (id: u64)
        requires
            old(self)@.state is Posted,
        ensures
            final(self)@ == spec_record_step(old(self)@),
            id == old(self)@.posted_id,
            final(self)@.record == id,
    {
        self.record = self.posted_id;
        self.state = PipelineState::Recorded;
        self.posted_id
    }
}

/// A comment event whose id equals the stored last-reply record is the bot's
/// own just-created comment (or a duplicate delivery): the pipeline aborts
/// at classification, with zero external writes — whatever the external
/// calls would have answered, the record is unchanged.
pub proof fn lemma_self_echo_suppressed(
    m: MachineView,
    e: Event,
    reply: Option<Seq<char>>,
    outcome: Result<u64, PostError>,
)
    requires
        m.state is Start,
        e matches Event::CommentCreated { comment_id, .. } && comment_id == m.record,
    ensures
        spec_classify(e, m.record) is Ignore,
        spec_pipeline(m, e, reply, outcome) == spec_classify_step(m, e),
        spec_pipeline(m, e, reply, outcome).state is Aborted,
        spec_pipeline(m, e, reply, outcome).record == m.record,
{
}

/// A closed-issue event aborts the pipeline immediately after
/// classification, whatever its title and body and whatever the external
/// calls would have answered.
pub proof fn lemma_closed_issue_suppressed(
    m: MachineView,
    e: Event,
    reply: Option<Seq<char>>,
    outcome: Result<u64, PostError>,
)
    requires
        m.state is Start,
        e is IssueClosed,
    ensures
        spec_pipeline(m, e, reply, outcome) == spec_classify_step(m, e),
        spec_pipeline(m, e, reply, outcome).state is Aborted,
        spec_pipeline(m, e, reply, outcome).record == m.record,
{
}

/// For every opened issue, the built request is in `Fresh` mode on the most
/// capable tier, includes the fixed preamble, carries `title + "\n" + body`
/// as input, and names the conversation key `"issue#" + issue number`.
pub proof fn lemma_fresh_issue_request(m: MachineView, e: Event)
    requires
        m.state is Start,
        e is IssueOpened,
    ensures
        (match e {
            Event::IssueOpened { number, title, body } => {
                let req = spec_build_step(spec_classify_step(m, e)).1;
                &&& req matches Some(r)
                &&& r.mode is Fresh
                &&& r.model is MostCapable
                &&& r.preamble == Some(crate::prompt::spec_preamble())
                &&& r.input == title@ + "\n"@ + crate::event::text_or_empty(body)
                &&& r.conversation_key == crate::prompt::spec_conversation_key(number)
            },
            _ => true,
        }),
{
}

/// For every comment whose id differs from the stored record, the built
/// request is in `Continuation` mode on the default tier, with no preamble,
/// carrying only the comment's body.
pub proof fn lemma_new_comment_request(m: MachineView, e: Event)
    requires
        m.state is Start,
        e matches Event::CommentCreated { comment_id, .. } && comment_id != m.record,
    ensures
        (match e {
            Event::CommentCreated { number, comment_id, body } => {
                let req = spec_build_step(spec_classify_step(m, e)).1;
                &&& req matches Some(r)
                &&& r.mode is Continuation
                &&& r.model is Standard
                &&& r.preamble is None
                &&& r.input == crate::event::text_or_empty(body)
                &&& r.conversation_key == crate::prompt::spec_conversation_key(number)
            },
            _ => true,
        }),
{
}

/// The last-reply record is updated if and only if the event called for a
/// reply, the AI produced one, and posting it succeeded — and then to the
/// newly created comment's id. On every other path the record is unchanged.
pub proof fn lemma_record_updated_iff_posted(
    m: MachineView,
    e: Event,
    reply: Option<Seq<char>>,
    outcome: Result<u64, PostError>,
)
    requires
        m.state is Start,
    ensures
        (spec_pipeline(m, e, reply, outcome).state is Recorded <==> (!(spec_classify(e, m.record)
            is Ignore) && reply is Some && outcome is Ok)),
        spec_pipeline(m, e, reply, outcome).state is Recorded ==> (outcome matches Ok(id)
            && spec_pipeline(m, e, reply, outcome).record == id),
        !(spec_pipeline(m, e, reply, outcome).state is Recorded) ==> spec_pipeline(
            m,
            e,
            reply,
            outcome,
        ).record == m.record,
{
}

/// If the AI capability yields no result, no comment is posted and the
/// record is unchanged from its prior value, whatever the event.
pub proof fn lemma_no_completion_no_write(
    m: MachineView,
    e: Event,
    outcome: Result<u64, PostError>,
)
    requires
        m.state is Start,
    ensures
        !(spec_pipeline(m, e, None, outcome).state is Recorded),
        !(spec_pipeline(m, e, None, outcome).state is Posted),
        spec_pipeline(m, e, None, outcome).record == m.record,
{
}

/// If posting the comment fails, the record is unchanged: the record update
/// strictly follows a successful post.
pub proof fn lemma_failed_post_keeps_record(
    m: MachineView,
    e: Event,
    reply: Option<Seq<char>>,
    err: PostError,
)
    requires
        m.state is Start,
    ensures
        spec_pipeline(m, e, reply, Err(err)).record == m.record,
        !(spec_pipeline(m, e, reply, Err(err)).state is Recorded),
{
}

} // verus!
