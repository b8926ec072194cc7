//! Construction of AI reply requests: the conversation key that groups all
//! exchanges about one issue, and the request data for fresh and
//! continuation prompts.

use vstd::prelude::*;
use vstd::string::StringExecFns;
use crate::classifier::{ActionDecision, DecisionView};

verus! {

/// Whether a request starts a new conversation context or appends to an
/// existing one.
#[derive(Clone, Copy, PartialEq, Eq, Structural)]
pub enum Mode {
    Fresh,
    Continuation,
}

/// The model tier an AI request asks for.
#[derive(Clone, Copy, PartialEq, Eq, Structural)]
pub enum ModelTier {
    /// The service's default tier, used for continuation turns.
    Standard,
    /// The most capable tier available, used to triage fresh issues.
    MostCapable,
}

/// One request to the AI completion capability. Purely data; building it has
/// no side effects.
pub struct ReplyRequest {
    /// Stable identifier grouping all exchanges about one issue.
    pub conversation_key: String,
    /// The user turn to submit.
    pub input: String,
    pub mode: Mode,
    pub model: ModelTier,
    /// The standing instruction a fresh conversation is seeded with; absent
    /// on continuation turns.
    pub preamble: Option<String>,
}

/// Mathematical model of a [`ReplyRequest`]: its texts as character
/// sequences.
#[verifier::ext_equal]
pub struct RequestView {
    pub conversation_key: Seq<char>,
    pub input: Seq<char>,
    pub mode: Mode,
    pub model: ModelTier,
    pub preamble: Option<Seq<char>>,
}

impl View for ReplyRequest {
    type V = RequestView;

    open spec fn view(&self) -> RequestView {
        RequestView {
            conversation_key: self.conversation_key@,
            input: self.input@,
            mode: self.mode,
            model: self.model,
            preamble: match self.preamble {
                Some(p) => Some(p@),
                None => None,
            },
        }
    }
}

/// The request a `Some` result models; `None` models no request.
pub open spec fn opt_request_view(r: Option<ReplyRequest>) -> Option<RequestView> {
    match r {
        Some(req) => Some(req@),
        None => None,
    }
}

/// The character for one decimal digit value.
pub open spec fn decimal_digit(d: nat) -> char {
    if d == 0 {
        '0'
    } else if d == 1 {
        '1'
    } else if d == 2 {
        '2'
    } else if d == 3 {
        '3'
    } else if d == 4 {
        '4'
    } else if d == 5 {
        '5'
    } else if d == 6 {
        '6'
    } else if d == 7 {
        '7'
    } else if d == 8 {
        '8'
    } else {
        '9'
    }
}

/// The usual decimal notation of `n`, most significant digit first, with no
/// leading zeros (a single `'0'` for zero).
pub open spec fn decimal_chars(n: nat) -> Seq<char>
    decreases n,
{
    if n < 10 {
        seq![decimal_digit(n)]
    } else {
        decimal_chars(n / 10).push(decimal_digit(n % 10))
    }
}

/// The one-character string for a decimal digit value.
fn digit_str(d: u64) -> (s: &'static str)
    requires
        d < 10,
    ensures
        s@ == seq![decimal_digit(d as nat)],
{
    match d {
        0 => {
            proof {
                reveal_strlit("0");
                assert("0"@ =~= seq![decimal_digit(d as nat)]);
            }
            "0"
        },
        1 => {
            proof {
                reveal_strlit("1");
                assert("1"@ =~= seq![decimal_digit(d as nat)]);
            }
            "1"
        },
        2 => {
            proof {
                reveal_strlit("2");
                assert("2"@ =~= seq![decimal_digit(d as nat)]);
            }
            "2"
        },
        3 => {
            proof {
                reveal_strlit("3");
                assert("3"@ =~= seq![decimal_digit(d as nat)]);
            }
            "3"
        },
        4 => {
            proof {
                reveal_strlit("4");
                assert("4"@ =~= seq![decimal_digit(d as nat)]);
            }
            "4"
        },
        5 => {
            proof {
                reveal_strlit("5");
                assert("5"@ =~= seq![decimal_digit(d as nat)]);
            }
            "5"
        },
        6 => {
            proof {
                reveal_strlit("6");
                assert("6"@ =~= seq![decimal_digit(d as nat)]);
            }
            "6"
        },
        7 => {
            proof {
                reveal_strlit("7");
                assert("7"@ =~= seq![decimal_digit(d as nat)]);
            }
            "7"
        },
        8 => {
            proof {
                reveal_strlit("8");
                assert("8"@ =~= seq![decimal_digit(d as nat)]);
            }
            "8"
        },
        _ => {
            proof {
                reveal_strlit("9");
                assert("9"@ =~= seq![decimal_digit(d as nat)]);
            }
            "9"
        },
    }
}

/// Appends the decimal notation of `n` to `out`.
fn push_decimal(n: u64, out: &mut String)
    ensures
        final(out)@ == old(out)@ + decimal_chars(n as nat),
    decreases n,
{
    if n >= 10 {
        push_decimal(n / 10, out);
    }
    let ds = digit_str(n % 10);
    out.append(ds);
    proof {
        if n >= 10 {
            assert(decimal_chars(n as nat) =~= decimal_chars((n / 10) as nat).push(
                decimal_digit((n % 10) as nat),
            ));
            assert(final(out)@ =~= old(out)@ + decimal_chars(n as nat));
        } else {
            assert(n % 10 == n);
            assert(final(out)@ =~= old(out)@ + decimal_chars(n as nat));
        }
    }
}

/// The conversation key that groups all exchanges about one issue:
/// `"issue#"` followed by the issue number in decimal.
pub open spec fn spec_conversation_key(issue_number: u64) -> Seq<char> {
    "issue#"@ + decimal_chars(issue_number as nat)
}

/// Builds the conversation key `"issue#<issue number>"`.
pub fn conversation_key(issue_number: u64) -> (key: String)
    ensures
        key@ == spec_conversation_key(issue_number),
{
    let mut key = String::from_str("issue#");
    push_decimal(issue_number, &mut key);
    key
}

/// The standing instruction every fresh issue conversation is seeded with.
pub open spec fn spec_preamble() -> Seq<char> {
    "You are a helpful assistant on a source repository's issue tracker. Answer the issue report below concisely and helpfully."@
}

/// Returns the fixed preamble for fresh conversations.
pub fn preamble() -> (p: String)
    ensures
        p@ == spec_preamble(),
{
    String::from_str(
        "You are a helpful assistant on a source repository's issue tracker. Answer the issue report below concisely and helpfully.",
    )
}

/// The request built for a decision: nothing for `Ignore`; for a fresh reply,
/// a `Fresh`-mode request on the most capable tier, seeded with the fixed
/// preamble; for a continuation, a `Continuation`-mode request on the default
/// tier with no preamble. Both name the issue's conversation key.
pub open spec fn spec_build(d: DecisionView, issue_number: u64) -> Option<RequestView> {
    match d {
        DecisionView::Ignore => None,
        DecisionView::RespondFresh { text } => Some(
            RequestView {
                conversation_key: spec_conversation_key(issue_number),
                input: text,
                mode: Mode::Fresh,
                model: ModelTier::MostCapable,
                preamble: Some(spec_preamble()),
            },
        ),
        DecisionView::RespondContinuation { text } => Some(
            RequestView {
                conversation_key: spec_conversation_key(issue_number),
                input: text,
                mode: Mode::Continuation,
                model: ModelTier::Standard,
                preamble: None,
            },
        ),
    }
}

/// Builds the AI request for a decision about the given issue, or `None`
/// when the decision is to ignore the event.
pub fn build(d: &ActionDecision, issue_number: u64) -> (r: Option<ReplyRequest>)
    ensures
        opt_request_view(r) == spec_build(d@, issue_number),
{
    match d {
        ActionDecision::Ignore => None,
        ActionDecision::RespondFresh { text } => Some(
            ReplyRequest {
                conversation_key: conversation_key(issue_number),
                input: text.clone(),
                mode: Mode::Fresh,
                model: ModelTier::MostCapable,
                preamble: Some(preamble()),
            },
        ),
        ActionDecision::RespondContinuation { text } => Some(
            ReplyRequest {
                conversation_key: conversation_key(issue_number),
                input: text.clone(),
                mode: Mode::Continuation,
                model: ModelTier::Standard,
                preamble: None,
            },
        ),
    }
}

} // verus!
