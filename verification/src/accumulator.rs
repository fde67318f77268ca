//! Accumulation of submitted lines into one expression, and the reading of
//! the parser's answer: complete, more input needed, or wrong.

use vstd::prelude::*;
use vstd::string::*;

use crate::line_buffer::{LineBuffer, LineView};
use crate::text::{join, joined};

verus! {

/// What part of a submitted line joins the accumulated text.
#[derive(Clone, Copy, Debug, PartialEq, Eq)]
pub enum Policy {
    /// The whole line, whatever the cursor's place.
    AppendAll,
    /// The line up to the cursor; the rest starts the next line.
    CutAtCursor,
}

impl Policy {
    /// The part of `line` that a submission takes.
    pub open spec fn taken(self, line: LineView) -> Seq<char> {
        match self {
            Policy::AppendAll => line.text,
            Policy::CutAtCursor => line.before_cursor(),
        }
    }

    /// The line that a submission leaves for the next input: empty, or the
    /// part behind the cut with the cursor at its start.
    pub open spec fn left(self, line: LineView) -> LineView {
        match self {
            Policy::AppendAll => LineView::empty(line.left_bound),
            Policy::CutAtCursor => line.remainder(),
        }
    }

    /// A copy of the part of `line` that a submission takes.
    pub fn take(&self, line: &LineBuffer) -> (text: String)
        ensures
            text@ == self.taken(line@),
    {
        match self {
            Policy::AppendAll => line.value().to_owned(),
            Policy::CutAtCursor => line.before_cursor(),
        }
    }

    /// Leaves in `line` what a submission does not take.
    pub fn leave(&self, line: &mut LineBuffer)
        ensures
            final(line)@ == self.left(old(line)@),
            final(line)@.wf(),
    {
        match self {
            Policy::AppendAll => {
                let left_bound = line.left_bound();
                line.reset(left_bound);
            },
            Policy::CutAtCursor => line.keep_after_cursor(),
        }
    }
}

/// Under either policy a submission loses nothing of a line: what it does
/// not take, all of it, is left for the next line, or the whole line was
/// taken.
pub proof fn lemma_cut_loses_nothing(line: LineView)
    requires
        line.wf(),
    ensures
        Policy::CutAtCursor.taken(line) + Policy::CutAtCursor.left(line).text == line.text,
        Policy::CutAtCursor.left(line).cursor == 0,
        Policy::CutAtCursor.left(line).wf(),
        Policy::AppendAll.taken(line) == line.text,
        Policy::AppendAll.left(line).text.len() == 0,
{
    assert(line.before_cursor() + line.after_cursor() =~= line.text);
}

/// The kind of error that the parser found.
#[derive(Clone, Copy, Debug, PartialEq, Eq)]
pub enum ParseErrorKind {
    /// A string literal is open at the end of the text.
    UnclosedString,
    /// A group is open at the end of the text.
    UnclosedGroup,
    /// Any other error: the text is wrong, whatever follows it.
    Other,
}

impl ParseErrorKind {
    /// The text is a beginning that more input may complete.
    pub open spec fn wants_more(self) -> bool {
        self is UnclosedString || self is UnclosedGroup
    }
}

/// What the parser said of the accumulated text.
#[derive(Clone, Copy, Debug, PartialEq, Eq)]
pub enum ParseOutcome {
    /// It parsed.
    Parsed,
    /// It did not, for this kind of reason.
    Failed(ParseErrorKind),
}

/// What follows from the parser's answer.
#[derive(Clone, Copy, Debug, PartialEq, Eq)]
pub enum Verdict {
    /// The expression is complete and goes to the caller.
    Complete,
    /// More input is needed: the user goes on with a continuation line.
    Incomplete,
    /// The text is wrong: the error goes to the caller.
    Fatal,
}

impl ParseOutcome {
    /// The verdict on an outcome. It goes by the kind of the error alone.
    pub open spec fn verdict(self) -> Verdict {
        match self {
            ParseOutcome::Parsed => Verdict::Complete,
            ParseOutcome::Failed(kind) => if kind.wants_more() {
                Verdict::Incomplete
            } else {
                Verdict::Fatal
            },
        }
    }

    /// The verdict on this outcome: see [`ParseOutcome::verdict`].
    pub fn classify(&self) -> (verdict: Verdict)
        ensures
            verdict == self.verdict(),
    {
        match self {
            ParseOutcome::Parsed => Verdict::Complete,
            ParseOutcome::Failed(ParseErrorKind::UnclosedString) => Verdict::Incomplete,
            ParseOutcome::Failed(ParseErrorKind::UnclosedGroup) => Verdict::Incomplete,
            ParseOutcome::Failed(ParseErrorKind::Other) => Verdict::Fatal,
        }
    }
}

/// The three verdicts part the outcomes among them: only a text that
/// parsed is complete, only the two kinds of open end are incomplete, and
/// every other error is fatal.
pub proof fn lemma_verdict_is_exact(outcome: ParseOutcome)
    ensures
        outcome.verdict() is Complete <==> outcome is Parsed,
        outcome.verdict() is Incomplete <==> (outcome == ParseOutcome::Failed(
            ParseErrorKind::UnclosedString,
        ) || outcome == ParseOutcome::Failed(ParseErrorKind::UnclosedGroup)),
        outcome.verdict() is Fatal <==> outcome == ParseOutcome::Failed(ParseErrorKind::Other),
{
}

/// An accumulator as a mathematical value.
pub struct AccumulatorView {
    /// The text submitted so far for the expression in the making.
    pub total: Seq<char>,
    /// The policy that the session was started with.
    pub policy: Policy,
}

impl AccumulatorView {
    /// The accumulator after `line` was submitted.
    pub open spec fn appended(self, line: Seq<char>) -> AccumulatorView {
        AccumulatorView { total: joined(self.total, line), ..self }
    }

    /// The accumulator with its text thrown away.
    pub open spec fn cleared(self) -> AccumulatorView {
        AccumulatorView { total: Seq::empty(), ..self }
    }

    /// The accumulator after the parser's answer: the text stays while more
    /// input is needed and goes in every other case.
    pub open spec fn resolved(self, outcome: ParseOutcome) -> AccumulatorView {
        if outcome.verdict() is Incomplete {
            self
        } else {
            self.cleared()
        }
    }
}

/// The text of the expression in the making, line after line.
pub struct ExpressionAccumulator {
    total: String,
    policy: Policy,
}

impl View for ExpressionAccumulator {
    type V = AccumulatorView;

    closed spec fn view(&self) -> AccumulatorView {
        AccumulatorView { total: self.total@, policy: self.policy }
    }
}

impl ExpressionAccumulator {
    /// An accumulator without text.
    pub fn new(policy: Policy) -> (accumulator: ExpressionAccumulator)
        ensures
            accumulator@ == (AccumulatorView { total: Seq::empty(), policy }),
    {
        ExpressionAccumulator { total: String::new(), policy }
    }

    /// The accumulated text.
    pub fn total(&self) -> (total: &str)
        ensures
            total@ == self@.total,
    {
        self.total.as_str()
    }

    /// The policy.
    pub fn policy(&self) -> (policy: Policy)
        ensures
            policy == self@.policy,
    {
        self.policy
    }

    /// Whether nothing has been accumulated.
    pub fn is_empty(&self) -> (empty: bool)
        ensures
            empty == (self@.total.len() == 0),
    {
        self.total.as_str().is_empty()
    }

    /// Adds a submitted line, after a line feed where there is text already.
    pub fn append(&mut self, line: &str)
        ensures
            final(self)@ == old(self)@.appended(line@),
    {
        join(&mut self.total, line);
    }

    /// Throws the accumulated text away.
    pub fn clear(&mut self)
        ensures
            final(self)@ == old(self)@.cleared(),
    {
        self.total = String::new();
    }

    /// Takes the parser's answer on the accumulated text and returns the
    /// verdict. The text is kept for an incomplete expression and thrown
    /// away for a complete or a wrong one.
    pub fn resolve(&mut self, outcome: ParseOutcome) -> (verdict: Verdict)
        ensures
            verdict == outcome.verdict(),
            final(self)@ == old(self)@.resolved(outcome),
    {
        let verdict = outcome.classify();
        match verdict {
            Verdict::Incomplete => {},
            _ => self.clear(),
        }
        verdict
    }
}

} // verus!
