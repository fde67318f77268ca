//! The state of one interactive session, and the step that the input loop
//! takes on each keyboard event.
//!
//! The loop itself runs outside: it reads an event, hands it to
//! [`ExprInput::on_event`], and does to the terminal what the returned
//! [`Action`] says. After a submission it parses [`ExprInput::expr`] and
//! hands the parser's answer to [`ExprInput::on_parse`].
//!
//! [`ExprInput::on_event`] takes the event as the terminal gave it. What
//! is done once `crossterm` has said which key it holds, and `tui_input`
//! which edit it stands for, is [`ExprInput::step`], on plain values. An
//! edit that reaches further than one character is `tui_input`'s
//! altogether: see [`ExprInput::handle_input_event`]. What the two crates
//! say of an event has names, and the contracts speak of those.

use crossterm::event::Event;
use vstd::prelude::*;
use vstd::string::*;

use crate::accumulator::{ExpressionAccumulator, ParseOutcome, Policy, Verdict};
use crate::event::{command_for, event_read, input_event, Command, InputEvent, KeyEvent};
use crate::history::{lemma_browsing_keeps_entries, History, HistoryView};
use crate::line_buffer::{
    edit_request,
    handled,
    lemma_apply_in_bounds,
    lemma_taken_over_in_bounds,
    requested_edit,
    EditRequest,
    LineBuffer,
    LineView,
    StateChanged,
};
use crate::text::{joined, pad, padded, trim_end, trimmed_end};

verus! {

/// The widest that a line is drawn, margin included.
pub const MAX_WIDTH: u16 = 50;

/// The columns kept free at the right of a line.
pub const MARGIN: u16 = 2;

/// The exit code that the program is asked to end with after the interrupt
/// chord: the user asked for the end, so it is no failure.
pub const INTERRUPT_EXIT_CODE: i32 = 0;

/// The width in which lines are drawn on a terminal of `terminal_width`
/// columns: the terminal's width, at most [`MAX_WIDTH`], less the
/// [`MARGIN`].
pub fn render_width(terminal_width: u16) -> (width: u16)
    requires
        terminal_width >= MARGIN,
    ensures
        width == (if terminal_width < MAX_WIDTH {
            terminal_width
        } else {
            MAX_WIDTH
        }) - MARGIN,
{
    if terminal_width < MAX_WIDTH {
        terminal_width - MARGIN
    } else {
        MAX_WIDTH - MARGIN
    }
}

/// What the input loop does after an event.
#[derive(Debug, PartialEq, Eq)]
pub enum Action {
    /// Nothing: wait for the next event.
    Continue,
    /// Draw the line anew, then wait for the next event.
    Redraw,
    /// The line was submitted. Print the text held here in place of the
    /// line, without a cursor; then have the accumulated text parsed and
    /// report the answer.
    Submit(String),
    /// Leave the raw mode and return without an expression.
    Abort,
    /// Leave the raw mode and ask for the end of the program, with
    /// [`INTERRUPT_EXIT_CODE`].
    Interrupt,
}

/// An [`Action`] as a mathematical value.
pub enum ActionView {
    /// Nothing to do.
    Continue,
    /// Draw the line anew.
    Redraw,
    /// Print this text, then parse.
    Submit(Seq<char>),
    /// Return without an expression.
    Abort,
    /// Ask for the end of the program.
    Interrupt,
}

impl View for Action {
    type V = ActionView;

    open spec fn view(&self) -> ActionView {
        match self {
            Action::Continue => ActionView::Continue,
            Action::Redraw => ActionView::Redraw,
            Action::Submit(line) => ActionView::Submit(line@),
            Action::Abort => ActionView::Abort,
            Action::Interrupt => ActionView::Interrupt,
        }
    }
}

/// A session as a mathematical value.
pub struct ExprInputView {
    /// The line being edited.
    pub line: LineView,
    /// The text accumulated for the expression in the making.
    pub total: Seq<char>,
    /// The policy that the session was started with.
    pub policy: Policy,
    /// The lines submitted so far.
    pub history: HistoryView,
    /// The terminal row of the line.
    pub row: int,
    /// The width in which the line is drawn.
    pub width: int,
}

impl ExprInputView {
    /// The cursor lies within the line, and the history's place within its
    /// entries.
    pub open spec fn wf(self) -> bool {
        self.line.wf() && self.history.wf()
    }

    /// What a submission adds to the accumulated text and to the history:
    /// the part of the line that the policy takes, without its trailing
    /// white space.
    pub open spec fn submitted(self) -> Seq<char> {
        trim_end(self.policy.taken(self.line))
    }

    /// What stands on the screen in place of a submitted line: the part
    /// that the policy takes, padded over the width of the line.
    pub open spec fn frozen(self) -> Seq<char> {
        padded(self.policy.taken(self.line), self.width as nat)
    }

    /// The session after the line was taken down: in the history, unless it
    /// is blank, and at the end of the accumulated text.
    pub open spec fn recorded(self) -> ExprInputView {
        ExprInputView {
            history: self.history.recorded(self.submitted()),
            total: joined(self.total, self.submitted()),
            ..self
        }
    }

    /// The session with the line made ready for the next input.
    pub open spec fn cleared(self) -> ExprInputView {
        ExprInputView { line: self.policy.left(self.line), ..self }
    }

    /// The session after a submission.
    pub open spec fn submit(self) -> ExprInputView {
        self.recorded().cleared()
    }

    /// The session made ready for a new expression: no line, no accumulated
    /// text, not browsing. The history's entries stay.
    pub open spec fn reset(self) -> ExprInputView {
        ExprInputView {
            line: LineView::empty(self.line.left_bound),
            total: Seq::empty(),
            history: self.history.settled(),
            ..self
        }
    }

    /// The session with the history at `history` and its entry, if it shows
    /// one, in the line.
    pub open spec fn browsed(self, history: HistoryView) -> ExprInputView {
        ExprInputView {
            history,
            line: match history.current() {
                Some(text) => self.line.loaded(text),
                None => self.line,
            },
            ..self
        }
    }

    /// The session after a step back in the history.
    pub open spec fn previous(self) -> ExprInputView {
        self.browsed(self.history.previous())
    }

    /// The session after a step forth in the history.
    pub open spec fn next(self) -> ExprInputView {
        self.browsed(self.history.next())
    }

    /// The session after an edit of the line.
    pub open spec fn edited(self, request: EditRequest) -> ExprInputView {
        ExprInputView { line: self.line.apply(request), ..self }
    }

    /// The session after the edit that an event stands for, if it stands
    /// for one.
    pub open spec fn requested(self, request: Option<EditRequest>) -> ExprInputView {
        match request {
            Some(request) => self.edited(request),
            None => self,
        }
    }

    /// What the edit that an event stands for reports: `None` where it
    /// stands for none or the edit changes nothing.
    pub open spec fn response(self, request: Option<EditRequest>) -> Option<StateChanged> {
        match request {
            Some(request) => self.line.response(request),
            None => None,
        }
    }

    /// The session after `event`, where `request` is the edit that the
    /// event stands for, if it stands for one.
    pub open spec fn step(self, event: InputEvent, request: Option<EditRequest>) -> ExprInputView {
        match event.command() {
            Command::Ignore | Command::Interrupt => self,
            Command::Abort => self.reset(),
            Command::Previous => self.previous(),
            Command::Next => self.next(),
            Command::Submit => self.submit(),
            Command::Edit => self.requested(request),
        }
    }

    /// What the input loop is to do after `event`.
    pub open spec fn action(self, event: InputEvent, request: Option<EditRequest>) -> ActionView {
        match event.command() {
            Command::Ignore => ActionView::Continue,
            Command::Interrupt => ActionView::Interrupt,
            Command::Abort => ActionView::Abort,
            Command::Previous | Command::Next => ActionView::Redraw,
            Command::Submit => ActionView::Submit(self.frozen()),
            Command::Edit => if self.response(request) is Some {
                ActionView::Redraw
            } else {
                ActionView::Continue
            },
        }
    }

    /// The session after a key that is none of the loop's own. `request`
    /// is the edit of one character that the key stands for, if it stands
    /// for one, and is made as [`ExprInputView::edited`] says. Where it
    /// stands for none, `outcome` is what `tui_input` made of the line on
    /// the key, and is taken over as [`LineView::taken_over`] says.
    pub open spec fn event_edit(
        self,
        request: Option<EditRequest>,
        outcome: (Seq<char>, int, Option<StateChanged>),
    ) -> ExprInputView {
        match request {
            Some(request) => self.edited(request),
            None => ExprInputView { line: self.line.taken_over(outcome), ..self },
        }
    }

    /// What the edit of [`ExprInputView::event_edit`] reports: `None`
    /// where the session is as it was.
    pub open spec fn event_response(
        self,
        request: Option<EditRequest>,
        outcome: (Seq<char>, int, Option<StateChanged>),
    ) -> Option<StateChanged> {
        match request {
            Some(request) => self.line.response(request),
            None => LineView::taken_answer(outcome),
        }
    }

    /// The session after an event of the terminal that holds `read` and
    /// stands for the edit `request`, where `outcome` is what `tui_input`
    /// made of the line on it. It is what [`ExprInputView::step`] says, but
    /// for a key that is none of the loop's own and no edit of one
    /// character: there the line is `outcome`, taken over.
    pub open spec fn after_event(
        self,
        read: InputEvent,
        request: Option<EditRequest>,
        outcome: (Seq<char>, int, Option<StateChanged>),
    ) -> ExprInputView {
        if read.command() is Edit && request is None {
            ExprInputView { line: self.line.taken_over(outcome), ..self }
        } else {
            self.step(read, request)
        }
    }

    /// What the input loop is to do after such an event: what
    /// [`ExprInputView::action`] says, but for a key that is none of the
    /// loop's own and no edit of one character: there the line is drawn
    /// anew if `outcome` was taken over.
    pub open spec fn action_after_event(
        self,
        read: InputEvent,
        request: Option<EditRequest>,
        outcome: (Seq<char>, int, Option<StateChanged>),
    ) -> ActionView {
        if read.command() is Edit && request is None {
            if LineView::takes(outcome) {
                ActionView::Redraw
            } else {
                ActionView::Continue
            }
        } else {
            self.action(read, request)
        }
    }

    /// The session after the parser's answer on the accumulated text: as
    /// it is while more input is needed, made ready for a new expression
    /// in every other case.
    pub open spec fn resolved(self, outcome: ParseOutcome) -> ExprInputView {
        if outcome.verdict() is Incomplete {
            self
        } else {
            self.reset()
        }
    }
}

/// The state of one interactive session: the line being edited, the text
/// accumulated for the expression in the making, and the history.
pub struct ExprInput {
    line: LineBuffer,
    accumulator: ExpressionAccumulator,
    history: History,
    row: u16,
    width: u16,
}

impl View for ExprInput {
    type V = ExprInputView;

    closed spec fn view(&self) -> ExprInputView {
        ExprInputView {
            line: self.line@,
            total: self.accumulator@.total,
            policy: self.accumulator@.policy,
            history: self.history@,
            row: self.row as int,
            width: self.width as int,
        }
    }
}

impl ExprInput {
    /// The session that [`ExprInput::with_policy`] starts.
    pub open spec fn initial(policy: Policy) -> ExprInputView {
        ExprInputView {
            line: LineView::empty(0),
            total: Seq::empty(),
            policy,
            history: HistoryView::empty(),
            row: 0,
            width: 0,
        }
    }

    /// A new session. With `is_cut`, Enter cuts the line at the cursor.
    pub fn new(is_cut: bool) -> (session: ExprInput)
        ensures
            session@ == ExprInput::initial(
                if is_cut {
                    Policy::CutAtCursor
                } else {
                    Policy::AppendAll
                },
            ),
    {
        if is_cut {
            ExprInput::with_policy(Policy::CutAtCursor)
        } else {
            ExprInput::with_policy(Policy::AppendAll)
        }
    }

    /// A new session under `policy`.
    pub fn with_policy(policy: Policy) -> (session: ExprInput)
        ensures
            session@ == ExprInput::initial(policy),
    {
        ExprInput {
            line: LineBuffer::new(0),
            accumulator: ExpressionAccumulator::new(policy),
            history: History::new(),
            row: 0,
            width: 0,
        }
    }

    /// The text accumulated for the expression in the making.
    pub fn expr(&self) -> (total: &str)
        ensures
            total@ == self@.total,
    {
        self.accumulator.total()
    }

    /// The text of the line.
    pub fn value(&self) -> (text: &str)
        ensures
            text@ == self@.line.text,
    {
        self.line.value()
    }

    /// The cursor, as an offset into the line.
    pub fn cursor(&self) -> (cursor: usize)
        ensures
            cursor == self@.line.cursor,
    {
        self.line.cursor()
    }

    /// The policy that the session was started with.
    pub fn policy(&self) -> (policy: Policy)
        ensures
            policy == self@.policy,
    {
        self.accumulator.policy()
    }

    /// The history.
    pub fn history(&self) -> (history: &History)
        ensures
            history@ == self@.history,
    {
        &self.history
    }

    /// Where the line begins on the terminal: column and row.
    pub fn position(&self) -> (position: (u16, u16))
        ensures
            position.0 == self@.line.left_bound,
            position.1 == self@.row,
    {
        (self.line.left_bound(), self.row)
    }

    /// Lets the line begin at `position`, column and row. Nothing else
    /// changes.
    pub fn set_position(&mut self, position: (u16, u16))
        ensures
            final(self)@ == (ExprInputView {
                line: LineView { left_bound: position.0 as int, ..old(self)@.line },
                row: position.1 as int,
                ..old(self)@
            }),
    {
        self.line.set_left_bound(position.0);
        self.row = position.1;
    }

    /// The width in which the line is drawn.
    pub fn width(&self) -> (width: u16)
        ensures
            width == self@.width,
    {
        self.width
    }

    /// Sets the width in which the line is drawn. Nothing else changes.
    pub fn set_width(&mut self, width: u16)
        ensures
            final(self)@ == (ExprInputView { width: width as int, ..old(self)@ }),
    {
        self.width = width;
    }

    /// Makes the session ready for a new expression: see
    /// [`ExprInputView::reset`].
    pub fn reset(&mut self)
        ensures
            final(self)@ == old(self)@.reset(),
            final(self)@.wf(),
    {
        let left_bound = self.line.left_bound();
        self.line.reset(left_bound);
        self.accumulator.clear();
        self.history.settle();
    }

    /// Makes the edit of the line that `event` stands for, if it stands
    /// for one, and reports what it changed: `None` where the session is
    /// as it was.
    ///
    /// Which edit an event stands for is `tui_input`'s to say. One of the
    /// seven of [`EditRequest`] is made as [`ExprInput::edit`] says. Any
    /// other (a move or a deletion by words, a deletion of the line or of
    /// its end) is left to `tui_input` altogether: the line is what it
    /// hands back, if that keeps the cursor within the text.
    pub fn handle_input_event(&mut self, event: &Event) -> (changed: Option<StateChanged>)
        ensures
            final(self)@ == old(self)@.event_edit(
                requested_edit(*event),
                handled(old(self)@.line.text, old(self)@.line.cursor, *event),
            ),
            changed == old(self)@.event_response(
                requested_edit(*event),
                handled(old(self)@.line.text, old(self)@.line.cursor, *event),
            ),
            final(self)@.wf(),
    {
        proof {
            use_type_invariant(&self.line);
            use_type_invariant(&self.history);
        }
        match edit_request(event) {
            Some(request) => self.line.apply(request),
            None => self.line.handle_input_event(event),
        }
    }

    /// Makes one edit of the line, or none, and reports what it changed:
    /// `None` where the line is as it was.
    pub fn edit(&mut self, request: Option<EditRequest>) -> (changed: Option<StateChanged>)
        ensures
            final(self)@.wf(),
            final(self)@ == old(self)@.requested(request),
            changed == old(self)@.response(request),
    {
        proof {
            use_type_invariant(&self.line);
            use_type_invariant(&self.history);
        }
        match request {
            Some(request) => self.line.apply(request),
            None => None,
        }
    }

    /// The text to print in place of the line once it is submitted: see
    /// [`ExprInputView::frozen`].
    pub fn print(&self) -> (text: String)
        ensures
            text@ == self@.frozen(),
    {
        let taken = self.accumulator.policy().take(&self.line);
        pad(taken, self.width)
    }

    /// Takes the line down in the history and at the end of the
    /// accumulated text: see [`ExprInputView::recorded`]. The line itself
    /// stays.
    pub fn record(&mut self)
        ensures
            final(self)@.wf(),
            final(self)@ == old(self)@.recorded(),
    {
        proof {
            use_type_invariant(&self.line);
            use_type_invariant(&self.history);
        }
        let taken = self.accumulator.policy().take(&self.line);
        let submitted = trimmed_end(taken.as_str());
        self.accumulator.append(submitted.as_str());
        self.history.record(submitted);
    }

    /// Makes the line ready for the next input: empty, or under
    /// [`Policy::CutAtCursor`] what stood behind the cursor.
    pub fn clear(&mut self)
        ensures
            final(self)@.wf(),
            final(self)@ == old(self)@.cleared(),
    {
        proof {
            use_type_invariant(&self.line);
            use_type_invariant(&self.history);
        }
        self.accumulator.policy().leave(&mut self.line);
    }

    /// Steps back in the history and loads the entry into the line, with
    /// the cursor behind it. Without entries nothing changes.
    pub fn set_pre_history(&mut self)
        ensures
            final(self)@.wf(),
            final(self)@ == old(self)@.previous(),
    {
        proof {
            use_type_invariant(&self.line);
            use_type_invariant(&self.history);
        }
        match self.history.previous() {
            Some(entry) => self.line.load(entry),
            None => {},
        }
    }

    /// Steps forth in the history and loads the entry into the line, with
    /// the cursor behind it. While the user is not browsing nothing
    /// changes.
    pub fn set_next_history(&mut self)
        ensures
            final(self)@.wf(),
            final(self)@ == old(self)@.next(),
    {
        proof {
            use_type_invariant(&self.line);
            use_type_invariant(&self.history);
        }
        match self.history.next() {
            Some(entry) => self.line.load(entry),
            None => {},
        }
    }

    /// Takes one event from the terminal and says what the input loop is
    /// to do.
    ///
    /// What key an event holds is `crossterm`'s to say: [`event_read`].
    /// A key of the loop's own (Enter, Escape, the arrows up and down, the
    /// interrupt chord) and an event to ignore are dealt with as
    /// [`ExprInput::step`] says. Any other key is an edit of the line, if
    /// it is one: see [`ExprInput::handle_input_event`]. The line is drawn
    /// anew where the edit changed something.
    pub fn on_event(&mut self, event: &Event) -> (action: Action)
        ensures
            final(self)@ == old(self)@.after_event(
                event_read(*event),
                requested_edit(*event),
                handled(old(self)@.line.text, old(self)@.line.cursor, *event),
            ),
            action@ == old(self)@.action_after_event(
                event_read(*event),
                requested_edit(*event),
                handled(old(self)@.line.text, old(self)@.line.cursor, *event),
            ),
            final(self)@.wf(),
    {
        let read = input_event(event);
        match command_for(&read) {
            Command::Edit => match self.handle_input_event(event) {
                Some(_) => Action::Redraw,
                None => Action::Continue,
            },
            _ => self.step(&read, None),
        }
    }

    /// Takes one event, read into plain values, and says what the input
    /// loop is to do. `request` is the edit that the event stands for, if
    /// it stands for one; it counts only where the event is no key of the
    /// loop's own.
    pub fn step(&mut self, event: &InputEvent, request: Option<EditRequest>) -> (action: Action)
        ensures
            final(self)@.wf(),
            final(self)@ == old(self)@.step(*event, request),
            action@ == old(self)@.action(*event, request),
    {
        proof {
            use_type_invariant(&self.line);
            use_type_invariant(&self.history);
        }
        match command_for(event) {
            Command::Ignore => Action::Continue,
            Command::Interrupt => Action::Interrupt,
            Command::Abort => {
                self.reset();
                Action::Abort
            },
            Command::Previous => {
                self.set_pre_history();
                Action::Redraw
            },
            Command::Next => {
                self.set_next_history();
                Action::Redraw
            },
            Command::Submit => {
                self.record();
                let frozen = self.print();
                self.clear();
                Action::Submit(frozen)
            },
            Command::Edit => match self.edit(request) {
                Some(_) => Action::Redraw,
                None => Action::Continue,
            },
        }
    }

    /// Takes the parser's answer on the accumulated text and returns the
    /// verdict. While more input is needed the session stays as it is, for
    /// the continuation line; in every other case it is made ready for a
    /// new expression.
    pub fn on_parse(&mut self, outcome: ParseOutcome) -> (verdict: Verdict)
        ensures
            final(self)@.wf(),
            verdict == outcome.verdict(),
            final(self)@ == old(self)@.resolved(outcome),
    {
        proof {
            use_type_invariant(&self.line);
            use_type_invariant(&self.history);
        }
        let verdict = self.accumulator.resolve(outcome);
        match verdict {
            Verdict::Incomplete => {},
            _ => {
                let left_bound = self.line.left_bound();
                self.line.reset(left_bound);
                self.history.settle();
            },
        }
        verdict
    }
}

impl Default for ExprInput {
    /// A new session that takes whole lines: `ExprInput::new(false)`.
    fn default() -> (session: ExprInput)
        ensures
            session@ == ExprInput::initial(Policy::AppendAll),
    {
        ExprInput::with_policy(Policy::AppendAll)
    }
}

/// No event takes the cursor out of the line or the history's place out of
/// its entries, whatever key it holds, whatever edit it stands for and
/// whatever `tui_input` makes of the line on it.
pub proof fn lemma_step_keeps_wf(
    session: ExprInputView,
    event: InputEvent,
    request: Option<EditRequest>,
    outcome: (Seq<char>, int, Option<StateChanged>),
)
    requires
        session.wf(),
    ensures
        session.step(event, request).wf(),
        session.step(event, request).line.in_bounds(),
        session.after_event(event, request, outcome).wf(),
        session.after_event(event, request, outcome).line.in_bounds(),
{
    if let Some(request) = request {
        lemma_apply_in_bounds(session.line, request);
    }
    lemma_taken_over_in_bounds(session.line, outcome);
    lemma_browsing_keeps_entries(session.history);
}

/// An event of the terminal is dealt with as [`ExprInputView::step`] says
/// wherever the step is defined by plain values: for every key of the
/// loop's own, for every event to ignore, and for every edit of one
/// character.
pub proof fn lemma_event_is_step(
    session: ExprInputView,
    event: InputEvent,
    request: Option<EditRequest>,
    outcome: (Seq<char>, int, Option<StateChanged>),
)
    requires
        !(event.command() is Edit) || request is Some,
    ensures
        session.after_event(event, request, outcome) == session.step(event, request),
        session.action_after_event(event, request, outcome) == session.action(event, request),
        event.command() is Edit ==> session.after_event(event, request, outcome)
            == session.event_edit(request, outcome),
{
}

/// The interrupt chord is read as such in every state of the session, also
/// in the middle of an expression that spans lines, and whatever edit the
/// key might stand for elsewhere. The session stays as it is.
pub proof fn lemma_interrupt_in_every_state(
    session: ExprInputView,
    key: KeyEvent,
    request: Option<EditRequest>,
    outcome: (Seq<char>, int, Option<StateChanged>),
)
    requires
        key.kind is Press,
        key.is_interrupt(),
    ensures
        session.action(InputEvent::Key(key), request) == ActionView::Interrupt,
        session.step(InputEvent::Key(key), request) == session,
        session.action_after_event(InputEvent::Key(key), request, outcome)
            == ActionView::Interrupt,
        session.after_event(InputEvent::Key(key), request, outcome) == session,
{
}

/// Escape throws the accumulated text away, all of it: whatever the user
/// types next, the first submission after it makes up the accumulated text
/// alone.
pub proof fn lemma_abort_starts_afresh(
    session: ExprInputView,
    escape: InputEvent,
    request: Option<EditRequest>,
    typed: Seq<EditRequest>,
)
    requires
        escape.command() is Abort,
    ensures
        session.action(escape, request) == ActionView::Abort,
        session.step(escape, request).total == Seq::<char>::empty(),
        session.step(escape, request).line == LineView::empty(session.line.left_bound),
        session.step(escape, request).history.entries == session.history.entries,
        ({
            let aborted = session.step(escape, request);
            let next = ExprInputView { line: aborted.line.replay(typed), ..aborted };
            next.submit().total == next.submitted()
        }),
{
}

/// The accumulated text of an expression that spans lines is its
/// submitted lines with one line feed between each two; a verdict of
/// incomplete keeps it and makes way for the next line.
pub proof fn lemma_submit_joins_lines(session: ExprInputView, outcome: ParseOutcome)
    ensures
        session.total.len() == 0 ==> session.submit().total == session.submitted(),
        session.total.len() > 0 ==> session.submit().total == session.total + seq!['\n']
            + session.submitted(),
        session.submit().line == session.policy.left(session.line),
        outcome.verdict() is Incomplete ==> session.submit().resolved(outcome) == session.submit(),
        !(outcome.verdict() is Incomplete) ==> session.submit().resolved(outcome).total
            == Seq::<char>::empty(),
{
}

} // verus!
