//! One editable line of text with a cursor.
//!
//! The text is a sequence of characters (code points, not grapheme clusters)
//! and the cursor an offset into it, between 0 and the length. The line also
//! knows the terminal column at which its text begins, so that the cursor has
//! a column on the screen: `left_bound + cursor`.
//!
//! The edits themselves are made by `tui_input`. [`LineBuffer::apply`] hands
//! it one of the seven edits of a single character, and [`LineView::apply`]
//! says what comes back. [`LineBuffer::handle_input_event`] hands it an
//! event of the terminal, for the edits that reach further (by words, to
//! the end of the line); what comes back of those has a name, [`handled`],
//! and is taken over where it keeps the cursor within the text.

use crossterm::event::Event;
use tui_input::backend::crossterm::{to_input_request, EventHandler};
use tui_input::{Input, InputRequest};
use vstd::prelude::*;
use vstd::string::*;

verus! {

/// One edit of the line.
#[derive(Clone, Copy, Debug, PartialEq, Eq)]
pub enum EditRequest {
    /// Put a character at the cursor and step over it.
    Insert(char),
    /// Remove the character before the cursor.
    DeleteBackward,
    /// Remove the character at the cursor.
    DeleteForward,
    /// One character to the left.
    MoveLeft,
    /// One character to the right.
    MoveRight,
    /// To the start of the text.
    MoveHome,
    /// Behind the end of the text.
    MoveEnd,
}

/// What an edit changed, for whoever draws the line.
#[derive(Clone, Copy, Debug, PartialEq, Eq)]
pub struct StateChanged {
    /// The text is another one.
    pub value: bool,
    /// The cursor has moved.
    pub cursor: bool,
}

/// The text after `request`, for a cursor within the text.
pub open spec fn edited_text(text: Seq<char>, cursor: int, request: EditRequest) -> Seq<char> {
    match request {
        EditRequest::Insert(c) => text.insert(cursor, c),
        EditRequest::DeleteBackward => if cursor > 0 {
            text.remove(cursor - 1)
        } else {
            text
        },
        EditRequest::DeleteForward => if cursor < text.len() {
            text.remove(cursor)
        } else {
            text
        },
        _ => text,
    }
}

/// The cursor after `request`, for a cursor within the text. A move or a
/// deletion that would leave the text stays where it is.
pub open spec fn edited_cursor(text: Seq<char>, cursor: int, request: EditRequest) -> int {
    match request {
        EditRequest::Insert(_) => cursor + 1,
        EditRequest::DeleteBackward | EditRequest::MoveLeft => if cursor > 0 {
            cursor - 1
        } else {
            cursor
        },
        EditRequest::DeleteForward => cursor,
        EditRequest::MoveRight => if cursor < text.len() {
            cursor + 1
        } else {
            cursor
        },
        EditRequest::MoveHome => 0,
        EditRequest::MoveEnd => text.len() as int,
    }
}

/// What `request` reports: `None` where it changes nothing.
pub open spec fn edit_response(text: Seq<char>, cursor: int, request: EditRequest) -> Option<
    StateChanged,
> {
    match request {
        EditRequest::Insert(_) => Some(StateChanged { value: true, cursor: true }),
        EditRequest::DeleteBackward => if cursor > 0 {
            Some(StateChanged { value: true, cursor: true })
        } else {
            None
        },
        EditRequest::DeleteForward => if cursor < text.len() {
            Some(StateChanged { value: true, cursor: false })
        } else {
            None
        },
        EditRequest::MoveLeft | EditRequest::MoveHome => if cursor > 0 {
            Some(StateChanged { value: false, cursor: true })
        } else {
            None
        },
        EditRequest::MoveRight | EditRequest::MoveEnd => if cursor < text.len() {
            Some(StateChanged { value: false, cursor: true })
        } else {
            None
        },
    }
}

/// Lets `tui_input::Input::handle` make one edit: an `Input` is built of
/// `text` and `cursor`, handles the request, and is taken apart again.
///
/// Trusted. The contract claims what the source of `Input::handle` shows for
/// the seven requests: `InsertChar` puts the character at the cursor and
/// moves the cursor behind it; `DeletePrevChar` and `DeleteNextChar` remove
/// the character before or at the cursor; `GoToPrevChar`, `GoToNextChar`,
/// `GoToStart` and `GoToEnd` move the cursor; each answers `None` and changes
/// nothing where the cursor is already at the end in question.
#[verifier::external_body]
fn input_handle(text: &str, cursor: usize, request: EditRequest) -> (r: (
    String,
    usize,
    Option<StateChanged>,
))
    requires
        cursor <= text@.len(),
    ensures
        r.0@ == edited_text(text@, cursor as int, request),
        r.1 == edited_cursor(text@, cursor as int, request),
        r.2 == edit_response(text@, cursor as int, request),
{
    let mut input = Input::new(text.to_string()).with_cursor(cursor);
    let changed = input.handle(match request {
        EditRequest::Insert(c) => InputRequest::InsertChar(c),
        EditRequest::DeleteBackward => InputRequest::DeletePrevChar,
        EditRequest::DeleteForward => InputRequest::DeleteNextChar,
        EditRequest::MoveLeft => InputRequest::GoToPrevChar,
        EditRequest::MoveRight => InputRequest::GoToNextChar,
        EditRequest::MoveHome => InputRequest::GoToStart,
        EditRequest::MoveEnd => InputRequest::GoToEnd,
    });
    let changed = changed.map(|s| StateChanged { value: s.value, cursor: s.cursor });
    (input.value().to_string(), input.cursor(), changed)
}

/// The edit of a single character that an event of the terminal stands
/// for, as `tui_input` reads it: the result of [`edit_request`].
pub uninterp spec fn requested_edit(event: Event) -> Option<EditRequest>;

/// Asks `tui_input::backend::crossterm::to_input_request` which edit an
/// event of the terminal stands for: `None` where it stands for none, or
/// for one that is not among the seven of [`EditRequest`].
///
/// Trusted. The event is opaque, so the contract gives the result a name,
/// and so claims that it depends on the event alone.
#[verifier::external_body]
pub(crate) fn edit_request(event: &Event) -> (request: Option<EditRequest>)
    ensures
        request == requested_edit(*event),
{
    match to_input_request(event)? {
        InputRequest::InsertChar(c) => Some(EditRequest::Insert(c)),
        InputRequest::DeletePrevChar => Some(EditRequest::DeleteBackward),
        InputRequest::DeleteNextChar => Some(EditRequest::DeleteForward),
        InputRequest::GoToPrevChar => Some(EditRequest::MoveLeft),
        InputRequest::GoToNextChar => Some(EditRequest::MoveRight),
        InputRequest::GoToStart => Some(EditRequest::MoveHome),
        InputRequest::GoToEnd => Some(EditRequest::MoveEnd),
        _ => None,
    }
}

/// What `tui_input` makes of a text and a cursor on an event of the
/// terminal: the text, the cursor and the answer that [`input_handle_event`]
/// returns.
pub uninterp spec fn handled(text: Seq<char>, cursor: int, event: Event) -> (
    Seq<char>,
    int,
    Option<StateChanged>,
);

/// Lets `tui_input`'s `handle_event` (of `EventHandler`, for `Input`) make
/// the edit that an event of the terminal stands for: an `Input` is built
/// of `text` and `cursor`, handles the event, and is taken apart again.
///
/// Trusted. The event is opaque, so the contract gives the result a name,
/// and so claims that it depends on the text, the cursor and the event
/// alone. Of the cursor that comes back it claims nothing: the caller
/// tests it.
#[verifier::external_body]
fn input_handle_event(text: &str, cursor: usize, event: &Event) -> (r: (
    String,
    usize,
    Option<StateChanged>,
))
    ensures
        (r.0@, r.1 as int, r.2) == handled(text@, cursor as int, *event),
{
    let mut input = Input::new(text.to_string()).with_cursor(cursor);
    let changed = input.handle_event(event);
    let changed = changed.map(|s| StateChanged { value: s.value, cursor: s.cursor });
    (input.value().to_string(), input.cursor(), changed)
}

/// A line as a mathematical value.
pub struct LineView {
    /// The characters of the line.
    pub text: Seq<char>,
    /// The cursor: an offset into `text`.
    pub cursor: int,
    /// The terminal column at which `text` begins.
    pub left_bound: int,
}

impl LineView {
    /// An empty line that begins at `left_bound`.
    pub open spec fn empty(left_bound: int) -> LineView {
        LineView { text: Seq::empty(), cursor: 0, left_bound }
    }

    /// The cursor lies within the text or directly behind it.
    pub open spec fn wf(self) -> bool {
        0 <= self.cursor <= self.text.len()
    }

    /// The terminal column of the cursor.
    pub open spec fn column(self) -> int {
        self.left_bound + self.cursor
    }

    /// The cursor's column lies between the column where the text begins and
    /// the column behind its last character.
    pub open spec fn in_bounds(self) -> bool {
        self.left_bound <= self.column() <= self.left_bound + self.text.len()
    }

    /// The text before the cursor.
    pub open spec fn before_cursor(self) -> Seq<char> {
        self.text.subrange(0, self.cursor)
    }

    /// The text from the cursor on.
    pub open spec fn after_cursor(self) -> Seq<char> {
        self.text.subrange(self.cursor, self.text.len() as int)
    }

    /// The line after one edit.
    pub open spec fn apply(self, request: EditRequest) -> LineView {
        LineView {
            text: edited_text(self.text, self.cursor, request),
            cursor: edited_cursor(self.text, self.cursor, request),
            left_bound: self.left_bound,
        }
    }

    /// What one edit reports.
    pub open spec fn response(self, request: EditRequest) -> Option<StateChanged> {
        edit_response(self.text, self.cursor, request)
    }

    /// The line after a sequence of edits, the first one first.
    pub open spec fn replay(self, requests: Seq<EditRequest>) -> LineView
        decreases requests.len(),
    {
        if requests.len() == 0 {
            self
        } else {
            self.replay(requests.drop_last()).apply(requests.last())
        }
    }

    /// Whether a text, a cursor and an answer that came back from outside
    /// are taken over: there is an answer, and the cursor lies within the
    /// text.
    pub open spec fn takes(outcome: (Seq<char>, int, Option<StateChanged>)) -> bool {
        outcome.2 is Some && 0 <= outcome.1 <= outcome.0.len()
    }

    /// The line after an edit made outside: the text and the cursor that
    /// came back if they are taken over, the line as it was if not.
    pub open spec fn taken_over(self, outcome: (Seq<char>, int, Option<StateChanged>)) -> LineView {
        if LineView::takes(outcome) {
            LineView { text: outcome.0, cursor: outcome.1, left_bound: self.left_bound }
        } else {
            self
        }
    }

    /// What an edit made outside reports: its answer if it is taken over,
    /// `None` if not.
    pub open spec fn taken_answer(outcome: (Seq<char>, int, Option<StateChanged>)) -> Option<
        StateChanged,
    > {
        if LineView::takes(outcome) {
            outcome.2
        } else {
            None
        }
    }

    /// The line with `text` in place of its own, the cursor behind it.
    pub open spec fn loaded(self, text: Seq<char>) -> LineView {
        LineView { text, cursor: text.len() as int, left_bound: self.left_bound }
    }

    /// What is left when the text before the cursor is taken away: the rest,
    /// with the cursor at its start.
    pub open spec fn remainder(self) -> LineView {
        LineView { text: self.after_cursor(), cursor: 0, left_bound: self.left_bound }
    }
}

/// No edit takes the cursor out of the text.
pub proof fn lemma_apply_in_bounds(line: LineView, request: EditRequest)
    requires
        line.wf(),
    ensures
        line.apply(request).wf(),
        line.apply(request).in_bounds(),
        line.response(request) is None ==> line.apply(request) == line,
{
}

/// Nor does an edit made outside, whatever came back: the line begins
/// where it began, its cursor lies within its text, and without an answer
/// it is as it was.
pub proof fn lemma_taken_over_in_bounds(
    line: LineView,
    outcome: (Seq<char>, int, Option<StateChanged>),
)
    requires
        line.wf(),
    ensures
        line.taken_over(outcome).wf(),
        line.taken_over(outcome).in_bounds(),
        line.taken_over(outcome).left_bound == line.left_bound,
        LineView::taken_answer(outcome) is None ==> line.taken_over(outcome) == line,
{
}

/// Whatever is typed, deleted or moved on a line that began empty, the
/// cursor's column stays between `left_bound` and `left_bound` plus the
/// length of the text.
pub proof fn lemma_replay_in_bounds(left_bound: int, requests: Seq<EditRequest>)
    ensures
        LineView::empty(left_bound).replay(requests).wf(),
        LineView::empty(left_bound).replay(requests).in_bounds(),
        LineView::empty(left_bound).replay(requests).left_bound == left_bound,
    decreases requests.len(),
{
    if requests.len() > 0 {
        lemma_replay_in_bounds(left_bound, requests.drop_last());
        lemma_apply_in_bounds(
            LineView::empty(left_bound).replay(requests.drop_last()),
            requests.last(),
        );
    }
}

/// Inserting a character and deleting backward at once gives the line back:
/// the same text and the same cursor.
pub proof fn lemma_insert_then_delete_backward(line: LineView, c: char)
    requires
        line.wf(),
    ensures
        line.apply(EditRequest::Insert(c)).apply(EditRequest::DeleteBackward) == line,
{
    let inserted = line.apply(EditRequest::Insert(c));
    assert(inserted.text.remove(line.cursor) =~= line.text);
}

/// One editable line: its text, the cursor, and the column where it begins.
/// The cursor of a `LineBuffer` lies within its text, always.
pub struct LineBuffer {
    text: String,
    cursor: usize,
    left_bound: u16,
}

impl View for LineBuffer {
    type V = LineView;

    closed spec fn view(&self) -> LineView {
        LineView {
            text: self.text@,
            cursor: self.cursor as int,
            left_bound: self.left_bound as int,
        }
    }
}

impl LineBuffer {
    /// The cursor lies within the text. This holds of every `LineBuffer`.
    #[verifier::type_invariant]
    pub open spec fn wf(self) -> bool {
        self@.wf()
    }

    /// An empty line that begins at column `left_bound`.
    pub fn new(left_bound: u16) -> (line: LineBuffer)
        ensures
            line@ == LineView::empty(left_bound as int),
    {
        LineBuffer { text: String::new(), cursor: 0, left_bound }
    }

    /// The text of the line.
    pub fn value(&self) -> (text: &str)
        ensures
            text@ == self@.text,
            self@.wf(),
    {
        proof {
            use_type_invariant(self);
        }
        self.text.as_str()
    }

    /// The cursor, as an offset into the text.
    pub fn cursor(&self) -> (cursor: usize)
        ensures
            cursor == self@.cursor,
            self@.wf(),
    {
        proof {
            use_type_invariant(self);
        }
        self.cursor
    }

    /// The column at which the text begins.
    pub fn left_bound(&self) -> (left_bound: u16)
        ensures
            left_bound == self@.left_bound,
    {
        self.left_bound
    }

    /// Moves the line to another column. Text and cursor stay.
    pub fn set_left_bound(&mut self, left_bound: u16)
        ensures
            final(self)@ == (LineView { left_bound: left_bound as int, ..old(self)@ }),
            final(self)@.wf(),
    {
        proof {
            use_type_invariant(&*self);
        }
        self.left_bound = left_bound;
    }

    /// Empties the line and lets it begin at `new_left_bound`.
    pub fn reset(&mut self, new_left_bound: u16)
        ensures
            final(self)@ == LineView::empty(new_left_bound as int),
    {
        *self = LineBuffer::new(new_left_bound);
    }

    /// Replaces the text by `text` and puts the cursor behind it.
    pub fn load(&mut self, text: String)
        ensures
            final(self)@ == old(self)@.loaded(text@),
            final(self)@.wf(),
    {
        let cursor = text.as_str().unicode_len();
        *self = LineBuffer { text, cursor, left_bound: self.left_bound };
    }

    /// Makes one edit and reports what it changed: `None` where the line is
    /// as it was.
    pub fn apply(&mut self, request: EditRequest) -> (changed: Option<StateChanged>)
        ensures
            final(self)@ == old(self)@.apply(request),
            final(self)@.wf(),
            changed == old(self)@.response(request),
    {
        proof {
            use_type_invariant(&*self);
        }
        let (text, cursor, changed) = input_handle(self.text.as_str(), self.cursor, request);
        *self = LineBuffer { text, cursor, left_bound: self.left_bound };
        changed
    }

    /// Makes the edit that `event` stands for, whichever `tui_input` reads
    /// from it, and reports what it changed: `None` where the line is as it
    /// was. What `tui_input` hands back is [`handled`]; it is taken over
    /// only if it reports a change and leaves the cursor within the text.
    pub fn handle_input_event(&mut self, event: &Event) -> (changed: Option<StateChanged>)
        ensures
            final(self)@ == old(self)@.taken_over(
                handled(old(self)@.text, old(self)@.cursor, *event),
            ),
            changed == LineView::taken_answer(
                handled(old(self)@.text, old(self)@.cursor, *event),
            ),
            final(self)@.wf(),
    {
        proof {
            use_type_invariant(&*self);
        }
        let (text, cursor, changed) = input_handle_event(self.text.as_str(), self.cursor, event);
        if changed.is_some() && cursor <= text.as_str().unicode_len() {
            *self = LineBuffer { text, cursor, left_bound: self.left_bound };
            changed
        } else {
            None
        }
    }

    /// Inserts `c` at the cursor and moves the cursor behind it.
    pub fn insert(&mut self, c: char) -> (changed: Option<StateChanged>)
        ensures
            final(self)@.text == old(self)@.text.insert(old(self)@.cursor, c),
            final(self)@.cursor == old(self)@.cursor + 1,
            final(self)@.left_bound == old(self)@.left_bound,
            final(self)@.wf(),
            changed == Some(StateChanged { value: true, cursor: true }),
    {
        self.apply(EditRequest::Insert(c))
    }

    /// Removes the character before the cursor and moves the cursor onto its
    /// place. At the start of the text nothing happens.
    pub fn delete_backward(&mut self) -> (changed: Option<StateChanged>)
        ensures
            old(self)@.cursor == 0 ==> final(self)@ == old(self)@ && changed is None,
            old(self)@.cursor > 0 ==> {
                &&& final(self)@.text == old(self)@.text.remove(old(self)@.cursor - 1)
                &&& final(self)@.cursor == old(self)@.cursor - 1
                &&& final(self)@.left_bound == old(self)@.left_bound
                &&& changed == Some(StateChanged { value: true, cursor: true })
            },
            final(self)@.wf(),
    {
        self.apply(EditRequest::DeleteBackward)
    }

    /// Removes the character at the cursor; the cursor stays. Behind the end
    /// of the text nothing happens.
    pub fn delete_forward(&mut self) -> (changed: Option<StateChanged>)
        ensures
            old(self)@.cursor == old(self)@.text.len() ==> final(self)@ == old(self)@
                && changed is None,
            old(self)@.cursor < old(self)@.text.len() ==> {
                &&& final(self)@.text == old(self)@.text.remove(old(self)@.cursor)
                &&& final(self)@.cursor == old(self)@.cursor
                &&& final(self)@.left_bound == old(self)@.left_bound
                &&& changed == Some(StateChanged { value: true, cursor: false })
            },
            final(self)@.wf(),
    {
        self.apply(EditRequest::DeleteForward)
    }

    /// Moves the cursor one character to the left, unless it is at the start.
    pub fn move_left(&mut self) -> (changed: Option<StateChanged>)
        ensures
            final(self)@.text == old(self)@.text,
            final(self)@.left_bound == old(self)@.left_bound,
            final(self)@.cursor == (if old(self)@.cursor > 0 {
                old(self)@.cursor - 1
            } else {
                0
            }),
            final(self)@.wf(),
            changed == (if old(self)@.cursor > 0 {
                Some(StateChanged { value: false, cursor: true })
            } else {
                None
            }),
    {
        self.apply(EditRequest::MoveLeft)
    }

    /// Moves the cursor one character to the right, unless it is behind the
    /// end.
    pub fn move_right(&mut self) -> (changed: Option<StateChanged>)
        ensures
            final(self)@.text == old(self)@.text,
            final(self)@.left_bound == old(self)@.left_bound,
            final(self)@.cursor == (if old(self)@.cursor < old(self)@.text.len() {
                old(self)@.cursor + 1
            } else {
                old(self)@.cursor
            }),
            final(self)@.wf(),
            changed == (if old(self)@.cursor < old(self)@.text.len() {
                Some(StateChanged { value: false, cursor: true })
            } else {
                None
            }),
    {
        self.apply(EditRequest::MoveRight)
    }

    /// Puts the cursor at the start of the text.
    pub fn move_home(&mut self) -> (changed: Option<StateChanged>)
        ensures
            final(self)@ == (LineView { cursor: 0, ..old(self)@ }),
            final(self)@.wf(),
            changed == (if old(self)@.cursor > 0 {
                Some(StateChanged { value: false, cursor: true })
            } else {
                None
            }),
    {
        self.apply(EditRequest::MoveHome)
    }

    /// Puts the cursor behind the end of the text.
    pub fn move_end(&mut self) -> (changed: Option<StateChanged>)
        ensures
            final(self)@ == (LineView { cursor: old(self)@.text.len() as int, ..old(self)@ }),
            final(self)@.wf(),
            changed == (if old(self)@.cursor < old(self)@.text.len() {
                Some(StateChanged { value: false, cursor: true })
            } else {
                None
            }),
    {
        self.apply(EditRequest::MoveEnd)
    }

    /// A copy of the text before the cursor.
    pub fn before_cursor(&self) -> (text: String)
        ensures
            text@ == self@.before_cursor(),
    {
        proof {
            use_type_invariant(self);
        }
        self.text.as_str().substring_char(0, self.cursor).to_owned()
    }

    /// A copy of the text from the cursor on.
    pub fn after_cursor(&self) -> (text: String)
        ensures
            text@ == self@.after_cursor(),
    {
        proof {
            use_type_invariant(self);
        }
        let len = self.text.as_str().unicode_len();
        self.text.as_str().substring_char(self.cursor, len).to_owned()
    }

    /// Drops the text before the cursor: the rest stays, with the cursor at
    /// its start.
    pub fn keep_after_cursor(&mut self)
        ensures
            final(self)@ == old(self)@.remainder(),
            final(self)@.wf(),
    {
        let text = self.after_cursor();
        *self = LineBuffer { text, cursor: 0, left_bound: self.left_bound };
    }
}

} // verus!
