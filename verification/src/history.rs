//! The lines submitted so far, and a place among them while browsing.

use vstd::prelude::*;
use vstd::string::*;

use crate::text::{is_blank, trim_end};

verus! {

/// A history as a mathematical value.
pub struct HistoryView {
    /// The recorded lines, the oldest first.
    pub entries: Seq<Seq<char>>,
    /// The entry shown while browsing; `None` while the user edits a line of
    /// their own.
    pub browse_index: Option<int>,
}

impl HistoryView {
    /// A history without entries.
    pub open spec fn empty() -> HistoryView {
        HistoryView { entries: Seq::empty(), browse_index: None }
    }

    /// While browsing, the place is one of the entries.
    pub open spec fn wf(self) -> bool {
        self.browse_index matches Some(i) ==> 0 <= i < self.entries.len()
    }

    /// The entry shown, if the user is browsing.
    pub open spec fn current(self) -> Option<Seq<char>> {
        match self.browse_index {
            Some(i) => Some(self.entries[i]),
            None => None,
        }
    }

    /// The history after `line` was submitted: one entry longer, unless the
    /// line is blank, and no longer browsing.
    pub open spec fn recorded(self, line: Seq<char>) -> HistoryView {
        HistoryView {
            entries: if trim_end(line).len() > 0 {
                self.entries.push(line)
            } else {
                self.entries
            },
            browse_index: None,
        }
    }

    /// The history after a step towards older entries: browsing starts at
    /// the newest entry and stops at the oldest.
    pub open spec fn previous(self) -> HistoryView {
        match self.browse_index {
            None => if self.entries.len() == 0 {
                self
            } else {
                HistoryView { browse_index: Some(self.entries.len() - 1), ..self }
            },
            Some(i) => HistoryView { browse_index: Some(if i > 0 { i - 1 } else { 0 }), ..self },
        }
    }

    /// The history after a step towards newer entries: it stops at the
    /// newest, and does nothing while the user is not browsing.
    pub open spec fn next(self) -> HistoryView {
        match self.browse_index {
            None => self,
            Some(i) => HistoryView {
                browse_index: Some(
                    if i + 1 < self.entries.len() {
                        i + 1
                    } else {
                        self.entries.len() - 1
                    },
                ),
                ..self
            },
        }
    }

    /// The history with browsing ended.
    pub open spec fn settled(self) -> HistoryView {
        HistoryView { browse_index: None, ..self }
    }
}

/// Browsing changes no entry and never leaves the entries, in whatever
/// order the steps come.
pub proof fn lemma_browsing_keeps_entries(history: HistoryView)
    requires
        history.wf(),
    ensures
        history.previous().wf(),
        history.next().wf(),
        history.previous().entries == history.entries,
        history.next().entries == history.entries,
        history.entries.len() > 0 ==> history.previous().browse_index is Some,
        history.browse_index == Some(0int) ==> history.previous() == history,
        history.browse_index == Some(history.entries.len() - 1) ==> history.next() == history,
{
}

/// The lines submitted so far, with the place of the one shown while the
/// user browses them. The place of a `History` is one of its entries,
/// always.
pub struct History {
    entries: Vec<String>,
    browse_index: Option<usize>,
}

impl View for History {
    type V = HistoryView;

    closed spec fn view(&self) -> HistoryView {
        HistoryView {
            entries: self.entries@.map_values(|s: String| s@),
            browse_index: match self.browse_index {
                Some(i) => Some(i as int),
                None => None,
            },
        }
    }
}

impl History {
    /// While browsing, the place is one of the entries. This holds of
    /// every `History`.
    #[verifier::type_invariant]
    pub open spec fn wf(self) -> bool {
        self@.wf()
    }

    /// A history without entries.
    pub fn new() -> (history: History)
        ensures
            history@ == HistoryView::empty(),
    {
        let history = History { entries: Vec::new(), browse_index: None };
        proof {
            assert(history@.entries =~= Seq::<Seq<char>>::empty());
        }
        history
    }

    /// The number of entries.
    pub fn len(&self) -> (len: usize)
        ensures
            len == self@.entries.len(),
    {
        self.entries.len()
    }

    /// A copy of entry `index`, counted from the oldest.
    pub fn entry(&self, index: usize) -> (line: Option<String>)
        ensures
            index < self@.entries.len() ==> (line matches Some(l) && l@ == self@.entries[index as int]),
            index >= self@.entries.len() ==> line is None,
    {
        if index < self.entries.len() {
            Some(self.entries[index].clone())
        } else {
            None
        }
    }

    /// The place of the entry shown, if the user is browsing.
    pub fn browse_index(&self) -> (index: Option<usize>)
        ensures
            index matches Some(i) ==> self@.browse_index == Some(i as int),
            index is None ==> self@.browse_index is None,
            self@.wf(),
    {
        proof {
            use_type_invariant(self);
        }
        self.browse_index
    }

    /// Ends browsing. The entries stay.
    pub fn settle(&mut self)
        ensures
            final(self)@ == old(self)@.settled(),
    {
        self.browse_index = None;
    }

    /// Takes down a submitted line and ends browsing. A line of nothing but
    /// white space leaves no entry.
    pub fn record(&mut self, line: String)
        ensures
            final(self)@ == old(self)@.recorded(line@),
    {
        self.browse_index = None;
        if !is_blank(line.as_str()) {
            let mut entries = Vec::new();
            std::mem::swap(&mut entries, &mut self.entries);
            entries.push(line);
            self.entries = entries;
            proof {
                assert(self.entries@.map_values(|s: String| s@) =~= old(self)@.entries.push(
                    line@,
                ));
            }
        }
    }

    /// Steps to the entry before the one shown, or to the newest when the
    /// user was not browsing, and returns a copy of it. At the oldest entry
    /// it stays. `None`, and nothing changed, where there are no entries.
    pub fn previous(&mut self) -> (line: Option<String>)
        ensures
            final(self)@ == old(self)@.previous(),
            final(self)@.wf(),
            line matches Some(l) ==> final(self)@.current() == Some(l@),
            line is None <==> old(self)@.entries.len() == 0,
    {
        proof {
            use_type_invariant(&*self);
        }
        let index = match self.browse_index {
            None => {
                if self.entries.len() == 0 {
                    return None;
                }
                self.entries.len() - 1
            },
            Some(i) => if i > 0 {
                i - 1
            } else {
                0
            },
        };
        self.browse_index = Some(index);
        Some(self.entries[index].clone())
    }

    /// Steps to the entry after the one shown and returns a copy of it. At
    /// the newest entry it stays. `None`, and nothing changed, while the
    /// user is not browsing.
    pub fn next(&mut self) -> (line: Option<String>)
        ensures
            final(self)@ == old(self)@.next(),
            final(self)@.wf(),
            line matches Some(l) ==> final(self)@.current() == Some(l@),
            line is None <==> old(self)@.browse_index is None,
    {
        proof {
            use_type_invariant(&*self);
        }
        match self.browse_index {
            None => None,
            Some(i) => {
                let len = self.entries.len();
                let index = if i + 1 < len {
                    i + 1
                } else {
                    len - 1
                };
                self.browse_index = Some(index);
                Some(self.entries[index].clone())
            },
        }
    }
}

} // verus!
