//! Recall of previously committed input lines.
//!
//! An append-only log of committed input lines plus a pointer. A pointer
//! equal to the log's length means "not recalling, editing fresh input";
//! recalling moves the pointer and hands back the line to load into the
//! live input.

use vstd::prelude::*;
use crate::text::views;

verus! {

/// The mathematical value of a `RecallHistory`.
pub ghost struct RecallView {
    /// Previously committed input lines, oldest first.
    pub entries: Seq<Seq<char>>,
    /// Recall position; `entries.len()` means fresh input.
    pub pointer: nat,
}

impl RecallView {
    /// The pointer never leaves `[0, entries.len()]`.
    pub open spec fn wf(self) -> bool {
        self.pointer <= self.entries.len()
    }
}

/// Recording a committed line appends it and resets to fresh input.
pub open spec fn record_spec(v: RecallView, line: Seq<char>) -> RecallView {
    RecallView { entries: v.entries.push(line), pointer: v.entries.len() + 1 }
}

/// Recalling backwards steps the pointer down, unless it is already at the
/// oldest entry.
pub open spec fn recall_previous_spec(v: RecallView) -> RecallView {
    if v.pointer == 0 {
        v
    } else {
        RecallView { entries: v.entries, pointer: (v.pointer - 1) as nat }
    }
}

/// Recalling forwards steps the pointer up, unless the log is empty or the
/// pointer is already at the newest entry or on fresh input.
pub open spec fn recall_next_spec(v: RecallView) -> RecallView {
    if v.entries.len() == 0 || v.pointer + 1 >= v.entries.len() {
        v
    } else {
        RecallView { entries: v.entries, pointer: v.pointer + 1 }
    }
}

/// The ordered log of previously committed input lines plus the recall
/// pointer.
pub struct RecallHistory {
    entries: Vec<String>,
    pointer: usize,
}

impl View for RecallHistory {
    type V = RecallView;

    closed spec fn view(&self) -> RecallView {
        RecallView { entries: views(self.entries@), pointer: self.pointer as nat }
    }
}

impl RecallHistory {
    /// An empty log in the fresh-input state.
    pub fn new() -> (r: RecallHistory)
        ensures
            r@.entries == Seq::<Seq<char>>::empty(),
            r@.pointer == 0,
            r@.wf(),
    {
        let r = RecallHistory { entries: Vec::new(), pointer: 0 };
        proof {
            assert(r@.entries =~= Seq::<Seq<char>>::empty());
        }
        r
    }

    /// Record a committed line and return to the fresh-input state.
    pub fn record(&mut self, line: String)
        requires
            old(self)@.wf(),
            old(self)@.entries.len() < usize::MAX,
        ensures
            final(self)@ == record_spec(old(self)@, line@),
            final(self)@.wf(),
    {
        self.entries.push(line);
        self.pointer = self.entries.len();
        proof {
            assert(self@.entries =~= record_spec(old(self)@, line@).entries);
        }
    }

    /// Step to the previous committed line and hand it back, or `None` (and
    /// no change at all) when already at the oldest entry — in particular on
    /// an empty log.
    pub fn recall_previous(&mut self) -> (line: Option<String>)
        requires
            old(self)@.wf(),
        ensures
            final(self)@ == recall_previous_spec(old(self)@),
            final(self)@.wf(),
            match line {
                Some(l) => old(self)@.pointer > 0 && l@ == old(self)@.entries[old(
                    self,
                )@.pointer - 1],
                None => old(self)@.pointer == 0,
            },
    {
        if self.pointer == 0 {
            return None;
        }
        self.pointer = self.pointer - 1;
        let line = self.entries[self.pointer].clone();
        Some(line)
    }

    /// Step to the next committed line and hand it back, or `None` (and no
    /// change at all) when the log is empty or the pointer is already at the
    /// newest entry or on fresh input.
    pub fn recall_next(&mut self) -> (line: Option<String>)
        requires
            old(self)@.wf(),
        ensures
            final(self)@ == recall_next_spec(old(self)@),
            final(self)@.wf(),
            match line {
                Some(l) => old(self)@.pointer + 1 < old(self)@.entries.len() && l@ == old(
                    self,
                )@.entries[old(self)@.pointer as int + 1],
                None => old(self)@.entries.len() == 0 || old(self)@.pointer + 1 >= old(
                    self,
                )@.entries.len(),
            },
    {
        if self.entries.len() == 0 || self.pointer >= self.entries.len() - 1 {
            return None;
        }
        self.pointer = self.pointer + 1;
        let line = self.entries[self.pointer].clone();
        Some(line)
    }

    /// The recorded lines, oldest first.
    pub fn entries(&self) -> (e: &Vec<String>)
        ensures
            views(e@) == self@.entries,
    {
        &self.entries
    }

    /// The recall pointer; equal to the log length on fresh input.
    pub fn pointer(&self) -> (p: usize)
        ensures
            p as nat == self@.pointer,
    {
        self.pointer
    }
}

} // verus!
