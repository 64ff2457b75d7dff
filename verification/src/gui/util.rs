//! A list of followed threads with a selection that wraps around.
use vstd::prelude::*;

use crate::gui::app::{copy_logs, LogEvent, ThreadConnection};

verus! {

/// The selection after moving down: the next entry, the first after the
/// last, and the first when nothing was selected.
pub open spec fn spec_next(selected: Option<usize>, len: nat) -> Option<usize> {
    match selected {
        Some(i) => if i >= len - 1 { Some(0usize) } else { Some((i + 1) as usize) },
        None => Some(0usize),
    }
}

/// The selection after moving up: the previous entry, the last before the
/// first, and the first when nothing was selected.
pub open spec fn spec_previous(selected: Option<usize>, len: nat) -> Option<usize> {
    match selected {
        Some(i) => if i == 0 { Some((len - 1) as usize) } else { Some((i - 1) as usize) },
        None => Some(0usize),
    }
}

/// An entry that takes in what is waiting for it, such as a followed thread
/// taking the events waiting in its channel.
pub trait Pull: Sized {
    /// How the entry after taking in what was waiting relates to the entry
    /// before.
    spec fn pulled_from(&self, before: &Self) -> bool;

    /// Takes in what is waiting.
    fn pull_pending(&mut self)
        ensures
            final(self).pulled_from(&*old(self)),
    ;
}

/// An entry with a log of lines, such as a followed thread.
pub trait Logged {
    /// The number of lines in the entry's log.
    spec fn log_len(&self) -> nat;

    /// The number of lines in the entry's log.
    fn log_count(&self) -> (r: usize)
        ensures
            r == self.log_len(),
    ;
}

/// The selection after moving down in a list of `len` entries (`spec_next`).
pub fn next_index(selected: Option<usize>, len: usize) -> (r: Option<usize>)
    requires
        selected is Some ==> len > 0,
    ensures
        r == spec_next(selected, len as nat),
{
    match selected {
        Some(i) => if i >= len - 1 {
            Some(0)
        } else {
            Some(i + 1)
        },
        None => Some(0),
    }
}

/// The selection after moving up in a list of `len` entries
/// (`spec_previous`).
pub fn previous_index(selected: Option<usize>, len: usize) -> (r: Option<usize>)
    requires
        selected == Some(0usize) ==> len > 0,
    ensures
        r == spec_previous(selected, len as nat),
{
    match selected {
        Some(i) => if i == 0 {
            Some(len - 1)
        } else {
            Some(i - 1)
        },
        None => Some(0),
    }
}

/// A list of entries and the selected one, if any. (The drawing side keeps
/// the same selection in the widget state it renders with.)
pub struct StatefulList<T> {
    pub items: Vec<T>,
    pub selected: Option<usize>,
}

impl<T> StatefulList<T> {
    pub fn with_items(items: Vec<T>) -> (r: StatefulList<T>)
        ensures
            r.items@ == items@,
            r.selected is None,
    {
        StatefulList { items, selected: None }
    }

    /// Moves the selection down, wrapping around.
    pub fn next(&mut self)
        requires
            old(self).selected is Some ==> old(self).items@.len() > 0,
        ensures
            final(self).selected == spec_next(old(self).selected, old(self).items@.len()),
            final(self).items@ == old(self).items@,
    {
        self.selected = next_index(self.selected, self.items.len());
    }

    /// Moves the selection up, wrapping around.
    pub fn previous(&mut self)
        requires
            old(self).selected == Some(0usize) ==> old(self).items@.len() > 0,
        ensures
            final(self).selected == spec_previous(old(self).selected, old(self).items@.len()),
            final(self).items@ == old(self).items@,
    {
        self.selected = previous_index(self.selected, self.items.len());
    }

    /// Clears the selection.
    pub fn unselect(&mut self)
        ensures
            final(self).selected is None,
            final(self).items@ == old(self).items@,
    {
        self.selected = None;
    }
}

impl StatefulList<ThreadConnection> {
    /// The log lines of the selected thread; none when nothing is selected.
    pub fn get_selected_logs(&self) -> (r: Vec<LogEvent>)
        requires
            self.selected matches Some(i) ==> i < self.items@.len(),
        ensures
            r@ == match self.selected {
                None => Seq::<LogEvent>::empty(),
                Some(i) => self.items@[i as int].log_events@,
            },
    {
        match self.selected {
            None => Vec::new(),
            Some(index) => copy_logs(&self.items[index].log_events),
        }
    }
}

/// In a list that is not empty, moving down and then up, or up and then
/// down, comes back to the entry that was selected.
pub proof fn law_next_previous_undo(i: usize, len: nat)
    requires
        i < len,
        len <= usize::MAX,
    ensures
        spec_previous(spec_next(Some(i), len), len) == Some(i),
        spec_next(spec_previous(Some(i), len), len) == Some(i),
{
}

/// In a list that is not empty, moving keeps the selection on an entry.
pub proof fn law_moves_stay_in_list(selected: Option<usize>, len: nat)
    requires
        len > 0,
        len <= usize::MAX,
        selected matches Some(i) ==> i < len,
    ensures
        spec_next(selected, len) matches Some(j) && j < len,
        spec_previous(selected, len) matches Some(j) && j < len,
{
}

} // verus!
