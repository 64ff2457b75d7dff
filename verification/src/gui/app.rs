//! The interface's model: the followed threads and which one is selected.
use std::sync::mpsc::Receiver;

use vstd::prelude::*;

use crate::channel::{take_pending, LoggedReceiver};
use crate::gui::util::{Logged, Pull, StatefulList};

verus! {

/// The level of a log line.
#[derive(Debug, Clone, Copy, PartialEq, Eq, Structural)]
pub enum LogLvl {
    INFO,
    WARNING,
    ERROR,
    CRITICAL,
}

/// A log line with its level.
#[derive(Debug)]
pub struct LogEvent {
    pub lvl: LogLvl,
    pub data: String,
}

impl Clone for LogEvent {
    fn clone(&self) -> (r: LogEvent)
        ensures
            r == *self,
    {
        LogEvent { lvl: self.lvl, data: self.data.clone() }
    }
}

impl LogEvent {
    /// An information line.
    pub fn info(data: String) -> (r: LogEvent)
        ensures
            r.lvl == LogLvl::INFO,
            r.data == data,
    {
        LogEvent { lvl: LogLvl::INFO, data }
    }
}

/// A copy of a list of log lines.
pub fn copy_logs(logs: &Vec<LogEvent>) -> (r: Vec<LogEvent>)
    ensures
        r@ == logs@,
{
    let mut r: Vec<LogEvent> = Vec::new();
    let mut i: usize = 0;
    while i < logs.len()
        invariant
            i <= logs@.len(),
            r@ == logs@.take(i as int),
        decreases logs@.len() - i,
    {
        r.push(logs[i].clone());
        proof {
            assert(r@ =~= logs@.take(i + 1));
        }
        i = i + 1;
    }
    proof {
        assert(logs@.take(logs@.len() as int) =~= logs@);
    }
    r
}

/// A thread as the interface follows it: its title and the log lines that
/// have come from it.
pub struct ThreadConnection {
    pub title: String,
    pub log_channel: LoggedReceiver<LogEvent>,
    pub log_events: Vec<LogEvent>,
}

impl ThreadConnection {
    pub fn new(title: String, log_channel: Receiver<LogEvent>) -> (r: ThreadConnection)
        ensures
            r.title == title,
            r.log_channel.handle() == log_channel,
            r.log_channel.taken() == Seq::<LogEvent>::empty(),
            r.log_events@ == Seq::<LogEvent>::empty(),
    {
        ThreadConnection { title, log_channel: LoggedReceiver::new(log_channel), log_events: Vec::new() }
    }

    /// Appends a batch of log lines, in order.
    pub fn pull_events(&mut self, events: Vec<LogEvent>)
        ensures
            final(self).log_events@ == old(self).log_events@ + events@,
            final(self).title == old(self).title,
            final(self).log_channel == old(self).log_channel,
    {
        let mut events = events;
        self.log_events.append(&mut events);
    }

    /// Appends every log line waiting in the channel, in arrival order.
    pub fn pull(&mut self)
        ensures
            exists|evs: Seq<LogEvent>| final(self).log_events@ == old(self).log_events@ + evs,
            final(self).title == old(self).title,
            final(self).log_channel.handle() == old(self).log_channel.handle(),
            final(self).log_channel.taken().take(old(self).log_channel.taken().len() as int)
                == old(self).log_channel.taken(),
            final(self).log_events@ == old(self).log_events@ + final(self).log_channel.taken().skip(
                old(self).log_channel.taken().len() as int,
            ),
    {
        let ghost taken_before = self.log_channel.taken();
        let events = take_pending(&mut self.log_channel);
        assert(self.log_channel.taken().skip(taken_before.len() as int) =~= events@);
        assert(self.log_channel.taken().take(taken_before.len() as int) =~= taken_before);
        self.pull_events(events);
    }
}

impl Pull for ThreadConnection {
    /// The title is kept and log lines are only appended.
    open spec fn pulled_from(&self, before: &Self) -> bool {
        &&& self.title == before.title
        &&& self.log_channel.handle() == before.log_channel.handle()
        &&& exists|evs: Seq<LogEvent>| self.log_events@ == before.log_events@ + evs
        &&& self.log_channel.taken().take(before.log_channel.taken().len() as int)
            == before.log_channel.taken()
        &&& self.log_events@ == before.log_events@ + self.log_channel.taken().skip(
            before.log_channel.taken().len() as int,
        )
    }

    fn pull_pending(&mut self) {
        self.pull();
    }
}

impl Logged for ThreadConnection {
    open spec fn log_len(&self) -> nat {
        self.log_events@.len()
    }

    fn log_count(&self) -> (r: usize) {
        self.log_events.len()
    }
}

/// The interface's state: the followed threads, with a selection; which of
/// the thread menu and the log of the selected thread has the focus; and the
/// selected line of that log, if any.
pub struct App<T> {
    pub items: StatefulList<T>,
    pub menu_in_focus: bool,
    pub log_selected: Option<usize>,
}

impl<T> App<T> {
    /// The thread menu has the focus, and nothing is selected.
    pub fn new(items: Vec<T>) -> (r: App<T>)
        ensures
            r.items.items@ == items@,
            r.items.selected is None,
            r.menu_in_focus,
            r.log_selected is None,
    {
        App { items: StatefulList::with_items(items), menu_in_focus: true, log_selected: None }
    }
}

impl<T: Pull> App<T> {
    /// Lets every followed thread take in what is waiting for it.
    pub fn tick(&mut self)
        ensures
            final(self).items.selected == old(self).items.selected,
            final(self).menu_in_focus == old(self).menu_in_focus,
            final(self).log_selected == old(self).log_selected,
            final(self).items.items@.len() == old(self).items.items@.len(),
            forall|k: int|
                0 <= k < old(self).items.items@.len() ==> (#[trigger] final(self).items.items@[k]).pulled_from(
                    &old(self).items.items@[k],
                ),
    {
        let n = self.items.items.len();
        let mut i: usize = 0;
        while i < n
            invariant
                n == old(self).items.items@.len(),
                self.items.items@.len() == n,
                self.items.selected == old(self).items.selected,
                self.menu_in_focus == old(self).menu_in_focus,
                self.log_selected == old(self).log_selected,
                i <= n,
                forall|k: int|
                    0 <= k < i ==> (#[trigger] self.items.items@[k]).pulled_from(&old(self).items.items@[k]),
                forall|k: int| i <= k < n ==> #[trigger] self.items.items@[k] == old(self).items.items@[k],
            decreases n - i,
        {
            let ghost before = self.items.items@;
            self.items.items[i].pull_pending();
            proof {
                assert forall|k: int| 0 <= k < i + 1 implies (#[trigger] self.items.items@[k]).pulled_from(
                    &old(self).items.items@[k],
                ) by {
                    if k < i {
                        assert(self.items.items@[k] == before[k]);
                    } else {
                        assert(before[k] == old(self).items.items@[k]);
                    }
                }
            }
            i = i + 1;
        }
    }
}

} // verus!
