//! A thread as the interface follows it: the text of its log lines, its
//! progress and whether it has closed.
use std::sync::mpsc::Receiver;

use vstd::prelude::*;

use crate::channel::{take_pending, LoggedReceiver};
use crate::gui::sync::thread_event::{EventType, ThreadEvent};

verus! {

/// What the interface knows of a thread.
pub struct ConnectionState {
    pub log: Seq<String>,
    pub progress: int,
    pub closed: bool,
}

/// The state after one event: a log line's text is appended, an error is
/// dropped, progress counts one more, a closing event marks the thread closed.
pub open spec fn apply_event(s: ConnectionState, e: ThreadEvent) -> ConnectionState {
    match e.lvl {
        EventType::INFO => ConnectionState { log: s.log.push(e.data), ..s },
        EventType::ERROR => s,
        EventType::PROGRESS => ConnectionState { progress: s.progress + 1, ..s },
        EventType::CLOSE => ConnectionState { closed: true, ..s },
    }
}

pub open spec fn apply_events(s: ConnectionState, evs: Seq<ThreadEvent>) -> ConnectionState
    decreases evs.len(),
{
    if evs.len() == 0 {
        s
    } else {
        apply_event(apply_events(s, evs.drop_last()), evs.last())
    }
}

pub open spec fn progress_count(evs: Seq<ThreadEvent>) -> nat
    decreases evs.len(),
{
    if evs.len() == 0 {
        0
    } else {
        progress_count(evs.drop_last()) + if evs.last().lvl == EventType::PROGRESS { 1nat } else { 0nat }
    }
}

proof fn lemma_progress_count_split(a: Seq<ThreadEvent>, b: Seq<ThreadEvent>)
    ensures
        progress_count(a + b) == progress_count(a) + progress_count(b),
    decreases b.len(),
{
    if b.len() == 0 {
        assert(a + b =~= a);
    } else {
        lemma_progress_count_split(a, b.drop_last());
        assert((a + b).drop_last() =~= a + b.drop_last());
    }
}

/// What one pull does to a connection's state with the batch of events it
/// took from the channel: the state takes the whole batch in, in order; only
/// where counting the batch's progress events would pass the largest
/// progress value does the state stay as it was.
pub open spec fn pulled_batch(before: ConnectionState, after: ConnectionState, batch: Seq<ThreadEvent>) -> bool {
    if before.progress + progress_count(batch) <= u64::MAX {
        after == apply_events(before, batch)
    } else {
        after == before
    }
}

pub struct ThreadConnection {
    pub title: String,
    pub log_channel: LoggedReceiver<ThreadEvent>,
    pub log_events: Vec<String>,
    pub progress: u64,
    pub closed: bool,
}

impl ThreadConnection {
    pub open spec fn state(&self) -> ConnectionState {
        ConnectionState { log: self.log_events@, progress: self.progress as int, closed: self.closed }
    }

    pub fn new(title: String, log_channel: Receiver<ThreadEvent>) -> (r: ThreadConnection)
        ensures
            r.title == title,
            r.log_channel.handle() == log_channel,
            r.log_channel.taken() == Seq::<ThreadEvent>::empty(),
            r.log_events@ == Seq::<String>::empty(),
            r.progress == 0,
            !r.closed,
    {
        ThreadConnection {
            title,
            log_channel: LoggedReceiver::new(log_channel),
            log_events: Vec::new(),
            progress: 0,
            closed: false,
        }
    }

    /// Takes one event into account.
    pub fn apply(&mut self, e: ThreadEvent)
        requires
            e.lvl == EventType::PROGRESS ==> old(self).progress < u64::MAX,
        ensures
            final(self).state() == apply_event(old(self).state(), e),
            final(self).title == old(self).title,
            final(self).log_channel == old(self).log_channel,
    {
        match e.lvl {
            EventType::INFO => {
                self.log_events.push(e.data);
            },
            EventType::ERROR => {},
            EventType::PROGRESS => {
                self.progress = self.progress + 1;
            },
            EventType::CLOSE => {
                self.closed = true;
            },
        }
    }

    /// Takes a batch of events into account, in order.
    pub fn pull_events(&mut self, events: Vec<ThreadEvent>)
        requires
            old(self).progress + progress_count(events@) <= u64::MAX,
        ensures
            final(self).state() == apply_events(old(self).state(), events@),
            final(self).title == old(self).title,
            final(self).log_channel == old(self).log_channel,
    {
        let mut i: usize = 0;
        proof {
            assert(events@.skip(0) =~= events@);
        }
        while i < events.len()
            invariant
                i <= events@.len(),
                self.state() == apply_events(old(self).state(), events@.take(i as int)),
                self.progress + progress_count(events@.skip(i as int)) <= u64::MAX,
                self.title == old(self).title,
                self.log_channel == old(self).log_channel,
            decreases events@.len() - i,
        {
            let ghost before = events@.take(i as int);
            proof {
                lemma_progress_count_split(seq![events@[i as int]], events@.skip(i + 1));
                assert(seq![events@[i as int]] + events@.skip(i + 1) =~= events@.skip(i as int));
                reveal_with_fuel(progress_count, 2);
            }
            let e = ThreadEvent { lvl: events[i].lvl, data: events[i].data.clone() };
            self.apply(e);
            proof {
                assert(events@.take(i + 1).drop_last() =~= before);
            }
            i = i + 1;
        }
        proof {
            assert(events@.take(events@.len() as int) =~= events@);
        }
    }

    /// Takes into account every event waiting in the channel; in the case
    /// that counting them would pass the largest progress value, none is
    /// taken.
    pub fn pull(&mut self)
        ensures
            exists|evs: Seq<ThreadEvent>| final(self).state() == apply_events(old(self).state(), evs),
            final(self).title == old(self).title,
            final(self).log_channel.handle() == old(self).log_channel.handle(),
            final(self).log_channel.taken().take(old(self).log_channel.taken().len() as int)
                == old(self).log_channel.taken(),
            pulled_batch(
                old(self).state(),
                final(self).state(),
                final(self).log_channel.taken().skip(old(self).log_channel.taken().len() as int),
            ),
    {
        let ghost taken_before = self.log_channel.taken();
        let events = take_pending(&mut self.log_channel);
        assert(self.log_channel.taken().skip(taken_before.len() as int) =~= events@);
        assert(self.log_channel.taken().take(taken_before.len() as int) =~= taken_before);
        let ghost after_take = *self;
        let mut n: u64 = 0;
        let mut i: usize = 0;
        let mut fits = true;
        while i < events.len()
            invariant
                i <= events@.len(),
                fits ==> n as nat == progress_count(events@.take(i as int)),
                fits ==> n <= u64::MAX - old(self).progress,
                !fits ==> old(self).progress + progress_count(events@.take(i as int)) > u64::MAX,
                *self == after_take,
                after_take.progress == old(self).progress,
            decreases events@.len() - i,
        {
            proof {
                assert(events@.take(i + 1).drop_last() =~= events@.take(i as int));
            }
            if fits && events[i].lvl == EventType::PROGRESS {
                if n == u64::MAX - self.progress {
                    fits = false;
                } else {
                    n = n + 1;
                }
            }
            i = i + 1;
        }
        proof {
            assert(events@.take(events@.len() as int) =~= events@);
        }
        let ghost batch = events@;
        if fits {
            self.pull_events(events);
            assert(self.state() == apply_events(old(self).state(), batch));
        } else {
            proof {
                assert(old(self).state() == apply_events(old(self).state(), Seq::<ThreadEvent>::empty()));
                assert(self.state() == old(self).state());
            }
        }
    }
}

/// Taking two batches of events one after the other ends in the same state
/// as taking them as one batch.
pub proof fn law_batches_compose(s: ConnectionState, a: Seq<ThreadEvent>, b: Seq<ThreadEvent>)
    ensures
        apply_events(apply_events(s, a), b) == apply_events(s, a + b),
    decreases b.len(),
{
    if b.len() == 0 {
        assert(a + b =~= a);
    } else {
        law_batches_compose(s, a, b.drop_last());
        assert((a + b).drop_last() =~= a + b.drop_last());
        assert((a + b).last() == b.last());
    }
}

/// A batch of events raises the progress counter by the number of progress
/// events in it.
pub proof fn law_progress_counts(s: ConnectionState, evs: Seq<ThreadEvent>)
    ensures
        apply_events(s, evs).progress == s.progress + progress_count(evs),
    decreases evs.len(),
{
    if evs.len() > 0 {
        law_progress_counts(s, evs.drop_last());
    }
}

} // verus!
