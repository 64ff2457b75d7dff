//! The interface side of a worker's event channel: the worker's log, its
//! progress counter and whether it has closed.
use std::sync::mpsc::Receiver;

use vstd::prelude::*;

use crate::channel::{take_pending, LoggedReceiver};
use crate::gui::util::{Logged, Pull};
use crate::sync::thread_event::{EventType, ThreadEvent};

verus! {

/// A log line of a worker, kept with its kind.
#[derive(Clone)]
pub enum TypedLog {
    Info(String),
    Error(String),
}

impl TypedLog {
    pub fn is_info(&self) -> (r: bool)
        ensures
            r == (*self is Info),
    {
        match self {
            TypedLog::Info(_) => true,
            TypedLog::Error(_) => false,
        }
    }

    pub fn is_error(&self) -> (r: bool)
        ensures
            r == (*self is Error),
    {
        match self {
            TypedLog::Info(_) => false,
            TypedLog::Error(_) => true,
        }
    }

    /// The text of the line, whatever its kind.
    pub fn data(self) -> (r: String)
        ensures
            r == log_text(self),
    {
        match self {
            TypedLog::Info(d) => d,
            TypedLog::Error(d) => d,
        }
    }
}

/// The text of a log line.
pub open spec fn log_text(l: TypedLog) -> String {
    match l {
        TypedLog::Info(d) => d,
        TypedLog::Error(d) => d,
    }
}

/// What the interface knows of a worker: its log, its progress and whether it
/// has closed.
pub struct ReceiverState {
    pub log: Seq<TypedLog>,
    pub progress: int,
    pub closed: bool,
}

/// The state after one event: a log event appends a line of the same kind, a
/// progress event counts one more, a closing event marks the worker closed.
pub open spec fn apply_event(s: ReceiverState, e: ThreadEvent) -> ReceiverState {
    match e.lvl {
        EventType::INFO => ReceiverState { log: s.log.push(TypedLog::Info(e.data)), ..s },
        EventType::ERROR => ReceiverState { log: s.log.push(TypedLog::Error(e.data)), ..s },
        EventType::PROGRESS => ReceiverState { progress: s.progress + 1, ..s },
        EventType::CLOSED => ReceiverState { closed: true, ..s },
    }
}

/// The state after a sequence of events, taken in order.
pub open spec fn apply_events(s: ReceiverState, evs: Seq<ThreadEvent>) -> ReceiverState
    decreases evs.len(),
{
    if evs.len() == 0 {
        s
    } else {
        apply_event(apply_events(s, evs.drop_last()), evs.last())
    }
}

/// How many progress events a sequence holds.
pub open spec fn progress_count(evs: Seq<ThreadEvent>) -> nat
    decreases evs.len(),
{
    if evs.len() == 0 {
        0
    } else {
        progress_count(evs.drop_last()) + if evs.last().lvl == EventType::PROGRESS { 1nat } else { 0nat }
    }
}

/// The log lines that a sequence of events produces, in order.
pub open spec fn logged_lines(evs: Seq<ThreadEvent>) -> Seq<TypedLog>
    decreases evs.len(),
{
    if evs.len() == 0 {
        Seq::empty()
    } else {
        let rest = logged_lines(evs.drop_last());
        let e = evs.last();
        match e.lvl {
            EventType::INFO => rest.push(TypedLog::Info(e.data)),
            EventType::ERROR => rest.push(TypedLog::Error(e.data)),
            _ => rest,
        }
    }
}

/// Whether a sequence of events holds a closing event.
pub open spec fn has_close(evs: Seq<ThreadEvent>) -> bool {
    exists|i: int| 0 <= i < evs.len() && #[trigger] evs[i].lvl == EventType::CLOSED
}

/// What one pull does to a receiver's state with the batch of events it
/// took from the channel: the state takes the whole batch in, in order; only
/// where counting the batch's progress events would pass the largest
/// progress value does the state stay as it was.
pub open spec fn pulled_batch(before: ReceiverState, after: ReceiverState, batch: Seq<ThreadEvent>) -> bool {
    if before.progress + progress_count(batch) <= u64::MAX {
        after == apply_events(before, batch)
    } else {
        after == before
    }
}

/// The receiving end of a worker's event channel.
pub struct ThreadInfoReceiver {
    pub title: String,
    pub channel_receiver: LoggedReceiver<ThreadEvent>,
    pub log_events: Vec<TypedLog>,
    pub progress: u64,
    pub closed: bool,
}

impl ThreadInfoReceiver {
    pub open spec fn state(&self) -> ReceiverState {
        ReceiverState { log: self.log_events@, progress: self.progress as int, closed: self.closed }
    }

    /// A receiver that has seen nothing yet.
    pub fn new(title: String, channel_receiver: Receiver<ThreadEvent>) -> (r: ThreadInfoReceiver)
        ensures
            r.title == title,
            r.channel_receiver.handle() == channel_receiver,
            r.channel_receiver.taken() == Seq::<ThreadEvent>::empty(),
            r.log_events@ == Seq::<TypedLog>::empty(),
            r.progress == 0,
            !r.closed,
    {
        ThreadInfoReceiver {
            title,
            channel_receiver: LoggedReceiver::new(channel_receiver),
            log_events: Vec::new(),
            progress: 0,
            closed: false,
        }
    }

    /// Whether some line of the log is an error.
    pub fn has_errors(&self) -> (r: bool)
        ensures
            r == exists|i: int| 0 <= i < self.log_events@.len() && #[trigger] self.log_events@[i] is Error,
    {
        let mut i: usize = 0;
        while i < self.log_events.len()
            invariant
                i <= self.log_events@.len(),
                forall|j: int| 0 <= j < i ==> !(#[trigger] self.log_events@[j] is Error),
            decreases self.log_events@.len() - i,
        {
            if self.log_events[i].is_error() {
                return true;
            }
            i = i + 1;
        }
        false
    }

    /// Takes one event into account.
    pub fn apply(&mut self, e: ThreadEvent)
        requires
            e.lvl == EventType::PROGRESS ==> old(self).progress < u64::MAX,
        ensures
            final(self).state() == apply_event(old(self).state(), e),
            final(self).title == old(self).title,
            final(self).channel_receiver == old(self).channel_receiver,
    {
        match e.lvl {
            EventType::INFO => {
                self.log_events.push(TypedLog::Info(e.data));
            },
            EventType::ERROR => {
                self.log_events.push(TypedLog::Error(e.data));
            },
            EventType::PROGRESS => {
                self.progress = self.progress + 1;
            },
            EventType::CLOSED => {
                self.closed = true;
            },
        }
    }

    /// Takes a batch of events into account, in order.
    pub fn pull_events(&mut self, events: Vec<ThreadEvent>)
        requires
            old(self).progress + progress_count(events@) <= u64::MAX,
        ensures
            final(self).state() == apply_events(old(self).state(), events@),
            final(self).title == old(self).title,
            final(self).channel_receiver == old(self).channel_receiver,
    {
        let mut i: usize = 0;
        proof {
            assert(events@.skip(0) =~= events@);
        }
        while i < events.len()
            invariant
                i <= events@.len(),
                self.state() == apply_events(old(self).state(), events@.take(i as int)),
                self.progress + progress_count(events@.skip(i as int)) <= u64::MAX,
                self.title == old(self).title,
                self.channel_receiver == old(self).channel_receiver,
            decreases events@.len() - i,
        {
            let ghost before = events@.take(i as int);
            proof {
                lemma_progress_count_split(events@.take(i as int), events@.skip(i as int));
                assert(events@.take(i as int) + events@.skip(i as int) =~= events@);
                lemma_progress_count_split(seq![events@[i as int]], events@.skip(i + 1));
                assert(seq![events@[i as int]] + events@.skip(i + 1) =~= events@.skip(i as int));
                reveal_with_fuel(progress_count, 2);
            }
            let e = ThreadEvent { lvl: events[i].lvl, data: events[i].data.clone() };
            self.apply(e);
            proof {
                assert(events@.take(i + 1).drop_last() =~= before);
            }
            i = i + 1;
        }
        proof {
            assert(events@.take(events@.len() as int) =~= events@);
        }
    }

    /// Takes into account every event that is waiting in the channel.
    /// Which events are waiting depends on the worker; in the case that
    /// counting them would pass the largest progress value, none is taken.
    pub fn pull(&mut self)
        ensures
            exists|evs: Seq<ThreadEvent>| final(self).state() == apply_events(old(self).state(), evs),
            final(self).title == old(self).title,
            final(self).channel_receiver.handle() == old(self).channel_receiver.handle(),
            final(self).channel_receiver.taken().take(old(self).channel_receiver.taken().len() as int)
                == old(self).channel_receiver.taken(),
            pulled_batch(
                old(self).state(),
                final(self).state(),
                final(self).channel_receiver.taken().skip(old(self).channel_receiver.taken().len() as int),
            ),
    {
        let ghost taken_before = self.channel_receiver.taken();
        let events = take_pending(&mut self.channel_receiver);
        assert(self.channel_receiver.taken().skip(taken_before.len() as int) =~= events@);
        assert(self.channel_receiver.taken().take(taken_before.len() as int) =~= taken_before);
        let fits = match count_progress(&events) {
            Some(n) => n <= u64::MAX - self.progress,
            None => false,
        };
        let ghost batch = events@;
        if fits {
            self.pull_events(events);
            assert(self.state() == apply_events(old(self).state(), batch));
        } else {
            proof {
                assert(old(self).state() == apply_events(old(self).state(), Seq::<ThreadEvent>::empty()));
                assert(self.state() == old(self).state());
            }
        }
    }
}

impl Logged for ThreadInfoReceiver {
    open spec fn log_len(&self) -> nat {
        self.log_events@.len()
    }

    fn log_count(&self) -> (r: usize) {
        self.log_events.len()
    }
}

impl Pull for ThreadInfoReceiver {
    /// The title is kept and the state is the old one after some events.
    open spec fn pulled_from(&self, before: &Self) -> bool {
        &&& self.title == before.title
        &&& self.channel_receiver.handle() == before.channel_receiver.handle()
        &&& exists|evs: Seq<ThreadEvent>| self.state() == apply_events(before.state(), evs)
        &&& self.channel_receiver.taken().take(before.channel_receiver.taken().len() as int)
            == before.channel_receiver.taken()
        &&& pulled_batch(
            before.state(),
            self.state(),
            self.channel_receiver.taken().skip(before.channel_receiver.taken().len() as int),
        )
    }

    fn pull_pending(&mut self) {
        self.pull();
    }
}

/// How many progress events a batch holds, or `None` where that number does
/// not fit in a `u64`.
pub fn count_progress(events: &Vec<ThreadEvent>) -> (r: Option<u64>)
    ensures
        match r {
            Some(n) => n as nat == progress_count(events@),
            None => progress_count(events@) > u64::MAX,
        },
{
    let mut n: u64 = 0;
    let mut i: usize = 0;
    while i < events.len()
        invariant
            i <= events@.len(),
            n as nat == progress_count(events@.take(i as int)),
        decreases events@.len() - i,
    {
        proof {
            assert(events@.take(i + 1).drop_last() =~= events@.take(i as int));
        }
        if events[i].lvl == EventType::PROGRESS {
            if n == u64::MAX {
                proof {
                    lemma_progress_count_split(events@.take(i + 1), events@.skip(i + 1));
                    assert(events@.take(i + 1) + events@.skip(i + 1) =~= events@);
                }
                return None;
            }
            n = n + 1;
        }
        i = i + 1;
    }
    proof {
        assert(events@.take(events@.len() as int) =~= events@);
    }
    Some(n)
}

/// Splitting a sequence of events splits its progress count.
pub proof fn lemma_progress_count_split(a: Seq<ThreadEvent>, b: Seq<ThreadEvent>)
    ensures
        progress_count(a + b) == progress_count(a) + progress_count(b),
    decreases b.len(),
{
    if b.len() == 0 {
        assert(a + b =~= a);
    } else {
        lemma_progress_count_split(a, b.drop_last());
        assert((a + b).drop_last() =~= a + b.drop_last());
    }
}

/// Two pulls one after the other, as long as the progress they count stays
/// in range, leave the receiver having taken in, in order, every event taken
/// from its channel by either: no event taken is lost, reordered or taken in
/// twice.
pub proof fn law_pulls_lose_nothing(
    s0: ReceiverState,
    s1: ReceiverState,
    s2: ReceiverState,
    a: Seq<ThreadEvent>,
    b: Seq<ThreadEvent>,
)
    requires
        pulled_batch(s0, s1, a),
        pulled_batch(s1, s2, b),
        s0.progress + progress_count(a + b) <= u64::MAX,
    ensures
        s2 == apply_events(s0, a + b),
{
    lemma_progress_count_split(a, b);
    law_batch_effect(s0, a);
    law_batches_compose(s0, a, b);
}

/// Taking two batches of events one after the other ends in the same state
/// as taking them as one batch.
pub proof fn law_batches_compose(s: ReceiverState, a: Seq<ThreadEvent>, b: Seq<ThreadEvent>)
    ensures
        apply_events(apply_events(s, a), b) == apply_events(s, a + b),
    decreases b.len(),
{
    if b.len() == 0 {
        assert(a + b =~= a);
    } else {
        law_batches_compose(s, a, b.drop_last());
        assert((a + b).drop_last() =~= a + b.drop_last());
        assert((a + b).last() == b.last());
    }
}

/// After a batch of events, the progress counter has grown by the number of
/// progress events in it, the log has grown by exactly the lines of its log
/// events in their order, and the worker is closed exactly when it was closed
/// before or the batch holds a closing event.
pub proof fn law_batch_effect(s: ReceiverState, evs: Seq<ThreadEvent>)
    ensures
        apply_events(s, evs).progress == s.progress + progress_count(evs),
        apply_events(s, evs).log == s.log + logged_lines(evs),
        apply_events(s, evs).closed == (s.closed || has_close(evs)),
    decreases evs.len(),
{
    if evs.len() == 0 {
        assert(s.log + Seq::<TypedLog>::empty() =~= s.log);
    } else {
        let init = evs.drop_last();
        law_batch_effect(s, init);
        let e = evs.last();
        match e.lvl {
            EventType::INFO => {
                assert(s.log + logged_lines(init).push(TypedLog::Info(e.data)) =~= (s.log + logged_lines(init)).push(TypedLog::Info(e.data)));
            },
            EventType::ERROR => {
                assert(s.log + logged_lines(init).push(TypedLog::Error(e.data)) =~= (s.log + logged_lines(init)).push(TypedLog::Error(e.data)));
            },
            _ => {},
        }
        if has_close(evs) {
            let k = choose|k: int| 0 <= k < evs.len() && #[trigger] evs[k].lvl == EventType::CLOSED;
            if k < evs.len() - 1 {
                assert(init[k].lvl == EventType::CLOSED);
            }
        }
        if has_close(init) {
            let k = choose|k: int| 0 <= k < init.len() && #[trigger] init[k].lvl == EventType::CLOSED;
            assert(evs[k].lvl == EventType::CLOSED);
        }
    }
}

} // verus!
