//! The worker side of an event channel.
use std::sync::mpsc::Sender;

use vstd::prelude::*;

use crate::channel::LoggedSender;
use crate::sync::thread_event::{EventType, ThreadEvent};

verus! {

/// The text that a worker logs just before it reports that it has closed.
pub open spec fn closing_text() -> Seq<char> {
    seq!['C', 'l', 'o', 's', 'e', 'd', '.']
}

/// Whether `e` is the event at position `k` of a worker's closing report: the
/// line "Closed.", then the report that it has stopped.
pub open spec fn is_closing_event(e: ThreadEvent, k: int) -> bool {
    if k == 0 {
        e.lvl == EventType::INFO && e.data@ == closing_text()
    } else {
        k == 1 && e.lvl == EventType::CLOSED && e.data@ == Seq::<char>::empty()
    }
}

/// The events of a worker's closing report, in the order they are sent.
pub fn closing_events() -> (r: Vec<ThreadEvent>)
    ensures
        r@.len() == 2,
        forall|k: int| 0 <= k < 2 ==> is_closing_event(#[trigger] r@[k], k),
{
    let text = String::from_str("Closed.");
    proof {
        reveal_strlit("Closed.");
    }
    assert(text@ =~= closing_text());
    let first = ThreadEvent::info(text);
    let second = ThreadEvent::closed();
    assert(is_closing_event(first, 0) && is_closing_event(second, 1));
    let mut r: Vec<ThreadEvent> = Vec::new();
    r.push(first);
    r.push(second);
    assert(r@[0] == first && r@[1] == second);
    r
}

/// Reports a worker's events to the interface. Each report fails only when
/// the interface has dropped its end of the channel; the failed event is
/// then handed back. The channel handle keeps the record of the events
/// handed to the channel through it.
#[derive(Clone)]
pub struct ThreadInfoSender {
    pub channel_receiver: LoggedSender<ThreadEvent>,
}

/// What a report of one event does to the record of the events handed on:
/// on success the event is added; on failure the event comes back and the
/// record stays.
pub open spec fn reported(
    before: Seq<ThreadEvent>,
    after: Seq<ThreadEvent>,
    r: Result<(), ThreadEvent>,
    event: ThreadEvent,
) -> bool {
    match r {
        Ok(()) => after == before.push(event),
        Err(e) => e == event && after == before,
    }
}

/// What sending the closing report does to the record of the events handed
/// on: the first `k` events of the report are added, all of them exactly on
/// success; on failure the next one comes back.
pub open spec fn closing_reported(before: Seq<ThreadEvent>, after: Seq<ThreadEvent>, r: Result<(), ThreadEvent>) -> bool {
    let k = after.len() - before.len();
    &&& 0 <= k <= 2
    &&& (k == 2 <==> r is Ok)
    &&& after.take(before.len() as int) == before
    &&& forall|j: int| 0 <= j < k ==> is_closing_event(#[trigger] after[before.len() + j], j)
    &&& r matches Err(e) ==> is_closing_event(e, k)
}

impl ThreadInfoSender {
    /// The events handed to the interface's channel so far, in order.
    pub open spec fn handed(&self) -> Seq<ThreadEvent> {
        self.channel_receiver.handed()
    }

    pub fn new(channel_receiver: Sender<ThreadEvent>) -> (r: ThreadInfoSender)
        ensures
            r.channel_receiver.handle() == channel_receiver,
            r.handed() == Seq::<ThreadEvent>::empty(),
    {
        ThreadInfoSender { channel_receiver: LoggedSender::new(channel_receiver) }
    }

    /// Reports an error line.
    pub fn error(&mut self, data: String) -> (r: Result<(), ThreadEvent>)
        ensures
            final(self).channel_receiver.handle() == old(self).channel_receiver.handle(),
            reported(old(self).handed(), final(self).handed(), r, ThreadEvent { lvl: EventType::ERROR, data }),
    {
        self.channel_receiver.send(ThreadEvent { lvl: EventType::ERROR, data })
    }

    /// Reports an information line.
    pub fn info(&mut self, data: String) -> (r: Result<(), ThreadEvent>)
        ensures
            final(self).channel_receiver.handle() == old(self).channel_receiver.handle(),
            reported(old(self).handed(), final(self).handed(), r, ThreadEvent { lvl: EventType::INFO, data }),
    {
        self.channel_receiver.send(ThreadEvent::info(data))
    }

    /// Reports one more unit of work.
    pub fn progress(&mut self) -> (r: Result<(), ThreadEvent>)
        ensures
            final(self).channel_receiver.handle() == old(self).channel_receiver.handle(),
            final(self).handed().len() == old(self).handed().len() + if r is Ok { 1int } else { 0int },
            final(self).handed().take(old(self).handed().len() as int) == old(self).handed(),
            r is Ok ==> final(self).handed().last().lvl == EventType::PROGRESS
                && final(self).handed().last().data@ == Seq::<char>::empty(),
            r matches Err(e) ==> e.lvl == EventType::PROGRESS && e.data@ == Seq::<char>::empty(),
    {
        self.channel_receiver.send(ThreadEvent::progress())
    }

    /// Sends the closing report (`closing_events`) in order, stopping at the
    /// first event that cannot be sent, which comes back: the events handed
    /// on are the first `k` of the report, all of them on success.
    pub fn closed(&mut self) -> (r: Result<(), ThreadEvent>)
        ensures
            final(self).channel_receiver.handle() == old(self).channel_receiver.handle(),
            closing_reported(old(self).handed(), final(self).handed(), r),
    {
        let mut pending = closing_events();
        let ghost all = pending@;
        let ghost start = self.handed();
        let mut k: usize = 0;
        while pending.len() > 0
            invariant
                all.len() == 2,
                forall|j: int| 0 <= j < 2 ==> is_closing_event(#[trigger] all[j], j),
                k <= 2,
                pending@ == all.subrange(k as int, 2),
                self.channel_receiver.handle() == old(self).channel_receiver.handle(),
                start == old(self).handed(),
                self.handed().len() == start.len() + k,
                self.handed().take(start.len() as int) == start,
                forall|j: int| 0 <= j < k ==> is_closing_event(#[trigger] self.handed()[start.len() + j], j),
            decreases pending.len(),
        {
            let event = pending.remove(0);
            assert(event == all[k as int]);
            let ghost before = self.handed();
            match self.channel_receiver.send(event) {
                Ok(()) => {
                    assert(self.handed().take(start.len() as int) =~= start);
                    assert forall|j: int| 0 <= j < k + 1 implies is_closing_event(
                        #[trigger] self.handed()[start.len() + j],
                        j,
                    ) by {
                        if j < k {
                            assert(self.handed()[start.len() + j] == before[start.len() + j]);
                        }
                    }
                },
                Err(back) => {
                    return Err(back);
                },
            }
            k = k + 1;
        }
        Ok(())
    }
}

} // verus!
