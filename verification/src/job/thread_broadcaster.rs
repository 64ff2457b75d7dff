//! The broadcaster that passes the pictures of several producers on to
//! several consumers: what it does with each message, the count of the
//! producers that have finished, and the channel work of one message.
use vstd::prelude::*;

use crate::channel::{open_bounded, open_std_channel, receive_blocking, LoggedConsumerSender};

verus! {

/// What to do with one message from the producers.
pub enum Forward<T> {
    /// Pass this value on to the consumers.
    Pass(T),
    /// An end marker while other producers are still running: hold it back.
    Hold,
    /// Every producer has finished: send end markers to the consumers until
    /// none is left to receive them.
    FloodEnd,
}

/// The values of a sequence of messages, in order (`None` marks an end).
pub open spec fn somes<T>(msgs: Seq<Option<T>>) -> Seq<T>
    decreases msgs.len(),
{
    if msgs.len() == 0 {
        Seq::empty()
    } else {
        match msgs.last() {
            Some(d) => somes(msgs.drop_last()).push(d),
            None => somes(msgs.drop_last()),
        }
    }
}

/// The number of end markers in a sequence of messages.
pub open spec fn none_count<T>(msgs: Seq<Option<T>>) -> nat
    decreases msgs.len(),
{
    if msgs.len() == 0 {
        0
    } else {
        none_count(msgs.drop_last()) + if msgs.last() is None { 1nat } else { 0nat }
    }
}

/// The answer to one message when `finished` producers had finished before:
/// a value passes on; an end marker is held back until, counting it, as many
/// producers as there are have finished, and from then on floods.
pub open spec fn spec_answer<T>(finished: nat, threads_amount: nat, msg: Option<T>) -> Forward<T> {
    match msg {
        Some(d) => Forward::Pass(d),
        None => if finished + 1 >= threads_amount {
            Forward::FloodEnd
        } else {
            Forward::Hold
        },
    }
}

/// The broadcaster's bookkeeping: how many of a known number of producers
/// have sent their end marker; and, as ghost state, every message received
/// so far and every value passed on so far.
pub struct EndCounter<T> {
    pub finished_threads: usize,
    pub threads_amount: usize,
    pub received: Ghost<Seq<Option<T>>>,
    pub passed: Ghost<Seq<T>>,
}

impl<T> EndCounter<T> {
    /// The values passed on are, in order and each once, the values among
    /// the messages received; the count of finished producers is the number
    /// of end markers received.
    pub open spec fn wf(&self) -> bool {
        &&& self.passed@ == somes(self.received@)
        &&& self.finished_threads == none_count(self.received@)
    }

    pub fn new(threads_amount: usize) -> (r: EndCounter<T>)
        ensures
            r.wf(),
            r.finished_threads == 0,
            r.threads_amount == threads_amount,
            r.received@ == Seq::<Option<T>>::empty(),
            r.passed@ == Seq::<T>::empty(),
    {
        EndCounter {
            finished_threads: 0,
            threads_amount,
            received: Ghost(Seq::empty()),
            passed: Ghost(Seq::empty()),
        }
    }

    /// One message: a value passes on unchanged; an end marker counts one
    /// more finished producer and floods the consumers with end markers once
    /// that count reaches the number of producers.
    pub fn on_message(&mut self, msg: Option<T>) -> (r: Forward<T>)
        requires
            old(self).wf(),
            msg is None ==> old(self).finished_threads < usize::MAX,
        ensures
            final(self).wf(),
            final(self).threads_amount == old(self).threads_amount,
            final(self).received@ == old(self).received@.push(msg),
            r == spec_answer(old(self).finished_threads as nat, old(self).threads_amount as nat, msg),
            match msg {
                Some(d) => final(self).passed@ == old(self).passed@.push(d)
                    && final(self).finished_threads == old(self).finished_threads,
                None => final(self).passed@ == old(self).passed@ && final(self).finished_threads
                    == old(self).finished_threads + 1,
            },
    {
        let ghost received = self.received@.push(msg);
        proof {
            assert(received.drop_last() =~= self.received@);
        }
        match msg {
            Some(d) => {
                self.received = Ghost(received);
                self.passed = Ghost(self.passed@.push(d));
                Forward::Pass(d)
            },
            None => {
                self.received = Ghost(received);
                self.finished_threads = self.finished_threads + 1;
                if self.finished_threads >= self.threads_amount {
                    Forward::FloodEnd
                } else {
                    Forward::Hold
                }
            },
        }
    }
}

/// What one step of a broadcaster did.
pub enum Tick {
    /// Every producer's handle is gone and nothing is left to receive.
    Closed,
    /// A value was passed on, or an end marker held back.
    Handled,
    /// The last producer's end marker came: the consumers are now to be
    /// flooded with end markers (`ThreadBroadcaster::send_end`).
    Flood,
}

/// Why a step of a broadcaster stopped.
pub enum TickError<T> {
    /// Every consumer's handle is gone; the message that could not be passed
    /// on comes back.
    SendFailed(Option<T>),
    /// An end marker came when the count of finished producers already
    /// stood at `usize::MAX`; it is dropped uncounted.
    CountOverflow,
}

/// Receives the messages of the producers on one channel and passes them on
/// to the consumers on another. Its counter keeps, as ghost state, every
/// message received; the handle on the consumers' channel keeps every
/// message handed to it.
#[verifier::reject_recursive_types(T)]
pub struct ThreadBroadcaster<T> {
    receiver: std::sync::mpsc::Receiver<Option<T>>,
    consumers: LoggedConsumerSender<Option<T>>,
    counter: EndCounter<T>,
}

impl<T> ThreadBroadcaster<T> {
    /// The receiving handle of the producers' channel.
    pub closed spec fn input(&self) -> std::sync::mpsc::Receiver<Option<T>> {
        self.receiver
    }

    /// The sending handle of the consumers' channel.
    pub closed spec fn output(&self) -> crossbeam_channel::Sender<Option<T>> {
        self.consumers.handle()
    }

    /// The messages received so far, in order.
    pub closed spec fn received(&self) -> Seq<Option<T>> {
        self.counter.received@
    }

    /// The messages handed to the consumers' channel so far, in order.
    pub closed spec fn handed(&self) -> Seq<Option<T>> {
        self.consumers.handed()
    }

    /// The number of producers that have sent their end marker.
    pub closed spec fn finished_threads(&self) -> nat {
        self.counter.finished_threads as nat
    }

    /// The number of producers.
    pub closed spec fn threads_amount(&self) -> nat {
        self.counter.threads_amount as nat
    }

    /// The counter's bookkeeping agrees with what was handed on.
    pub closed spec fn consistent(&self) -> bool {
        &&& self.counter.wf()
        &&& somes(self.consumers.handed()) == self.counter.passed@
    }

    /// Between two messages: the values handed to the consumers are, in
    /// order and each once, the values among the messages received; the
    /// count of finished producers is the number of end markers received;
    /// and no end marker has been handed on before every producer finished.
    pub open spec fn wf(&self) -> bool {
        &&& somes(self.handed()) == somes(self.received())
        &&& self.finished_threads() == none_count(self.received())
        &&& none_count(self.handed()) > 0 ==> self.finished_threads() >= self.threads_amount()
        &&& self.consistent()
    }

    pub fn new(
        receiver: std::sync::mpsc::Receiver<Option<T>>,
        sender: crossbeam_channel::Sender<Option<T>>,
        threads_amount: usize,
    ) -> (r: ThreadBroadcaster<T>)
        ensures
            r.wf(),
            r.input() == receiver,
            r.output() == sender,
            r.finished_threads() == 0,
            r.threads_amount() == threads_amount,
            r.received() == Seq::<Option<T>>::empty(),
            r.handed() == Seq::<Option<T>>::empty(),
    {
        ThreadBroadcaster {
            receiver,
            consumers: LoggedConsumerSender::new(sender),
            counter: EndCounter::new(threads_amount),
        }
    }

    /// A broadcaster for `threads_amount` producers, with the sending handle
    /// of a new input channel and the receiving handle of a new output
    /// channel, which holds up to `threads_amount` messages.
    pub fn all_in_one(threads_amount: usize) -> (r: (
        std::sync::mpsc::Sender<Option<T>>,
        ThreadBroadcaster<T>,
        crossbeam_channel::Receiver<Option<T>>,
    ))
        requires
            threads_amount < 0x4000_0000,
        ensures
            r.1.wf(),
            r.1.finished_threads() == 0,
            r.1.threads_amount() == threads_amount,
            r.1.received() == Seq::<Option<T>>::empty(),
            r.1.handed() == Seq::<Option<T>>::empty(),
    {
        let (std_s, std_r) = open_std_channel();
        let (s, r) = open_bounded(threads_amount);
        (std_s, ThreadBroadcaster::new(std_r, s, threads_amount), r)
    }

    /// Waits for one message and handles it: a value is passed on to the
    /// consumers; an end marker is counted, and answered with `Flood` when
    /// it is the last producer's.
    pub fn tick_once(&mut self) -> (r: Result<Tick, TickError<T>>)
        requires
            old(self).wf(),
        ensures
            final(self).input() == old(self).input(),
            final(self).output() == old(self).output(),
            final(self).threads_amount() == old(self).threads_amount(),
            r is Ok ==> final(self).wf(),
            r matches Ok(Tick::Closed) ==> final(self).received() == old(self).received()
                && final(self).handed() == old(self).handed(),
            r matches Ok(t) ==> t is Closed || {
                &&& final(self).received().len() == old(self).received().len() + 1
                &&& final(self).received().drop_last() == old(self).received()
                &&& (t is Flood <==> spec_answer(
                    old(self).finished_threads(),
                    old(self).threads_amount(),
                    final(self).received().last(),
                ) is FloodEnd)
                &&& final(self).handed() == match final(self).received().last() {
                    Some(d) => old(self).handed().push(Some(d)),
                    None => old(self).handed(),
                }
            },
            r matches Err(TickError::SendFailed(back)) ==> {
                &&& back is Some
                &&& final(self).received() == old(self).received().push(back)
                &&& final(self).handed() == old(self).handed()
                &&& somes(final(self).handed()) == somes(final(self).received()).drop_last()
                &&& final(self).finished_threads() == none_count(final(self).received())
            },
            r matches Err(TickError::CountOverflow) ==> {
                &&& final(self).wf()
                &&& old(self).finished_threads() == usize::MAX
                &&& final(self).received() == old(self).received()
                &&& final(self).handed() == old(self).handed()
                &&& final(self).finished_threads() == old(self).finished_threads()
            },
    {
        let msg = receive_blocking(&self.receiver);
        match msg {
            None => Ok(Tick::Closed),
            Some(m) => {
                let is_end = match &m {
                    Some(_) => false,
                    None => true,
                };
                if is_end && self.counter.finished_threads == usize::MAX {
                    return Err(TickError::CountOverflow);
                }
                let ghost handed_before = self.consumers.handed();
                match self.counter.on_message(m) {
                    Forward::Pass(d) => {
                        match self.consumers.send(Some(d)) {
                            Ok(()) => {
                                assert(self.consumers.handed().drop_last() =~= handed_before);
                                Ok(Tick::Handled)
                            },
                            Err(back) => {
                                proof {
                                    assert(somes(self.counter.received@).drop_last() =~= somes(
                                        handed_before,
                                    ));
                                }
                                Err(TickError::SendFailed(back))
                            },
                        }
                    },
                    Forward::Hold => Ok(Tick::Handled),
                    Forward::FloodEnd => Ok(Tick::Flood),
                }
            },
        }
    }

    /// Sends one end marker to the consumers, once every producer has
    /// finished; `false` once none is left to receive it.
    pub fn send_end(&mut self) -> (r: bool)
        requires
            old(self).wf(),
            old(self).finished_threads() >= old(self).threads_amount(),
        ensures
            final(self).wf(),
            final(self).input() == old(self).input(),
            final(self).output() == old(self).output(),
            final(self).received() == old(self).received(),
            final(self).finished_threads() == old(self).finished_threads(),
            final(self).threads_amount() == old(self).threads_amount(),
            r ==> final(self).handed() == old(self).handed().push(None),
            !r ==> final(self).handed() == old(self).handed(),
    {
        let ghost before = self.consumers.handed();
        let sent = self.consumers.send(None);
        proof {
            if sent is Ok {
                assert(self.consumers.handed().drop_last() =~= before);
            }
        }
        sent.is_ok()
    }
}

/// The values that a fresh broadcaster passes on when fed `msgs`, in the
/// order it passes them.
pub open spec fn passed_values<T>(threads_amount: nat, msgs: Seq<Option<T>>) -> Seq<T>
    decreases msgs.len(),
{
    if msgs.len() == 0 {
        Seq::empty()
    } else {
        let before = passed_values(threads_amount, msgs.drop_last());
        match spec_answer(none_count(msgs.drop_last()), threads_amount, msgs.last()) {
            Forward::Pass(d) => before.push(d),
            _ => before,
        }
    }
}

/// A broadcaster passes on the values of its messages in the order they
/// came, each once and none other, whatever the number of producers.
pub proof fn law_forwarded_in_order<T>(threads_amount: nat, msgs: Seq<Option<T>>)
    ensures
        passed_values(threads_amount, msgs) == somes(msgs),
    decreases msgs.len(),
{
    if msgs.len() > 0 {
        law_forwarded_in_order(threads_amount, msgs.drop_last());
    }
}

/// Fed a sequence of messages from a fresh counter, the answer to the
/// message at position `k` is to flood exactly when that message is an end
/// marker and, counting it, at least as many end markers as producers have
/// come.
pub proof fn law_flood_when_all_ended<T>(msgs: Seq<Option<T>>, threads_amount: nat, k: int)
    requires
        0 <= k < msgs.len(),
    ensures
        none_count(msgs.take(k + 1)) == none_count(msgs.take(k)) + if msgs[k] is None { 1nat } else { 0nat },
        spec_answer(none_count(msgs.take(k)), threads_amount, msgs[k]) is FloodEnd <==> (msgs[k] is None
            && none_count(msgs.take(k + 1)) >= threads_amount),
{
    assert(msgs.take(k + 1).drop_last() =~= msgs.take(k));
}

} // verus!
