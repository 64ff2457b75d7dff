//! The message channels of the standard library and of crossbeam, as the
//! verified code sees them.
use vstd::prelude::*;

verus! {

#[verifier::external_type_specification]
#[verifier::external_body]
#[verifier::reject_recursive_types(T)]
pub struct ExStdReceiver<T>(std::sync::mpsc::Receiver<T>);

#[verifier::external_type_specification]
#[verifier::external_body]
#[verifier::reject_recursive_types(T)]
pub struct ExStdSender<T>(std::sync::mpsc::Sender<T>);

/// Another handle on the same channel (`Sender::clone`), as the derived
/// `Clone` of `LoggedSender` makes one; a handle is opaque here, so nothing is
/// stated of it.
pub assume_specification<T>[ <std::sync::mpsc::Sender<T> as Clone>::clone ](
    sender: &std::sync::mpsc::Sender<T>,
) -> std::sync::mpsc::Sender<T>;

/// The receiving handle of a standard channel, with a record, kept as ghost
/// state, of every message taken from the channel through it, in order. Only
/// `take_pending` changes the record.
#[verifier::reject_recursive_types(T)]
pub struct LoggedReceiver<T> {
    receiver: std::sync::mpsc::Receiver<T>,
    taken: Ghost<Seq<T>>,
}

impl<T> LoggedReceiver<T> {
    /// The channel handle.
    pub closed spec fn handle(&self) -> std::sync::mpsc::Receiver<T> {
        self.receiver
    }

    /// The messages taken from the channel through this handle, in order.
    pub closed spec fn taken(&self) -> Seq<T> {
        self.taken@
    }

    pub fn new(receiver: std::sync::mpsc::Receiver<T>) -> (r: LoggedReceiver<T>)
        ensures
            r.handle() == receiver,
            r.taken() == Seq::<T>::empty(),
    {
        LoggedReceiver { receiver, taken: Ghost(Seq::empty()) }
    }
}

/// Takes every message that is waiting in the channel, without blocking
/// (`Receiver::try_iter`, collected in arrival order). What is waiting depends
/// on the other threads, so nothing is promised of which messages come; the
/// record of the handle notes that exactly these were taken.
#[verifier::external_body]
pub(crate) fn take_pending<T>(receiver: &mut LoggedReceiver<T>) -> (r: Vec<T>)
    ensures
        final(receiver).handle() == old(receiver).handle(),
        final(receiver).taken() == old(receiver).taken() + r@,
{
    receiver.receiver.try_iter().collect()
}

/// The sending handle of a standard channel, with a record, kept as ghost
/// state, of the messages handed to the channel through it, in order. Only
/// `send` changes the record.
#[derive(Clone)]
#[verifier::reject_recursive_types(T)]
pub struct LoggedSender<T> {
    sender: std::sync::mpsc::Sender<T>,
    handed: Ghost<Seq<T>>,
}

impl<T> LoggedSender<T> {
    /// The channel handle.
    pub closed spec fn handle(&self) -> std::sync::mpsc::Sender<T> {
        self.sender
    }

    /// The messages handed to the channel through this handle, in order.
    pub closed spec fn handed(&self) -> Seq<T> {
        self.handed@
    }

    pub fn new(sender: std::sync::mpsc::Sender<T>) -> (r: LoggedSender<T>)
        ensures
            r.handle() == sender,
            r.handed() == Seq::<T>::empty(),
    {
        LoggedSender { sender, handed: Ghost(Seq::empty()) }
    }

    /// Sends one message (`Sender::send`). Whether the receiving side is
    /// still alive depends on the other threads, so success is not promised.
    /// On success the message was handed to the channel, which the record
    /// notes; the standard library documents that a failed send hands the
    /// value back, which the `Err` arm carries.
    #[verifier::external_body]
    pub(crate) fn send(&mut self, value: T) -> (r: Result<(), T>)
        ensures
            final(self).handle() == old(self).handle(),
            match r {
                Ok(()) => final(self).handed() == old(self).handed().push(value),
                Err(back) => back == value && final(self).handed() == old(self).handed(),
            },
    {
        match self.sender.send(value) {
            Ok(()) => Ok(()),
            Err(e) => Err(e.0),
        }
    }
}

/// Waits for the next message (`Receiver::recv`); `None` once every sending
/// handle is gone and nothing is left. What arrives depends on the other
/// threads, so nothing is promised of it.
#[verifier::external_body]
pub(crate) fn receive_blocking<T>(receiver: &std::sync::mpsc::Receiver<T>) -> Option<T> {
    receiver.recv().ok()
}

/// A new channel of the standard library (`std::sync::mpsc::channel`): its
/// sending and its receiving handle. Handles are opaque here.
#[verifier::external_body]
pub(crate) fn open_std_channel<T>() -> (std::sync::mpsc::Sender<T>, std::sync::mpsc::Receiver<T>) {
    std::sync::mpsc::channel()
}

#[verifier::external_type_specification]
#[verifier::external_body]
#[verifier::reject_recursive_types(T)]
pub struct ExCrossbeamSender<T>(crossbeam_channel::Sender<T>);

#[verifier::external_type_specification]
#[verifier::external_body]
#[verifier::reject_recursive_types(T)]
pub struct ExCrossbeamReceiver<T>(crossbeam_channel::Receiver<T>);

/// A new bounded crossbeam channel of capacity `cap`
/// (`crossbeam_channel::bounded`). Its source panics ("bounded channel
/// capacity is too large") when twice the power of two above `cap` does not
/// fit its index type (`u64`, or `usize` where 64-bit atomics are missing);
/// the `requires` keeps below that on either width. Handles are opaque here.
#[verifier::external_body]
pub(crate) fn open_bounded<T>(cap: usize) -> (crossbeam_channel::Sender<T>, crossbeam_channel::Receiver<T>)
    requires
        cap < 0x4000_0000,
{
    crossbeam_channel::bounded(cap)
}

/// The sending handle of a crossbeam channel, with a record, kept as ghost
/// state, of the messages handed to the channel through it, in order. Only
/// `send` changes the record.
#[verifier::reject_recursive_types(T)]
pub struct LoggedConsumerSender<T> {
    sender: crossbeam_channel::Sender<T>,
    handed: Ghost<Seq<T>>,
}

impl<T> LoggedConsumerSender<T> {
    /// The channel handle.
    pub closed spec fn handle(&self) -> crossbeam_channel::Sender<T> {
        self.sender
    }

    /// The messages handed to the channel through this handle, in order.
    pub closed spec fn handed(&self) -> Seq<T> {
        self.handed@
    }

    pub fn new(sender: crossbeam_channel::Sender<T>) -> (r: LoggedConsumerSender<T>)
        ensures
            r.handle() == sender,
            r.handed() == Seq::<T>::empty(),
    {
        LoggedConsumerSender { sender, handed: Ghost(Seq::empty()) }
    }

    /// Sends one message (`Sender::send` of crossbeam), waiting for room if
    /// the channel is full. It fails only when every receiving handle is
    /// gone, which depends on the other threads, so success is not promised.
    /// On success the message was handed to the channel, which the record
    /// notes; a failure (`SendError`) carries the value back, which the `Err`
    /// arm holds.
    #[verifier::external_body]
    pub(crate) fn send(&mut self, value: T) -> (r: Result<(), T>)
        ensures
            final(self).handle() == old(self).handle(),
            match r {
                Ok(()) => final(self).handed() == old(self).handed().push(value),
                Err(back) => back == value && final(self).handed() == old(self).handed(),
            },
    {
        match self.sender.send(value) {
            Ok(()) => Ok(()),
            Err(e) => Err(e.0),
        }
    }
}

} // verus!
