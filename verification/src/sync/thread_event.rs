//! Events that a worker thread reports to the interface.
use vstd::prelude::*;

verus! {

/// The kind of a worker event.
#[derive(Debug, Clone, Copy, PartialEq, Eq, Structural)]
pub enum EventType {
    INFO,
    ERROR,
    PROGRESS,
    CLOSED,
}

/// One event of a worker thread: its kind and, for log events, its text.
#[derive(Debug, Clone)]
pub struct ThreadEvent {
    pub lvl: EventType,
    pub data: String,
}

impl ThreadEvent {
    /// One more unit of work is done.
    pub fn progress() -> (e: ThreadEvent)
        ensures
            e.lvl == EventType::PROGRESS,
            e.data@ == Seq::<char>::empty(),
    {
        ThreadEvent { lvl: EventType::PROGRESS, data: String::new() }
    }

    /// The worker has stopped.
    pub fn closed() -> (e: ThreadEvent)
        ensures
            e.lvl == EventType::CLOSED,
            e.data@ == Seq::<char>::empty(),
    {
        ThreadEvent { lvl: EventType::CLOSED, data: String::new() }
    }

    /// A log line.
    pub fn info(data: String) -> (e: ThreadEvent)
        ensures
            e.lvl == EventType::INFO,
            e.data == data,
    {
        ThreadEvent { lvl: EventType::INFO, data }
    }
}

} // verus!
