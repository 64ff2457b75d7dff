//! Events of the interface's own thread channels.
use vstd::prelude::*;

verus! {

/// The kind of an event.
#[derive(Debug, Clone, Copy, PartialEq, Eq, Structural)]
pub enum EventType {
    INFO,
    ERROR,
    PROGRESS,
    CLOSE,
}

/// An event: its kind and, for log events, its text.
#[derive(Debug, Clone)]
pub struct ThreadEvent {
    pub lvl: EventType,
    pub data: String,
}

impl ThreadEvent {
    pub fn progress() -> (e: ThreadEvent)
        ensures
            e.lvl == EventType::PROGRESS,
            e.data@ == Seq::<char>::empty(),
    {
        ThreadEvent { lvl: EventType::PROGRESS, data: String::new() }
    }

    pub fn close() -> (e: ThreadEvent)
        ensures
            e.lvl == EventType::CLOSE,
            e.data@ == Seq::<char>::empty(),
    {
        ThreadEvent { lvl: EventType::CLOSE, data: String::new() }
    }

    pub fn info(data: String) -> (e: ThreadEvent)
        ensures
            e.lvl == EventType::INFO,
            e.data == data,
    {
        ThreadEvent { lvl: EventType::INFO, data }
    }
}

} // verus!
