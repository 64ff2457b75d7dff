//! What the thread menu, the thread log and the progress chart show for each
//! worker.
use vstd::prelude::*;

use crate::sync::thread_info_connection::{log_text, ThreadInfoReceiver, TypedLog};
use crate::text::decimal;
use crate::text::numbered;

verus! {

/// How a worker is doing, as the interface colours it.
#[derive(Debug, Clone, Copy, PartialEq, Eq, Structural)]
pub enum ThreadStatus {
    /// Some line of its log is an error.
    Failed,
    /// No error, and it has closed.
    Closed,
    /// Neither.
    Running,
}

pub open spec fn has_error_line(log: Seq<TypedLog>) -> bool {
    exists|i: int| 0 <= i < log.len() && #[trigger] log[i] is Error
}

pub open spec fn spec_status(t: ThreadInfoReceiver) -> ThreadStatus {
    if has_error_line(t.log_events@) {
        ThreadStatus::Failed
    } else if t.closed {
        ThreadStatus::Closed
    } else {
        ThreadStatus::Running
    }
}

/// A worker has failed exactly when some line of its log, wherever it
/// stands, is an error; it counts as closed exactly when no line is an error
/// and it has closed; else it is running.
pub proof fn law_status(t: ThreadInfoReceiver)
    ensures
        (spec_status(t) == ThreadStatus::Failed) <==> exists|k: int|
            0 <= k < t.log_events@.len() && #[trigger] t.log_events@[k] is Error,
        (spec_status(t) == ThreadStatus::Closed) <==> (t.closed && forall|k: int|
            0 <= k < t.log_events@.len() ==> !(#[trigger] t.log_events@[k] is Error)),
        (spec_status(t) == ThreadStatus::Running) <==> (!t.closed && forall|k: int|
            0 <= k < t.log_events@.len() ==> !(#[trigger] t.log_events@[k] is Error)),
{
}

/// A worker that has failed stays failed whatever lines its log gains
/// afterwards, the closing report among them.
pub proof fn law_failed_stays_failed(before: ThreadInfoReceiver, after: ThreadInfoReceiver, more: Seq<TypedLog>)
    requires
        spec_status(before) == ThreadStatus::Failed,
        after.log_events@ == before.log_events@ + more,
    ensures
        spec_status(after) == ThreadStatus::Failed,
{
    let k = choose|k: int| 0 <= k < before.log_events@.len() && #[trigger] before.log_events@[k] is Error;
    assert(after.log_events@[k] == before.log_events@[k]);
}

/// How a worker is doing: failed before closed.
pub fn thread_status(t: &ThreadInfoReceiver) -> (r: ThreadStatus)
    ensures
        r == spec_status(*t),
{
    if t.has_errors() {
        ThreadStatus::Failed
    } else if t.closed {
        ThreadStatus::Closed
    } else {
        ThreadStatus::Running
    }
}

/// The menu entry of a worker: its title, followed by " [failed]" or
/// " [closed]" as its status says.
pub fn menu_title(t: &ThreadInfoReceiver) -> (r: String)
    ensures
        r@ == match spec_status(*t) {
            ThreadStatus::Failed => t.title@ + " [failed]"@,
            ThreadStatus::Closed => t.title@ + " [closed]"@,
            ThreadStatus::Running => t.title@,
        },
{
    let mut title = t.title.clone();
    match thread_status(t) {
        ThreadStatus::Failed => title.append(" [failed]"),
        ThreadStatus::Closed => title.append(" [closed]"),
        ThreadStatus::Running => {},
    }
    title
}

/// The background of a log line: errors stand out, the others alternate.
#[derive(Debug, Clone, Copy, PartialEq, Eq, Structural)]
pub enum LineShade {
    Error,
    Dark,
    Light,
}

/// A line of the log view: its number in brackets, its text and background.
pub struct LogLine {
    pub number: String,
    pub text: String,
    pub shade: LineShade,
}

/// The log view of a worker, newest line first: the line at position `i`
/// shows log line `len - 1 - i` under the number `[len - i]`, on the error
/// background for an error and otherwise on a dark background at even
/// positions and a light one at odd positions.
pub fn log_lines(items: &Vec<TypedLog>) -> (r: Vec<LogLine>)
    ensures
        r@.len() == items@.len(),
        forall|i: int|
            0 <= i < items@.len() ==> {
                let l = #[trigger] r@[i];
                let item = items@[items@.len() - 1 - i];
                &&& l.number@ == "["@ + decimal((items@.len() - i) as nat) + "]"@
                &&& l.text == log_text(item)
                &&& l.shade == if item is Error {
                    LineShade::Error
                } else if i % 2 == 0 {
                    LineShade::Dark
                } else {
                    LineShade::Light
                }
            },
{
    let len = items.len();
    let mut r: Vec<LogLine> = Vec::new();
    let mut i: usize = 0;
    let mut light = false;
    while i < len
        invariant
            len == items@.len(),
            i <= len,
            r@.len() == i,
            light == (i % 2 == 1),
            forall|j: int|
                0 <= j < i ==> {
                    let l = #[trigger] r@[j];
                    let item = items@[len - 1 - j];
                    &&& l.number@ == "["@ + decimal((len - j) as nat) + "]"@
                    &&& l.text == log_text(item)
                    &&& l.shade == if item is Error {
                        LineShade::Error
                    } else if j % 2 == 0 {
                        LineShade::Dark
                    } else {
                        LineShade::Light
                    }
                },
        decreases len - i,
    {
        let is_error = items[len - 1 - i].is_error();
        let shade = if is_error {
            LineShade::Error
        } else if light {
            LineShade::Light
        } else {
            LineShade::Dark
        };
        let text = match &items[len - 1 - i] {
            TypedLog::Info(d) => d.clone(),
            TypedLog::Error(d) => d.clone(),
        };
        r.push(LogLine { number: numbered("[", (len - i) as u64, "]"), text, shade });
        light = !light;
        i = i + 1;
    }
    r
}

} // verus!
