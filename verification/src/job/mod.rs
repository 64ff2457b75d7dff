//! The worker jobs of the pipeline: what each decides when a message arrives.
use vstd::prelude::*;

use crate::job::accumulate::RgbPicture;

pub mod accumulate;
pub mod decode;
pub mod parse;
pub mod summarize;
pub mod thread_broadcaster;

verus! {

/// What a worker's wait on its picture channel gave.
pub enum Received {
    /// A picture.
    Picture(RgbPicture),
    /// The marker that the sending side has finished.
    End,
    /// The channel has no sender left.
    Disconnected,
}

/// What a worker does in answer to a message, in order.
pub enum JobEffect {
    /// Log a line to the interface.
    Info(String),
    /// Log an error line to the interface.
    Error(String),
    /// Report one more unit of work.
    Progress,
    /// Report that the worker has stopped.
    Closed,
    /// Send a message downstream; if that fails, log `on_failure` as an error.
    Send { picture: Option<RgbPicture>, on_failure: String },
    /// Save the picture at hand to the file at `path`.
    Save { path: String },
    /// Print a line on the standard output.
    Print(String),
}

pub open spec fn is_info(e: JobEffect, text: Seq<char>) -> bool {
    e matches JobEffect::Info(t) && t@ == text
}

pub open spec fn is_error(e: JobEffect, text: Seq<char>) -> bool {
    e matches JobEffect::Error(t) && t@ == text
}

pub open spec fn is_print(e: JobEffect, text: Seq<char>) -> bool {
    e matches JobEffect::Print(t) && t@ == text
}

pub open spec fn is_send(e: JobEffect, picture: Option<RgbPicture>, on_failure: Seq<char>) -> bool {
    e matches JobEffect::Send { picture: p, on_failure: t } && p == picture && t@ == on_failure
}

pub open spec fn is_save(e: JobEffect, path: Seq<char>) -> bool {
    e matches JobEffect::Save { path: p } && p@ == path
}

} // verus!
