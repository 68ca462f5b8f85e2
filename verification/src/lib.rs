//! A single-future executor over an externally driven native event loop.
//!
//! One top-level future runs per `block_on`-style invocation: the driver
//! registers a reactor as the context's active one, polls the future, and
//! lets the native loop dispatch completion callbacks (such as one-shot
//! timers) that resume the suspended future. This crate holds the verified
//! state machines of that protocol: the error taxonomy and native status
//! mapping, the single-active-reactor registry, the task's write-once result
//! slot, and the timer's monotonic started/elapsed state shared with the
//! native callback.

pub mod error;
pub mod reactor;
pub mod time;

use vstd::prelude::*;
use vstd::string::StringExecFns;

use crate::error::{Error, ErrorKind};

verus! {

/// The bookkeeping wrapper around one top-level suspended computation: a
/// result slot that is empty until the future's poll reports ready, written
/// exactly once, and consumed exactly once after the reactor has drained.
pub struct Task<T> {
    /// The recorded final output of the future, or `None` while the future
    /// has not yet reported ready.
    pub res: Option<T>,
}

/// The report given when a run ends without the future ever having
/// reported ready, so no result was recorded.
pub open spec fn is_unset_result_report(kind: ErrorKind) -> bool {
    kind matches ErrorKind::Message(m) && m@ == "Result not set in a future"@
}

impl<T> Task<T> {
    /// A fresh task: nothing recorded yet.
    pub fn new() -> (t: Task<T>)
        ensures
            t.res is None,
    {
        Task { res: None }
    }

    /// Records the output of the poll that reported ready. The slot is
    /// written exactly once: recording over an earlier result is ruled out.
    pub fn record_ready(&mut self, value: T)
        requires
            old(self).res is None,
        ensures
            final(self).res == Some(value),
    {
        self.res = Some(value);
    }

    /// Consumes the task once the reactor has drained: the run's outcome is
    /// exactly the recorded output, and a value comes back only if the
    /// future's poll reported ready at least once and recorded one.
    pub fn into_result(self) -> (r: Result<T, Error>)
        ensures
            self.res matches Some(v) ==> r == Ok::<T, Error>(v),
            self.res is None ==> (r matches Err(e) && is_unset_result_report(e.kind)),
    {
        match self.res {
            Some(v) => Ok(v),
            None => Err(Error::from(String::from_str("Result not set in a future"))),
        }
    }
}

} // verus!
