//! The one-shot timer's shared state: the monotonic started/elapsed flags,
//! the stored resumption capability, and the liveness-checked dispatch the
//! native callback performs. The native allocation itself stays with the
//! unverified glue; this state is what the callback and the polling future
//! both read and flip.

use vstd::prelude::*;
use vstd::string::StringExecFns;

use crate::error::{Error, ErrorKind};

verus! {

/// The state one timer shares between its owning future and the native
/// callback. `W` is the resumption capability stored while the owner waits;
/// the driver hands in its waker type.
pub struct TimerData<W> {
    /// Whether the one-shot native registration has been issued.
    pub is_started: bool,
    /// Whether the native callback has fired. Never reset once set.
    pub is_elapsed: bool,
    /// The capability that resumes the waiting task, stored by a pending
    /// poll and taken by the callback; at most one per suspension.
    pub waker: Option<W>,
    /// The execution context that owns the timer: every wake must happen on
    /// it, and the callback checks this before flipping any state.
    pub context_id: u64,
}

/// A timer's state just after construction, before arming.
pub open spec fn fresh_timer<W>(context_id: u64) -> TimerData<W> {
    TimerData { is_started: false, is_elapsed: false, waker: None, context_id }
}

/// A timer's state after its one-shot registration was issued.
pub open spec fn armed<W>(d: TimerData<W>) -> TimerData<W> {
    TimerData { is_started: true, ..d }
}

/// Whether a poll of this timer reports ready.
pub open spec fn poll_ready<W>(d: TimerData<W>) -> bool {
    d.is_elapsed
}

/// A timer's state after a pending poll stored the capability `w`.
pub open spec fn polled<W>(d: TimerData<W>, w: W) -> TimerData<W> {
    TimerData { waker: Some(w), ..d }
}

/// A timer's state after the native callback fired: elapsed for good, the
/// stored capability taken.
pub open spec fn fired<W>(d: TimerData<W>) -> TimerData<W> {
    TimerData { is_elapsed: true, waker: None, ..d }
}

impl<W> TimerData<W> {
    /// Fresh shared state for a timer owned by the given context.
    pub fn new(context_id: u64) -> (d: TimerData<W>)
        ensures
            d == fresh_timer::<W>(context_id),
    {
        TimerData { is_started: false, is_elapsed: false, waker: None, context_id }
    }

    /// Records that the one-shot native registration has been issued. A
    /// timer is armed exactly once, directly after construction.
    pub fn start(&mut self)
        requires
            !old(self).is_started,
            !old(self).is_elapsed,
        ensures
            *final(self) == armed(*old(self)),
    {
        self.is_started = true;
    }

    /// One poll of the timer: ready once the callback has fired, otherwise
    /// the capability `w` is stored (replacing any earlier one) and the
    /// caller suspends. Polling an unarmed timer is a usage fault and is
    /// ruled out here, as construction always arms.
    pub fn poll_step(&mut self, w: W) -> (ready: bool)
        requires
            old(self).is_started,
        ensures
            ready == poll_ready(*old(self)),
            old(self).is_elapsed ==> *final(self) == *old(self),
            !old(self).is_elapsed ==> *final(self) == polled(*old(self), w),
    {
        if self.is_elapsed {
            true
        } else {
            self.waker = Some(w);
            false
        }
    }

    /// The callback's check-and-flip on a live timer: marks it elapsed and
    /// hands back whatever capability a pending poll had stored. A wake off
    /// the owning context is a fault the caller rules out beforehand.
    pub fn fire(&mut self, current_context: u64) -> (w: Option<W>)
        requires
            old(self).is_started,
            !old(self).is_elapsed,
            current_context == old(self).context_id,
        ensures
            *final(self) == fired(*old(self)),
            w == old(self).waker,
    {
        self.is_elapsed = true;
        self.waker.take()
    }
}

/// The whole dispatch of one native timer firing, against a
/// liveness-checked reference to the shared state: when the owning timer is
/// already gone (`None`), the event is a no-op that resumes nothing and
/// changes nothing; when it is live, the timer becomes elapsed and the
/// stored capability, if any, is handed back for invocation.
pub fn on_timer_event<W>(slot: &mut Option<TimerData<W>>, current_context: u64) -> (w: Option<W>)
    requires
        *old(slot) matches Some(d) ==> d.is_started && !d.is_elapsed && d.context_id
            == current_context,
    ensures
        *old(slot) is None ==> *final(slot) == *old(slot) && w is None,
        *old(slot) matches Some(d) ==> *final(slot) == Some(fired(d)) && w == d.waker,
{
    match slot {
        Some(data) => data.fire(current_context),
        None => None,
    }
}

/// An armed timer reports ready only after the dispatch of a native
/// callback has fired it: a fresh timer is not elapsed, neither arming nor
/// a pending poll changes whether it is elapsed, readiness is exactly
/// elapsedness, and only the fire transition makes a timer elapsed. So a
/// reactor that dispatches nothing never completes the timer.
pub proof fn lemma_ready_only_after_fire<W>(context_id: u64, d: TimerData<W>, w: W)
    ensures
        !fresh_timer::<W>(context_id).is_elapsed,
        armed(d).is_elapsed == d.is_elapsed,
        polled(d, w).is_elapsed == d.is_elapsed,
        poll_ready(d) == d.is_elapsed,
        fired(d).is_elapsed,
{
}

/// Timer state transitions are monotonic: none of them resets `is_started`
/// or `is_elapsed` once set.
pub proof fn lemma_timer_transitions_monotonic<W>(d: TimerData<W>, w: W)
    ensures
        d.is_started ==> armed(d).is_started && polled(d, w).is_started && fired(d).is_started,
        d.is_elapsed ==> armed(d).is_elapsed && polled(d, w).is_elapsed && fired(d).is_elapsed,
{
}

/// The report given when a timer is created with no active reactor on the
/// creating context.
pub open spec fn is_no_reactor_report(kind: ErrorKind) -> bool {
    kind matches ErrorKind::Message(m) && m@
        == "Event loop not started! Use block_on or something."@
}

/// The error for creating a timer while no reactor is active on this
/// context: nothing may be registered natively in that case.
pub fn no_reactor_error() -> (e: Error)
    ensures
        is_no_reactor_report(e.kind),
{
    Error::from(String::from_str("Event loop not started! Use block_on or something."))
}

/// The report given when a duration's millisecond count does not fit the
/// native timer's integer width.
pub open spec fn is_range_report(kind: ErrorKind) -> bool {
    kind matches ErrorKind::Message(m) && m@
        == "Duration in milliseconds does not fit the native timer."@
}

/// A duration of `secs` seconds and `nanos` subsecond nanoseconds, as whole
/// milliseconds.
pub open spec fn millis_of_duration(secs: u64, nanos: u32) -> int {
    secs * 1000 + nanos / 1_000_000
}

/// The millisecond delay for arming a timer with the given duration. When
/// the count does not fit the native timer's width this fails with the
/// range report, so arming stops before any native registration.
pub fn duration_millis(secs: u64, nanos: u32) -> (r: Result<u64, Error>)
    requires
        nanos < 1_000_000_000,
    ensures
        millis_of_duration(secs, nanos) <= u64::MAX ==> (r matches Ok(m) && m
            == millis_of_duration(secs, nanos)),
        millis_of_duration(secs, nanos) > u64::MAX ==> (r matches Err(e) && is_range_report(
            e.kind,
        )),
{
    let total: u128 = (secs as u128) * 1000 + ((nanos / 1_000_000) as u128);
    if total <= u64::MAX as u128 {
        Ok(total as u64)
    } else {
        Err(Error::from(String::from_str("Duration in milliseconds does not fit the native timer.")))
    }
}

} // verus!
