//! The reactor side of the driver: run modes for the native loop, the
//! classification of native call statuses, and the registry that keeps at
//! most one reactor active per execution context.

use vstd::prelude::*;
use vstd::string::StringExecFns;

use crate::error::{
    kind_for_native, known_native_code, lemma_native_code_injective, native_code_of, Error,
    ErrorKind, NativeErrorKind,
};

verus! {

/// How one call into the native loop's dispatcher behaves: run until no
/// pending work is left, run one iteration, or poll without blocking.
#[derive(Debug, Copy, Clone, PartialEq, Eq, Structural)]
pub enum RunMode {
    Default,
    Once,
    NoWait,
}

/// The native dispatcher's code for each run mode.
pub open spec fn run_mode_code(mode: RunMode) -> int {
    match mode {
        RunMode::Default => 0,
        RunMode::Once => 1,
        RunMode::NoWait => 2,
    }
}

impl RunMode {
    /// The native dispatcher's code for this run mode.
    pub fn to_native(&self) -> (r: u32)
        ensures
            r as int == run_mode_code(*self),
    {
        match self {
            Self::Default => 0,
            Self::Once => 1,
            Self::NoWait => 2,
        }
    }
}

/// Classifies the return status of a native call: zero is success and any
/// other status maps to its error, a recognized native kind where one
/// exists and the raw-code fallback otherwise.
pub fn status_to_result(status: i32) -> (r: Result<(), Error>)
    ensures
        r is Ok <==> status == 0,
        r matches Err(e) ==> e.kind == kind_for_native(status),
        r matches Err(e) ==> forall|k: NativeErrorKind|
            native_code_of(k) == status as int ==> e.kind == ErrorKind::NativeError(k),
        r matches Err(e) ==> !known_native_code(status as int) ==> e.kind == ErrorKind::IoError(
            status,
        ),
{
    if status == 0 {
        Ok(())
    } else {
        let e = Error::from(status);
        proof {
            if known_native_code(status as int) {
                let picked = (choose|k: NativeErrorKind| native_code_of(k) == status as int);
                assert forall|k: NativeErrorKind| native_code_of(k) == status as int implies e.kind
                    == ErrorKind::NativeError(k) by {
                    lemma_native_code_injective(picked, k);
                }
            }
        }
        Err(e)
    }
}

/// The report given when a second reactor is started while one is active.
pub open spec fn is_already_started_report(kind: ErrorKind) -> bool {
    kind matches ErrorKind::Message(m) && m@ == "Loop already started in this thread."@
}

/// Tracks, for one execution context, whether a reactor is registered as
/// the active one, and numbers the reactors it has handed out so that each
/// run gets a fresh instance.
pub struct ReactorRegistry {
    /// Whether a reactor is currently registered as this context's active one.
    pub active: bool,
    /// How many reactors this context has started; the number of the active
    /// one, when there is one.
    pub generation: u64,
}

/// The registry after a successful start: a fresh reactor is active.
pub open spec fn after_begin(s: ReactorRegistry) -> ReactorRegistry {
    ReactorRegistry { active: true, generation: (s.generation + 1) as u64 }
}

/// The registry after the active reactor's teardown.
pub open spec fn after_end(s: ReactorRegistry) -> ReactorRegistry {
    ReactorRegistry { active: false, generation: s.generation }
}

impl ReactorRegistry {
    /// A context on which no reactor has ever been started.
    pub fn new() -> (s: ReactorRegistry)
        ensures
            !s.active,
            s.generation == 0,
    {
        ReactorRegistry { active: false, generation: 0 }
    }

    /// Registers a fresh reactor as the active one and returns its number.
    /// While one is already active this refuses with the distinguishable
    /// already-started report and changes nothing, so no native allocation
    /// may follow.
    pub fn begin(&mut self) -> (r: Result<u64, Error>)
        requires
            old(self).generation < u64::MAX,
        ensures
            old(self).active ==> *final(self) == *old(self)
                && (r matches Err(e) && is_already_started_report(e.kind)),
            !old(self).active ==> *final(self) == after_begin(*old(self))
                && r == Ok::<u64, Error>(final(self).generation),
    {
        if self.active {
            Err(Error::from(String::from_str("Loop already started in this thread.")))
        } else {
            self.active = true;
            self.generation = self.generation + 1;
            Ok(self.generation)
        }
    }

    /// Clears the active-reactor registration once the run is over.
    pub fn end(&mut self)
        requires
            old(self).active,
        ensures
            *final(self) == after_end(*old(self)),
    {
        self.active = false;
    }
}

/// Two sequential, non-overlapping runs on one context each succeed
/// independently: after a start and a teardown a second start is allowed
/// again, and the reactor it registers is a fresh one, numbered differently
/// from the first run's.
pub proof fn lemma_sequential_runs_independent(s0: ReactorRegistry)
    requires
        !s0.active,
        s0.generation + 2 <= u64::MAX,
    ensures
        ({
            let first = after_begin(s0);
            let between = after_end(first);
            let second = after_begin(between);
            &&& !between.active
            &&& second.active
            &&& second.generation != first.generation
        }),
{
}

} // verus!
