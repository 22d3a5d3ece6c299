//! Facade over the vendor's runtime-loaded native module.
//!
//! The platform's dynamic loader and the foreign query call live in the host
//! program; everything the facade decides is here and verified: when a load
//! attempt yields a handle, what each query attempt means for the caller and
//! for the output buffer, that a handle's module is released at most once,
//! and how an ordered list of candidate locations is walked until the first
//! success.

use vstd::prelude::*;

use crate::telemetry::PIN_COUNT;

verus! {

/// Why a candidate module file could not become a live handle: the platform
/// loader rejected it (missing file, corrupt image, wrong architecture, or
/// unresolved dependent modules).
#[derive(Debug, PartialEq, Eq, Structural, Clone, Copy)]
pub enum LoadError {
    Unloadable,
}

/// Why a query against a handle produced no status.
#[derive(Debug, PartialEq, Eq, Structural, Clone, Copy)]
pub enum CallError {
    /// The handle no longer holds a module.
    NoLibrary,
    /// The module is loaded but does not export the expected query symbol.
    MissingSymbol,
}

/// What one attempt to call across the foreign boundary produced, as
/// reported by the host that made the call.
#[derive(Debug)]
pub enum QueryAttempt {
    /// The expected export could not be resolved in the loaded module.
    SymbolMissing,
    /// The export was called and returned: `status` is its return code and
    /// `readings` is what it wrote into the six-slot output buffer, each
    /// value in thousandths of an ampere.
    Returned { status: i32, readings: Vec<i64> },
}

impl QueryAttempt {
    /// A completed call fills exactly one slot per pin.
    pub open spec fn wf(&self) -> bool {
        match *self {
            QueryAttempt::SymbolMissing => true,
            QueryAttempt::Returned { status, readings } => readings@.len() == PIN_COUNT,
        }
    }

    /// Whether the foreign call completed and returned a status.
    pub open spec fn is_returned(&self) -> bool {
        match *self {
            QueryAttempt::SymbolMissing => false,
            QueryAttempt::Returned { status, readings } => true,
        }
    }

    /// The returned status, for a completed call.
    pub open spec fn spec_status(&self) -> i32 {
        match *self {
            QueryAttempt::SymbolMissing => 0,
            QueryAttempt::Returned { status, readings } => status,
        }
    }

    /// The readings the provider wrote, for a completed call.
    pub open spec fn spec_readings(&self) -> Seq<i64> {
        match *self {
            QueryAttempt::SymbolMissing => Seq::empty(),
            QueryAttempt::Returned { status, readings } => readings@,
        }
    }
}

/// A handle that owns at most one loaded copy of the vendor module.
///
/// `loaded` stands for "this handle currently owns a live module"; the host
/// pairs each handle with the module it actually loaded and keeps the two in
/// step. All lifecycle decisions are made here: a query yields a status only
/// through an open handle, and closing releases the module exactly once.
#[derive(Debug)]
pub struct ExpanMod {
    pub loaded: bool,
    pub path: String,
}

impl ExpanMod {
    /// Whether the handle currently owns a loaded module.
    pub open spec fn is_open(&self) -> bool {
        self.loaded
    }

    /// The state a handle is left in by [`ExpanMod::close`].
    pub open spec fn spec_closed(m: ExpanMod) -> ExpanMod {
        ExpanMod { loaded: false, ..m }
    }

    /// Classifies a load attempt at `path`: the host reports whether the
    /// platform loader succeeded, and a handle exists exactly when it did.
    pub fn new(path: &String, load_ok: bool) -> (r: Result<ExpanMod, LoadError>)
        ensures
            r is Ok <==> load_ok,
            r matches Ok(m) ==> m.is_open() && m.path@ == path@,
    {
        if load_ok {
            Ok(ExpanMod { loaded: true, path: path.clone() })
        } else {
            Err(LoadError::Unloadable)
        }
    }

    /// Classifies one query attempt and writes its readings into
    /// `pin_value_buffer`, as the foreign export does through its out
    /// pointer.
    ///
    /// A closed handle yields [`CallError::NoLibrary`] before anything else
    /// is considered; an open one turns a missing export into
    /// [`CallError::MissingSymbol`] and a completed call into its raw
    /// status, whatever that status is. The buffer changes only when a
    /// status came back, and then holds exactly what the provider wrote.
    pub fn get_amperage_info(
        &self,
        gpu_index: i32,
        attempt: QueryAttempt,
        pin_value_buffer: &mut Vec<i64>,
    ) -> (r: Result<i32, CallError>)
        requires
            attempt.wf(),
            old(pin_value_buffer)@.len() == PIN_COUNT,
        ensures
            final(pin_value_buffer)@.len() == PIN_COUNT,
            r is Ok <==> self.is_open() && attempt.is_returned(),
            !self.is_open() ==> r == Err::<i32, CallError>(CallError::NoLibrary)
                && *final(pin_value_buffer) == *old(pin_value_buffer),
            self.is_open() && !attempt.is_returned() ==> r == Err::<i32, CallError>(
                CallError::MissingSymbol,
            ) && *final(pin_value_buffer) == *old(pin_value_buffer),
            self.is_open() && attempt.is_returned() ==> r == Ok::<i32, CallError>(
                attempt.spec_status(),
            ) && final(pin_value_buffer)@ == attempt.spec_readings(),
    {
        if self.loaded {
            match attempt {
                QueryAttempt::SymbolMissing => Err(CallError::MissingSymbol),
                QueryAttempt::Returned { status, readings } => {
                    *pin_value_buffer = readings;
                    Ok(status)
                },
            }
        } else {
            Err(CallError::NoLibrary)
        }
    }

    /// Releases the handle's module. Closing an already-closed handle is a
    /// no-op; afterwards the handle never again owns a module, so the host
    /// releases the paired module exactly once.
    pub fn close(&mut self)
        ensures
            *final(self) == ExpanMod::spec_closed(*old(self)),
            !final(self).is_open(),
    {
        self.loaded = false;
    }

    /// Releasing is idempotent: tearing a handle down a second time leaves
    /// exactly the state the first teardown left, so an explicit close
    /// followed by the teardown at end of life releases nothing twice.
    pub proof fn lemma_close_idempotent(m: ExpanMod)
        ensures
            ExpanMod::spec_closed(ExpanMod::spec_closed(m)) == ExpanMod::spec_closed(m),
    {
    }
}

/// What the host found when it probed one candidate path.
#[derive(Debug, PartialEq, Eq, Structural, Clone, Copy)]
pub enum ProbeOutcome {
    /// No file exists at the path.
    NotFound,
    /// A file exists but the platform loader rejected it.
    LoadFailed,
    /// The platform loader produced a live module.
    Loaded,
}

/// Walks an ordered list of candidate module locations; the first success
/// wins.
///
/// The host probes one path at a time: [`ModuleResolver::pending`] names the
/// next candidate and [`ModuleResolver::step`] consumes the probe's outcome.
/// Once a probe succeeds no further candidate is ever offered, and every
/// unsuccessful probe is counted as exactly one reported failure.
#[derive(Debug)]
pub struct ModuleResolver {
    pub paths: Vec<String>,
    pub next: usize,
    pub failures: usize,
    pub finished: bool,
}

impl ModuleResolver {
    /// Resolution bookkeeping: candidates are consumed in order, and each
    /// consumed candidate either ended resolution (the last one, on
    /// success) or was reported as one failure.
    pub open spec fn wf(&self) -> bool {
        &&& self.next <= self.paths@.len()
        &&& if self.finished {
            self.next >= 1 && self.failures == self.next - 1
        } else {
            self.failures == self.next
        }
    }

    /// Starts a resolution over `paths`, in the order given.
    pub fn new(paths: Vec<String>) -> (r: ModuleResolver)
        ensures
            r.wf(),
            r.paths == paths,
            r.next == 0,
            r.failures == 0,
            !r.finished,
    {
        ModuleResolver { paths, next: 0, failures: 0, finished: false }
    }

    /// The next candidate the host should probe, or `None` when resolution
    /// is over — after a success, no later candidate is ever offered.
    pub fn pending(&self) -> (p: Option<String>)
        ensures
            p matches Some(path) ==> !self.finished && self.next < self.paths@.len()
                && path@ == self.paths@[self.next as int]@,
            p is None <==> (self.finished || self.next >= self.paths@.len()),
    {
        if !self.finished && self.next < self.paths.len() {
            Some(self.paths[self.next].clone())
        } else {
            None
        }
    }

    /// Consumes the probe outcome for the pending candidate.
    ///
    /// A successful load ends resolution and yields a handle built from
    /// exactly that candidate; anything else adds one reported failure and
    /// moves on to the next candidate.
    pub fn step(&mut self, outcome: ProbeOutcome) -> (r: Option<ExpanMod>)
        requires
            old(self).wf(),
            !old(self).finished,
            old(self).next < old(self).paths@.len(),
        ensures
            final(self).wf(),
            final(self).paths == old(self).paths,
            final(self).next == old(self).next + 1,
            outcome == ProbeOutcome::Loaded ==> final(self).finished
                && final(self).failures == old(self).failures
                && (r matches Some(m) && m.is_open()
                    && m.path@ == old(self).paths@[old(self).next as int]@),
            outcome != ProbeOutcome::Loaded ==> !final(self).finished
                && final(self).failures == old(self).failures + 1
                && r is None,
    {
        let total = self.paths.len();
        let probed = self.paths[self.next].clone();
        assert(self.next < total);
        self.next = self.next + 1;
        match outcome {
            ProbeOutcome::Loaded => {
                self.finished = true;
                Some(ExpanMod { loaded: true, path: probed })
            },
            ProbeOutcome::NotFound => {
                self.failures = self.failures + 1;
                None
            },
            ProbeOutcome::LoadFailed => {
                self.failures = self.failures + 1;
                None
            },
        }
    }

    /// Exhausted resolution: when every candidate was probed and none
    /// loaded, there is no handle and exactly one failure was reported per
    /// candidate.
    pub proof fn lemma_all_failed_one_failure_per_path(r: ModuleResolver)
        requires
            r.wf(),
            !r.finished,
            r.next == r.paths@.len(),
        ensures
            r.failures == r.paths@.len(),
    {
    }
}

} // verus!
