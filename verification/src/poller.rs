//! The periodic refresh protocol and the application core it drives.
//!
//! The host's scheduler supplies discrete events — a tick, a changed poll
//! interval, a new module path — and performs the foreign call and the clock
//! read; every decision about what those events do to the live record and to
//! the handle is made here.

use vstd::prelude::*;

use crate::dll::{CallError, ExpanMod, QueryAttempt};
use crate::telemetry::AmperageData;

verus! {

/// Why a refresh cycle advanced nothing.
#[derive(Debug, PartialEq, Eq, Structural, Clone, Copy)]
pub enum PollError {
    /// No module is installed, so no query could even be attempted.
    NoModule,
    /// The query against the installed module failed hard.
    Call(CallError),
}

/// Whether a refresh through `m` that observed `attempt` completes: the
/// handle is open and the foreign call returned a status.
pub open spec fn refresh_completes(m: ExpanMod, attempt: QueryAttempt) -> bool {
    m.is_open() && attempt.is_returned()
}

/// One refresh cycle against a handle.
///
/// When the foreign call completed — with any status, zero or not — the
/// record takes the returned status and readings verbatim and its timestamp
/// becomes `now_ms`, the clock reading the host took for this cycle; sampled
/// from a non-decreasing clock, the timestamp therefore never moves
/// backwards. A nonzero status is still a completed refresh: it is recorded
/// unchanged, never turned into an error. On a hard failure (closed handle
/// or missing export) the record is left exactly as it was and the failure
/// is surfaced.
pub fn update_amp_data(
    expan_mod: &ExpanMod,
    attempt: QueryAttempt,
    now_ms: u64,
    amp_data: &mut AmperageData,
) -> (r: Result<(), PollError>)
    requires
        attempt.wf(),
        old(amp_data).wf(),
    ensures
        final(amp_data).wf(),
        final(amp_data).gpu_index == old(amp_data).gpu_index,
        r is Ok <==> refresh_completes(*expan_mod, attempt),
        refresh_completes(*expan_mod, attempt) ==> {
            &&& final(amp_data).timestamp == now_ms
            &&& final(amp_data).status_code == attempt.spec_status()
            &&& final(amp_data).pin_value_buffer@ == attempt.spec_readings()
            &&& now_ms >= old(amp_data).timestamp ==> final(amp_data).timestamp >= old(
                amp_data,
            ).timestamp
        },
        !refresh_completes(*expan_mod, attempt) ==> *final(amp_data) == *old(amp_data),
        !expan_mod.is_open() ==> r == Err::<(), PollError>(PollError::Call(CallError::NoLibrary)),
        expan_mod.is_open() && !attempt.is_returned() ==> r == Err::<(), PollError>(
            PollError::Call(CallError::MissingSymbol),
        ),
{
    let gpu_index = amp_data.gpu_index;
    match expan_mod.get_amperage_info(gpu_index, attempt, &mut amp_data.pin_value_buffer) {
        Ok(status) => {
            amp_data.status_code = status;
            amp_data.timestamp = now_ms;
            Ok(())
        },
        Err(e) => Err(PollError::Call(e)),
    }
}

/// Inclusive bounds and default for the poll interval, in milliseconds.
pub const MIN_POLL_MS: u16 = 500;

pub const MAX_POLL_MS: u16 = 3000;

pub const DEFAULT_POLL_MS: u16 = 1000;

/// The application core: the installed handle, the live record, and the
/// settings the presentation layer may change between ticks.
///
/// `refresh_in_flight` marks a refresh cycle the host has dispatched but not
/// yet completed. [`AppState::begin_refresh`] demands that none is in
/// flight, and nothing but a refresh's own completion clears the mark, so
/// refreshes are strictly sequential whatever happens to the settings in
/// between.
#[derive(Debug)]
pub struct AppState {
    pub expan_module: Option<ExpanMod>,
    pub amperage_data: AmperageData,
    pub polling_rate_ms: u16,
    pub enable_logging: bool,
    pub log_path: String,
    pub refresh_in_flight: bool,
}

/// The state after the poll interval is changed to `ms`: nothing but the
/// interval moves — in particular no refresh is begun or completed.
pub open spec fn spec_with_rate(s: AppState, ms: u16) -> AppState {
    AppState { polling_rate_ms: ms, ..s }
}

impl AppState {
    /// Well-formedness: the record is full-width and the interval is within
    /// the adjustable range.
    pub open spec fn wf(&self) -> bool {
        &&& self.amperage_data.wf()
        &&& MIN_POLL_MS <= self.polling_rate_ms <= MAX_POLL_MS
    }

    /// The startup state: whatever handle resolution produced, an all-zero
    /// record for device 1, the default interval, logging disabled.
    pub fn new(expan_module: Option<ExpanMod>, log_path: String) -> (s: AppState)
        ensures
            s.wf(),
            s.expan_module == expan_module,
            s.amperage_data.gpu_index == 1,
            s.amperage_data.timestamp == 0,
            s.amperage_data.status_code == 0,
            forall|i: int|
                0 <= i < s.amperage_data.pin_value_buffer@.len()
                    ==> s.amperage_data.pin_value_buffer@[i] == 0i64,
            s.polling_rate_ms == DEFAULT_POLL_MS,
            !s.enable_logging,
            s.log_path == log_path,
            !s.refresh_in_flight,
    {
        AppState {
            expan_module,
            amperage_data: AmperageData::new(1),
            polling_rate_ms: DEFAULT_POLL_MS,
            enable_logging: false,
            log_path,
            refresh_in_flight: false,
        }
    }

    /// The "module available" flag the presentation layer shows: whether a
    /// handle is installed at all.
    pub fn module_available(&self) -> (b: bool)
        ensures
            b == self.expan_module is Some,
    {
        self.expan_module.is_some()
    }

    /// Changes the poll interval, effective from the next scheduled tick.
    pub fn set_polling_rate(&mut self, ms: u16)
        requires
            MIN_POLL_MS <= ms <= MAX_POLL_MS,
        ensures
            *final(self) == spec_with_rate(*old(self), ms),
            old(self).wf() ==> final(self).wf(),
    {
        self.polling_rate_ms = ms;
    }

    /// Enables or disables the logging sink; takes effect at the next write.
    pub fn set_logging(&mut self, enabled: bool)
        ensures
            *final(self) == (AppState { enable_logging: enabled, ..*old(self) }),
    {
        self.enable_logging = enabled;
    }

    /// Points the logging sink at a new file; no write happens here.
    pub fn set_log_path(&mut self, path: String)
        ensures
            *final(self) == (AppState { log_path: path, ..*old(self) }),
    {
        self.log_path = path;
    }

    /// Installs the outcome of a module reload, replacing the old handle
    /// wholesale: a failed reload installs `None` — telemetry goes dark —
    /// rather than keeping a stale handle.
    pub fn replace_module(&mut self, module: Option<ExpanMod>)
        ensures
            *final(self) == (AppState { expan_module: module, ..*old(self) }),
    {
        self.expan_module = module;
    }

    /// Marks the start of one refresh cycle. Demanding that none is already
    /// in flight is what keeps refreshes strictly sequential: the host may
    /// not dispatch a tick's refresh before the previous one completed.
    pub fn begin_refresh(&mut self)
        requires
            !old(self).refresh_in_flight,
        ensures
            *final(self) == (AppState { refresh_in_flight: true, ..*old(self) }),
    {
        self.refresh_in_flight = true;
    }

    /// Completes the in-flight refresh cycle with what the host observed:
    /// the query attempt (if a module is installed) and the clock reading.
    /// Applies [`update_amp_data`] against the installed handle; with no
    /// module installed nothing is attempted and the record stands.
    pub fn complete_refresh(&mut self, attempt: QueryAttempt, now_ms: u64) -> (r: Result<
        (),
        PollError,
    >)
        requires
            old(self).wf(),
            old(self).refresh_in_flight,
            attempt.wf(),
        ensures
            final(self).wf(),
            !final(self).refresh_in_flight,
            final(self).expan_module == old(self).expan_module,
            final(self).polling_rate_ms == old(self).polling_rate_ms,
            final(self).enable_logging == old(self).enable_logging,
            final(self).log_path == old(self).log_path,
            final(self).amperage_data.gpu_index == old(self).amperage_data.gpu_index,
            old(self).expan_module is None ==> r == Err::<(), PollError>(PollError::NoModule)
                && final(self).amperage_data == old(self).amperage_data,
            old(self).expan_module matches Some(m) ==> {
                &&& (r is Ok <==> refresh_completes(m, attempt))
                &&& refresh_completes(m, attempt) ==> {
                    &&& final(self).amperage_data.timestamp == now_ms
                    &&& final(self).amperage_data.status_code == attempt.spec_status()
                    &&& final(self).amperage_data.pin_value_buffer@ == attempt.spec_readings()
                }
                &&& !refresh_completes(m, attempt) ==> final(self).amperage_data == old(
                    self,
                ).amperage_data
            },
    {
        self.refresh_in_flight = false;
        match &self.expan_module {
            Some(expan_mod) => update_amp_data(expan_mod, attempt, now_ms, &mut self.amperage_data),
            None => Err(PollError::NoModule),
        }
    }

    /// Changing the poll interval — twice, to any rates — never begins or
    /// ends a refresh: the in-flight mark is exactly what it was. Together
    /// with [`AppState::begin_refresh`]'s demand that no refresh is in
    /// flight, no sequence of interval changes can ever make two refreshes
    /// overlap.
    pub proof fn lemma_rate_change_never_spawns_refresh(s: AppState, first_ms: u16, second_ms: u16)
        ensures
            spec_with_rate(spec_with_rate(s, first_ms), second_ms).refresh_in_flight
                == s.refresh_in_flight,
            !s.refresh_in_flight ==> !spec_with_rate(
                spec_with_rate(s, first_ms),
                second_ms,
            ).refresh_in_flight,
    {
    }
}

} // verus!
