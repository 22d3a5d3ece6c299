use astral_flow_meter::dll::{ExpanMod, QueryAttempt};
use astral_flow_meter::poller::{AppState, PollError, DEFAULT_POLL_MS};

fn started_state() -> AppState {
    let handle = ExpanMod {
        loaded: true,
        path: String::from("ExpanModule.dll"),
    };
    AppState::new(Some(handle), String::from("astral-amp.log"))
}

#[test]
fn startup_state_defaults() {
    let state = started_state();
    assert!(state.module_available());
    assert!(!AppState::new(None, String::new()).module_available());
    assert_eq!(state.polling_rate_ms, DEFAULT_POLL_MS);
    assert!(!state.enable_logging);
    assert!(!state.refresh_in_flight);
    assert_eq!(state.log_path, String::from("astral-amp.log"));
    assert_eq!(state.amperage_data.gpu_index, 1);
    assert_eq!(state.amperage_data.pin_value_buffer, vec![0, 0, 0, 0, 0, 0]);
}

#[test]
fn interval_changes_never_overlap_refreshes() {
    let mut state = started_state();
    // change the interval twice across its whole range: no refresh appears
    state.set_polling_rate(500);
    assert!(!state.refresh_in_flight);
    state.set_polling_rate(3000);
    assert!(!state.refresh_in_flight);
    assert_eq!(state.polling_rate_ms, 3000);

    // a full refresh cycle can then run, and the interval stands
    state.begin_refresh();
    assert!(state.refresh_in_flight);
    let attempt = QueryAttempt::Returned {
        status: 0,
        readings: vec![1, 2, 3, 4, 5, 6],
    };
    let r = state.complete_refresh(attempt, 99);
    assert!(r.is_ok());
    assert!(!state.refresh_in_flight);
    assert_eq!(state.polling_rate_ms, 3000);
    assert_eq!(state.amperage_data.timestamp, 99);
}

#[test]
fn refresh_without_module_reports_and_keeps_record() {
    let mut state = AppState::new(None, String::new());
    state.begin_refresh();
    let attempt = QueryAttempt::Returned {
        status: 0,
        readings: vec![1, 2, 3, 4, 5, 6],
    };
    let r = state.complete_refresh(attempt, 99);
    assert_eq!(r, Err(PollError::NoModule));
    assert_eq!(state.amperage_data.timestamp, 0);
    assert!(!state.refresh_in_flight);
}

#[test]
fn settings_changes_take_effect() {
    let mut state = started_state();
    state.set_logging(true);
    assert!(state.enable_logging);
    state.set_log_path(String::from("elsewhere.log"));
    assert_eq!(state.log_path, String::from("elsewhere.log"));
    state.replace_module(None);
    assert!(state.expan_module.is_none());
}

#[test]
fn failed_reload_installs_no_stale_handle() {
    let mut state = started_state();
    // a reload that failed to load installs None rather than keeping the old
    let reloaded = ExpanMod::new(&String::from("nope.dll"), false);
    assert!(reloaded.is_err());
    state.replace_module(reloaded.ok());
    assert!(state.expan_module.is_none());
}
