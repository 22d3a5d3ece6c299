use astral_flow_meter::dll::{CallError, ExpanMod, QueryAttempt};
use astral_flow_meter::poller::{update_amp_data, PollError};
use astral_flow_meter::AmperageData;

fn open_handle() -> ExpanMod {
    ExpanMod {
        loaded: true,
        path: String::from("ExpanModule.dll"),
    }
}

#[test]
fn refresh_success_copies_readings_and_stamps_time() {
    let handle = open_handle();
    let mut data = AmperageData::new(1);
    let attempt = QueryAttempt::Returned {
        status: 0,
        readings: vec![1234, 2000, 0, 9999, 5500, 6000],
    };
    let r = update_amp_data(&handle, attempt, 1_700_000_000_000, &mut data);
    assert!(r.is_ok());
    assert_eq!(data.timestamp, 1_700_000_000_000);
    assert_eq!(data.status_code, 0);
    assert_eq!(data.pin_value_buffer, vec![1234, 2000, 0, 9999, 5500, 6000]);
    assert_eq!(data.gpu_index, 1);
}

#[test]
fn refresh_timestamp_never_goes_back_on_monotonic_clock() {
    let handle = open_handle();
    let mut data = AmperageData::new(1);
    let first = QueryAttempt::Returned {
        status: 0,
        readings: vec![1, 2, 3, 4, 5, 6],
    };
    let r = update_amp_data(&handle, first, 500, &mut data);
    assert!(r.is_ok());
    let before = data.timestamp;
    let second = QueryAttempt::Returned {
        status: 0,
        readings: vec![6, 5, 4, 3, 2, 1],
    };
    let r = update_amp_data(&handle, second, 500, &mut data);
    assert!(r.is_ok());
    assert!(data.timestamp >= before);
}

#[test]
fn refresh_nonzero_status_still_succeeds_and_is_recorded() {
    let handle = open_handle();
    let mut data = AmperageData::new(1);
    let attempt = QueryAttempt::Returned {
        status: -77,
        readings: vec![9, 9, 9, 9, 9, 9],
    };
    let r = update_amp_data(&handle, attempt, 42, &mut data);
    assert!(r.is_ok());
    assert_eq!(data.status_code, -77);
    assert_eq!(data.timestamp, 42);
    assert_eq!(data.pin_value_buffer, vec![9, 9, 9, 9, 9, 9]);
}

#[test]
fn refresh_missing_symbol_leaves_record_untouched() {
    let handle = open_handle();
    let mut data = AmperageData::new(1);
    let r = update_amp_data(&handle, QueryAttempt::SymbolMissing, 42, &mut data);
    assert_eq!(r, Err(PollError::Call(CallError::MissingSymbol)));
    assert_eq!(data.timestamp, 0);
    assert_eq!(data.status_code, 0);
    assert_eq!(data.pin_value_buffer, vec![0, 0, 0, 0, 0, 0]);
}

#[test]
fn refresh_closed_handle_reports_no_library() {
    let mut handle = open_handle();
    handle.close();
    let mut data = AmperageData::new(1);
    let attempt = QueryAttempt::Returned {
        status: 0,
        readings: vec![1, 2, 3, 4, 5, 6],
    };
    let r = update_amp_data(&handle, attempt, 42, &mut data);
    assert_eq!(r, Err(PollError::Call(CallError::NoLibrary)));
    assert_eq!(data.timestamp, 0);
}

#[test]
fn new_record_is_all_zero_for_device() {
    let data = AmperageData::new(3);
    assert_eq!(data.gpu_index, 3);
    assert_eq!(data.timestamp, 0);
    assert_eq!(data.status_code, 0);
    assert_eq!(data.pin_value_buffer, vec![0, 0, 0, 0, 0, 0]);
    let defaulted = AmperageData::default();
    assert_eq!(defaulted.gpu_index, 0);
    assert_eq!(defaulted.pin_value_buffer, vec![0, 0, 0, 0, 0, 0]);
}

#[test]
fn close_twice_is_a_no_op() {
    let mut handle = open_handle();
    handle.close();
    assert!(!handle.loaded);
    handle.close();
    assert!(!handle.loaded);
    assert_eq!(handle.path, String::from("ExpanModule.dll"));
}

#[test]
fn open_reports_loader_outcome() {
    let path = String::from("somewhere.dll");
    assert!(ExpanMod::new(&path, true).is_ok());
    assert!(ExpanMod::new(&path, false).is_err());
}
