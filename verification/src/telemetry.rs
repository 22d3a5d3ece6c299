//! The live telemetry record: one mutable value holding the most recent
//! per-pin current readings, the time they were taken, and the provider's
//! status code for that poll.
//!
//! A reading is held in thousandths of an ampere (a plain integer), so the
//! whole record is made of exact values that contracts can speak about.

use vstd::prelude::*;

verus! {

/// Number of measurement pins the provider reports on each query.
pub const PIN_COUNT: usize = 6;

/// The live telemetry record.
///
/// `pin_value_buffer` always holds exactly [`PIN_COUNT`] readings, each in
/// thousandths of an ampere. `timestamp` is milliseconds since a fixed epoch;
/// `status_code` is the provider's last reported status (0 means success,
/// anything else is an opaque vendor failure code, kept but not interpreted).
#[derive(Debug, Clone)]
pub struct AmperageData {
    pub gpu_index: i32,
    pub timestamp: u64,
    pub pin_value_buffer: Vec<i64>,
    pub status_code: i32,
}

impl AmperageData {
    /// Well-formedness: the reading buffer has exactly one slot per pin.
    pub open spec fn wf(&self) -> bool {
        self.pin_value_buffer@.len() == PIN_COUNT
    }

    /// A fresh record for the given device: all readings zero, epoch
    /// timestamp, success status.
    pub fn new(gpu_index: i32) -> (d: AmperageData)
        ensures
            d.wf(),
            d.gpu_index == gpu_index,
            d.timestamp == 0,
            d.status_code == 0,
            forall|i: int| 0 <= i < PIN_COUNT ==> d.pin_value_buffer@[i] == 0i64,
    {
        let buffer: Vec<i64> = vec![0i64, 0i64, 0i64, 0i64, 0i64, 0i64];
        AmperageData { gpu_index, timestamp: 0, pin_value_buffer: buffer, status_code: 0 }
    }
}

impl Default for AmperageData {
    /// Same as [`AmperageData::new`] with device index 0.
    fn default() -> (d: AmperageData)
        ensures
            d.wf(),
            d.gpu_index == 0,
            d.timestamp == 0,
            d.status_code == 0,
            forall|i: int| 0 <= i < PIN_COUNT ==> d.pin_value_buffer@[i] == 0i64,
    {
        AmperageData::new(0)
    }
}

} // verus!
