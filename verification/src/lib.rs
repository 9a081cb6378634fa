//! Charging logic of the `ICharger` HAL adapter.

pub mod adapter;
pub mod battery;
pub mod charge_limit;
pub mod classify;
pub mod classify_laws;
pub mod control;
pub mod decimal_soc;
pub mod info;
pub mod node_laws;
pub mod nodes;
pub mod payload_laws;
pub mod poll;
pub mod readings;
pub mod recheck;
pub mod report;
pub mod report_laws;
pub mod scan;
pub mod scan_laws;
pub mod scan_results;
pub mod scan_runs;
pub mod service;
pub mod snapshot;
pub mod text;
pub mod text_laws;
pub mod units;

use vstd::prelude::*;

verus! {

pub const SERVICE_NAME: &'static str = "vendor.oplus.hardware.charger.ICharger/default";

/// The version that the stable interface reports.
pub const INTERFACE_VERSION: i32 = 11;

} // verus!
