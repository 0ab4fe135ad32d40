//! Exact-pixel store screenshots and deterministic browser runs: the
//! verified core.

pub mod text;
pub mod error;
pub mod ws;
pub mod codec;
pub mod device;
pub mod presets;
pub mod capture;
pub mod progress;
pub mod png;
pub mod cli;
pub mod run;
pub mod cdp;
pub mod install;
pub mod determinism;

pub use capture::{Capture, Command, Stability};
pub use cdp::LaunchOptions;
pub use device::{builtin, by_id, for_store, Device, Platform, PresetFile, Requirement, Store};
pub use error::{Error, Result};
pub use progress::{Collector, DeviceEvent, Outcome, Progress, Silent, Summary, Tally};
pub use run::{DeviceResult, RunReport, RunState};

use vstd::prelude::*;

verus! {

/// The library version, surfaced so receipts can record which build
/// produced them.
pub const VERSION: &'static str = "0.1.0";

} // verus!
