//! Acquisition engine for a CO2 / temperature / humidity monitor that speaks
//! in 8-byte reports: decoding of one report, assembly of complete readings,
//! the observer list, the start/stop lifecycle and the worker's decisions.
//!
//! Temperatures and humidities are held as integers in hundredths of a unit,
//! so every value with two decimals has exactly one representation.

pub mod report;
pub mod clock;
pub mod snapshot;
pub mod replay;
pub mod worker;
pub mod control;

pub use crate::clock::Timestamp;
pub use crate::control::AirControl;
pub use crate::report::Reading;
pub use crate::snapshot::{Assembly, AssemblyStep, DeviceData, ReadOutcome};
pub use crate::worker::{Worker, WorkerAction, WorkerEvent, WorkerPhase};
