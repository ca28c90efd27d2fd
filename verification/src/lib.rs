//! Hardware telemetry acquisition engine for a desktop sensor widget.
//!
//! The engine resolves one snapshot per poll from the first source that
//! answers: a supervised helper daemon, one run of the helper, structured
//! operating-system queries; where sensors are out of reach, a simulated
//! generator stands in. The engine decides and computes; launching
//! processes, asking the operating system and reading the clock are its
//! caller's part, who hands in what came back.
//!
//! Every reading is held in fixed point, in thousandths of its unit, so
//! that each rule is stated over integers.

pub mod board;
pub mod cpu;
pub mod driver;
pub mod error_reporting;
pub mod fixed;
pub mod gpu;
pub mod model;
pub mod payload;
pub mod records;
pub mod resolver;
pub mod settings;
pub mod simulation;
pub mod smi;
pub mod storage;
pub mod structured;
pub mod supervisor;
pub mod text;
pub mod window;
