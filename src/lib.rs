//! Verified core of a concurrent load-generation harness: request
//! payloads, outcome accounting, run coordination and export rows.

pub mod calendar;
pub mod metrics;
pub mod payload;
pub mod randomizer;
pub mod run;
pub mod text;
