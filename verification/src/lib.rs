//! A small exercise in structured error propagation: a validator classifies
//! an integer against a fixed threshold, and a reporter wraps any validation
//! failure in an outer error while recording a diagnostic entry.

pub mod error;
pub mod log;
pub mod ops;
