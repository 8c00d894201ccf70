//! A metered execution engine for sandboxed contract bytecode: module
//! validation, host import resolution, gas unit conversion and metering,
//! host-call dispatch over linear memory, and classification of how a call ended.

pub mod uint;
pub mod error;
pub mod schedule;
pub mod gas;
pub mod module;
pub mod runtime;
pub mod host;
pub mod outcome;
pub mod interpreter;
