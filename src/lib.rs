//! A scriptable fieldbus slave device: typed register and coil operations
//! answered by named script entry points, served one at a time by a single
//! device actor that routes each reply back to the call that caused it.

pub mod actor;
pub mod cli;
pub mod device;
pub mod operation;
pub mod router;
pub mod script;
