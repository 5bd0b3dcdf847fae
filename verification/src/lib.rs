//! A verified model of a serial-to-metrics bridge: which device lines
//! count as readings, how the latest reading is held in a gauge, what
//! the metrics endpoint answers, and how shutdown proceeds.

pub mod cell;
pub mod config;
pub mod exposition;
pub mod reading;
pub mod server;
pub mod shutdown;
