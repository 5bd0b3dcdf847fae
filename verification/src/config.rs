//! Configuration of the bridge: the device, its line speed and read
//! timeout, the metrics port, and the gauge's name and help text.
//! The defaults are the fixed values of the soil-moisture deployment.

use vstd::prelude::*;

verus! {

pub const DEFAULT_BAUD_RATE: u32 = 9600;
pub const DEFAULT_READ_TIMEOUT_MS: u64 = 2000;
pub const DEFAULT_METRICS_PORT: u16 = 9898;

/// The bridge's configuration.
pub struct Config {
    /// The serial device to read lines from.
    pub device_path: String,
    /// The line speed of the serial device.
    pub baud_rate: u32,
    /// How long one blocking read may wait before it reports a
    /// timeout and is retried.
    pub read_timeout_ms: u64,
    /// The port the metrics endpoint binds on all interfaces.
    pub metrics_port: u16,
    /// The gauge's metric name.
    pub metric_name: String,
    /// The gauge's help text.
    pub metric_help: String,
}

impl Default for Config {
    /// The soil-moisture gauge on `/dev/ttyACM0` at 9600 baud with a
    /// 2000 ms read timeout, exposed on port 9898.
    fn default() -> (r: Config)
        ensures
            r.device_path@ == "/dev/ttyACM0"@,
            r.baud_rate == DEFAULT_BAUD_RATE,
            r.read_timeout_ms == DEFAULT_READ_TIMEOUT_MS,
            r.metrics_port == DEFAULT_METRICS_PORT,
            r.metric_name@ == "moisture"@,
            r.metric_help@ == "Soil Moisture"@,
    {
        Config {
            device_path: String::from_str("/dev/ttyACM0"),
            baud_rate: DEFAULT_BAUD_RATE,
            read_timeout_ms: DEFAULT_READ_TIMEOUT_MS,
            metrics_port: DEFAULT_METRICS_PORT,
            metric_name: String::from_str("moisture"),
            metric_help: String::from_str("Soil Moisture"),
        }
    }
}

} // verus!
