//! Drivers for single-data-line environmental sensors.
//!
//! Communication with DHT-style humidity/temperature sensors and DS18B20
//! one-wire thermometers happens over a single pin that switches between
//! input and output roles. No hardware timer is available: pulse durations
//! are measured by counting iterations of a busy poll loop, and the
//! short/long bit boundary is estimated per read from a histogram of the
//! sampled durations.
//!
//! The protocol decode core is verified: pulse classification, frame
//! assembly, checksum and CRC validation, plausibility bounds, retry
//! policy and the simulated line and clock the drivers run against.



pub mod clock;
pub mod dht11;
pub mod dhtxx;
pub mod ds18b20;
pub mod frame;
pub mod line;
pub mod mcp3008;
pub mod mcp300x;
pub mod pulse;
pub mod threshold;

