//! Cached channel values of the wireless server.
//!
//! The server keeps, per characteristic, the most recently written value.
//! A peer that reads a characteristic sees this cache; a live push also
//! rewrites it, so reads and notifications never disagree. Before the first
//! write every value is the defined default, zero.

use vstd::prelude::*;

verus! {

/// One sampling cycle's derived channel values, in wire units:
/// temperature in signed hundredths of a degree Celsius, relative humidity
/// in hundredths of a percent, pressure in tenths of a pascal, and the
/// air-quality score on the fixed five-step scale.
#[derive(Clone, Copy, PartialEq, Eq, Structural, Debug)]
pub struct Enviro {
    pub temperature: i16,
    pub humidity: u16,
    pub pressure: u32,
    pub aqi: u8,
}

/// Battery service: a single battery-level characteristic (percent).
#[derive(Clone, Copy, PartialEq, Eq, Structural, Debug)]
pub struct BatteryService {
    pub battery_level: u8,
}

/// Environmental sensing service: temperature, humidity, pressure and
/// air-quality characteristics, each holding its last written value.
#[derive(Clone, Copy, PartialEq, Eq, Structural, Debug)]
pub struct EnviroSensingService {
    pub temperature: i16,
    pub humidity: u16,
    pub pressure: u32,
    pub aqi: u8,
}

/// The whole server: every service's cached characteristic values.
#[derive(Clone, Copy, PartialEq, Eq, Structural, Debug)]
pub struct Server {
    pub bat: BatteryService,
    pub enviro: EnviroSensingService,
}

impl Server {
    /// The state at boot: every cached value is zero.
    pub open spec fn initial() -> Server {
        Server {
            bat: BatteryService { battery_level: 0 },
            enviro: EnviroSensingService { temperature: 0, humidity: 0, pressure: 0, aqi: 0 },
        }
    }

    /// Builds the server with every cached value at its defined default.
    pub fn new() -> (r: Server)
        ensures
            r == Server::initial(),
    {
        Server {
            bat: BatteryService { battery_level: 0 },
            enviro: EnviroSensingService { temperature: 0, humidity: 0, pressure: 0, aqi: 0 },
        }
    }
}

} // verus!
