//! Telemetry sampler: one sample→push cycle, as pure logic.
//!
//! Each cycle the surrounding runtime performs the sensor bus transactions
//! and hands their results here as plain values: the primary sensor's
//! measurement (or a fault), the secondary sensor's readiness flag, and
//! the raw air-quality band. This module decides everything that follows:
//! whether the cycle is aborted and retried, what the air-quality portion
//! is, and the four channel updates, each pushed live where possible and
//! cached in every case.

use vstd::prelude::*;

use crate::ble::Enviro;
use crate::ble::EnviroSensingService;
use crate::ble::Server;
use crate::channel::Channel;
use crate::session::ChannelValue;
use crate::session::NotifyError;
use crate::session::Session;
use crate::session::spec_cache;

verus! {

/// A transient, bus-level sensor fault. Never fatal: the cycle is retried
/// after the fixed inter-cycle delay, indefinitely.
#[derive(Clone, Copy, PartialEq, Eq, Structural, Debug)]
pub struct SensorFault;

/// The qualitative air-quality band the secondary sensor reports.
#[derive(Clone, Copy, PartialEq, Eq, Structural, Debug)]
pub enum Band {
    Excellent,
    Good,
    Moderate,
    Poor,
    Unhealthy,
}

/// The fixed band-to-score mapping: a stable contract with receivers,
/// chosen so that a higher score is always better. Never reordered.
pub open spec fn spec_aqi_score(b: Band) -> u8 {
    match b {
        Band::Excellent => 50,
        Band::Good => 40,
        Band::Moderate => 30,
        Band::Poor => 20,
        Band::Unhealthy => 10,
    }
}

/// Maps a band to its score on the fixed five-step scale.
pub fn aqi_score(b: Band) -> (r: u8)
    ensures
        r == spec_aqi_score(b),
{
    match b {
        Band::Excellent => 50,
        Band::Good => 40,
        Band::Moderate => 30,
        Band::Poor => 20,
        Band::Unhealthy => 10,
    }
}

/// The band-to-score mapping is total onto {10, 20, 30, 40, 50} and
/// strictly ranked: a strictly better band always maps to a strictly
/// higher score.
pub proof fn lemma_aqi_score_fixed(b: Band)
    ensures
        spec_aqi_score(b) == 10 || spec_aqi_score(b) == 20 || spec_aqi_score(b) == 30
            || spec_aqi_score(b) == 40 || spec_aqi_score(b) == 50,
        spec_aqi_score(Band::Excellent) > spec_aqi_score(Band::Good),
        spec_aqi_score(Band::Good) > spec_aqi_score(Band::Moderate),
        spec_aqi_score(Band::Moderate) > spec_aqi_score(Band::Poor),
        spec_aqi_score(Band::Poor) > spec_aqi_score(Band::Unhealthy),
{
}

/// The primary sensor's measurement, already in wire units: temperature
/// in signed hundredths of a degree Celsius, relative humidity in
/// hundredths of a percent, pressure in tenths of a pascal.
#[derive(Clone, Copy, PartialEq, Eq, Structural, Debug)]
pub struct RawSample {
    pub temperature: i16,
    pub humidity: u16,
    pub pressure: u32,
}

/// Which pushes the transport had no room for this cycle, one flag per
/// telemetry channel; the radio stack's knowledge, handed in per cycle.
#[derive(Clone, Copy, PartialEq, Eq, Structural, Debug)]
pub struct LinkLoad {
    pub temperature: bool,
    pub humidity: bool,
    pub pressure: bool,
    pub aqi: bool,
}

impl LinkLoad {
    /// A clear link: room for every push.
    pub open spec fn clear() -> LinkLoad {
        LinkLoad { temperature: false, humidity: false, pressure: false, aqi: false }
    }

    /// Builds a clear link.
    pub fn all_clear() -> (r: LinkLoad)
        ensures
            r == LinkLoad::clear(),
    {
        LinkLoad { temperature: false, humidity: false, pressure: false, aqi: false }
    }
}

/// How one delivered cycle went: the four-value tuple it left in the
/// caches, and the per-channel outcome of each live push attempt (the
/// cache update is unconditional either way). `aqi` is `None` when the
/// air-quality portion was omitted this cycle; `values.aqi` then carries
/// the prior, still-authoritative score.
#[derive(Clone, Copy, PartialEq, Eq, Debug)]
pub struct CycleReport {
    pub values: Enviro,
    pub temperature: Result<(), NotifyError>,
    pub humidity: Result<(), NotifyError>,
    pub pressure: Result<(), NotifyError>,
    pub aqi: Option<Result<(), NotifyError>>,
}

/// What one cycle came to: aborted on a primary-sensor fault (to be
/// retried after the fixed delay), or delivered with a per-push report.
#[derive(Clone, Copy, PartialEq, Eq, Debug)]
pub enum CycleOutcome {
    Faulted,
    Delivered(CycleReport),
}

/// The air-quality portion of a cycle: the mapped score when the
/// secondary sensor answered ready and produced a band, otherwise omitted
/// — an omitted portion is never pushed, and the prior cached score stays
/// authoritative.
pub open spec fn aqi_portion(
    readiness: Result<bool, SensorFault>,
    band: Result<Band, SensorFault>,
) -> Option<u8> {
    match (readiness, band) {
        (Ok(true), Ok(b)) => Some(spec_aqi_score(b)),
        _ => None,
    }
}

/// The session after one cycle's cache updates. A primary-sensor fault
/// aborts the cycle with nothing written; otherwise the three primary
/// channels take the measured values and the air-quality channel takes
/// the mapped score exactly when the portion is present. The connection
/// and epoch are never touched.
pub open spec fn spec_cycle(
    s: Session,
    primary: Result<RawSample, SensorFault>,
    readiness: Result<bool, SensorFault>,
    band: Result<Band, SensorFault>,
) -> Session {
    match primary {
        Ok(m) => Session {
            server: Server {
                enviro: EnviroSensingService {
                    temperature: m.temperature,
                    humidity: m.humidity,
                    pressure: m.pressure,
                    aqi: match aqi_portion(readiness, band) {
                        Some(a) => a,
                        None => s.server.enviro.aqi,
                    },
                },
                ..s.server
            },
            ..s
        },
        Err(_) => s,
    }
}

/// Runs one sampling cycle against the session.
///
/// On a primary-sensor fault the cycle aborts with the session untouched;
/// the caller retries after the fixed delay. Otherwise every telemetry
/// channel with a fresh value is published: pushed live exactly when a
/// peer is connected, subscribed, and the link has room, and cached
/// unconditionally — so the caches always hold this cycle's values, and a
/// client reconnecting later observes the latest measurement even if no
/// live push succeeded. The four writes are a single batch with no
/// suspension point between them.
pub fn run_cycle(
    session: &mut Session,
    primary: Result<RawSample, SensorFault>,
    readiness: Result<bool, SensorFault>,
    band: Result<Band, SensorFault>,
    load: LinkLoad,
) -> (r: CycleOutcome)
    ensures
        *final(session) == spec_cycle(*old(session), primary, readiness, band),
        r is Faulted <==> primary is Err,
        r matches CycleOutcome::Delivered(rep) ==> {
            &&& rep.values.temperature == final(session).server.enviro.temperature
            &&& rep.values.humidity == final(session).server.enviro.humidity
            &&& rep.values.pressure == final(session).server.enviro.pressure
            &&& rep.values.aqi == final(session).server.enviro.aqi
            &&& rep.pressure == old(session).notify_decision(Channel::Pressure, load.pressure)
            &&& rep.temperature == old(session).notify_decision(Channel::Temperature, load.temperature)
            &&& rep.humidity == old(session).notify_decision(Channel::Humidity, load.humidity)
            &&& (rep.aqi is Some <==> aqi_portion(readiness, band) is Some)
            &&& (rep.aqi matches Some(ra) ==> ra == old(session).notify_decision(
                Channel::AirQuality,
                load.aqi,
            ))
        },
{
    let m = match primary {
        Err(_) => {
            return CycleOutcome::Faulted;
        },
        Ok(m) => m,
    };
    let fresh_aqi: Option<u8> = match readiness {
        Ok(true) => match band {
            Ok(b) => Some(aqi_score(b)),
            Err(_) => None,
        },
        _ => None,
    };
    let pressure = session.publish(ChannelValue::Pressure(m.pressure), load.pressure);
    let temperature = session.publish(ChannelValue::Temperature(m.temperature), load.temperature);
    let humidity = session.publish(ChannelValue::Humidity(m.humidity), load.humidity);
    let aqi = match fresh_aqi {
        Some(a) => Some(session.publish(ChannelValue::AirQuality(a), load.aqi)),
        None => None,
    };
    let values = Enviro {
        temperature: m.temperature,
        humidity: m.humidity,
        pressure: m.pressure,
        aqi: session.server.enviro.aqi,
    };
    CycleOutcome::Delivered(CycleReport { values, temperature, humidity, pressure, aqi })
}

/// Publishing never touches the air-quality cache unless the air-quality
/// portion is present: when the secondary sensor was not ready, or
/// faulted, the cached score after the cycle equals the score before it.
pub proof fn lemma_stale_aqi_preserved(
    s: Session,
    primary: Result<RawSample, SensorFault>,
    readiness: Result<bool, SensorFault>,
    band: Result<Band, SensorFault>,
)
    requires
        aqi_portion(readiness, band) is None,
    ensures
        spec_cycle(s, primary, readiness, band).server.enviro.aqi == s.server.enviro.aqi,
{
}

} // verus!
