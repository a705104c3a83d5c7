use ble_weather_tx::ble::Enviro;
use ble_weather_tx::ble::Server;
use ble_weather_tx::channel::Channel;
use ble_weather_tx::sampler::run_cycle;
use ble_weather_tx::sampler::aqi_score;
use ble_weather_tx::sampler::Band;
use ble_weather_tx::sampler::CycleOutcome;
use ble_weather_tx::sampler::LinkLoad;
use ble_weather_tx::sampler::RawSample;
use ble_weather_tx::sampler::SensorFault;
use ble_weather_tx::session::ChannelValue;
use ble_weather_tx::session::NotifyError;
use ble_weather_tx::session::Session;

fn sample() -> RawSample {
    RawSample { temperature: 2345, humidity: 5012, pressure: 1013200 }
}

fn subscribe_all(s: &mut Session) {
    s.set_subscription(Channel::Temperature, true);
    s.set_subscription(Channel::Humidity, true);
    s.set_subscription(Channel::Pressure, true);
    s.set_subscription(Channel::AirQuality, true);
    s.set_subscription(Channel::BatteryLevel, true);
}

#[test]
fn aqi_mapping_fixed() {
    assert_eq!(aqi_score(Band::Excellent), 50);
    assert_eq!(aqi_score(Band::Good), 40);
    assert_eq!(aqi_score(Band::Moderate), 30);
    assert_eq!(aqi_score(Band::Poor), 20);
    assert_eq!(aqi_score(Band::Unhealthy), 10);
}

#[test]
fn server_defaults_zero() {
    let srv = Server::new();
    assert_eq!(srv.enviro.temperature, 0);
    assert_eq!(srv.enviro.humidity, 0);
    assert_eq!(srv.enviro.pressure, 0);
    assert_eq!(srv.enviro.aqi, 0);
    assert_eq!(srv.bat.battery_level, 0);
}

#[test]
fn sample_cycle_scaled_values() {
    // A measurement of 23.45 degrees, 50.12 percent humidity and
    // 1013.2 hPa arrives as 2345, 5012 and 1013200 in wire units; the
    // secondary sensor is ready with a Good band, so the score is 40.
    let mut s = Session::new();
    s.connect();
    subscribe_all(&mut s);
    let outcome = run_cycle(
        &mut s,
        Ok(sample()),
        Ok(true),
        Ok(Band::Good),
        LinkLoad::all_clear(),
    );
    assert_eq!(s.server.enviro.temperature, 2345);
    assert_eq!(s.server.enviro.humidity, 5012);
    assert_eq!(s.server.enviro.pressure, 1013200);
    assert_eq!(s.server.enviro.aqi, 40);
    match outcome {
        CycleOutcome::Delivered(rep) => {
            assert_eq!(rep.temperature, Ok(()));
            assert_eq!(rep.humidity, Ok(()));
            assert_eq!(rep.pressure, Ok(()));
            assert_eq!(rep.aqi, Some(Ok(())));
            assert_eq!(
                rep.values,
                Enviro { temperature: 2345, humidity: 5012, pressure: 1013200, aqi: 40 }
            );
        },
        CycleOutcome::Faulted => panic!("cycle must deliver"),
    }
}

#[test]
fn no_peer_caches_warm() {
    // With no peer connected the sampler still runs: every push reports
    // NoConnection and every value lands in the cache anyway.
    let mut s = Session::new();
    let outcome = run_cycle(
        &mut s,
        Ok(sample()),
        Ok(true),
        Ok(Band::Excellent),
        LinkLoad::all_clear(),
    );
    match outcome {
        CycleOutcome::Delivered(rep) => {
            assert_eq!(rep.temperature, Err(NotifyError::NoConnection));
            assert_eq!(rep.humidity, Err(NotifyError::NoConnection));
            assert_eq!(rep.pressure, Err(NotifyError::NoConnection));
            assert_eq!(rep.aqi, Some(Err(NotifyError::NoConnection)));
        },
        CycleOutcome::Faulted => panic!("cycle must deliver"),
    }
    assert_eq!(s.server.enviro.temperature, 2345);
    assert_eq!(s.server.enviro.humidity, 5012);
    assert_eq!(s.server.enviro.pressure, 1013200);
    assert_eq!(s.server.enviro.aqi, 50);
}

#[test]
fn subscribe_temperature_only() {
    // A peer subscribed to temperature alone: only that push succeeds,
    // the other channels fall back to the cache each cycle.
    let mut s = Session::new();
    s.connect();
    s.set_subscription(Channel::Temperature, true);
    let outcome = run_cycle(
        &mut s,
        Ok(sample()),
        Ok(true),
        Ok(Band::Moderate),
        LinkLoad::all_clear(),
    );
    match outcome {
        CycleOutcome::Delivered(rep) => {
            assert_eq!(rep.temperature, Ok(()));
            assert_eq!(rep.humidity, Err(NotifyError::NotSubscribed));
            assert_eq!(rep.pressure, Err(NotifyError::NotSubscribed));
            assert_eq!(rep.aqi, Some(Err(NotifyError::NotSubscribed)));
        },
        CycleOutcome::Faulted => panic!("cycle must deliver"),
    }
    assert_eq!(s.server.enviro.temperature, 2345);
    assert_eq!(s.server.enviro.humidity, 5012);
    assert_eq!(s.server.enviro.pressure, 1013200);
    assert_eq!(s.server.enviro.aqi, 30);
}

#[test]
fn notify_failure_still_caches() {
    // Whatever the push failure, the cached value equals the value just
    // passed: the cache update is unconditional.
    let mut s = Session::new();
    let r = s.publish(ChannelValue::Temperature(-123), false);
    assert_eq!(r, Err(NotifyError::NoConnection));
    assert_eq!(s.server.enviro.temperature, -123);

    s.connect();
    let r = s.publish(ChannelValue::Humidity(777), false);
    assert_eq!(r, Err(NotifyError::NotSubscribed));
    assert_eq!(s.server.enviro.humidity, 777);

    s.set_subscription(Channel::Pressure, true);
    let r = s.publish(ChannelValue::Pressure(424242), true);
    assert_eq!(r, Err(NotifyError::LinkBusy));
    assert_eq!(s.server.enviro.pressure, 424242);

    let r = s.publish(ChannelValue::Pressure(434343), false);
    assert_eq!(r, Ok(()));
    assert_eq!(s.server.enviro.pressure, 434343);
}

#[test]
fn battery_level_publish_caches() {
    let mut s = Session::new();
    let r = s.publish(ChannelValue::BatteryLevel(93), false);
    assert_eq!(r, Err(NotifyError::NoConnection));
    assert_eq!(s.server.bat.battery_level, 93);
}

#[test]
fn reconnect_resets_subscriptions() {
    // Subscription state is false for every channel immediately after a
    // new connection, whatever the previous epoch had set.
    let mut s = Session::new();
    s.connect();
    subscribe_all(&mut s);
    s.disconnect();
    s.connect();
    let k = s.conn.expect("connected");
    assert!(!k.subs.temperature);
    assert!(!k.subs.humidity);
    assert!(!k.subs.pressure);
    assert!(!k.subs.aqi);
    assert!(!k.subs.battery_level);
}

#[test]
fn epoch_increments_each_reconnect() {
    let mut s = Session::new();
    s.connect();
    assert_eq!(s.conn.expect("connected").epoch, 0);
    s.disconnect();
    s.connect();
    assert_eq!(s.conn.expect("connected").epoch, 1);
    s.disconnect();
    s.connect();
    assert_eq!(s.conn.expect("connected").epoch, 2);
}

#[test]
fn stale_aqi_preserved() {
    // When the secondary sensor reports not-ready, the air-quality cache
    // keeps the previous cycle's score; the primary channels still move.
    let mut s = Session::new();
    run_cycle(&mut s, Ok(sample()), Ok(true), Ok(Band::Excellent), LinkLoad::all_clear());
    assert_eq!(s.server.enviro.aqi, 50);

    let later = RawSample { temperature: 2400, humidity: 4800, pressure: 1014000 };
    let out = run_cycle(&mut s, Ok(later), Ok(false), Ok(Band::Unhealthy), LinkLoad::all_clear());
    assert_eq!(s.server.enviro.aqi, 50);
    match out {
        CycleOutcome::Delivered(rep) => {
            assert_eq!(rep.aqi, None);
            assert_eq!(rep.values.aqi, 50);
        },
        CycleOutcome::Faulted => panic!("cycle must deliver"),
    }
    assert_eq!(s.server.enviro.temperature, 2400);
    assert_eq!(s.server.enviro.humidity, 4800);
    assert_eq!(s.server.enviro.pressure, 1014000);
}

#[test]
fn secondary_fault_omits_aqi() {
    // A fault from the secondary sensor, on the readiness query or the
    // band read, omits the air-quality portion like not-ready does.
    let mut s = Session::new();
    run_cycle(&mut s, Ok(sample()), Ok(true), Ok(Band::Poor), LinkLoad::all_clear());
    assert_eq!(s.server.enviro.aqi, 20);

    let out = run_cycle(&mut s, Ok(sample()), Err(SensorFault), Ok(Band::Excellent), LinkLoad::all_clear());
    assert_eq!(s.server.enviro.aqi, 20);
    match out {
        CycleOutcome::Delivered(rep) => assert_eq!(rep.aqi, None),
        CycleOutcome::Faulted => panic!("cycle must deliver"),
    }

    let out = run_cycle(&mut s, Ok(sample()), Ok(true), Err(SensorFault), LinkLoad::all_clear());
    assert_eq!(s.server.enviro.aqi, 20);
    match out {
        CycleOutcome::Delivered(rep) => assert_eq!(rep.aqi, None),
        CycleOutcome::Faulted => panic!("cycle must deliver"),
    }
}

#[test]
fn primary_fault_aborts_cycle() {
    // A primary-sensor fault aborts the cycle with nothing written; the
    // caller retries after the fixed delay.
    let mut s = Session::new();
    run_cycle(&mut s, Ok(sample()), Ok(true), Ok(Band::Good), LinkLoad::all_clear());
    let before = s;
    let out = run_cycle(&mut s, Err(SensorFault), Ok(true), Ok(Band::Excellent), LinkLoad::all_clear());
    assert_eq!(out, CycleOutcome::Faulted);
    assert_eq!(s, before);
}

#[test]
fn link_busy_per_channel() {
    // Saturation is per push: a busy humidity push fails while the
    // others go through, and every value is cached regardless.
    let mut s = Session::new();
    s.connect();
    subscribe_all(&mut s);
    let load = LinkLoad { temperature: false, humidity: true, pressure: false, aqi: false };
    let out = run_cycle(&mut s, Ok(sample()), Ok(true), Ok(Band::Good), load);
    match out {
        CycleOutcome::Delivered(rep) => {
            assert_eq!(rep.temperature, Ok(()));
            assert_eq!(rep.humidity, Err(NotifyError::LinkBusy));
            assert_eq!(rep.pressure, Ok(()));
            assert_eq!(rep.aqi, Some(Ok(())));
        },
        CycleOutcome::Faulted => panic!("cycle must deliver"),
    }
    assert_eq!(s.server.enviro.humidity, 5012);
}
