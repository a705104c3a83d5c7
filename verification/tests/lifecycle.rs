use ble_weather_tx::channel::advertising_payload;
use ble_weather_tx::channel::describe;
use ble_weather_tx::channel::full_device_name;
use ble_weather_tx::channel::short_device_name;
use ble_weather_tx::channel::Channel;
use ble_weather_tx::channel::Identity;
use ble_weather_tx::channel::ValueKind;
use ble_weather_tx::channel::BATTERY_SERVICE_ID;
use ble_weather_tx::channel::ENVIRO_SERVICE_ID;
use ble_weather_tx::server_loop::Action;
use ble_weather_tx::server_loop::PeerEvent;
use ble_weather_tx::server_loop::Phase;
use ble_weather_tx::server_loop::SessionServer;

#[test]
fn registry_described() {
    let regs = describe();
    assert_eq!(regs.len(), 5);

    assert_eq!(regs[0].channel, Channel::Temperature);
    assert_eq!(regs[0].service, ENVIRO_SERVICE_ID);
    assert_eq!(regs[0].identity, Identity::Uuid16(0x2a6e));
    assert_eq!(regs[0].kind, ValueKind::Signed16);

    assert_eq!(regs[1].channel, Channel::Humidity);
    assert_eq!(regs[1].identity, Identity::Uuid16(0x2a6f));
    assert_eq!(regs[1].kind, ValueKind::Unsigned16);

    assert_eq!(regs[2].channel, Channel::Pressure);
    assert_eq!(regs[2].identity, Identity::Uuid16(0x2a6d));
    assert_eq!(regs[2].kind, ValueKind::Unsigned32);

    assert_eq!(regs[3].channel, Channel::AirQuality);
    assert_eq!(regs[3].identity, Identity::Uuid128(0xefd658aec402ef33, 0x76e791b00019103b));
    assert_eq!(regs[3].kind, ValueKind::Unsigned8);

    assert_eq!(regs[4].channel, Channel::BatteryLevel);
    assert_eq!(regs[4].service, BATTERY_SERVICE_ID);
    assert_eq!(regs[4].identity, Identity::Uuid16(0x2a19));
    assert_eq!(regs[4].kind, ValueKind::Unsigned8);

    for d in &regs {
        assert!(d.readable);
        assert!(d.subscribable);
    }
}

#[test]
fn advertising_payload_fixed() {
    let p = advertising_payload();
    assert!(p.general_discovery);
    assert!(p.le_only);
    assert!(p.complete_service_list);
    assert_eq!(p.services, vec![ENVIRO_SERVICE_ID, BATTERY_SERVICE_ID]);
    assert_eq!(short_device_name(), "Hello");
    assert_eq!(full_device_name(), "XenonRust");
}

#[test]
fn lifecycle_connect_serve_disconnect() {
    let mut srv = SessionServer::new();
    assert_eq!(srv.phase, Phase::Idle);

    srv.start_advertising();
    assert_eq!(srv.phase, Phase::Advertising);

    srv.on_peer_connected();
    assert_eq!(srv.phase, Phase::Connected);
    assert!(srv.session.conn.is_some());

    let a = srv.on_peer_event(PeerEvent::SubscriptionWrite {
        channel: Channel::Temperature,
        enabled: true,
    });
    assert_eq!(a, Action::Continue);
    assert_eq!(srv.phase, Phase::Connected);
    assert!(srv.session.conn.expect("connected").subs.temperature);

    let a = srv.on_peer_event(PeerEvent::Disconnected);
    assert_eq!(a, Action::EndEpoch);
    assert_eq!(srv.phase, Phase::Advertising);
    assert!(srv.session.conn.is_none());
}

#[test]
fn transport_error_ends_epoch() {
    let mut srv = SessionServer::new();
    srv.start_advertising();
    srv.on_peer_connected();
    let a = srv.on_peer_event(PeerEvent::TransportError);
    assert_eq!(a, Action::EndEpoch);
    assert_eq!(srv.phase, Phase::Advertising);
    assert!(srv.session.conn.is_none());
}

#[test]
fn sampler_stop_tears_down() {
    let mut srv = SessionServer::new();
    srv.start_advertising();
    srv.on_peer_connected();
    srv.on_sampler_stopped();
    assert_eq!(srv.phase, Phase::Advertising);
    assert!(srv.session.conn.is_none());
}

#[test]
fn caches_survive_epochs() {
    let mut srv = SessionServer::new();
    srv.start_advertising();
    srv.on_peer_connected();
    srv.session.cache(ble_weather_tx::session::ChannelValue::Temperature(1999));
    srv.on_peer_event(PeerEvent::Disconnected);
    srv.on_peer_connected();
    assert_eq!(srv.session.server.enviro.temperature, 1999);
}
