//! Channel registry: the static description of the data channels.
//!
//! Channels are fixed at startup and never added or removed at runtime.
//! Each carries a stable protocol identity (a 16-bit assigned number, or a
//! full 128-bit identifier for the vendor-specific channel), a value-type
//! tag, and its access rights. The advertising payload broadcast while no
//! peer is connected is equally fixed.

use vstd::prelude::*;

verus! {

/// The 16-bit identity of the battery service.
pub const BATTERY_SERVICE_ID: u16 = 0x180f;

/// The 16-bit identity of the environmental sensing service.
pub const ENVIRO_SERVICE_ID: u16 = 0x181a;

/// The five data channels the device exposes.
#[derive(Clone, Copy, PartialEq, Eq, Structural, Debug)]
pub enum Channel {
    Temperature,
    Humidity,
    Pressure,
    AirQuality,
    BatteryLevel,
}

/// A channel's stable wire identity: a 16-bit assigned number, or a
/// 128-bit vendor identifier given as its high and low halves in textual
/// byte order.
#[derive(Clone, Copy, PartialEq, Eq, Structural, Debug)]
pub enum Identity {
    Uuid16(u16),
    Uuid128(u64, u64),
}

/// The fixed-width value encoding of a channel.
#[derive(Clone, Copy, PartialEq, Eq, Structural, Debug)]
pub enum ValueKind {
    Signed16,
    Unsigned16,
    Unsigned32,
    Unsigned8,
}

/// One channel's static description: the service it sits under, its own
/// identity, value type and access rights (readable, and independently
/// subscribable for live push).
#[derive(Clone, Copy, PartialEq, Eq, Structural, Debug)]
pub struct ChannelDescriptor {
    pub channel: Channel,
    pub service: u16,
    pub identity: Identity,
    pub kind: ValueKind,
    pub readable: bool,
    pub subscribable: bool,
}

/// The wire identity of a channel.
pub open spec fn identity_of(c: Channel) -> Identity {
    match c {
        Channel::Temperature => Identity::Uuid16(0x2a6e),
        Channel::Humidity => Identity::Uuid16(0x2a6f),
        Channel::Pressure => Identity::Uuid16(0x2a6d),
        Channel::AirQuality => Identity::Uuid128(0xefd658aec402ef33, 0x76e791b00019103b),
        Channel::BatteryLevel => Identity::Uuid16(0x2a19),
    }
}

/// The value encoding of a channel.
pub open spec fn kind_of(c: Channel) -> ValueKind {
    match c {
        Channel::Temperature => ValueKind::Signed16,
        Channel::Humidity => ValueKind::Unsigned16,
        Channel::Pressure => ValueKind::Unsigned32,
        Channel::AirQuality => ValueKind::Unsigned8,
        Channel::BatteryLevel => ValueKind::Unsigned8,
    }
}

/// The service a channel sits under: the battery-level channel under the
/// battery service, the telemetry channels under environmental sensing.
pub open spec fn service_of(c: Channel) -> u16 {
    match c {
        Channel::BatteryLevel => BATTERY_SERVICE_ID,
        _ => ENVIRO_SERVICE_ID,
    }
}

/// The full static description of a channel. Every channel is readable
/// and subscribable.
pub open spec fn descriptor_of(c: Channel) -> ChannelDescriptor {
    ChannelDescriptor {
        channel: c,
        service: service_of(c),
        identity: identity_of(c),
        kind: kind_of(c),
        readable: true,
        subscribable: true,
    }
}

/// The registry's fixed order: the four telemetry channels, then the
/// battery-level channel.
pub open spec fn spec_registry() -> Seq<ChannelDescriptor> {
    seq![
        descriptor_of(Channel::Temperature),
        descriptor_of(Channel::Humidity),
        descriptor_of(Channel::Pressure),
        descriptor_of(Channel::AirQuality),
        descriptor_of(Channel::BatteryLevel),
    ]
}

/// Returns the ordered sequence of channel descriptors. Computed the same
/// way on every call; configuration data, not protocol.
pub fn describe() -> (r: Vec<ChannelDescriptor>)
    ensures
        r@ == spec_registry(),
{
    let mut r: Vec<ChannelDescriptor> = Vec::new();
    r.push(ChannelDescriptor {
        channel: Channel::Temperature,
        service: ENVIRO_SERVICE_ID,
        identity: Identity::Uuid16(0x2a6e),
        kind: ValueKind::Signed16,
        readable: true,
        subscribable: true,
    });
    r.push(ChannelDescriptor {
        channel: Channel::Humidity,
        service: ENVIRO_SERVICE_ID,
        identity: Identity::Uuid16(0x2a6f),
        kind: ValueKind::Unsigned16,
        readable: true,
        subscribable: true,
    });
    r.push(ChannelDescriptor {
        channel: Channel::Pressure,
        service: ENVIRO_SERVICE_ID,
        identity: Identity::Uuid16(0x2a6d),
        kind: ValueKind::Unsigned32,
        readable: true,
        subscribable: true,
    });
    r.push(ChannelDescriptor {
        channel: Channel::AirQuality,
        service: ENVIRO_SERVICE_ID,
        identity: Identity::Uuid128(0xefd658aec402ef33, 0x76e791b00019103b),
        kind: ValueKind::Unsigned8,
        readable: true,
        subscribable: true,
    });
    r.push(ChannelDescriptor {
        channel: Channel::BatteryLevel,
        service: BATTERY_SERVICE_ID,
        identity: Identity::Uuid16(0x2a19),
        kind: ValueKind::Unsigned8,
        readable: true,
        subscribable: true,
    });
    proof {
        assert(r@ =~= spec_registry());
    }
    r
}

/// The fixed advertising payload broadcast while unconnected: discovery
/// flags, the complete list of advertised 16-bit service identities, and
/// whether the short device name is carried.
#[derive(PartialEq, Eq, Debug)]
pub struct AdvertisingPayload {
    pub general_discovery: bool,
    pub le_only: bool,
    pub complete_service_list: bool,
    pub services: Vec<u16>,
}

/// Builds the fixed advertising payload: general discovery, LE only, and
/// the two declared services — telemetry and power — as the complete
/// service list. Not negotiable at runtime.
pub fn advertising_payload() -> (r: AdvertisingPayload)
    ensures
        r.general_discovery,
        r.le_only,
        r.complete_service_list,
        r.services@ == seq![ENVIRO_SERVICE_ID, BATTERY_SERVICE_ID],
{
    let mut services: Vec<u16> = Vec::new();
    services.push(ENVIRO_SERVICE_ID);
    services.push(BATTERY_SERVICE_ID);
    proof {
        assert(services@ =~= seq![ENVIRO_SERVICE_ID, BATTERY_SERVICE_ID]);
    }
    AdvertisingPayload { general_discovery: true, le_only: true, complete_service_list: true, services }
}

/// The short device name carried in the advertising payload.
pub fn short_device_name() -> (r: &'static str)
    ensures
        r@ == "Hello"@,
{
    "Hello"
}

/// The full device name carried in the scan-response payload.
pub fn full_device_name() -> (r: &'static str)
    ensures
        r@ == "XenonRust"@,
{
    "XenonRust"
}

} // verus!
