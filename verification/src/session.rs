//! Peer session: one logical connection and the push/cache semantics.
//!
//! The session owns the server's cached values and, while a peer is
//! present, one `Connection` carrying the peer's per-channel subscription
//! flags and the session epoch. `notify` attempts a live push; `cache`
//! updates the stored value unconditionally; `publish` combines the two so
//! that the cached value always ends up at the value just measured, with
//! the live push attempted opportunistically.
//!
//! Whether the transport's outgoing buffer has room is the radio stack's
//! knowledge, not this engine's; callers pass it in as `link_busy`, and the
//! contracts state the outcome for either value.

use vstd::prelude::*;

use crate::ble::BatteryService;
use crate::ble::EnviroSensingService;
use crate::ble::Server;
use crate::channel::Channel;

verus! {

/// Why a live push did not happen. All three are expected, non-fatal
/// outcomes; the universal recovery is to fall back to the cache.
#[derive(Clone, Copy, PartialEq, Eq, Structural, Debug)]
pub enum NotifyError {
    /// No connection is active.
    NoConnection,
    /// The peer has not subscribed to this channel.
    NotSubscribed,
    /// The transport's outgoing buffer is saturated; retry next cycle.
    LinkBusy,
}

/// Per-channel subscription flags of one connection.
#[derive(Clone, Copy, PartialEq, Eq, Structural, Debug)]
pub struct Subscriptions {
    pub temperature: bool,
    pub humidity: bool,
    pub pressure: bool,
    pub aqi: bool,
    pub battery_level: bool,
}

impl Subscriptions {
    /// The flag for one channel.
    pub open spec fn get(self, c: Channel) -> bool {
        match c {
            Channel::Temperature => self.temperature,
            Channel::Humidity => self.humidity,
            Channel::Pressure => self.pressure,
            Channel::AirQuality => self.aqi,
            Channel::BatteryLevel => self.battery_level,
        }
    }

    /// No channel subscribed: the state of every fresh connection.
    pub open spec fn none() -> Subscriptions {
        Subscriptions { temperature: false, humidity: false, pressure: false, aqi: false, battery_level: false }
    }

    /// The same flags with one channel's flag replaced.
    pub open spec fn with(self, c: Channel, enabled: bool) -> Subscriptions {
        match c {
            Channel::Temperature => Subscriptions { temperature: enabled, ..self },
            Channel::Humidity => Subscriptions { humidity: enabled, ..self },
            Channel::Pressure => Subscriptions { pressure: enabled, ..self },
            Channel::AirQuality => Subscriptions { aqi: enabled, ..self },
            Channel::BatteryLevel => Subscriptions { battery_level: enabled, ..self },
        }
    }
}

/// One logical peer session: the epoch it was created in and the peer's
/// subscription flags. At most one connection is active device-wide.
#[derive(Clone, Copy, PartialEq, Eq, Structural, Debug)]
pub struct Connection {
    pub epoch: u64,
    pub subs: Subscriptions,
}

/// A value addressed to the channel it belongs to.
#[derive(Clone, Copy, PartialEq, Eq, Structural, Debug)]
pub enum ChannelValue {
    Temperature(i16),
    Humidity(u16),
    Pressure(u32),
    AirQuality(u8),
    BatteryLevel(u8),
}

/// The channel a value is addressed to.
pub open spec fn channel_of(v: ChannelValue) -> Channel {
    match v {
        ChannelValue::Temperature(_) => Channel::Temperature,
        ChannelValue::Humidity(_) => Channel::Humidity,
        ChannelValue::Pressure(_) => Channel::Pressure,
        ChannelValue::AirQuality(_) => Channel::AirQuality,
        ChannelValue::BatteryLevel(_) => Channel::BatteryLevel,
    }
}

/// The server with one channel's cached value replaced by `v`.
pub open spec fn spec_cache(s: Server, v: ChannelValue) -> Server {
    match v {
        ChannelValue::Temperature(x) => Server {
            enviro: EnviroSensingService { temperature: x, ..s.enviro },
            ..s
        },
        ChannelValue::Humidity(x) => Server {
            enviro: EnviroSensingService { humidity: x, ..s.enviro },
            ..s
        },
        ChannelValue::Pressure(x) => Server {
            enviro: EnviroSensingService { pressure: x, ..s.enviro },
            ..s
        },
        ChannelValue::AirQuality(x) => Server {
            enviro: EnviroSensingService { aqi: x, ..s.enviro },
            ..s
        },
        ChannelValue::BatteryLevel(x) => Server { bat: BatteryService { battery_level: x }, ..s },
    }
}

/// The session: the server's cached values, the active connection if any,
/// and the epoch the next connection will be created in.
#[derive(Clone, Copy, PartialEq, Eq, Structural, Debug)]
pub struct Session {
    pub server: Server,
    pub conn: Option<Connection>,
    pub next_epoch: u64,
}

/// The session after a peer completes the connection handshake: a fresh
/// connection in the next epoch, every subscription off, caches untouched.
pub open spec fn spec_connect(s: Session) -> Session {
    Session {
        conn: Some(Connection { epoch: s.next_epoch, subs: Subscriptions::none() }),
        next_epoch: (s.next_epoch + 1) as u64,
        ..s
    }
}

/// The session after the connection ends: no connection, caches untouched.
pub open spec fn spec_disconnect(s: Session) -> Session {
    Session { conn: None::<Connection>, ..s }
}

/// The session after the peer toggles one channel's subscription. Without
/// an active connection there is nothing to toggle.
pub open spec fn spec_set_subscription(s: Session, c: Channel, enabled: bool) -> Session {
    match s.conn {
        Some(k) => Session {
            conn: Some(Connection { subs: k.subs.with(c, enabled), ..k }),
            ..s
        },
        None => s,
    }
}

impl Session {
    /// The state at boot: default caches, no peer, first epoch zero.
    pub open spec fn initial() -> Session {
        Session { server: Server::initial(), conn: None::<Connection>, next_epoch: 0 }
    }

    /// Whether the active connection, if any, is subscribed to `c`.
    pub open spec fn subscribed(self, c: Channel) -> bool {
        match self.conn {
            Some(k) => k.subs.get(c),
            None => false,
        }
    }

    /// What a live push of a value for channel `c` returns, given whether
    /// the transport buffer is saturated: success exactly when a peer is
    /// connected, subscribed to `c`, and the link has room.
    pub open spec fn notify_decision(self, c: Channel, link_busy: bool) -> Result<(), NotifyError> {
        match self.conn {
            None => Err(NotifyError::NoConnection),
            Some(k) => if !k.subs.get(c) {
                Err(NotifyError::NotSubscribed)
            } else if link_busy {
                Err(NotifyError::LinkBusy)
            } else {
                Ok(())
            },
        }
    }

    /// Builds the boot-time session.
    pub fn new() -> (r: Session)
        ensures
            r == Session::initial(),
    {
        Session { server: Server::new(), conn: None, next_epoch: 0 }
    }

    /// A peer completed the handshake: create the connection for the next
    /// epoch. Every subscription starts off, whatever the previous epoch
    /// had; cached values persist unchanged.
    pub fn connect(&mut self)
        requires
            old(self).next_epoch < u64::MAX,
        ensures
            *final(self) == spec_connect(*old(self)),
            final(self).conn matches Some(k) && k.epoch == old(self).next_epoch,
            forall|c: Channel| !final(self).subscribed(c),
            final(self).server == old(self).server,
    {
        let epoch = self.next_epoch;
        self.conn = Some(
            Connection {
                epoch,
                subs: Subscriptions {
                    temperature: false,
                    humidity: false,
                    pressure: false,
                    aqi: false,
                    battery_level: false,
                },
            },
        );
        self.next_epoch = epoch + 1;
    }

    /// The connection ended: drop it. Cached values are not
    /// connection-scoped and persist unchanged.
    pub fn disconnect(&mut self)
        ensures
            *final(self) == spec_disconnect(*old(self)),
            final(self).conn is None,
            final(self).server == old(self).server,
            final(self).next_epoch == old(self).next_epoch,
    {
        self.conn = None;
    }

    /// The peer wrote a channel's subscription control descriptor. A
    /// no-op when no connection is active.
    pub fn set_subscription(&mut self, c: Channel, enabled: bool)
        ensures
            *final(self) == spec_set_subscription(*old(self), c, enabled),
            final(self).server == old(self).server,
            final(self).next_epoch == old(self).next_epoch,
            final(self).subscribed(c) == (old(self).conn is Some && enabled),
            forall|o: Channel| o != c ==> final(self).subscribed(o) == old(self).subscribed(o),
    {
        match &mut self.conn {
            Some(k) => {
                match c {
                    Channel::Temperature => k.subs.temperature = enabled,
                    Channel::Humidity => k.subs.humidity = enabled,
                    Channel::Pressure => k.subs.pressure = enabled,
                    Channel::AirQuality => k.subs.aqi = enabled,
                    Channel::BatteryLevel => k.subs.battery_level = enabled,
                }
            },
            None => {},
        }
    }

    /// Updates one channel's cached value unconditionally, connection or
    /// not: the fallback that keeps the last measured value retrievable
    /// by an explicit read whenever the peer next connects or polls.
    pub fn cache(&mut self, v: ChannelValue)
        ensures
            final(self).server == spec_cache(old(self).server, v),
            final(self).conn == old(self).conn,
            final(self).next_epoch == old(self).next_epoch,
    {
        match v {
            ChannelValue::Temperature(x) => self.server.enviro.temperature = x,
            ChannelValue::Humidity(x) => self.server.enviro.humidity = x,
            ChannelValue::Pressure(x) => self.server.enviro.pressure = x,
            ChannelValue::AirQuality(x) => self.server.enviro.aqi = x,
            ChannelValue::BatteryLevel(x) => self.server.bat.battery_level = x,
        }
    }

    /// Attempts a live push of `v` to the connected, subscribed peer.
    /// On success the pushed value also becomes the cached value — the
    /// transport sends the stored value, so the two never disagree. On any
    /// failure nothing changes; the caller falls back to `cache`.
    pub fn notify(&mut self, v: ChannelValue, link_busy: bool) -> (r: Result<(), NotifyError>)
        ensures
            r == old(self).notify_decision(channel_of(v), link_busy),
            r is Ok ==> final(self).server == spec_cache(old(self).server, v),
            r is Err ==> final(self).server == old(self).server,
            final(self).conn == old(self).conn,
            final(self).next_epoch == old(self).next_epoch,
    {
        let subscribed = match &self.conn {
            None => {
                return Err(NotifyError::NoConnection);
            },
            Some(k) => match channel_of_value(&v) {
                Channel::Temperature => k.subs.temperature,
                Channel::Humidity => k.subs.humidity,
                Channel::Pressure => k.subs.pressure,
                Channel::AirQuality => k.subs.aqi,
                Channel::BatteryLevel => k.subs.battery_level,
            },
        };
        if !subscribed {
            return Err(NotifyError::NotSubscribed);
        }
        if link_busy {
            return Err(NotifyError::LinkBusy);
        }
        self.cache(v);
        Ok(())
    }

    /// One channel update, as the sampler performs it: attempt the live
    /// push, and on any failure fall back to the cache. Whatever the push
    /// outcome, the channel's cached value afterwards is exactly `v`.
    pub fn publish(&mut self, v: ChannelValue, link_busy: bool) -> (r: Result<(), NotifyError>)
        ensures
            r == old(self).notify_decision(channel_of(v), link_busy),
            final(self).server == spec_cache(old(self).server, v),
            final(self).conn == old(self).conn,
            final(self).next_epoch == old(self).next_epoch,
    {
        let r = self.notify(v, link_busy);
        match r {
            Ok(()) => Ok(()),
            Err(e) => {
                self.cache(v);
                Err(e)
            },
        }
    }
}

/// The channel a value is addressed to, as executable code.
pub fn channel_of_value(v: &ChannelValue) -> (c: Channel)
    ensures
        c == channel_of(*v),
{
    match v {
        ChannelValue::Temperature(_) => Channel::Temperature,
        ChannelValue::Humidity(_) => Channel::Humidity,
        ChannelValue::Pressure(_) => Channel::Pressure,
        ChannelValue::AirQuality(_) => Channel::AirQuality,
        ChannelValue::BatteryLevel(_) => Channel::BatteryLevel,
    }
}

} // verus!
