//! Session server loop: the advertise→connect→serve→disconnect machine.
//!
//! The server moves from `Idle` through `Advertising` to `Connected` and
//! back to `Advertising` on disconnect, indefinitely. While connected,
//! the surrounding runtime races two activities: the sampler's cycle and
//! the peer's protocol event stream. The engine here is the decision side
//! of that race: each event maps the current state to the next state and
//! to the action the runtime must take — keep serving, or cancel the
//! sampler and tear the epoch down. Whichever activity finishes first
//! ends the epoch; sensors are read only while a peer is present.
//!
//! A trace interpreter over the same transitions states the engine's
//! global laws: a fresh connection starts unsubscribed, and the three
//! primary caches always form one cycle's complete batch, never a mix of
//! two cycles.

use vstd::prelude::*;

use crate::channel::Channel;
use crate::sampler::Band;
use crate::sampler::RawSample;
use crate::sampler::SensorFault;
use crate::sampler::spec_cycle;
use crate::session::Session;
use crate::session::Subscriptions;
use crate::session::spec_connect;
use crate::session::spec_disconnect;
use crate::session::spec_set_subscription;

verus! {

/// Where the server stands in the connection lifecycle.
#[derive(Clone, Copy, PartialEq, Eq, Structural, Debug)]
pub enum Phase {
    /// Not yet broadcasting; the state before the first advertisement.
    Idle,
    /// Broadcasting the fixed payload until a peer connects; no timeout.
    Advertising,
    /// Serving one peer: sampler and event stream race.
    Connected,
}

/// One event from the peer's protocol stream: a closed set, exhaustively
/// matched.
#[derive(Clone, Copy, PartialEq, Eq, Structural, Debug)]
pub enum PeerEvent {
    /// The peer wrote a channel's subscription control descriptor.
    SubscriptionWrite { channel: Channel, enabled: bool },
    /// The peer disconnected.
    Disconnected,
    /// The stack reported a terminal transport error.
    TransportError,
}

/// What the runtime must do after an event is applied.
#[derive(Clone, Copy, PartialEq, Eq, Structural, Debug)]
pub enum Action {
    /// The epoch goes on: keep both racing activities running.
    Continue,
    /// The epoch ended: cancel the sampler outright — in-flight sampling
    /// is abandoned, no partial reading is pushed — then re-advertise.
    EndEpoch,
}

/// The session server: the peer session and the lifecycle phase.
#[derive(Clone, Copy, PartialEq, Eq, Structural, Debug)]
pub struct SessionServer {
    pub session: Session,
    pub phase: Phase,
}

/// Whether an event ends the epoch: exactly the link-is-gone signals.
pub open spec fn event_ends_epoch(e: PeerEvent) -> bool {
    e is Disconnected || e is TransportError
}

/// The server after one peer event: a subscription write toggles the
/// flag and the epoch goes on; a disconnect or transport error drops the
/// connection and returns to advertising.
pub open spec fn spec_on_event(s: SessionServer, e: PeerEvent) -> SessionServer {
    match e {
        PeerEvent::SubscriptionWrite { channel, enabled } => SessionServer {
            session: spec_set_subscription(s.session, channel, enabled),
            phase: s.phase,
        },
        PeerEvent::Disconnected => SessionServer {
            session: spec_disconnect(s.session),
            phase: Phase::Advertising,
        },
        PeerEvent::TransportError => SessionServer {
            session: spec_disconnect(s.session),
            phase: Phase::Advertising,
        },
    }
}

impl SessionServer {
    /// The state at boot: default session, not yet advertising.
    pub open spec fn initial() -> SessionServer {
        SessionServer { session: Session::initial(), phase: Phase::Idle }
    }

    /// Builds the boot-time server.
    pub fn new() -> (r: SessionServer)
        ensures
            r == SessionServer::initial(),
    {
        SessionServer { session: Session::new(), phase: Phase::Idle }
    }

    /// Begins broadcasting the fixed advertising payload. Runs until a
    /// peer connects; the session is untouched.
    pub fn start_advertising(&mut self)
        requires
            old(self).phase is Idle,
        ensures
            final(self).phase is Advertising,
            final(self).session == old(self).session,
    {
        self.phase = Phase::Advertising;
    }

    /// A peer completed the connection handshake: a new connection is
    /// created — epoch incremented, every subscription reset to
    /// unsubscribed — and the server starts serving. Cached values
    /// persist unchanged.
    pub fn on_peer_connected(&mut self)
        requires
            old(self).phase is Advertising,
            old(self).session.next_epoch < u64::MAX,
        ensures
            final(self).phase is Connected,
            final(self).session == spec_connect(old(self).session),
            final(self).session.conn matches Some(k) && k.epoch == old(self).session.next_epoch,
            forall|c: Channel| !final(self).session.subscribed(c),
            final(self).session.server == old(self).session.server,
    {
        self.session.connect();
        self.phase = Phase::Connected;
    }

    /// Applies one event from the peer's protocol stream and says what
    /// the runtime must do: on a subscription write, toggle the flag and
    /// keep serving; on a disconnect or terminal transport error, drop
    /// the connection, return to advertising, and have the runtime cancel
    /// the sampler. Every event is also reported to the operator log by
    /// the runtime; none is a fault.
    pub fn on_peer_event(&mut self, e: PeerEvent) -> (a: Action)
        requires
            old(self).phase is Connected,
        ensures
            *final(self) == spec_on_event(*old(self), e),
            a is EndEpoch <==> event_ends_epoch(e),
            final(self).session.server == old(self).session.server,
            event_ends_epoch(e) ==> final(self).phase is Advertising && final(self).session.conn is None,
            !event_ends_epoch(e) ==> final(self).phase is Connected,
    {
        match e {
            PeerEvent::SubscriptionWrite { channel, enabled } => {
                self.session.set_subscription(channel, enabled);
                Action::Continue
            },
            PeerEvent::Disconnected => {
                self.session.disconnect();
                self.phase = Phase::Advertising;
                Action::EndEpoch
            },
            PeerEvent::TransportError => {
                self.session.disconnect();
                self.phase = Phase::Advertising;
                Action::EndEpoch
            },
        }
    }

    /// The sampler's side of the race terminated first (only possible on
    /// an unrecoverable internal fault): the event stream is cancelled
    /// and the connection torn down; the server returns to advertising.
    pub fn on_sampler_stopped(&mut self)
        requires
            old(self).phase is Connected,
        ensures
            final(self).phase is Advertising,
            final(self).session == spec_disconnect(old(self).session),
            final(self).session.server == old(self).session.server,
    {
        self.session.disconnect();
        self.phase = Phase::Advertising;
    }
}

/// One step of the server's observable history, for stating laws over
/// whole executions.
pub enum Step {
    /// A sampler cycle ran with these sensor results.
    Sample {
        primary: Result<RawSample, SensorFault>,
        readiness: Result<bool, SensorFault>,
        band: Result<Band, SensorFault>,
    },
    /// An event arrived on the peer's protocol stream.
    Peer(PeerEvent),
    /// A peer completed the connection handshake.
    Accept,
    /// The server began advertising.
    Advertise,
    /// The sampler's side of the race terminated.
    SamplerStopped,
}

/// The server after one step. Steps whose transition is not enabled in
/// the current phase leave the server unchanged, so every sequence of
/// steps denotes a run.
pub open spec fn step_spec(s: SessionServer, st: Step) -> SessionServer {
    match st {
        Step::Sample { primary, readiness, band } => SessionServer {
            session: spec_cycle(s.session, primary, readiness, band),
            phase: s.phase,
        },
        Step::Peer(e) => if s.phase is Connected {
            spec_on_event(s, e)
        } else {
            s
        },
        Step::Accept => if s.phase is Advertising && s.session.next_epoch < u64::MAX {
            SessionServer { session: spec_connect(s.session), phase: Phase::Connected }
        } else {
            s
        },
        Step::Advertise => if s.phase is Idle {
            SessionServer { session: s.session, phase: Phase::Advertising }
        } else {
            s
        },
        Step::SamplerStopped => if s.phase is Connected {
            SessionServer { session: spec_disconnect(s.session), phase: Phase::Advertising }
        } else {
            s
        },
    }
}

/// The server after a whole trace of steps.
pub open spec fn run_trace(s: SessionServer, tr: Seq<Step>) -> SessionServer
    decreases tr.len(),
{
    if tr.len() == 0 {
        s
    } else {
        step_spec(run_trace(s, tr.drop_last()), tr.last())
    }
}

/// Whether the three primary caches hold exactly one measurement's batch.
pub open spec fn trio_is(s: SessionServer, m: RawSample) -> bool {
    &&& s.session.server.enviro.temperature == m.temperature
    &&& s.session.server.enviro.humidity == m.humidity
    &&& s.session.server.enviro.pressure == m.pressure
}

/// Whether a step is a delivered cycle whose measurement the server's
/// primary caches now hold in full.
pub open spec fn step_supplies_trio(st: Step, s: SessionServer) -> bool {
    st matches Step::Sample { primary, .. } && primary matches Ok(m) && trio_is(s, m)
}

/// Sample batches are atomic: after any trace, the temperature, humidity
/// and pressure caches either all still hold their starting values or all
/// come from one delivered cycle of the trace — no channel is ever
/// updated for a cycle that the other two did not also complete.
/// Connection events never write caches, and a cancelled (faulted) cycle
/// writes nothing, so a later epoch can never observe a partial batch.
pub proof fn lemma_sample_batches_atomic(s0: SessionServer, tr: Seq<Step>)
    ensures
        trio_is(run_trace(s0, tr), RawSample {
            temperature: s0.session.server.enviro.temperature,
            humidity: s0.session.server.enviro.humidity,
            pressure: s0.session.server.enviro.pressure,
        }) || exists|i: int|
            0 <= i < tr.len() && step_supplies_trio(tr[i], run_trace(s0, tr)),
    decreases tr.len(),
{
    if tr.len() > 0 {
        let prefix = tr.drop_last();
        let st = tr.last();
        let s1 = run_trace(s0, prefix);
        let s = run_trace(s0, tr);
        lemma_sample_batches_atomic(s0, prefix);
        if st is Sample && st->primary is Ok {
            let m = st->primary->Ok_0;
            assert(trio_is(s, m));
            assert(step_supplies_trio(tr[tr.len() - 1], s));
        } else {
            assert(s.session.server.enviro.temperature == s1.session.server.enviro.temperature);
            assert(s.session.server.enviro.humidity == s1.session.server.enviro.humidity);
            assert(s.session.server.enviro.pressure == s1.session.server.enviro.pressure);
            if exists|i: int| 0 <= i < prefix.len() && step_supplies_trio(prefix[i], s1) {
                let i = choose|i: int| 0 <= i < prefix.len() && step_supplies_trio(prefix[i], s1);
                assert(prefix[i] == tr[i]);
                assert(step_supplies_trio(tr[i], s));
            }
        }
    }
}

/// A fresh connection starts unsubscribed: whenever a trace's last step
/// accepts a peer from the advertising state, every channel's
/// subscription is off afterwards, whatever any earlier epoch had set.
pub proof fn lemma_fresh_connection_unsubscribed(s0: SessionServer, tr: Seq<Step>)
    requires
        tr.len() > 0,
        tr.last() is Accept,
        run_trace(s0, tr.drop_last()).phase is Advertising,
        run_trace(s0, tr.drop_last()).session.next_epoch < u64::MAX,
    ensures
        forall|c: Channel| !run_trace(s0, tr).session.subscribed(c),
        run_trace(s0, tr).session.conn matches Some(k) && k.subs == Subscriptions::none(),
{
    let s1 = run_trace(s0, tr.drop_last());
    assert(run_trace(s0, tr) == step_spec(s1, tr.last()));
}

} // verus!
