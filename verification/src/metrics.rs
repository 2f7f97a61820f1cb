//! Connection-lifecycle and throughput metrics.
//!
//! The counters live in a [`Metrics`] registry that is built once at
//! startup and passed by handle into the adapters, so the accounting can
//! be stated and checked in isolation; rendering them for export is the
//! embedding application's job. Per channel and role there is an
//! active-connection gauge and connected/disconnected counters, with the
//! invariant that the gauge always equals connected minus disconnected —
//! so it can never go negative, and a guard released exactly once per
//! acquire keeps it equal to the number of open connections.

use vstd::prelude::*;

verus! {

/// Which side of a channel a connection serves.
#[derive(Copy, Clone, Debug, PartialEq, Eq, Structural)]
pub enum ConnectionActor {
    /// An ingress connection feeding messages into the bus.
    Publisher,
    /// An egress connection draining messages from the bus.
    Subscriber,
}

/// The lifecycle counters of one (channel, role) pair.
#[derive(Copy, Clone, Debug, PartialEq, Eq, Structural)]
pub struct RoleCounters {
    /// Currently open connections.
    pub active: u64,
    /// Connections ever opened.
    pub connected: u64,
    /// Connections ever closed.
    pub disconnected: u64,
}

/// All counters of one channel.
#[derive(Copy, Clone, Debug, PartialEq, Eq, Structural)]
pub struct ChannelMetrics {
    /// Lifecycle counters of the publisher side.
    pub publishers: RoleCounters,
    /// Lifecycle counters of the subscriber side.
    pub subscribers: RoleCounters,
    /// Messages received from publishers.
    pub received: u64,
    /// Messages sent to subscribers.
    pub sent: u64,
    /// Times a subscriber reported lag.
    pub lag_events: u64,
    /// Messages lost to lag, summed over all subscribers.
    pub lag_messages: u64,
}

/// The process-wide metrics registry: one entry per channel, indexed as
/// the channel registry indexes its channels.
pub struct Metrics {
    /// Per-channel counters.
    pub channels: Vec<ChannelMetrics>,
    /// Seconds since the process started, as last reported.
    pub uptime_seconds: u64,
}

impl RoleCounters {
    /// The lifecycle invariant: the gauge is exactly the connections
    /// opened and not yet closed, so it never goes negative.
    pub open spec fn wf(self) -> bool {
        self.connected == self.disconnected + self.active
    }

    /// All-zero counters.
    pub open spec fn zero() -> RoleCounters {
        RoleCounters { active: 0, connected: 0, disconnected: 0 }
    }
}

impl ChannelMetrics {
    /// Both roles satisfy the lifecycle invariant.
    pub open spec fn wf(self) -> bool {
        self.publishers.wf() && self.subscribers.wf()
    }

    /// All-zero counters.
    pub open spec fn zero() -> ChannelMetrics {
        ChannelMetrics {
            publishers: RoleCounters::zero(),
            subscribers: RoleCounters::zero(),
            received: 0,
            sent: 0,
            lag_events: 0,
            lag_messages: 0,
        }
    }

    /// The counters of one role.
    pub open spec fn role(self, actor: ConnectionActor) -> RoleCounters {
        match actor {
            ConnectionActor::Publisher => self.publishers,
            ConnectionActor::Subscriber => self.subscribers,
        }
    }

    /// These counters with one role's counters replaced.
    pub open spec fn with_role(self, actor: ConnectionActor, counters: RoleCounters) -> ChannelMetrics {
        match actor {
            ConnectionActor::Publisher => ChannelMetrics { publishers: counters, ..self },
            ConnectionActor::Subscriber => ChannelMetrics { subscribers: counters, ..self },
        }
    }
}

impl Metrics {
    /// Every channel's counters satisfy the lifecycle invariant.
    pub open spec fn wf(self) -> bool {
        forall|i: int| 0 <= i < self.channels@.len() ==> (#[trigger] self.channels@[i]).wf()
    }

    /// The lifecycle counters of one (channel, role) pair.
    pub open spec fn role(self, channel: int, actor: ConnectionActor) -> RoleCounters {
        self.channels@[channel].role(actor)
    }
}

/// A fresh registry for `channel_count` channels, all counters zero.
pub fn init_metrics(channel_count: usize) -> (metrics: Metrics)
    ensures
        metrics.wf(),
        metrics.channels@.len() == channel_count,
        forall|i: int|
            0 <= i < channel_count ==> #[trigger] metrics.channels@[i] == ChannelMetrics::zero(),
        metrics.uptime_seconds == 0,
{
    let mut channels: Vec<ChannelMetrics> = Vec::new();
    let mut i: usize = 0;
    while i < channel_count
        invariant
            i <= channel_count,
            channels@.len() == i,
            forall|j: int| 0 <= j < i ==> #[trigger] channels@[j] == ChannelMetrics::zero(),
        decreases channel_count - i,
    {
        channels.push(
            ChannelMetrics {
                publishers: RoleCounters { active: 0, connected: 0, disconnected: 0 },
                subscribers: RoleCounters { active: 0, connected: 0, disconnected: 0 },
                received: 0,
                sent: 0,
                lag_events: 0,
                lag_messages: 0,
            },
        );
        i = i + 1;
    }
    Metrics { channels, uptime_seconds: 0 }
}

/// Records how long the process has been up. Touches nothing else.
pub fn update_uptime(metrics: &mut Metrics, uptime_seconds: u64)
    ensures
        *final(metrics) == (Metrics { uptime_seconds, ..*old(metrics) }),
{
    metrics.uptime_seconds = uptime_seconds;
}

impl Metrics {
    /// Runtime check of the lifecycle invariant, for callers outside any
    /// proof: true exactly when `wf()` holds.
    pub fn is_wf(&self) -> (well_formed: bool)
        ensures
            well_formed == self.wf(),
    {
        let mut i: usize = 0;
        while i < self.channels.len()
            invariant
                i <= self.channels@.len(),
                forall|j: int| 0 <= j < i ==> (#[trigger] self.channels@[j]).wf(),
            decreases self.channels@.len() - i,
        {
            let entry = self.channels[i];
            let publishers_ok = entry.publishers.connected >= entry.publishers.disconnected
                && entry.publishers.connected - entry.publishers.disconnected
                == entry.publishers.active;
            let subscribers_ok = entry.subscribers.connected >= entry.subscribers.disconnected
                && entry.subscribers.connected - entry.subscribers.disconnected
                == entry.subscribers.active;
            if !publishers_ok || !subscribers_ok {
                return false;
            }
            i = i + 1;
        }
        true
    }

    /// Counts one message received from a publisher on `channel`.
    pub fn record_received(&mut self, channel: usize)
        requires
            channel < old(self).channels@.len(),
            old(self).channels@[channel as int].received < u64::MAX,
        ensures
            final(self).channels@ =~= old(self).channels@.update(
                channel as int,
                (ChannelMetrics {
                    received: (old(self).channels@[channel as int].received + 1) as u64,
                    ..old(self).channels@[channel as int]
                }),
            ),
            final(self).uptime_seconds == old(self).uptime_seconds,
    {
        let updated = ChannelMetrics {
            received: self.channels[channel].received + 1,
            ..self.channels[channel]
        };
        self.channels[channel] = updated;
    }

    /// Counts one message sent to a subscriber on `channel`.
    pub fn record_sent(&mut self, channel: usize)
        requires
            channel < old(self).channels@.len(),
            old(self).channels@[channel as int].sent < u64::MAX,
        ensures
            final(self).channels@ =~= old(self).channels@.update(
                channel as int,
                (ChannelMetrics {
                    sent: (old(self).channels@[channel as int].sent + 1) as u64,
                    ..old(self).channels@[channel as int]
                }),
            ),
            final(self).uptime_seconds == old(self).uptime_seconds,
    {
        let updated = ChannelMetrics {
            sent: self.channels[channel].sent + 1,
            ..self.channels[channel]
        };
        self.channels[channel] = updated;
    }

    /// Counts one lag report that skipped `skipped` messages on
    /// `channel`: one lag event, `skipped` lost messages.
    pub fn record_lag(&mut self, channel: usize, skipped: u64)
        requires
            channel < old(self).channels@.len(),
            old(self).channels@[channel as int].lag_events < u64::MAX,
            old(self).channels@[channel as int].lag_messages + skipped <= u64::MAX,
        ensures
            final(self).channels@ =~= old(self).channels@.update(
                channel as int,
                (ChannelMetrics {
                    lag_events: (old(self).channels@[channel as int].lag_events + 1) as u64,
                    lag_messages: (old(self).channels@[channel as int].lag_messages
                        + skipped) as u64,
                    ..old(self).channels@[channel as int]
                }),
            ),
            final(self).uptime_seconds == old(self).uptime_seconds,
    {
        let updated = ChannelMetrics {
            lag_events: self.channels[channel].lag_events + 1,
            lag_messages: self.channels[channel].lag_messages + skipped,
            ..self.channels[channel]
        };
        self.channels[channel] = updated;
    }
}

/// One active connection on one channel, as one role. Acquiring it
/// counts the connection as opened; releasing it — possible exactly once,
/// since release consumes the guard — counts it as closed.
#[derive(Debug)]
pub struct ConnectionGuard {
    /// Index of the channel the connection belongs to.
    pub channel: usize,
    /// Which side the connection serves.
    pub actor: ConnectionActor,
}

impl ConnectionGuard {
    /// Opens a connection: raises the active gauge and the connected
    /// counter of (`channel`, `actor`) by one and touches nothing else.
    pub fn new(metrics: &mut Metrics, channel: usize, actor: ConnectionActor) -> (guard:
        ConnectionGuard)
        requires
            old(metrics).wf(),
            channel < old(metrics).channels@.len(),
            old(metrics).role(channel as int, actor).connected < u64::MAX,
        ensures
            final(metrics).wf(),
            guard.channel == channel,
            guard.actor == actor,
            final(metrics).channels@ =~= old(metrics).channels@.update(
                channel as int,
                old(metrics).channels@[channel as int].with_role(
                    actor,
                    (RoleCounters {
                        active: (old(metrics).role(channel as int, actor).active + 1) as u64,
                        connected: (old(metrics).role(channel as int, actor).connected + 1) as u64,
                        disconnected: old(metrics).role(channel as int, actor).disconnected,
                    }),
                ),
            ),
            final(metrics).uptime_seconds == old(metrics).uptime_seconds,
    {
        let current = self_role(&metrics.channels[channel], actor);
        let raised = RoleCounters {
            active: current.active + 1,
            connected: current.connected + 1,
            disconnected: current.disconnected,
        };
        let updated = match actor {
            ConnectionActor::Publisher => ChannelMetrics {
                publishers: raised,
                ..metrics.channels[channel]
            },
            ConnectionActor::Subscriber => ChannelMetrics {
                subscribers: raised,
                ..metrics.channels[channel]
            },
        };
        metrics.channels[channel] = updated;
        ConnectionGuard { channel, actor }
    }

    /// Closes the connection: lowers the active gauge and raises the
    /// disconnected counter of the guard's (channel, role) by one, and
    /// touches nothing else. Consuming the guard makes a second release
    /// impossible.
    pub fn release(self, metrics: &mut Metrics)
        requires
            old(metrics).wf(),
            self.channel < old(metrics).channels@.len(),
            old(metrics).role(self.channel as int, self.actor).active >= 1,
        ensures
            final(metrics).wf(),
            final(metrics).channels@ =~= old(metrics).channels@.update(
                self.channel as int,
                old(metrics).channels@[self.channel as int].with_role(
                    self.actor,
                    (RoleCounters {
                        active: (old(metrics).role(self.channel as int, self.actor).active
                            - 1) as u64,
                        connected: old(metrics).role(self.channel as int, self.actor).connected,
                        disconnected: (old(metrics).role(
                            self.channel as int,
                            self.actor,
                        ).disconnected + 1) as u64,
                    }),
                ),
            ),
            final(metrics).uptime_seconds == old(metrics).uptime_seconds,
    {
        let current = self_role(&metrics.channels[self.channel], self.actor);
        let lowered = RoleCounters {
            active: current.active - 1,
            connected: current.connected,
            disconnected: current.disconnected + 1,
        };
        let updated = match self.actor {
            ConnectionActor::Publisher => ChannelMetrics {
                publishers: lowered,
                ..metrics.channels[self.channel]
            },
            ConnectionActor::Subscriber => ChannelMetrics {
                subscribers: lowered,
                ..metrics.channels[self.channel]
            },
        };
        metrics.channels[self.channel] = updated;
    }
}

/// One lifecycle event of a (channel, role) pair, as the guards produce
/// them: [`ConnectionGuard::new`] is an acquire, whatever way the
/// connection later ends, [`ConnectionGuard::release`] is a release.
pub enum GuardEvent {
    /// A connection opened.
    Acquire,
    /// A connection closed.
    Release,
}

/// Lifecycle counters over unbounded integers, for stating laws about
/// arbitrarily long event sequences.
pub struct RoleTally {
    /// Currently open connections.
    pub active: int,
    /// Connections ever opened.
    pub connected: int,
    /// Connections ever closed.
    pub disconnected: int,
}

/// What one lifecycle event does to the counters: exactly what
/// [`ConnectionGuard::new`] and [`ConnectionGuard::release`] ensure.
pub open spec fn apply_guard_event(tally: RoleTally, event: GuardEvent) -> RoleTally {
    match event {
        GuardEvent::Acquire => RoleTally {
            active: tally.active + 1,
            connected: tally.connected + 1,
            disconnected: tally.disconnected,
        },
        GuardEvent::Release => RoleTally {
            active: tally.active - 1,
            connected: tally.connected,
            disconnected: tally.disconnected + 1,
        },
    }
}

/// The counters after a sequence of lifecycle events.
pub open spec fn apply_guard_events(tally: RoleTally, events: Seq<GuardEvent>) -> RoleTally
    decreases events.len(),
{
    if events.len() == 0 {
        tally
    } else {
        apply_guard_events(apply_guard_event(tally, events.first()), events.drop_first())
    }
}

/// How many of the events opened a connection.
pub open spec fn count_acquires(events: Seq<GuardEvent>) -> int
    decreases events.len(),
{
    if events.len() == 0 {
        0
    } else {
        (match events.first() {
            GuardEvent::Acquire => 1int,
            GuardEvent::Release => 0int,
        }) + count_acquires(events.drop_first())
    }
}

/// How many of the events closed a connection.
pub open spec fn count_releases(events: Seq<GuardEvent>) -> int
    decreases events.len(),
{
    if events.len() == 0 {
        0
    } else {
        (match events.first() {
            GuardEvent::Acquire => 0int,
            GuardEvent::Release => 1int,
        }) + count_releases(events.drop_first())
    }
}

/// The active gauge counts the open connections: after any sequence of
/// acquires and releases it equals its starting value plus the acquires
/// minus the releases — and since every open connection holds exactly
/// one unreleased guard, that is the number of connections open at that
/// point. The lifecycle invariant `connected == disconnected + active`
/// is kept at every step.
pub proof fn lemma_active_gauge_counts_connections(tally: RoleTally, events: Seq<GuardEvent>)
    requires
        tally.connected == tally.disconnected + tally.active,
    ensures
        ({
            let end = apply_guard_events(tally, events);
            &&& end.connected == end.disconnected + end.active
            &&& end.active == tally.active + count_acquires(events) - count_releases(events)
            &&& end.connected == tally.connected + count_acquires(events)
            &&& end.disconnected == tally.disconnected + count_releases(events)
        }),
    decreases events.len(),
{
    if events.len() == 0 {
    } else {
        lemma_active_gauge_counts_connections(
            apply_guard_event(tally, events.first()),
            events.drop_first(),
        );
    }
}

/// The counters of one role, read from a channel's metrics.
fn self_role(entry: &ChannelMetrics, actor: ConnectionActor) -> (counters: RoleCounters)
    ensures
        counters == entry.role(actor),
{
    match actor {
        ConnectionActor::Publisher => entry.publishers,
        ConnectionActor::Subscriber => entry.subscribers,
    }
}

} // verus!
