//! The broadcast hub: the launch plan and the lifetime of its units.
//!
//! The hub resolves the registry into one publisher and one subscriber
//! session per logical channel, launches them as independent concurrent
//! units, and waits for all of them. No unit is restarted on failure, and a
//! failed unit does not cancel a sibling. The loops themselves, being
//! socket-bound, run outside the library; the hub's record of the units is
//! kept here.

use crate::fault::Fault;
use crate::publisher::{PubChannel, Publisher};
use crate::registry::{channel_order, ChannelName, ChannelRegistry};
use crate::session::SubscriberSession;
use vstd::prelude::*;
use vstd::utf8::encode_utf8;

verus! {

/// The publisher's fixed tick period, in milliseconds.
pub const DEFAULT_TICK_MS: u64 = 2000;

/// The hub's launch plan: the publisher and one subscriber session per
/// logical channel, in registration order.
pub struct HubPlan {
    pub publisher: Publisher,
    pub sessions: Vec<SubscriberSession>,
}

/// Resolve the registry into a launch plan: the publisher binds the bind
/// endpoint with every channel's publish topic in registration order at the
/// default cadence, and each session dials the connect endpoint filtered on
/// its channel's subscribe topic.
pub fn plan(reg: &ChannelRegistry) -> (r: HubPlan)
    requires
        reg.wf(),
    ensures
        r.publisher.bind_addr@ == reg.bind_addr@,
        r.publisher.tick_ms == DEFAULT_TICK_MS,
        r.publisher.seq == 0,
        r.publisher.channels@.len() == 3,
        forall|i: int|
            0 <= i < 3 ==> (#[trigger] r.publisher.channels@[i]).name == channel_order()[i],
        forall|i: int|
            0 <= i < 3 ==> (#[trigger] r.publisher.channels@[i]).topic@
                == reg.channels@[i].pub_topic@,
        r.sessions@.len() == 3,
        forall|i: int|
            0 <= i < 3 ==> (#[trigger] r.sessions@[i]).connect_addr@ == reg.connect_addr@,
        forall|i: int|
            0 <= i < 3 ==> (#[trigger] r.sessions@[i]).filter@ == encode_utf8(
                reg.channels@[i].sub_topic@,
            ),
{
    let udp = reg.resolve(ChannelName::Udp);
    let serial = reg.resolve(ChannelName::Serial);
    let http = reg.resolve(ChannelName::Http);
    let channels = vec![
        PubChannel { name: ChannelName::Udp, topic: udp.pub_topic },
        PubChannel { name: ChannelName::Serial, topic: serial.pub_topic },
        PubChannel { name: ChannelName::Http, topic: http.pub_topic },
    ];
    let publisher = Publisher::new(reg.bind_addr.clone(), channels, DEFAULT_TICK_MS);
    let sessions = vec![
        SubscriberSession::new(reg.connect_addr.clone(), udp.sub_topic.as_str()),
        SubscriberSession::new(reg.connect_addr.clone(), serial.sub_topic.as_str()),
        SubscriberSession::new(reg.connect_addr.clone(), http.sub_topic.as_str()),
    ];
    HubPlan { publisher, sessions }
}

impl HubPlan {
    /// How many concurrent units the plan launches: the publisher plus one
    /// per session.
    pub fn unit_count(&self) -> (r: usize)
        requires
            self.sessions@.len() < usize::MAX,
        ensures
            r == self.sessions@.len() + 1,
    {
        1 + self.sessions.len()
    }
}

/// The state of one launched unit of work. A unit's loop never terminates on
/// its own; only a fatal fault ends it.
#[derive(Clone, Copy, PartialEq, Eq, Structural, Debug)]
pub enum UnitState {
    Running,
    Failed(Fault),
}

/// The hub's record of its launched units: entry 0 the publisher, then one
/// entry per subscriber session in registration order. The hub's wait
/// returns only when every unit has terminated; under normal operation that
/// never happens, since the publisher's loop is unbounded.
pub struct HubRun {
    pub units: Vec<UnitState>,
}

impl HubRun {
    /// Launch `n_units` independent units: every one starts running.
    pub fn launch(n_units: usize) -> (r: HubRun)
        ensures
            r.units@.len() == n_units,
            forall|j: int| 0 <= j < n_units ==> r.units@[j] == UnitState::Running,
    {
        let mut units: Vec<UnitState> = Vec::new();
        for k in 0..n_units
            invariant
                units@.len() == k,
                forall|j: int| 0 <= j < k ==> units@[j] == UnitState::Running,
        {
            units.push(UnitState::Running);
        }
        HubRun { units }
    }

    /// Record that unit `i` terminated with the fatal fault `f`. Failure is
    /// isolated: the unit is not restarted, and no sibling is cancelled or
    /// otherwise touched — every other unit's state is exactly what it was.
    pub fn on_unit_failure(&mut self, i: usize, f: Fault)
        requires
            i < old(self).units@.len(),
        ensures
            final(self).units@.len() == old(self).units@.len(),
            final(self).units@[i as int] == UnitState::Failed(f),
            forall|j: int|
                0 <= j < old(self).units@.len() && j != i ==> final(self).units@[j] == old(
                    self,
                ).units@[j],
    {
        self.units.set(i, UnitState::Failed(f));
    }

    /// The recorded state of unit `i`.
    pub fn unit(&self, i: usize) -> (r: UnitState)
        requires
            i < self.units@.len(),
        ensures
            r == self.units@[i as int],
    {
        self.units[i]
    }

    /// Whether the hub's wait returns: exactly when no unit still runs.
    pub fn all_terminated(&self) -> (r: bool)
        ensures
            r <==> (forall|j: int|
                0 <= j < self.units@.len() ==> self.units@[j] != UnitState::Running),
    {
        let n = self.units.len();
        for i in 0..n
            invariant
                n == self.units@.len(),
                forall|j: int| 0 <= j < i ==> self.units@[j] != UnitState::Running,
        {
            if matches!(self.units[i], UnitState::Running) {
                return false;
            }
        }
        true
    }
}

} // verus!
