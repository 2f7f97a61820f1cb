//! The channel registry: the fixed set of channels, their capacities
//! and auth policies, and one bus per channel.
//!
//! Channels are created at process start and live until shutdown; no
//! channel is added or removed at runtime, and no two channels share a
//! bus. Requests are routed to a channel by its name.

use vstd::prelude::*;

use crate::bus::Bus;

verus! {

/// The buffer capacity a channel gets unless configured otherwise.
pub const DEFAULT_CHANNEL_CAPACITY: usize = 10;

/// One channel's static configuration.
pub struct ChannelConfig {
    /// The channel's unique name; requests carry it as the path prefix.
    pub name: String,
    /// The bus capacity: how many of the newest messages stay buffered.
    pub capacity: usize,
    /// Whether publishers must pass the subprotocol auth gate.
    pub inbound_requires_auth: bool,
    /// Whether subscribers must pass the authorization auth gate.
    pub outbound_requires_auth: bool,
}

/// The fixed set of channels, and one bus for each.
pub struct Registry {
    /// The channels' configurations.
    pub configs: Vec<ChannelConfig>,
    /// The channels' buses: `buses[i]` belongs to `configs[i]`.
    pub buses: Vec<Bus>,
}

impl Registry {
    /// The registry's invariant: one well-formed bus per channel, with
    /// the configured capacity, and no two channels with the same name.
    pub open spec fn wf(self) -> bool {
        &&& self.buses@.len() == self.configs@.len()
        &&& forall|i: int| 0 <= i < self.buses@.len() ==> (#[trigger] self.buses@[i]).wf()
        &&& forall|i: int|
            0 <= i < self.buses@.len() ==> (#[trigger] self.buses@[i])@.capacity
                == self.configs@[i].capacity
        &&& forall|i: int|
            0 <= i < self.configs@.len() ==> (#[trigger] self.configs@[i]).capacity >= 1
        &&& forall|i: int, j: int|
            0 <= i < j < self.configs@.len() ==> (#[trigger] self.configs@[i]).name@
                != (#[trigger] self.configs@[j]).name@
    }

    /// How many channels the registry holds.
    pub fn channel_count(&self) -> (count: usize)
        ensures
            count == self.configs@.len(),
    {
        self.configs.len()
    }

    /// The index of the channel named `name`, if there is one.
    pub fn find_channel(&self, name: &String) -> (found: Option<usize>)
        ensures
            found matches Some(i) ==> i < self.configs@.len() && self.configs@[i as int].name@
                == name@,
            found is None ==> forall|i: int|
                0 <= i < self.configs@.len() ==> (#[trigger] self.configs@[i]).name@ != name@,
    {
        let mut i: usize = 0;
        while i < self.configs.len()
            invariant
                i <= self.configs@.len(),
                forall|j: int| 0 <= j < i ==> (#[trigger] self.configs@[j]).name@ != name@,
            decreases self.configs@.len() - i,
        {
            if self.configs[i].name.eq(name) {
                return Some(i);
            }
            i = i + 1;
        }
        None
    }
}

/// The relay's static channel set, as deployed: a `state` channel whose
/// publishers must authenticate and whose subscribers need not, and an
/// `interaction` channel whose subscribers must authenticate and whose
/// publishers need not. Both keep the default capacity.
pub fn standard_registry() -> (registry: Registry)
    ensures
        registry.wf(),
        registry.configs@.len() == 2,
        registry.configs@[0].name@ == "state"@,
        registry.configs@[0].capacity == 10,
        registry.configs@[0].inbound_requires_auth,
        !registry.configs@[0].outbound_requires_auth,
        registry.configs@[1].name@ == "interaction"@,
        registry.configs@[1].capacity == 10,
        !registry.configs@[1].inbound_requires_auth,
        registry.configs@[1].outbound_requires_auth,
        registry.buses@[0]@.history.len() == 0,
        !registry.buses@[0]@.closed,
        registry.buses@[1]@.history.len() == 0,
        !registry.buses@[1]@.closed,
{
    proof {
        reveal_strlit("state");
        reveal_strlit("interaction");
    }
    let mut configs: Vec<ChannelConfig> = Vec::new();
    configs.push(
        ChannelConfig {
            name: String::from_str("state"),
            capacity: DEFAULT_CHANNEL_CAPACITY,
            inbound_requires_auth: true,
            outbound_requires_auth: false,
        },
    );
    configs.push(
        ChannelConfig {
            name: String::from_str("interaction"),
            capacity: DEFAULT_CHANNEL_CAPACITY,
            inbound_requires_auth: false,
            outbound_requires_auth: true,
        },
    );
    let mut buses: Vec<Bus> = Vec::new();
    buses.push(Bus::new(DEFAULT_CHANNEL_CAPACITY));
    buses.push(Bus::new(DEFAULT_CHANNEL_CAPACITY));
    let registry = Registry { configs, buses };
    proof {
        assert(("state"@).len() == 5);
        assert(("interaction"@).len() == 11);
        assert(registry.configs@[0].name@ != registry.configs@[1].name@);
    }
    registry
}

} // verus!
