//! The installation as the reconciler knows it: the devices, how they
//! refer to one another, and what is to be sent to them.

use vstd::prelude::*;
use crate::structs::{Guard, Miner, MinerCommand, Plug, Switchboard};
use crate::text::same_text;

pub mod announce;
pub mod events;
pub mod guards;
pub mod laws;
pub mod scheduling;
pub mod startup;
pub mod topics;
pub mod transitions;
pub mod watchdog;

verus! {

/// How to reach the message broker.
#[derive(Debug)]
pub struct MqttConfig {
    pub host: String,
    pub port: u16,
    pub user: String,
    pub password: String,
}

/// The terms of the energy contract.
#[derive(Clone, Copy, Debug, PartialEq, Eq, Structural)]
pub struct Contract {
    pub start_year: u32,
    /// The month in which the first billing period starts, 1 to 12.
    pub start_month: u32,
    /// The length of a billing period in months, at least 1.
    pub billing_period: u32,
    /// The share of the energy returned to the grid that may be drawn back
    /// free of charge, in millionths.
    pub recovery_ratio: u32,
}

impl Contract {
    pub open spec fn valid(&self) -> bool {
        &&& self.start_year <= i32::MAX
        &&& 1 <= self.start_month <= 12
        &&& self.billing_period >= 1
        &&& self.recovery_ratio <= 1_000_000
    }

    pub fn is_valid(&self) -> (r: bool)
        ensures
            r == self.valid(),
    {
        self.start_year <= 2147483647 && 1 <= self.start_month && self.start_month <= 12
            && self.billing_period >= 1 && self.recovery_ratio <= 1_000_000
    }
}

/// Something for the reconciler's surroundings to do. Miners, plugs and
/// guards are named by their position in the system's lists.
#[derive(Clone, Copy, Debug, PartialEq, Eq, Structural)]
pub enum Action {
    /// Publish a command for a miner to the miner's guard.
    GuardCommand { miner: usize, command: MinerCommand },
    /// Tell a guard to restart.
    GuardReset { guard: usize },
    /// Publish to a guard which miner sits on which of its pinsets.
    GuardConfig { guard: usize },
    /// Tell a plug to switch its relay off.
    PlugCutOff { plug: usize },
    /// Tell a plug to switch its relay on.
    PlugEnable { plug: usize },
    /// Listen again to what a miner's guard and plug say of it.
    Subscribe { miner: usize },
    /// Listen no longer to what a miner's guard and plug say of it.
    Unsubscribe { miner: usize },
    /// A plug is off although its miner should draw power.
    Inconsistent { miner: usize },
}

/// A system as a mathematical value: the contract, the broker and
/// the devices.
pub struct Devices {
    pub contract: Contract,
    pub broker: MqttConfig,
    pub switchboard: Switchboard,
    pub guards: Seq<Guard>,
    pub miners: Seq<Miner>,
    pub plugs: Seq<Plug>,
}

/// The first position in `ids` that holds `id`.
pub open spec fn position(ids: Seq<Seq<char>>, id: Seq<char>) -> Option<int>
    decreases ids.len(),
{
    if ids.len() == 0 {
        None
    } else {
        match position(ids.drop_last(), id) {
            Some(i) => Some(i),
            None => if ids.last() == id {
                Some(ids.len() - 1)
            } else {
                None
            },
        }
    }
}

pub open spec fn guard_ids(guards: Seq<Guard>) -> Seq<Seq<char>> {
    Seq::new(guards.len(), |i: int| guards[i].id@)
}

pub open spec fn miner_ids(miners: Seq<Miner>) -> Seq<Seq<char>> {
    Seq::new(miners.len(), |i: int| miners[i].id@)
}

pub open spec fn plug_ids(plugs: Seq<Plug>) -> Seq<Seq<char>> {
    Seq::new(plugs.len(), |i: int| plugs[i].id@)
}

/// Where `position` finds an id, the id stands, and nowhere before.
pub proof fn position_is_first(ids: Seq<Seq<char>>, id: Seq<char>)
    ensures
        match position(ids, id) {
            Some(i) => 0 <= i < ids.len() && ids[i] == id && forall|j: int|
                0 <= j < i ==> ids[j] != id,
            None => forall|j: int| 0 <= j < ids.len() ==> ids[j] != id,
        },
    decreases ids.len(),
{
    if ids.len() > 0 {
        position_is_first(ids.drop_last(), id);
        assert forall|j: int| 0 <= j < ids.len() - 1 implies ids[j] == ids.drop_last()[j] by {}
    }
}

impl Devices {
    /// The links between the devices hold, and every miner is consistent.
    pub open spec fn wf(self) -> bool {
        &&& self.plugs.len() == self.miners.len()
        &&& forall|i: int|
            0 <= i < self.miners.len() ==> {
                &&& (#[trigger] self.miners[i]).guard < self.guards.len()
                &&& self.miners[i].phase < 3
                &&& self.miners[i].consistent()
            }
    }

    /// The same devices with the same links; only what changes while the
    /// system runs may differ.
    pub open spec fn same_topology(self, other: Devices) -> bool {
        &&& self.switchboard.id == other.switchboard.id
        &&& self.guards.len() == other.guards.len()
        &&& self.miners.len() == other.miners.len()
        &&& self.plugs.len() == other.plugs.len()
        &&& forall|i: int|
            0 <= i < self.guards.len() ==> (#[trigger] self.guards[i]).id == other.guards[i].id
                && self.guards[i].board_type == other.guards[i].board_type
        &&& forall|i: int|
            0 <= i < self.miners.len() ==> (#[trigger] self.miners[i]).same_identity(
                &other.miners[i],
            )
        &&& forall|i: int|
            0 <= i < self.plugs.len() ==> (#[trigger] self.plugs[i]).id == other.plugs[i].id
    }
}

/// The installation: the contract, the broker, and the devices. The plug at
/// a position of `plugs` belongs to the miner at the same position of
/// `miners`.
#[derive(Debug)]
pub struct System {
    pub(crate) contract: Contract,
    pub(crate) mqtt_config: MqttConfig,
    pub(crate) switchboard: Switchboard,
    pub(crate) guards: Vec<Guard>,
    pub(crate) miners: Vec<Miner>,
    pub(crate) plugs: Vec<Plug>,
}

impl View for System {
    type V = Devices;

    open(crate) spec fn view(&self) -> Devices {
        Devices {
            contract: self.contract,
            broker: self.mqtt_config,
            switchboard: self.switchboard,
            guards: self.guards@,
            miners: self.miners@,
            plugs: self.plugs@,
        }
    }
}

impl System {
    pub open spec fn wf(&self) -> bool {
        self@.wf()
    }

    pub fn contract(&self) -> (c: Contract)
        ensures
            c == self@.contract,
    {
        self.contract
    }

    pub fn mqtt_config(&self) -> (c: &MqttConfig)
        ensures
            *c == self@.broker,
    {
        &self.mqtt_config
    }

    pub fn switchboard(&self) -> (s: &Switchboard)
        ensures
            *s == self@.switchboard,
    {
        &self.switchboard
    }

    pub fn guards(&self) -> (g: &Vec<Guard>)
        ensures
            g@ == self@.guards,
    {
        &self.guards
    }

    pub fn miners(&self) -> (m: &Vec<Miner>)
        ensures
            m@ == self@.miners,
    {
        &self.miners
    }

    pub fn plugs(&self) -> (p: &Vec<Plug>)
        ensures
            p@ == self@.plugs,
    {
        &self.plugs
    }

    /// Tells whether the links between the devices hold and every miner
    /// is consistent.
    pub fn is_well_formed(&self) -> (r: bool)
        ensures
            r == self.wf(),
    {
        if self.plugs.len() != self.miners.len() {
            return false;
        }
        let mut i: usize = 0;
        while i < self.miners.len()
            invariant
                i <= self.miners.len(),
                forall|j: int|
                    0 <= j < i ==> {
                        &&& (#[trigger] self.miners@[j]).guard < self.guards@.len()
                        &&& self.miners@[j].phase < 3
                        &&& self.miners@[j].consistent()
                    },
            decreases self.miners.len() - i,
        {
            let m = &self.miners[i];
            if !(m.guard < self.guards.len() && m.phase < 3 && m.is_consistent()) {
                return false;
            }
            i = i + 1;
        }
        true
    }

    /// The position of the guard with the id `id`.
    pub fn find_guard(&self, id: &str) -> (found: Option<usize>)
        ensures
            match found {
                Some(i) => i < self@.guards.len() && position(guard_ids(self@.guards), id@) == Some(
                    i as int,
                ),
                None => position(guard_ids(self@.guards), id@) is None,
            },
    {
        let ghost ids = guard_ids(self@.guards);
        let mut i: usize = 0;
        while i < self.guards.len()
            invariant
                i <= self.guards.len(),
                ids == guard_ids(self@.guards),
                position(ids.take(i as int), id@) is None,
            decreases self.guards.len() - i,
        {
            assert(ids.take(i + 1).drop_last() =~= ids.take(i as int));
            if same_text(self.guards[i].id.as_str(), id) {
                proof {
                    position_of_prefix(ids, id@, i + 1);
                }
                return Some(i);
            }
            i = i + 1;
        }
        assert(ids.take(i as int) =~= ids);
        None
    }

    /// The position of the miner with the id `id`.
    pub fn find_miner(&self, id: &str) -> (found: Option<usize>)
        ensures
            match found {
                Some(i) => i < self@.miners.len() && position(miner_ids(self@.miners), id@) == Some(
                    i as int,
                ),
                None => position(miner_ids(self@.miners), id@) is None,
            },
    {
        let ghost ids = miner_ids(self@.miners);
        let mut i: usize = 0;
        while i < self.miners.len()
            invariant
                i <= self.miners.len(),
                ids == miner_ids(self@.miners),
                position(ids.take(i as int), id@) is None,
            decreases self.miners.len() - i,
        {
            assert(ids.take(i + 1).drop_last() =~= ids.take(i as int));
            if same_text(self.miners[i].id.as_str(), id) {
                proof {
                    position_of_prefix(ids, id@, i + 1);
                }
                return Some(i);
            }
            i = i + 1;
        }
        assert(ids.take(i as int) =~= ids);
        None
    }

    /// The position of the plug with the id `id`.
    pub fn find_plug(&self, id: &str) -> (found: Option<usize>)
        ensures
            match found {
                Some(i) => i < self@.plugs.len() && position(plug_ids(self@.plugs), id@) == Some(
                    i as int,
                ),
                None => position(plug_ids(self@.plugs), id@) is None,
            },
    {
        let ghost ids = plug_ids(self@.plugs);
        let mut i: usize = 0;
        while i < self.plugs.len()
            invariant
                i <= self.plugs.len(),
                ids == plug_ids(self@.plugs),
                position(ids.take(i as int), id@) is None,
            decreases self.plugs.len() - i,
        {
            assert(ids.take(i + 1).drop_last() =~= ids.take(i as int));
            if same_text(self.plugs[i].id.as_str(), id) {
                proof {
                    position_of_prefix(ids, id@, i + 1);
                }
                return Some(i);
            }
            i = i + 1;
        }
        assert(ids.take(i as int) =~= ids);
        None
    }
}

/// What `position` finds in a prefix, it finds in the whole.
pub proof fn position_of_prefix(ids: Seq<Seq<char>>, id: Seq<char>, k: int)
    requires
        0 <= k <= ids.len(),
        position(ids.take(k), id) is Some,
    ensures
        position(ids, id) == position(ids.take(k), id),
    decreases ids.len() - k,
{
    if k < ids.len() {
        assert(ids.take(k + 1).drop_last() =~= ids.take(k));
        position_of_prefix(ids, id, k + 1);
    } else {
        assert(ids.take(k) =~= ids);
    }
}

} // verus!
