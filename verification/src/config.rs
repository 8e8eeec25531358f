//! From the configured topology to a system: which configurations are
//! accepted, and the state in which their devices start.

use vstd::prelude::*;
use crate::structs::{DeviceState, Guard, GuardType, Miner, MinerState, Plug, Switchboard};
use crate::system::{guard_ids, miner_ids, plug_ids};
use crate::system::{Contract, Devices, MqttConfig, System};
use crate::text::same_text;

verus! {

/// The time at which a device that was never heard was last seen.
pub const NEVER: i64 = -9_223_372_036_854_775_808;

/// A guard as the configuration gives it; what is missing there is `None`.
#[derive(Debug)]
pub struct RawGuard {
    pub id: Option<String>,
    pub board_type: Option<String>,
    /// The guard has a list of miners, be it empty.
    pub has_miners: bool,
}

/// A miner as the configuration gives it, with the position of its guard
/// in the list of guards.
#[derive(Debug)]
pub struct RawMiner {
    pub guard: usize,
    pub id: Option<String>,
    pub pinset: Option<i64>,
    pub plug: Option<String>,
    pub phase: Option<i64>,
    pub consumption: Option<i64>,
}

/// A topology as the configuration gives it.
#[derive(Debug)]
pub struct RawTopology {
    pub switchboard_id: Option<String>,
    pub guards: Option<Vec<RawGuard>>,
    pub miners: Vec<RawMiner>,
}

/// No two of `ids` are the same.
pub open spec fn distinct(ids: Seq<Seq<char>>) -> bool {
    forall|i: int, j: int| 0 <= i < j < ids.len() ==> ids[i] != ids[j]
}

impl Devices {
    /// What the configuration promises of a topology: no id is used twice
    /// among the guards, among the miners or among the plugs; every miner
    /// sits on a pinset that its guard has; and no two miners share a
    /// pinset of one guard.
    pub open spec fn topology_valid(self) -> bool {
        &&& distinct(guard_ids(self.guards))
        &&& distinct(miner_ids(self.miners))
        &&& distinct(plug_ids(self.plugs))
        &&& forall|i: int|
            0 <= i < self.miners.len() ==> (#[trigger] self.miners[i]).guard < self.guards.len()
                && self.miners[i].pinset < self.guards[self.miners[i].guard as int].board_type.pinset_limit()
        &&& forall|i: int, j: int|
            0 <= i < j < self.miners.len() ==> !((#[trigger] self.miners[i]).guard == (
            #[trigger] self.miners[j]).guard && self.miners[i].pinset == self.miners[j].pinset)
    }
}

/// A topology stays what the configuration promised while the system runs.
pub proof fn topology_stays_valid(before: Devices, after: Devices)
    requires
        before.topology_valid(),
        after.same_topology(before),
    ensures
        after.topology_valid(),
{
    assert forall|i: int, j: int| 0 <= i < j < after.guards.len() implies guard_ids(after.guards)[i]
        != guard_ids(after.guards)[j] by {
        assert(guard_ids(before.guards)[i] != guard_ids(before.guards)[j]);
        assert(after.guards[i].id == before.guards[i].id);
        assert(after.guards[j].id == before.guards[j].id);
    }
    assert forall|i: int, j: int| 0 <= i < j < after.miners.len() implies miner_ids(after.miners)[i]
        != miner_ids(after.miners)[j] by {
        assert(miner_ids(before.miners)[i] != miner_ids(before.miners)[j]);
        assert(after.miners[i].same_identity(&before.miners[i]));
        assert(after.miners[j].same_identity(&before.miners[j]));
    }
    assert forall|i: int, j: int| 0 <= i < j < after.plugs.len() implies plug_ids(after.plugs)[i]
        != plug_ids(after.plugs)[j] by {
        assert(plug_ids(before.plugs)[i] != plug_ids(before.plugs)[j]);
        assert(after.plugs[i].id == before.plugs[i].id);
        assert(after.plugs[j].id == before.plugs[j].id);
    }
    assert forall|i: int| 0 <= i < after.miners.len() implies (#[trigger] after.miners[i]).guard
        < after.guards.len() && after.miners[i].pinset
        < after.guards[after.miners[i].guard as int].board_type.pinset_limit() by {
        assert(after.miners[i].same_identity(&before.miners[i]));
        assert(before.miners[i].guard < before.guards.len());
        let g = before.miners[i].guard as int;
        assert(after.guards[g].board_type == before.guards[g].board_type);
    }
    assert forall|i: int, j: int| 0 <= i < j < after.miners.len() implies !((
    #[trigger] after.miners[i]).guard == (#[trigger] after.miners[j]).guard
        && after.miners[i].pinset == after.miners[j].pinset) by {
        assert(after.miners[i].same_identity(&before.miners[i]));
        assert(after.miners[j].same_identity(&before.miners[j]));
        assert(!(before.miners[i].guard == before.miners[j].guard && before.miners[i].pinset
            == before.miners[j].pinset));
    }
}

impl RawGuard {
    /// The guard has an id, a type that is known, and a list of miners.
    pub open spec fn complete(&self) -> bool {
        self.id is Some && self.board_type is Some && GuardType::parse(self.board_type->0@) is Some
            && self.has_miners
    }

    /// The guard as it starts.
    pub open spec fn guard(&self) -> Guard {
        Guard {
            id: self.id->0,
            board_type: GuardType::parse(self.board_type->0@)->0,
            state: DeviceState::Inaccessible,
            last_seen: NEVER,
        }
    }
}

impl RawMiner {
    /// The miner has all its fields, its phase is one of the three, and
    /// its pinset and its consumption are not negative and not too large.
    pub open spec fn complete(&self) -> bool {
        &&& self.id is Some
        &&& self.plug is Some
        &&& self.pinset is Some && 0 <= self.pinset->0 <= u32::MAX
        &&& self.phase is Some && 0 <= self.phase->0 <= 2
        &&& self.consumption is Some && 0 <= self.consumption->0 <= u32::MAX
    }

    /// The miner as it starts: in service, its state not known and asked
    /// for at `now`, without a target and without a measured draw.
    pub open spec fn miner(&self, now: i64) -> Miner {
        Miner {
            id: self.id->0,
            guard: self.guard,
            pinset: self.pinset->0 as u32,
            phase: self.phase->0 as u8,
            estimated_consumption: self.consumption->0 as u32,
            power_consumption: None,
            state: MinerState::Undefined,
            target_state: None,
            command_ts: Some(now),
            included: true,
        }
    }

    /// The miner's plug as it starts: its relay taken to be on.
    pub open spec fn plug(&self) -> Plug {
        Plug {
            id: self.plug->0,
            state: DeviceState::Inaccessible,
            is_enabled: true,
            last_seen: NEVER,
        }
    }
}

impl RawTopology {
    /// Nothing is missing in the configuration.
    pub open spec fn complete(&self) -> bool {
        &&& self.switchboard_id is Some
        &&& self.guards is Some
        &&& forall|g: int| 0 <= g < self.guards->0@.len() ==> (#[trigger] self.guards->0@[g]).complete()
        &&& forall|i: int| 0 <= i < self.miners@.len() ==> (#[trigger] self.miners@[i]).complete()
    }

    /// The devices that the configuration describes, as they start at `now`.
    pub open spec fn devices(&self, contract: Contract, broker: MqttConfig, now: i64) -> Devices {
        Devices {
            contract,
            broker,
            switchboard: Switchboard {
                id: self.switchboard_id->0,
                state: DeviceState::Inaccessible,
                last_seen: NEVER,
            },
            guards: Seq::new(self.guards->0@.len(), |g: int| self.guards->0@[g].guard()),
            miners: Seq::new(self.miners@.len(), |i: int| self.miners@[i].miner(now)),
            plugs: Seq::new(self.miners@.len(), |i: int| self.miners@[i].plug()),
        }
    }

    /// The configuration is accepted: nothing is missing, and the topology
    /// is what a configuration has to promise.
    pub open spec fn accepted(&self) -> bool {
        self.complete() && self.devices(arbitrary(), arbitrary(), 0).topology_valid()
    }
}

fn take_guard(raw: &RawGuard) -> (g: Option<Guard>)
    ensures
        g is Some <==> raw.complete(),
        g is Some ==> g->0 == raw.guard(),
{
    let id = match &raw.id {
        Some(id) => id.clone(),
        None => {
            return None;
        },
    };
    let board_type = match &raw.board_type {
        Some(t) => match GuardType::from_str(t.as_str()) {
            Ok(t) => t,
            Err(_) => {
                return None;
            },
        },
        None => {
            return None;
        },
    };
    if !raw.has_miners {
        return None;
    }
    Some(Guard { id, board_type, state: DeviceState::Inaccessible, last_seen: NEVER })
}

fn take_miner(raw: &RawMiner, now: i64) -> (r: Option<(Miner, Plug)>)
    ensures
        r is Some <==> raw.complete(),
        match r {
            Some((miner, plug)) => miner == raw.miner(now) && plug == raw.plug(),
            None => true,
        },
{
    let id = match &raw.id {
        Some(id) => id.clone(),
        None => {
            return None;
        },
    };
    let plug = match &raw.plug {
        Some(p) => p.clone(),
        None => {
            return None;
        },
    };
    let pinset: u32 = match raw.pinset {
        Some(p) => if 0 <= p && p <= 4294967295 {
            p as u32
        } else {
            return None;
        },
        None => {
            return None;
        },
    };
    let phase: u8 = match raw.phase {
        Some(p) => if 0 <= p && p <= 2 {
            p as u8
        } else {
            return None;
        },
        None => {
            return None;
        },
    };
    let consumption: u32 = match raw.consumption {
        Some(c) => if 0 <= c && c <= 4294967295 {
            c as u32
        } else {
            return None;
        },
        None => {
            return None;
        },
    };
    Some(
        (
            Miner {
                id,
                guard: raw.guard,
                pinset,
                phase,
                estimated_consumption: consumption,
                power_consumption: None,
                state: MinerState::Undefined,
                target_state: None,
                command_ts: Some(now),
                included: true,
            },
            Plug { id: plug, state: DeviceState::Inaccessible, is_enabled: true, last_seen: NEVER },
        ),
    )
}

/// Whether `id` is among `ids`.
fn holds(ids: &Vec<String>, id: &str) -> (r: bool)
    ensures
        r == exists|j: int| 0 <= j < ids@.len() && (#[trigger] ids@[j])@ == id@,
{
    let mut j: usize = 0;
    while j < ids.len()
        invariant
            j <= ids.len(),
            forall|k: int| 0 <= k < j ==> (#[trigger] ids@[k])@ != id@,
        decreases ids.len() - j,
    {
        if same_text(ids[j].as_str(), id) {
            return true;
        }
        j = j + 1;
    }
    false
}

/// Whether a miner on the guard `guard` and the pinset `pinset` is among `miners`.
fn pinset_taken(miners: &Vec<Miner>, guard: usize, pinset: u32) -> (r: bool)
    ensures
        r == exists|j: int|
            0 <= j < miners@.len() && (#[trigger] miners@[j]).guard == guard && miners@[j].pinset
                == pinset,
{
    let mut j: usize = 0;
    while j < miners.len()
        invariant
            j <= miners.len(),
            forall|k: int|
                0 <= k < j ==> !((#[trigger] miners@[k]).guard == guard && miners@[k].pinset
                    == pinset),
        decreases miners.len() - j,
    {
        if miners[j].guard == guard && miners[j].pinset == pinset {
            return true;
        }
        j = j + 1;
    }
    false
}

/// Makes the system that a configuration describes, as it starts at `now`;
/// `None` where the configuration is not accepted.
pub fn build_system(raw: &RawTopology, contract: Contract, mqtt_config: MqttConfig, now: i64) -> (r:
    Option<System>)
    ensures
        r is Some <==> raw.accepted(),
        r is Some ==> {
            &&& r->0@ == raw.devices(contract, mqtt_config, now)
            &&& r->0.wf()
            &&& r->0@.topology_valid()
        },
{
    let ghost target = raw.devices(contract, mqtt_config, now);
    let ghost probe = raw.devices(arbitrary(), arbitrary(), 0);
    let switchboard_id = match &raw.switchboard_id {
        Some(id) => id.clone(),
        None => {
            return None;
        },
    };
    let raw_guards = match &raw.guards {
        Some(g) => g,
        None => {
            return None;
        },
    };
    let mut guards: Vec<Guard> = Vec::new();
    let mut seen_guards: Vec<String> = Vec::new();
    let mut g: usize = 0;
    while g < raw_guards.len()
        invariant
            g <= raw_guards.len(),
            raw.guards == Some(*raw_guards),
            target == raw.devices(contract, mqtt_config, now),
            probe == raw.devices(arbitrary(), arbitrary(), 0),
            guards@.len() == g,
            seen_guards@.len() == g,
            forall|k: int| 0 <= k < g ==> (#[trigger] raw_guards@[k]).complete(),
            forall|k: int| 0 <= k < g ==> (#[trigger] guards@[k]) == raw_guards@[k].guard(),
            forall|k: int| 0 <= k < g ==> (#[trigger] seen_guards@[k]) == raw_guards@[k].id->0,
            forall|i: int, j: int|
                0 <= i < j < g ==> guard_ids(probe.guards)[i] != guard_ids(probe.guards)[j],
        decreases raw_guards.len() - g,
    {
        let guard = match take_guard(&raw_guards[g]) {
            Some(guard) => guard,
            None => {
                return None;
            },
        };
        if holds(&seen_guards, guard.id.as_str()) {
            proof {
                let j = choose|j: int|
                    0 <= j < seen_guards@.len() && (#[trigger] seen_guards@[j])@ == guard.id@;
                assert(guard_ids(probe.guards)[j] == guard_ids(probe.guards)[g as int]);
            }
            return None;
        }
        assert forall|i: int, j: int| 0 <= i < j < g + 1 implies guard_ids(probe.guards)[i]
            != guard_ids(probe.guards)[j] by {
            if j == g {
                assert(seen_guards@[i]@ != guard.id@);
            }
        }
        seen_guards.push(guard.id.clone());
        guards.push(guard);
        g = g + 1;
    }
    let mut miners: Vec<Miner> = Vec::new();
    let mut plugs: Vec<Plug> = Vec::new();
    let mut seen_miners: Vec<String> = Vec::new();
    let mut seen_plugs: Vec<String> = Vec::new();
    let mut i: usize = 0;
    while i < raw.miners.len()
        invariant
            i <= raw.miners.len(),
            raw.guards == Some(*raw_guards),
            probe == raw.devices(arbitrary(), arbitrary(), 0),
            guards@.len() == raw_guards@.len(),
            forall|k: int|
                0 <= k < raw_guards@.len() ==> (#[trigger] guards@[k]) == raw_guards@[k].guard(),
            miners@.len() == i,
            plugs@.len() == i,
            seen_miners@.len() == i,
            seen_plugs@.len() == i,
            forall|k: int| 0 <= k < i ==> (#[trigger] raw.miners@[k]).complete(),
            forall|k: int| 0 <= k < i ==> (#[trigger] miners@[k]) == raw.miners@[k].miner(now),
            forall|k: int| 0 <= k < i ==> (#[trigger] plugs@[k]) == raw.miners@[k].plug(),
            forall|k: int| 0 <= k < i ==> (#[trigger] seen_miners@[k]) == raw.miners@[k].id->0,
            forall|k: int| 0 <= k < i ==> (#[trigger] seen_plugs@[k]) == raw.miners@[k].plug->0,
            forall|k: int|
                0 <= k < i ==> (#[trigger] miners@[k]).guard < guards@.len() && miners@[k].pinset
                    < guards@[miners@[k].guard as int].board_type.pinset_limit(),
            forall|a: int, b: int|
                0 <= a < b < i ==> miner_ids(probe.miners)[a] != miner_ids(probe.miners)[b],
            forall|a: int, b: int|
                0 <= a < b < i ==> plug_ids(probe.plugs)[a] != plug_ids(probe.plugs)[b],
            forall|a: int, b: int|
                0 <= a < b < i ==> !((#[trigger] miners@[a]).guard == (#[trigger] miners@[b]).guard
                    && miners@[a].pinset == miners@[b].pinset),
        decreases raw.miners.len() - i,
    {
        let (miner, plug) = match take_miner(&raw.miners[i], now) {
            Some(pair) => pair,
            None => {
                return None;
            },
        };
        assert(probe.miners[i as int].guard == miner.guard);
        assert(probe.miners[i as int].pinset == miner.pinset);
        if miner.guard >= guards.len() {
            return None;
        }
        if miner.pinset >= guards[miner.guard].board_type.get_pinset_limit() {
            assert(probe.guards[miner.guard as int].board_type == guards@[miner.guard as int].board_type);
            return None;
        }
        if holds(&seen_miners, miner.id.as_str()) {
            proof {
                let j = choose|j: int|
                    0 <= j < seen_miners@.len() && (#[trigger] seen_miners@[j])@ == miner.id@;
                assert(miner_ids(probe.miners)[j] == miner_ids(probe.miners)[i as int]);
            }
            return None;
        }
        if holds(&seen_plugs, plug.id.as_str()) {
            proof {
                let j = choose|j: int|
                    0 <= j < seen_plugs@.len() && (#[trigger] seen_plugs@[j])@ == plug.id@;
                assert(plug_ids(probe.plugs)[j] == plug_ids(probe.plugs)[i as int]);
            }
            return None;
        }
        if pinset_taken(&miners, miner.guard, miner.pinset) {
            proof {
                let j = choose|j: int|
                    0 <= j < miners@.len() && (#[trigger] miners@[j]).guard == miner.guard
                        && miners@[j].pinset == miner.pinset;
                assert(probe.miners[j].guard == miners@[j].guard);
                assert(probe.miners[j].pinset == miners@[j].pinset);
            }
            return None;
        }
        assert forall|a: int, b: int| 0 <= a < b < i + 1 implies miner_ids(probe.miners)[a]
            != miner_ids(probe.miners)[b] by {
            if b == i {
                assert(seen_miners@[a]@ != miner.id@);
            }
        }
        assert forall|a: int, b: int| 0 <= a < b < i + 1 implies plug_ids(probe.plugs)[a]
            != plug_ids(probe.plugs)[b] by {
            if b == i {
                assert(seen_plugs@[a]@ != plug.id@);
            }
        }
        seen_miners.push(miner.id.clone());
        seen_plugs.push(plug.id.clone());
        miners.push(miner);
        plugs.push(plug);
        i = i + 1;
    }
    let system = System {
        contract,
        mqtt_config,
        switchboard: Switchboard {
            id: switchboard_id,
            state: DeviceState::Inaccessible,
            last_seen: NEVER,
        },
        guards,
        miners,
        plugs,
    };
    assert(system@.guards =~= target.guards);
    assert(system@.miners =~= target.miners);
    assert(system@.plugs =~= target.plugs);
    assert(probe.topology_valid()) by {
        assert forall|k: int| 0 <= k < probe.miners.len() implies (#[trigger] probe.miners[k]).guard
            < probe.guards.len() && probe.miners[k].pinset
            < probe.guards[probe.miners[k].guard as int].board_type.pinset_limit() by {
            assert(probe.miners[k].guard == system.miners@[k].guard);
            assert(probe.miners[k].pinset == system.miners@[k].pinset);
            assert(probe.guards[probe.miners[k].guard as int].board_type
                == system.guards@[probe.miners[k].guard as int].board_type);
        }
        assert forall|a: int, b: int| 0 <= a < b < probe.miners.len() implies !((
        #[trigger] probe.miners[a]).guard == (#[trigger] probe.miners[b]).guard
            && probe.miners[a].pinset == probe.miners[b].pinset) by {
            assert(probe.miners[a].guard == system.miners@[a].guard);
            assert(probe.miners[b].guard == system.miners@[b].guard);
            assert(probe.miners[a].pinset == system.miners@[a].pinset);
            assert(probe.miners[b].pinset == system.miners@[b].pinset);
        }
    }
    proof {
        topology_stays_valid(probe, system@);
    }
    Some(system)
}

} // verus!
