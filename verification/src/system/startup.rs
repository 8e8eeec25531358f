//! What the reconciler does first: which topics it listens to, and what
//! it tells the guards that announced themselves.

use vstd::prelude::*;
use crate::structs::{DeviceState, Guard, Miner, MinerCommand, Plug};
use crate::system::topics::{guard_topics_of, miner_topic};
use crate::system::{Action, Devices, System};
use crate::text::texts;

verus! {

/// The topics that the four listeners start with.
#[derive(Debug)]
pub struct Subscriptions {
    pub switchboard: Vec<String>,
    pub plugs: Vec<String>,
    pub guards: Vec<String>,
    pub user: Vec<String>,
}

/// The four topics of the switchboard's values, for every phase.
pub open spec fn switchboard_topics(id: Seq<char>) -> Seq<Seq<char>> {
    seq![
        "shellies/"@ + id + "/emeter/+/energy"@,
        "shellies/"@ + id + "/emeter/+/returned_energy"@,
        "shellies/"@ + id + "/emeter/+/total"@,
        "shellies/"@ + id + "/emeter/+/total_returned"@,
    ]
}

/// The topics of the first `k` plugs: each plug's power, energy and relay.
pub open spec fn plug_topics(plugs: Seq<Plug>, k: int) -> Seq<Seq<char>>
    decreases k,
{
    if k <= 0 {
        Seq::empty()
    } else {
        plug_topics(plugs, k - 1) + seq![
            "shellies/"@ + plugs[k - 1].id@ + "/relay/0/power"@,
            "shellies/"@ + plugs[k - 1].id@ + "/relay/0/energy"@,
            "shellies/"@ + plugs[k - 1].id@ + "/relay/0"@,
        ]
    }
}

/// The topics on which the first `k` guards tell that they are configured
/// and that they are alive.
pub open spec fn guard_topics(guards: Seq<Guard>, k: int) -> Seq<Seq<char>>
    decreases k,
{
    if k <= 0 {
        Seq::empty()
    } else {
        guard_topics(guards, k - 1) + seq![
            "guards/"@ + guards[k - 1].id@ + "/configured"@,
            "guards/"@ + guards[k - 1].id@ + "/ping"@,
        ]
    }
}

/// The topics on which the guards speak of the first `k` miners.
pub open spec fn guarded_miner_topics(d: Devices, k: int) -> Seq<Seq<char>>
    decreases k,
{
    if k <= 0 {
        Seq::empty()
    } else {
        guarded_miner_topics(d, k - 1) + guard_topics_of(
            d.guards[d.miners[k - 1].guard as int].id@,
            d.miners[k - 1].id@,
        )
    }
}

/// The topics on which users speak of the first `k` miners.
pub open spec fn user_topics(miners: Seq<Miner>, k: int) -> Seq<Seq<char>>
    decreases k,
{
    if k <= 0 {
        Seq::empty()
    } else {
        user_topics(miners, k - 1).push("user/"@ + miners[k - 1].id@)
    }
}

/// The resets for those of the first `k` guards whose configuration is
/// out of date.
pub open spec fn guard_resets(guards: Seq<Guard>, k: int) -> Seq<Action>
    decreases k,
{
    if k <= 0 {
        Seq::empty()
    } else if guards[k - 1].state == DeviceState::ConfigExpired {
        guard_resets(guards, k - 1).push(Action::GuardReset { guard: (k - 1) as usize })
    } else {
        guard_resets(guards, k - 1)
    }
}

/// The requests for a state report to those of the first `k` miners that
/// are in service under an available guard.
pub open spec fn first_requests(d: Devices, k: int) -> Seq<Action>
    decreases k,
{
    if k <= 0 {
        Seq::empty()
    } else if d.begins_asked(k - 1) {
        first_requests(d, k - 1).push(
            Action::GuardCommand { miner: (k - 1) as usize, command: MinerCommand::StateReport },
        )
    } else {
        first_requests(d, k - 1)
    }
}

impl Devices {
    /// The miner at position `i` is in service under an available guard.
    pub open spec fn begins_asked(self, i: int) -> bool {
        self.miners[i].included && self.guards[self.miners[i].guard as int].state
            == DeviceState::Available
    }

    /// The devices once the reconciler has started at `now`: the state of
    /// every miner in service under an available guard is asked for.
    pub open spec fn after_startup(self, now: i64) -> Devices {
        Devices {
            miners: Seq::new(
                self.miners.len(),
                |i: int|
                    if self.begins_asked(i) {
                        self.miners[i].asked(now)
                    } else {
                        self.miners[i]
                    },
            ),
            ..self
        }
    }

    /// What the reconciler tells the guards when it starts: a guard whose
    /// configuration is out of date is reset; an available guard is
    /// asked for the states of its miners.
    pub open spec fn startup_actions(self) -> Seq<Action> {
        guard_resets(self.guards, self.guards.len() as int) + first_requests(
            self,
            self.miners.len() as int,
        )
    }
}

fn topic(a: &str, b: &str, c: &str) -> (s: String)
    ensures
        s@ == a@ + b@ + c@,
{
    let mut s = String::from_str(a);
    s.append(b);
    s.append(c);
    s
}

impl System {
    /// The topics that the listeners start with.
    pub fn subscriptions(&self) -> (s: Subscriptions)
        requires
            self.wf(),
        ensures
            texts(s.switchboard@) == switchboard_topics(self@.switchboard.id@),
            texts(s.plugs@) == plug_topics(self@.plugs, self@.plugs.len() as int),
            texts(s.guards@) == seq!["guards/started"@] + guard_topics(
                self@.guards,
                self@.guards.len() as int,
            ) + guarded_miner_topics(self@, self@.miners.len() as int),
            texts(s.user@) == user_topics(self@.miners, self@.miners.len() as int),
    {
        let id = self.switchboard.id.as_str();
        let mut switchboard: Vec<String> = Vec::new();
        switchboard.push(topic("shellies/", id, "/emeter/+/energy"));
        switchboard.push(topic("shellies/", id, "/emeter/+/returned_energy"));
        switchboard.push(topic("shellies/", id, "/emeter/+/total"));
        switchboard.push(topic("shellies/", id, "/emeter/+/total_returned"));
        assert(texts(switchboard@) =~= switchboard_topics(self@.switchboard.id@));
        let mut plugs: Vec<String> = Vec::new();
        let mut i: usize = 0;
        assert(texts(plugs@) =~= plug_topics(self@.plugs, 0));
        while i < self.plugs.len()
            invariant
                i <= self.plugs.len(),
                texts(plugs@) == plug_topics(self@.plugs, i as int),
            decreases self.plugs.len() - i,
        {
            let ghost before = texts(plugs@);
            let id = self.plugs[i].id.as_str();
            plugs.push(topic("shellies/", id, "/relay/0/power"));
            plugs.push(topic("shellies/", id, "/relay/0/energy"));
            plugs.push(topic("shellies/", id, "/relay/0"));
            assert(texts(plugs@) =~= before + seq![
                "shellies/"@ + self@.plugs[i as int].id@ + "/relay/0/power"@,
                "shellies/"@ + self@.plugs[i as int].id@ + "/relay/0/energy"@,
                "shellies/"@ + self@.plugs[i as int].id@ + "/relay/0"@,
            ]);
            i = i + 1;
        }
        let mut guards: Vec<String> = Vec::new();
        guards.push(String::from_str("guards/started"));
        let mut g: usize = 0;
        assert(texts(guards@) =~= seq!["guards/started"@] + guard_topics(self@.guards, 0));
        while g < self.guards.len()
            invariant
                g <= self.guards.len(),
                texts(guards@) == seq!["guards/started"@] + guard_topics(self@.guards, g as int),
            decreases self.guards.len() - g,
        {
            let ghost before = texts(guards@);
            let id = self.guards[g].id.as_str();
            guards.push(topic("guards/", id, "/configured"));
            guards.push(topic("guards/", id, "/ping"));
            assert(texts(guards@) =~= before + seq![
                "guards/"@ + self@.guards[g as int].id@ + "/configured"@,
                "guards/"@ + self@.guards[g as int].id@ + "/ping"@,
            ]);
            g = g + 1;
        }
        let ghost head = texts(guards@);
        let mut user: Vec<String> = Vec::new();
        let mut m: usize = 0;
        assert(texts(guards@) =~= head + guarded_miner_topics(self@, 0));
        assert(texts(user@) =~= user_topics(self@.miners, 0));
        while m < self.miners.len()
            invariant
                m <= self.miners.len(),
                self.wf(),
                texts(guards@) == head + guarded_miner_topics(self@, m as int),
                texts(user@) == user_topics(self@.miners, m as int),
            decreases self.miners.len() - m,
        {
            let ghost before = texts(guards@);
            let ghost users_before = texts(user@);
            let topics = self.topics_of_miner(m);
            let ghost base = miner_topic(
                self@.guards[self@.miners[m as int].guard as int].id@,
                self@.miners[m as int].id@,
            );
            assert(texts(topics.guard@).len() == 3);
            assert(texts(topics.guard@)[0] == base + "/alert"@);
            assert(texts(topics.guard@)[1] == base + "/command"@);
            assert(texts(topics.guard@)[2] == base + "/status"@);
            guards.push(topics.guard[0].clone());
            guards.push(topics.guard[1].clone());
            guards.push(topics.guard[2].clone());
            assert(texts(guards@) =~= before + seq![
                base + "/alert"@,
                base + "/command"@,
                base + "/status"@,
            ]);
            let mut name = String::from_str("user/");
            name.append(self.miners[m].id.as_str());
            user.push(name);
            assert(texts(user@) =~= users_before.push("user/"@ + self@.miners[m as int].id@));
            m = m + 1;
        }
        Subscriptions { switchboard, plugs, guards, user }
    }

    /// Starts the reconciler's work at `now`.
    pub fn startup(&mut self, now: i64) -> (actions: Vec<Action>)
        requires
            old(self).wf(),
        ensures
            final(self).wf(),
            final(self)@ == old(self)@.after_startup(now),
            actions@ == old(self)@.startup_actions(),
            final(self)@.same_topology(old(self)@),
    {
        let mut actions: Vec<Action> = Vec::new();
        let mut g: usize = 0;
        while g < self.guards.len()
            invariant
                g <= self.guards.len(),
                *self == *old(self),
                actions@ == guard_resets(self@.guards, g as int),
            decreases self.guards.len() - g,
        {
            if self.guards[g].state == DeviceState::ConfigExpired {
                actions.push(Action::GuardReset { guard: g });
            }
            g = g + 1;
        }
        let ghost resets = actions@;
        let mut i: usize = 0;
        assert(actions@ =~= resets + first_requests(old(self)@, 0));
        while i < self.miners.len()
            invariant
                i <= self.miners.len(),
                old(self).wf(),
                self.miners.len() == old(self).miners.len(),
                self.plugs == old(self).plugs,
                self.guards == old(self).guards,
                self.switchboard == old(self).switchboard,
                self.contract == old(self).contract,
                self.mqtt_config == old(self).mqtt_config,
                forall|j: int|
                    0 <= j < i ==> (#[trigger] self.miners@[j]) == old(self)@.after_startup(
                        now,
                    ).miners[j],
                forall|j: int|
                    i <= j < self.miners.len() ==> (#[trigger] self.miners@[j]) == old(
                        self,
                    ).miners@[j],
                actions@ == resets + first_requests(old(self)@, i as int),
            decreases self.miners.len() - i,
        {
            if self.miners[i].included && self.guards[self.miners[i].guard].state
                == DeviceState::Available {
                self.miners[i].ask(now);
                actions.push(Action::GuardCommand { miner: i, command: MinerCommand::StateReport });
            }
            assert(actions@ =~= resets + first_requests(old(self)@, i + 1));
            i = i + 1;
        }
        assert(self@.miners =~= old(self)@.after_startup(now).miners);
        actions
    }
}

} // verus!
