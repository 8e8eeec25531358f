//! The watchdog pass: who has been silent for too long, which commands
//! have taken too long, and which miners are not where their target wants
//! them.

use vstd::prelude::*;
use crate::structs::{DeviceState, Guard, Miner, MinerCommand, Plug, Switchboard};
use crate::system::guards::{effect_actions, push_effect};
use crate::system::transitions::{is_overdue, overdue};
use crate::system::{Action, Devices, System};

verus! {

/// How long the switchboard may be silent, in milliseconds.
pub const SWITCHBOARD_SILENCE: i64 = 150_000;

/// How long a guard may be silent.
pub const GUARD_SILENCE: i64 = 45_000;

/// The silence of a guard after which its miners lose power.
pub const GUARD_CUT_OFF: i64 = 300_000;

/// How long a plug may be silent.
pub const PLUG_SILENCE: i64 = 60_000;

/// What the watchdog finds of a guard.
#[derive(Clone, Copy, Debug, PartialEq, Eq, Structural)]
pub enum GuardWatch {
    /// Silent for too long, but not yet long enough to cut its miners off.
    Silent,
    /// Silent for so long that its miners lose power.
    LongSilent,
    /// Heard again after it had been given up.
    Recovered,
    /// Available and heard of late.
    Live,
    /// Heard of late, but starting up or waiting for a reset.
    Idle,
}

impl Switchboard {
    /// The switchboard is given up at `now`: it was available and has been
    /// silent for too long.
    pub open spec fn lost(self, now: i64) -> bool {
        overdue(now, self.last_seen, SWITCHBOARD_SILENCE) && self.state == DeviceState::Available
    }

    pub open spec fn after_watchdog(self, now: i64) -> Switchboard {
        if overdue(now, self.last_seen, SWITCHBOARD_SILENCE) {
            if self.state == DeviceState::Available {
                Switchboard { state: DeviceState::Inaccessible, ..self }
            } else {
                self
            }
        } else if self.state == DeviceState::Inaccessible {
            Switchboard { state: DeviceState::Available, ..self }
        } else {
            self
        }
    }
}

impl Guard {
    pub open spec fn watch(self, now: i64) -> GuardWatch {
        if overdue(now, self.last_seen, GUARD_SILENCE) {
            if overdue(now, self.last_seen, GUARD_CUT_OFF) {
                GuardWatch::LongSilent
            } else {
                GuardWatch::Silent
            }
        } else if self.state == DeviceState::Inaccessible {
            GuardWatch::Recovered
        } else if self.state == DeviceState::Available {
            GuardWatch::Live
        } else {
            GuardWatch::Idle
        }
    }

    pub open spec fn after_watchdog(self, now: i64) -> Guard {
        match self.watch(now) {
            GuardWatch::Silent | GuardWatch::LongSilent => if self.state == DeviceState::Available {
                Guard { state: DeviceState::Inaccessible, ..self }
            } else {
                self
            },
            GuardWatch::Recovered => Guard { state: DeviceState::Available, ..self },
            _ => self,
        }
    }

    pub fn watched(&self, now: i64) -> (w: GuardWatch)
        ensures
            w == self.watch(now),
    {
        if is_overdue(now, self.last_seen, GUARD_SILENCE) {
            if is_overdue(now, self.last_seen, GUARD_CUT_OFF) {
                GuardWatch::LongSilent
            } else {
                GuardWatch::Silent
            }
        } else if self.state == DeviceState::Inaccessible {
            GuardWatch::Recovered
        } else if self.state == DeviceState::Available {
            GuardWatch::Live
        } else {
            GuardWatch::Idle
        }
    }
}

impl Plug {
    pub open spec fn after_watchdog(self, now: i64) -> Plug {
        if overdue(now, self.last_seen, PLUG_SILENCE) {
            Plug { state: DeviceState::Inaccessible, ..self }
        } else if self.state == DeviceState::Inaccessible {
            Plug { state: DeviceState::Available, ..self }
        } else {
            self
        }
    }
}

impl Devices {
    /// The miner at position `i` as the watchdog first sees it: with the
    /// target `PoweredOff` where the switchboard has just been given up.
    pub open spec fn watched_miner(self, i: int, now: i64) -> Miner {
        if self.switchboard.lost(now) {
            self.miners[i].with_target(false)
        } else {
            self.miners[i]
        }
    }

    pub open spec fn watch_of(self, i: int, now: i64) -> GuardWatch {
        self.guards[self.miners[i].guard as int].watch(now)
    }

    /// The miner at position `i` after the watchdog pass at `now`.
    pub open spec fn miner_after_watchdog(self, i: int, now: i64) -> Miner {
        let m = self.watched_miner(i, now);
        match self.watch_of(i, now) {
            GuardWatch::Recovered => if m.included && !self.plugs[i].is_enabled {
                m.asked(now)
            } else {
                m
            },
            GuardWatch::Live => if m.included {
                m.after_watchdog(now)
            } else {
                m
            },
            _ => m,
        }
    }

    /// The plug at position `i` after the watchdog pass at `now`.
    pub open spec fn plug_after_watchdog(self, i: int, now: i64) -> Plug {
        if self.watch_of(i, now) == GuardWatch::Live && self.miners[i].included {
            self.plugs[i].after_watchdog(now)
        } else {
            self.plugs[i]
        }
    }

    /// What the watchdog pass at `now` has to be done for the miner at
    /// position `i`.
    pub open spec fn miner_watchdog_actions(self, i: int, now: i64) -> Seq<Action> {
        let m = self.watched_miner(i, now);
        match self.watch_of(i, now) {
            GuardWatch::LongSilent => if m.included && self.plugs[i].is_enabled {
                seq![Action::PlugCutOff { plug: i as usize }]
            } else {
                Seq::empty()
            },
            GuardWatch::Recovered => if m.included && !self.plugs[i].is_enabled {
                seq![
                    Action::PlugEnable { plug: i as usize },
                    Action::Subscribe { miner: i as usize },
                    Action::GuardCommand { miner: i as usize, command: MinerCommand::StateReport },
                ]
            } else {
                Seq::empty()
            },
            GuardWatch::Live => if m.included {
                effect_actions(i, m.watchdog_effect(self.plugs[i].is_enabled, now))
            } else {
                Seq::empty()
            },
            _ => Seq::empty(),
        }
    }

    /// What the watchdog pass at `now` has to be done for the first `k` miners.
    pub open spec fn watchdog_actions(self, now: i64, k: int) -> Seq<Action>
        decreases k,
    {
        if k <= 0 {
            Seq::empty()
        } else {
            self.watchdog_actions(now, k - 1) + self.miner_watchdog_actions(k - 1, now)
        }
    }

    /// The devices after the watchdog pass at `now`.
    pub open spec fn after_watchdog(self, now: i64) -> Devices {
        Devices {
            contract: self.contract,
            broker: self.broker,
            switchboard: self.switchboard.after_watchdog(now),
            guards: Seq::new(self.guards.len(), |g: int| self.guards[g].after_watchdog(now)),
            miners: Seq::new(self.miners.len(), |i: int| self.miner_after_watchdog(i, now)),
            plugs: Seq::new(self.plugs.len(), |i: int| self.plug_after_watchdog(i, now)),
        }
    }
}

impl System {
    /// The watchdog pass at `now`. A switchboard that has been silent for
    /// too long is given up, and every miner gets the target `PoweredOff`.
    /// A guard that has been silent is given up; after a long silence its
    /// miners lose power; when it is heard again, plugs are switched back
    /// on, their miners are listened to again and asked for their states. Under an available guard,
    /// every miner in service has its plug's silence judged and takes the
    /// step that its state, its target and the time of its last command
    /// call for.
    pub fn validate_devices(&mut self, now: i64) -> (actions: Vec<Action>)
        requires
            old(self).wf(),
        ensures
            final(self).wf(),
            final(self)@ == old(self)@.after_watchdog(now),
            actions@ == old(self)@.watchdog_actions(now, old(self)@.miners.len() as int),
            final(self)@.same_topology(old(self)@),
    {
        let mut actions: Vec<Action> = Vec::new();
        let silent = is_overdue(now, self.switchboard.last_seen, SWITCHBOARD_SILENCE);
        let lost = silent && self.switchboard.state == DeviceState::Available;
        let mut i: usize = 0;
        while i < self.miners.len()
            invariant
                i <= self.miners.len(),
                old(self).wf(),
                lost == old(self)@.switchboard.lost(now),
                self.miners.len() == old(self).miners.len(),
                self.plugs.len() == old(self).plugs.len(),
                self.guards == old(self).guards,
                self.switchboard == old(self).switchboard,
                self.contract == old(self).contract,
                self.mqtt_config == old(self).mqtt_config,
                forall|j: int|
                    0 <= j < i ==> (#[trigger] self.miners@[j]) == old(self)@.miner_after_watchdog(
                        j,
                        now,
                    ),
                forall|j: int|
                    i <= j < self.miners.len() ==> (#[trigger] self.miners@[j]) == old(
                        self,
                    ).miners@[j],
                forall|j: int|
                    0 <= j < i ==> (#[trigger] self.plugs@[j]) == old(self)@.plug_after_watchdog(
                        j,
                        now,
                    ),
                forall|j: int|
                    i <= j < self.plugs.len() ==> (#[trigger] self.plugs@[j]) == old(self).plugs@[j],
                forall|j: int| 0 <= j < self.miners.len() ==> (#[trigger] self.miners@[j]).consistent(),
                actions@ == old(self)@.watchdog_actions(now, i as int),
            decreases self.miners.len() - i,
        {
            assert(self.miners@[i as int] == old(self).miners@[i as int]);
            assert(self.plugs@[i as int] == old(self).plugs@[i as int]);
            if lost {
                self.miners[i].set_target(false);
            }
            let watch = self.guards[self.miners[i].guard].watched(now);
            let included = self.miners[i].included;
            let enabled = self.plugs[i].is_enabled;
            match watch {
                GuardWatch::LongSilent => {
                    if included && enabled {
                        actions.push(Action::PlugCutOff { plug: i });
                    }
                },
                GuardWatch::Recovered => {
                    if included && !enabled {
                        actions.push(Action::PlugEnable { plug: i });
                        actions.push(Action::Subscribe { miner: i });
                        actions.push(
                            Action::GuardCommand { miner: i, command: MinerCommand::StateReport },
                        );
                        self.miners[i].ask(now);
                    }
                },
                GuardWatch::Live => {
                    if included {
                        if is_overdue(now, self.plugs[i].last_seen, PLUG_SILENCE) {
                            self.plugs[i].state = DeviceState::Inaccessible;
                        } else if self.plugs[i].state == DeviceState::Inaccessible {
                            self.plugs[i].state = DeviceState::Available;
                        }
                        let effect = self.miners[i].watchdog(enabled, now);
                        push_effect(&mut actions, i, effect);
                    }
                },
                _ => {},
            }
            assert(actions@ =~= old(self)@.watchdog_actions(now, i as int) + old(
                self,
            )@.miner_watchdog_actions(i as int, now));
            i = i + 1;
        }
        let mut g: usize = 0;
        while g < self.guards.len()
            invariant
                g <= self.guards.len(),
                self.guards.len() == old(self).guards.len(),
                forall|j: int|
                    0 <= j < g ==> (#[trigger] self.guards@[j]) == old(self).guards@[j].after_watchdog(
                        now,
                    ),
                forall|j: int|
                    g <= j < self.guards.len() ==> (#[trigger] self.guards@[j]) == old(
                        self,
                    ).guards@[j],
                self.miners@ == old(self)@.after_watchdog(now).miners,
                self.plugs@ == old(self)@.after_watchdog(now).plugs,
                self.switchboard == old(self).switchboard,
                self.contract == old(self).contract,
                self.mqtt_config == old(self).mqtt_config,
            decreases self.guards.len() - g,
        {
            match self.guards[g].watched(now) {
                GuardWatch::Silent | GuardWatch::LongSilent => {
                    if self.guards[g].state == DeviceState::Available {
                        self.guards[g].state = DeviceState::Inaccessible;
                    }
                },
                GuardWatch::Recovered => {
                    self.guards[g].state = DeviceState::Available;
                },
                _ => {},
            }
            g = g + 1;
        }
        if silent {
            if self.switchboard.state == DeviceState::Available {
                self.switchboard.state = DeviceState::Inaccessible;
            }
        } else if self.switchboard.state == DeviceState::Inaccessible {
            self.switchboard.state = DeviceState::Available;
        }
        assert(self@.guards =~= old(self)@.after_watchdog(now).guards);
        actions
    }
}

} // verus!
