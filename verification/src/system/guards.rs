//! What the reconciler does with a message from a guard.

use vstd::prelude::*;
use crate::structs::{DeviceState, Guard, GuardData, Miner, MinerCommand};
use crate::system::transitions::Effect;
use crate::system::{guard_ids, miner_ids, position, position_is_first, Action, Devices, System};

verus! {

/// What is to be done for the miner at position `m` after a step that had
/// the effect `e`: first the order for the plug, then the note of an
/// inconsistency, then the command for the guard.
pub open spec fn effect_actions(m: int, e: Effect) -> Seq<Action> {
    let relay = match e.relay {
        Some(true) => seq![Action::PlugEnable { plug: m as usize }],
        Some(false) => seq![Action::PlugCutOff { plug: m as usize }],
        None => Seq::<Action>::empty(),
    };
    let note = if e.inconsistent {
        seq![Action::Inconsistent { miner: m as usize }]
    } else {
        Seq::<Action>::empty()
    };
    let command = match e.command {
        Some(c) => seq![Action::GuardCommand { miner: m as usize, command: c }],
        None => Seq::<Action>::empty(),
    };
    relay + note + command
}

pub fn push_effect(actions: &mut Vec<Action>, m: usize, e: Effect)
    ensures
        final(actions)@ == old(actions)@ + effect_actions(m as int, e),
{
    match e.relay {
        Some(true) => actions.push(Action::PlugEnable { plug: m }),
        Some(false) => actions.push(Action::PlugCutOff { plug: m }),
        None => {},
    }
    if e.inconsistent {
        actions.push(Action::Inconsistent { miner: m });
    }
    match e.command {
        Some(c) => actions.push(Action::GuardCommand { miner: m, command: c }),
        None => {},
    }
    assert(actions@ =~= old(actions)@ + effect_actions(m as int, e));
}

/// The requests for a state report to the first `k` miners that sit on the
/// guard at position `g` and are in service.
pub open spec fn state_requests(miners: Seq<Miner>, g: int, k: int) -> Seq<Action>
    decreases k,
{
    if k <= 0 {
        Seq::empty()
    } else if miners[k - 1].guard == g && miners[k - 1].included {
        state_requests(miners, g, k - 1).push(
            Action::GuardCommand { miner: (k - 1) as usize, command: MinerCommand::StateReport },
        )
    } else {
        state_requests(miners, g, k - 1)
    }
}

impl Devices {
    /// The devices once the guard at position `g` was heard at `ts`.
    pub open spec fn with_guard_seen(self, g: int, ts: i64) -> Devices {
        Devices { guards: self.guards.update(g, Guard { last_seen: ts, ..self.guards[g] }), ..self }
    }

    pub open spec fn with_guard_state(self, g: int, state: DeviceState) -> Devices {
        Devices { guards: self.guards.update(g, Guard { state, ..self.guards[g] }), ..self }
    }

    pub open spec fn with_miner(self, m: int, miner: Miner) -> Devices {
        Devices { miners: self.miners.update(m, miner), ..self }
    }

    /// The miner that a message of the guard at position `g` speaks of:
    /// it is known and sits on that guard.
    pub open spec fn miner_of(self, g: int, miner_id: Seq<char>) -> Option<int> {
        match position(miner_ids(self.miners), miner_id) {
            Some(m) => if self.miners[m].guard == g {
                Some(m)
            } else {
                None
            },
            None => None,
        }
    }

    /// The devices once the state of every miner on the guard at position
    /// `g` has been asked for; with `in_service_only`, miners out of
    /// service are left as they are.
    pub open spec fn with_miners_asked(self, g: int, in_service_only: bool, now: i64) -> Devices {
        Devices {
            miners: Seq::new(
                self.miners.len(),
                |i: int|
                    if self.miners[i].guard == g && (self.miners[i].included || !in_service_only) {
                        self.miners[i].asked(now)
                    } else {
                        self.miners[i]
                    },
            ),
            ..self
        }
    }

    /// The devices after a message of the guard named `guard_id`, received
    /// at `ts` and handled at `now`. A message of an unknown guard, or about
    /// a miner that is unknown or sits on another guard, changes nothing
    /// but the time at which the guard was heard.
    pub open spec fn after_guard_msg(
        self,
        guard_id: Seq<char>,
        ts: i64,
        data: GuardData,
        now: i64,
    ) -> Devices {
        match position(guard_ids(self.guards), guard_id) {
            None => self,
            Some(g) => {
                let seen = self.with_guard_seen(g, ts);
                match data {
                    GuardData::Alert { miner_id, alert } => match self.miner_of(g, miner_id@) {
                        Some(m) => seen.with_miner(m, self.miners[m].after_alert(alert)),
                        None => seen,
                    },
                    GuardData::Command { miner_id, command_status, miner_state } => match self.miner_of(
                        g,
                        miner_id@,
                    ) {
                        Some(m) => seen.with_miner(
                            m,
                            self.miners[m].after_command(command_status, miner_state, now),
                        ),
                        None => seen,
                    },
                    GuardData::Configured => if self.guards[g].state == DeviceState::StartingUp {
                        seen.with_guard_state(g, DeviceState::Available).with_miners_asked(
                            g,
                            true,
                            now,
                        )
                    } else {
                        seen
                    },
                    GuardData::Ping => seen,
                    GuardData::Started => seen.with_guard_state(
                        g,
                        DeviceState::StartingUp,
                    ).with_miners_asked(g, false, now),
                    GuardData::State { miner_id, state } => match self.miner_of(g, miner_id@) {
                        Some(m) => seen.with_miner(m, self.miners[m].after_state_report(state, now)),
                        None => seen,
                    },
                }
            },
        }
    }

    /// What is to be done after a message of the guard named `guard_id`.
    pub open spec fn guard_msg_actions(self, guard_id: Seq<char>, data: GuardData) -> Seq<Action> {
        match position(guard_ids(self.guards), guard_id) {
            None => Seq::empty(),
            Some(g) => match data {
                GuardData::Alert { miner_id, alert } => match self.miner_of(g, miner_id@) {
                    Some(m) => effect_actions(m, self.miners[m].alert_effect(alert)),
                    None => Seq::empty(),
                },
                GuardData::Command { miner_id, command_status, miner_state } => match self.miner_of(
                    g,
                    miner_id@,
                ) {
                    Some(m) => effect_actions(
                        m,
                        self.miners[m].command_effect(command_status, miner_state),
                    ),
                    None => Seq::empty(),
                },
                GuardData::Configured => if self.guards[g].state == DeviceState::StartingUp {
                    state_requests(self.miners, g, self.miners.len() as int)
                } else {
                    seq![Action::GuardReset { guard: g as usize }]
                },
                GuardData::Ping => Seq::empty(),
                GuardData::Started => seq![Action::GuardConfig { guard: g as usize }],
                GuardData::State { .. } => Seq::empty(),
            },
        }
    }
}

impl System {
    /// The position of the miner named `miner_id` if it sits on the guard
    /// at position `g`.
    pub fn find_miner_of(&self, g: usize, miner_id: &str) -> (found: Option<usize>)
        ensures
            match found {
                Some(m) => m < self@.miners.len() && self@.miner_of(g as int, miner_id@) == Some(
                    m as int,
                ),
                None => self@.miner_of(g as int, miner_id@) is None,
            },
    {
        match self.find_miner(miner_id) {
            Some(m) => {
                proof {
                    position_is_first(miner_ids(self@.miners), miner_id@);
                }
                if self.miners[m].guard == g {
                    Some(m)
                } else {
                    None
                }
            },
            None => None,
        }
    }

    /// Asks for the state of every miner on the guard at position `g`.
    fn ask_miners(&mut self, g: usize, in_service_only: bool, now: i64) -> (actions: Vec<Action>)
        requires
            old(self).wf(),
        ensures
            final(self).wf(),
            final(self)@ == old(self)@.with_miners_asked(g as int, in_service_only, now),
            actions@ == state_requests(old(self)@.miners, g as int, old(self)@.miners.len() as int),
    {
        let mut actions: Vec<Action> = Vec::new();
        let mut i: usize = 0;
        while i < self.miners.len()
            invariant
                i <= self.miners.len(),
                self.miners.len() == old(self).miners.len(),
                self.plugs == old(self).plugs,
                self.guards == old(self).guards,
                self.switchboard == old(self).switchboard,
                self.contract == old(self).contract,
                self.mqtt_config == old(self).mqtt_config,
                old(self).wf(),
                forall|j: int|
                    0 <= j < i ==> (#[trigger] self.miners@[j]) == old(self)@.with_miners_asked(
                        g as int,
                        in_service_only,
                        now,
                    ).miners[j],
                forall|j: int|
                    i <= j < self.miners.len() ==> (#[trigger] self.miners@[j]) == old(
                        self,
                    ).miners@[j],
                actions@ == state_requests(old(self)@.miners, g as int, i as int),
            decreases self.miners.len() - i,
        {
            if self.miners[i].guard == g {
                if self.miners[i].included {
                    actions.push(
                        Action::GuardCommand { miner: i, command: MinerCommand::StateReport },
                    );
                }
                if self.miners[i].included || !in_service_only {
                    self.miners[i].ask(now);
                }
            }
            i = i + 1;
        }
        assert(self@.miners =~= old(self)@.with_miners_asked(
            g as int,
            in_service_only,
            now,
        ).miners);
        actions
    }

    /// Takes a message of the guard named `guard_id`, received at `ts`, into
    /// the system at `now`, and says what is to be done about it.
    pub fn handle_guard_msg(&mut self, guard_id: &str, ts: i64, data: &GuardData, now: i64) -> (actions:
        Vec<Action>)
        requires
            old(self).wf(),
        ensures
            final(self).wf(),
            final(self)@ == old(self)@.after_guard_msg(guard_id@, ts, *data, now),
            actions@ == old(self)@.guard_msg_actions(guard_id@, *data),
            final(self)@.same_topology(old(self)@),
    {
        let mut actions: Vec<Action> = Vec::new();
        let g = match self.find_guard(guard_id) {
            Some(g) => g,
            None => {
                return actions;
            },
        };
        proof {
            position_is_first(guard_ids(self@.guards), guard_id@);
        }
        self.guards[g].last_seen = ts;
        assert(self@.guards =~= old(self)@.with_guard_seen(g as int, ts).guards);
        match data {
            GuardData::Alert { miner_id, alert } => {
                match self.find_miner_of(g, miner_id.as_str()) {
                    Some(m) => {
                        let effect = self.miners[m].on_alert(*alert);
                        push_effect(&mut actions, m, effect);
                        assert(self@.miners =~= old(self)@.miners.update(
                            m as int,
                            old(self)@.miners[m as int].after_alert(*alert),
                        ));
                    },
                    None => {},
                }
            },
            GuardData::Command { miner_id, command_status, miner_state } => {
                match self.find_miner_of(g, miner_id.as_str()) {
                    Some(m) => {
                        let effect = self.miners[m].on_command(*command_status, *miner_state, now);
                        push_effect(&mut actions, m, effect);
                        assert(self@.miners =~= old(self)@.miners.update(
                            m as int,
                            old(self)@.miners[m as int].after_command(
                                *command_status,
                                *miner_state,
                                now,
                            ),
                        ));
                    },
                    None => {},
                }
            },
            GuardData::Configured => {
                if self.guards[g].state != DeviceState::StartingUp {
                    actions.push(Action::GuardReset { guard: g });
                } else {
                    self.guards[g].state = DeviceState::Available;
                    assert(self@.guards =~= old(self)@.with_guard_seen(
                        g as int,
                        ts,
                    ).with_guard_state(g as int, DeviceState::Available).guards);
                    actions = self.ask_miners(g, true, now);
                }
            },
            GuardData::Ping => {},
            GuardData::Started => {
                self.guards[g].state = DeviceState::StartingUp;
                assert(self@.guards =~= old(self)@.with_guard_seen(g as int, ts).with_guard_state(
                    g as int,
                    DeviceState::StartingUp,
                ).guards);
                let _ = self.ask_miners(g, false, now);
                actions.push(Action::GuardConfig { guard: g });
            },
            GuardData::State { miner_id, state } => {
                match self.find_miner_of(g, miner_id.as_str()) {
                    Some(m) => {
                        self.miners[m].on_state_report(*state, now);
                        assert(self@.miners =~= old(self)@.miners.update(
                            m as int,
                            old(self)@.miners[m as int].after_state_report(*state, now),
                        ));
                    },
                    None => {},
                }
            },
        }
        actions
    }
}

} // verus!
