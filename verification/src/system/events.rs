//! What the reconciler does with a user's command, with a plug's report of
//! its relay and with the energy records of the listeners.

use vstd::prelude::*;
use crate::structs::{MinerCommand, Plug, Switchboard, UserCommands};
use crate::system::{miner_ids, plug_ids, position, Action, Devices, System};

verus! {

/// The whole watts that cover a draw given in milliwatts.
pub open spec fn whole_watts(milliwatts: u64) -> u32 {
    if (milliwatts + 999) / 1000 > u32::MAX {
        u32::MAX
    } else {
        ((milliwatts + 999) / 1000) as u32
    }
}

/// Rounds a draw in milliwatts up to whole watts.
pub fn watts_from_milliwatts(milliwatts: u64) -> (watts: u32)
    ensures
        watts == whole_watts(milliwatts),
{
    let whole: u64 = milliwatts / 1000 + if milliwatts % 1000 > 0 {
        1u64
    } else {
        0u64
    };
    if whole > 4294967295u64 {
        4294967295u32
    } else {
        whole as u32
    }
}

impl Devices {
    /// The devices after a user's command for the miner named `miner_id`.
    /// A command for an unknown miner, or one that asks for what already
    /// holds, changes nothing.
    pub open spec fn after_user_command(
        self,
        miner_id: Seq<char>,
        command: UserCommands,
        now: i64,
    ) -> Devices {
        match position(miner_ids(self.miners), miner_id) {
            Some(m) => match command {
                UserCommands::Exclude => self.with_miner(m, self.miners[m].after_exclude(now)),
                UserCommands::Include => self.with_miner(m, self.miners[m].after_include(now)),
            },
            None => self,
        }
    }

    /// What is to be done after a user's command: a miner taken out of
    /// service is listened to no longer; one put back is listened to again
    /// and has its state asked for.
    pub open spec fn user_command_actions(
        self,
        miner_id: Seq<char>,
        command: UserCommands,
    ) -> Seq<Action> {
        match position(miner_ids(self.miners), miner_id) {
            Some(m) => match command {
                UserCommands::Exclude => if self.miners[m].included {
                    seq![Action::Unsubscribe { miner: m as usize }]
                } else {
                    Seq::empty()
                },
                UserCommands::Include => if !self.miners[m].included {
                    seq![
                        Action::Subscribe { miner: m as usize },
                        Action::GuardCommand {
                            miner: m as usize,
                            command: MinerCommand::StateReport,
                        },
                    ]
                } else {
                    Seq::empty()
                },
            },
            None => Seq::empty(),
        }
    }

    /// The devices after the plug named `plug_id` reported its relay at `ts`.
    pub open spec fn after_plug_msg(self, plug_id: Seq<char>, ts: i64, is_on: bool) -> Devices {
        match position(plug_ids(self.plugs), plug_id) {
            Some(p) => Devices {
                plugs: self.plugs.update(
                    p,
                    Plug { last_seen: ts, is_enabled: is_on, ..self.plugs[p] },
                ),
                ..self
            },
            None => self,
        }
    }

    /// The devices after the plug of the miner named `name` measured a
    /// draw of `milliwatts`.
    pub open spec fn after_miner_power(self, name: Seq<char>, milliwatts: u64) -> Devices {
        match position(miner_ids(self.miners), name) {
            Some(m) => self.with_miner(m, self.miners[m].with_power(whole_watts(milliwatts))),
            None => self,
        }
    }

    /// The devices after a reading of the switchboard taken at `ts`.
    pub open spec fn after_switchboard_seen(self, ts: i64) -> Devices {
        Devices { switchboard: Switchboard { last_seen: ts, ..self.switchboard }, ..self }
    }
}

impl System {
    /// Takes a user's command for the miner named `miner_id` into the system.
    pub fn handle_user_command(&mut self, miner_id: &str, command: UserCommands, now: i64) -> (actions:
        Vec<Action>)
        requires
            old(self).wf(),
        ensures
            final(self).wf(),
            final(self)@ == old(self)@.after_user_command(miner_id@, command, now),
            actions@ == old(self)@.user_command_actions(miner_id@, command),
            final(self)@.same_topology(old(self)@),
    {
        let mut actions: Vec<Action> = Vec::new();
        match self.find_miner(miner_id) {
            Some(m) => {
                match command {
                    UserCommands::Exclude => {
                        if self.miners[m].exclude(now) {
                            actions.push(Action::Unsubscribe { miner: m });
                        }
                        assert(self@.miners =~= old(self)@.miners.update(
                            m as int,
                            old(self)@.miners[m as int].after_exclude(now),
                        ));
                    },
                    UserCommands::Include => {
                        if self.miners[m].reinclude(now) {
                            actions.push(Action::Subscribe { miner: m });
                            actions.push(
                                Action::GuardCommand {
                                    miner: m,
                                    command: MinerCommand::StateReport,
                                },
                            );
                        }
                        assert(self@.miners =~= old(self)@.miners.update(
                            m as int,
                            old(self)@.miners[m as int].after_include(now),
                        ));
                    },
                }
            },
            None => {},
        }
        actions
    }

    /// Takes a plug's report of its relay into the system; tells whether
    /// the plug is known.
    pub fn handle_plug_msg(&mut self, plug_id: &str, ts: i64, is_on: bool) -> (known: bool)
        requires
            old(self).wf(),
        ensures
            final(self).wf(),
            final(self)@ == old(self)@.after_plug_msg(plug_id@, ts, is_on),
            known == position(plug_ids(old(self)@.plugs), plug_id@) is Some,
            final(self)@.same_topology(old(self)@),
    {
        match self.find_plug(plug_id) {
            Some(p) => {
                self.plugs[p].last_seen = ts;
                self.plugs[p].is_enabled = is_on;
                assert(self@.plugs =~= old(self)@.after_plug_msg(plug_id@, ts, is_on).plugs);
                true
            },
            None => false,
        }
    }

    /// Notes the draw that the plug of the miner named `name` measured;
    /// gives the miner's phase if the miner is known.
    pub fn record_miner_power(&mut self, name: &str, milliwatts: u64) -> (phase: Option<u8>)
        requires
            old(self).wf(),
        ensures
            final(self).wf(),
            final(self)@ == old(self)@.after_miner_power(name@, milliwatts),
            final(self)@.same_topology(old(self)@),
            match position(miner_ids(old(self)@.miners), name@) {
                Some(m) => phase == Some(old(self)@.miners[m].phase),
                None => phase is None,
            },
            phase is Some ==> phase->0 < 3,
    {
        match self.find_miner(name) {
            Some(m) => {
                self.miners[m].record_power(watts_from_milliwatts(milliwatts));
                assert(self@.miners =~= old(self)@.after_miner_power(name@, milliwatts).miners);
                Some(self.miners[m].phase)
            },
            None => None,
        }
    }

    /// Notes that the switchboard gave a reading at `ts`.
    pub fn switchboard_seen(&mut self, ts: i64)
        requires
            old(self).wf(),
        ensures
            final(self).wf(),
            final(self)@ == old(self)@.after_switchboard_seen(ts),
            final(self)@.same_topology(old(self)@),
    {
        self.switchboard.last_seen = ts;
    }
}

} // verus!
