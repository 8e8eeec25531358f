//! The life of a single miner: how its state, its target and the time of
//! its last command change when a guard reports, when a user steps in and
//! when the watchdog looks at it.
//!
//! Every step keeps `Miner::consistent`.

use vstd::prelude::*;
use crate::structs::{CommandStatus, Miner, MinerAlert, MinerCommand, MinerState};

verus! {

/// How long a miner may stay in `Starting`, in milliseconds.
pub const STARTING_TIMEOUT: i64 = 7_000;

pub const STOPPING_TIMEOUT: i64 = 130_000;

pub const HARD_STOPPING_TIMEOUT: i64 = 12_000;

pub const RESTARTING_TIMEOUT: i64 = 12_000;

pub const HARD_RESTARTING_TIMEOUT: i64 = 20_000;

/// How long a state report may be awaited before it is asked for again.
pub const UNDEFINED_TIMEOUT: i64 = 10_000;

/// More than `limit` milliseconds lie between `since` and `now`.
pub open spec fn overdue(now: i64, since: i64, limit: i64) -> bool {
    now - since > limit
}

pub fn is_overdue(now: i64, since: i64, limit: i64) -> (r: bool)
    ensures
        r == overdue(now, since, limit),
{
    (now as i128) - (since as i128) > (limit as i128)
}

/// What has to be sent after a step in a miner's life.
#[derive(Clone, Copy, Debug, PartialEq, Eq, Structural)]
pub struct Effect {
    /// The command for the miner's guard.
    pub command: Option<MinerCommand>,
    /// The relay position to ask of the miner's plug.
    pub relay: Option<bool>,
    /// The plug is off although the miner should draw power.
    pub inconsistent: bool,
}

impl Effect {
    pub open spec fn none() -> Effect {
        Effect { command: None, relay: None, inconsistent: false }
    }

    pub open spec fn command(c: MinerCommand) -> Effect {
        Effect { command: Some(c), relay: None, inconsistent: false }
    }

    pub open spec fn cut() -> Effect {
        Effect { command: None, relay: Some(false), inconsistent: false }
    }

    pub fn nothing() -> (e: Effect)
        ensures
            e == Effect::none(),
    {
        Effect { command: None, relay: None, inconsistent: false }
    }

    pub fn send(c: MinerCommand) -> (e: Effect)
        ensures
            e == Effect::command(c),
    {
        Effect { command: Some(c), relay: None, inconsistent: false }
    }

    pub fn cut_off() -> (e: Effect)
        ensures
            e == Effect::cut(),
    {
        Effect { command: None, relay: Some(false), inconsistent: false }
    }
}

/// The pairs of the state a command was sent in and the state the guard
/// reports with `Done` that complete the command.
pub open spec fn completes(before: MinerState, reported: MinerState) -> bool {
    ||| before == MinerState::Starting && reported == MinerState::Running
    ||| before == MinerState::Stopping && reported == MinerState::PoweredOff
    ||| before == MinerState::HardStopping && reported == MinerState::PoweredOff
    ||| before == MinerState::Restarting && reported == MinerState::Running
    ||| before == MinerState::HardRestarting && reported == MinerState::Running
}

/// The pairs that a guard reports with `Failed` when a miner did not come up.
pub open spec fn aborts(before: MinerState, reported: MinerState) -> bool {
    reported == MinerState::Aborted && (before == MinerState::Starting || before
        == MinerState::Restarting || before == MinerState::HardRestarting)
}

/// The longest that a command may take in the given state, if one is under way.
pub open spec fn timeout_of(state: MinerState) -> Option<i64> {
    match state {
        MinerState::Starting => Some(STARTING_TIMEOUT),
        MinerState::Stopping => Some(STOPPING_TIMEOUT),
        MinerState::HardStopping => Some(HARD_STOPPING_TIMEOUT),
        MinerState::Restarting => Some(RESTARTING_TIMEOUT),
        MinerState::HardRestarting => Some(HARD_RESTARTING_TIMEOUT),
        MinerState::Undefined => Some(UNDEFINED_TIMEOUT),
        _ => None,
    }
}

pub fn timeout(state: MinerState) -> (t: Option<i64>)
    ensures
        t == timeout_of(state),
{
    match state {
        MinerState::Starting => Some(STARTING_TIMEOUT),
        MinerState::Stopping => Some(STOPPING_TIMEOUT),
        MinerState::HardStopping => Some(HARD_STOPPING_TIMEOUT),
        MinerState::Restarting => Some(RESTARTING_TIMEOUT),
        MinerState::HardRestarting => Some(HARD_RESTARTING_TIMEOUT),
        MinerState::Undefined => Some(UNDEFINED_TIMEOUT),
        _ => None,
    }
}

impl Miner {
    /// The miner once its state has been asked of the guard at `now`.
    pub open spec fn asked(self, now: i64) -> Miner {
        Miner { state: MinerState::Undefined, command_ts: Some(now), ..self }
    }

    /// The miner once it has been found in a terminal state.
    pub open spec fn ended(self, state: MinerState) -> Miner {
        Miner {
            state,
            target_state: Some(MinerState::PoweredOff),
            command_ts: None,
            ..self
        }
    }

    /// The miner after its guard raised `alert`.
    pub open spec fn after_alert(self, alert: MinerAlert) -> Miner {
        if !self.included {
            self
        } else {
            match alert {
                MinerAlert::PoweredOff => self.ended(MinerState::Aborted),
                MinerAlert::PoweredOn => self.ended(MinerState::Unreachable),
            }
        }
    }

    pub open spec fn alert_effect(self, alert: MinerAlert) -> Effect {
        if self.included && alert == MinerAlert::PoweredOn {
            Effect::cut()
        } else {
            Effect::none()
        }
    }

    /// The miner after its guard answered a command with `status` and the
    /// state `reported`.
    pub open spec fn after_command(
        self,
        status: CommandStatus,
        reported: MinerState,
        now: i64,
    ) -> Miner {
        if !self.included {
            self
        } else {
            match status {
                CommandStatus::Done => if completes(self.state, reported) {
                    Miner { state: reported, command_ts: None, ..self }
                } else {
                    self.asked(now)
                },
                CommandStatus::Failed => if reported == MinerState::Unreachable && self.state
                    == MinerState::Stopping {
                    Miner { state: MinerState::HardStopping, command_ts: Some(now), ..self }
                } else if reported == MinerState::Unreachable && self.state
                    == MinerState::HardStopping {
                    self.ended(MinerState::Unreachable)
                } else if aborts(self.state, reported) {
                    self.ended(MinerState::Aborted)
                } else {
                    self.asked(now)
                },
                _ => self,
            }
        }
    }

    pub open spec fn command_effect(self, status: CommandStatus, reported: MinerState) -> Effect {
        if !self.included {
            Effect::none()
        } else {
            match status {
                CommandStatus::Done => if completes(self.state, reported) {
                    Effect::none()
                } else {
                    Effect::command(MinerCommand::StateReport)
                },
                CommandStatus::Failed => if reported == MinerState::Unreachable && self.state
                    == MinerState::Stopping {
                    Effect::command(MinerCommand::HardStop)
                } else if reported == MinerState::Unreachable && self.state
                    == MinerState::HardStopping {
                    Effect::cut()
                } else if aborts(self.state, reported) {
                    Effect::none()
                } else {
                    Effect::command(MinerCommand::StateReport)
                },
                _ => Effect::none(),
            }
        }
    }

    /// The miner after its guard reported the state `reported`. A report is
    /// taken only while the state is not known.
    pub open spec fn after_state_report(self, reported: MinerState, now: i64) -> Miner {
        if reported == MinerState::Undefined || !self.included || self.state
            != MinerState::Undefined {
            self
        } else if reported.is_terminal() {
            self.ended(reported)
        } else if reported.is_steady() {
            Miner { state: reported, command_ts: None, ..self }
        } else {
            Miner { state: reported, command_ts: Some(now), ..self }
        }
    }

    /// The miner after a user took it out of service.
    pub open spec fn after_exclude(self, now: i64) -> Miner {
        if self.included {
            Miner { included: false, ..self.asked(now) }
        } else {
            self
        }
    }

    /// The miner after a user put it back into service.
    pub open spec fn after_include(self, now: i64) -> Miner {
        if !self.included {
            Miner { included: true, target_state: None, ..self.asked(now) }
        } else {
            self
        }
    }

    /// The miner with the target that the scheduler chose. A miner in a
    /// terminal state keeps the target `PoweredOff`.
    pub open spec fn with_target(self, run: bool) -> Miner {
        if run && !self.state.is_terminal() {
            Miner { target_state: Some(MinerState::Running), ..self }
        } else {
            Miner { target_state: Some(MinerState::PoweredOff), ..self }
        }
    }

    /// The miner with the draw that its plug measured.
    pub open spec fn with_power(self, watts: u32) -> Miner {
        Miner { power_consumption: Some(watts), ..self }
    }

    /// A command is under way for longer than its state allows.
    pub open spec fn timed_out(self, now: i64) -> bool {
        self.command_ts is Some && timeout_of(self.state) is Some && overdue(
            now,
            self.command_ts->0,
            timeout_of(self.state)->0,
        )
    }

    /// The miner after the watchdog looked at it at `now`; the miner is in
    /// service and its guard is available.
    pub open spec fn after_watchdog(self, now: i64) -> Miner {
        if self.state == MinerState::PoweredOff && self.target_state == Some(MinerState::Running) {
            Miner { state: MinerState::Starting, command_ts: Some(now), ..self }
        } else if self.state == MinerState::Running && self.target_state == Some(
            MinerState::PoweredOff,
        ) {
            Miner { state: MinerState::Stopping, command_ts: Some(now), ..self }
        } else if self.timed_out(now) {
            self.asked(now)
        } else {
            self
        }
    }

    /// What the watchdog sends for the miner, given the relay position that
    /// the miner's plug reported last.
    pub open spec fn watchdog_effect(self, plug_enabled: bool, now: i64) -> Effect {
        let command = if self.state == MinerState::PoweredOff && self.target_state == Some(
            MinerState::Running,
        ) {
            Some(MinerCommand::PowerOn)
        } else if self.state == MinerState::Running && self.target_state == Some(
            MinerState::PoweredOff,
        ) {
            Some(MinerCommand::PowerOff)
        } else if self.timed_out(now) {
            Some(MinerCommand::StateReport)
        } else {
            None
        };
        let relay = if !plug_enabled && self.target_state == Some(MinerState::Running) {
            Some(true)
        } else if plug_enabled && self.state == MinerState::Unreachable {
            Some(false)
        } else {
            None
        };
        let inconsistent = !plug_enabled && !(self.state == MinerState::PoweredOff
            || self.state.is_terminal());
        Effect { command, relay, inconsistent }
    }

    /// Tells whether the miner is consistent.
    pub fn is_consistent(&self) -> (r: bool)
        ensures
            r == self.consistent(),
    {
        let target_is_legal = match self.target_state {
            None => true,
            Some(MinerState::Running) => true,
            Some(MinerState::PoweredOff) => true,
            _ => false,
        };
        let target_is_off = match self.target_state {
            Some(MinerState::PoweredOff) => true,
            _ => false,
        };
        target_is_legal && (!self.state.terminal() || target_is_off) && self.state.steady()
            == self.command_ts.is_none()
    }

    pub fn ask(&mut self, now: i64)
        requires
            old(self).consistent(),
        ensures
            *final(self) == old(self).asked(now),
            final(self).consistent(),
    {
        self.state = MinerState::Undefined;
        self.command_ts = Some(now);
    }

    fn end(&mut self, state: MinerState)
        requires
            old(self).target_is_legal(),
            state.is_terminal(),
        ensures
            *final(self) == old(self).ended(state),
            final(self).consistent(),
    {
        self.state = state;
        self.target_state = Some(MinerState::PoweredOff);
        self.command_ts = None;
    }

    pub fn on_alert(&mut self, alert: MinerAlert) -> (effect: Effect)
        requires
            old(self).consistent(),
        ensures
            *final(self) == old(self).after_alert(alert),
            effect == old(self).alert_effect(alert),
            final(self).consistent(),
    {
        if !self.included {
            return Effect::nothing();
        }
        match alert {
            MinerAlert::PoweredOff => {
                self.end(MinerState::Aborted);
                Effect::nothing()
            },
            MinerAlert::PoweredOn => {
                self.end(MinerState::Unreachable);
                Effect::cut_off()
            },
        }
    }

    pub fn on_command(&mut self, status: CommandStatus, reported: MinerState, now: i64) -> (effect:
        Effect)
        requires
            old(self).consistent(),
        ensures
            *final(self) == old(self).after_command(status, reported, now),
            effect == old(self).command_effect(status, reported),
            final(self).consistent(),
    {
        if !self.included {
            return Effect::nothing();
        }
        match status {
            CommandStatus::Done => {
                let done = match (self.state, reported) {
                    (MinerState::Starting, MinerState::Running)
                    | (MinerState::Stopping, MinerState::PoweredOff)
                    | (MinerState::HardStopping, MinerState::PoweredOff)
                    | (MinerState::Restarting, MinerState::Running)
                    | (MinerState::HardRestarting, MinerState::Running) => true,
                    _ => false,
                };
                if done {
                    self.state = reported;
                    self.command_ts = None;
                    Effect::nothing()
                } else {
                    self.ask(now);
                    Effect::send(MinerCommand::StateReport)
                }
            },
            CommandStatus::Failed => {
                match (self.state, reported) {
                    (MinerState::Stopping, MinerState::Unreachable) => {
                        self.state = MinerState::HardStopping;
                        self.command_ts = Some(now);
                        Effect::send(MinerCommand::HardStop)
                    },
                    (MinerState::HardStopping, MinerState::Unreachable) => {
                        self.end(MinerState::Unreachable);
                        Effect::cut_off()
                    },
                    (MinerState::Starting, MinerState::Aborted)
                    | (MinerState::Restarting, MinerState::Aborted)
                    | (MinerState::HardRestarting, MinerState::Aborted) => {
                        self.end(MinerState::Aborted);
                        Effect::nothing()
                    },
                    _ => {
                        self.ask(now);
                        Effect::send(MinerCommand::StateReport)
                    },
                }
            },
            _ => Effect::nothing(),
        }
    }

    pub fn on_state_report(&mut self, reported: MinerState, now: i64)
        requires
            old(self).consistent(),
        ensures
            *final(self) == old(self).after_state_report(reported, now),
            final(self).consistent(),
    {
        if reported == MinerState::Undefined || !self.included || self.state
            != MinerState::Undefined {
            return ;
        }
        if reported.terminal() {
            self.end(reported);
        } else if reported.steady() {
            self.state = reported;
            self.command_ts = None;
        } else {
            self.state = reported;
            self.command_ts = Some(now);
        }
    }

    /// Takes the miner out of service; tells whether anything changed.
    pub fn exclude(&mut self, now: i64) -> (changed: bool)
        requires
            old(self).consistent(),
        ensures
            *final(self) == old(self).after_exclude(now),
            changed == old(self).included,
            final(self).consistent(),
    {
        if self.included {
            self.ask(now);
            self.included = false;
            true
        } else {
            false
        }
    }

    /// Puts the miner back into service; tells whether anything changed.
    pub fn reinclude(&mut self, now: i64) -> (changed: bool)
        requires
            old(self).consistent(),
        ensures
            *final(self) == old(self).after_include(now),
            changed == !old(self).included,
            final(self).consistent(),
    {
        if !self.included {
            self.ask(now);
            self.included = true;
            self.target_state = None;
            true
        } else {
            false
        }
    }

    pub fn set_target(&mut self, run: bool)
        requires
            old(self).consistent(),
        ensures
            *final(self) == old(self).with_target(run),
            final(self).consistent(),
    {
        if run && !self.state.terminal() {
            self.target_state = Some(MinerState::Running);
        } else {
            self.target_state = Some(MinerState::PoweredOff);
        }
    }

    pub fn record_power(&mut self, watts: u32)
        requires
            old(self).consistent(),
        ensures
            *final(self) == old(self).with_power(watts),
            final(self).consistent(),
    {
        self.power_consumption = Some(watts);
    }

    /// The watchdog's look at a miner in service under an available guard.
    /// A power-on command leaves the miner in `Starting` with the command's
    /// time kept.
    pub fn watchdog(&mut self, plug_enabled: bool, now: i64) -> (effect: Effect)
        requires
            old(self).consistent(),
        ensures
            *final(self) == old(self).after_watchdog(now),
            effect == old(self).watchdog_effect(plug_enabled, now),
            final(self).consistent(),
            effect.command == Some(MinerCommand::PowerOn) ==> final(self).state
                == MinerState::Starting && final(self).command_ts is Some,
    {
        let relay = if !plug_enabled && self.target_state == Some(MinerState::Running) {
            Some(true)
        } else if plug_enabled && self.state == MinerState::Unreachable {
            Some(false)
        } else {
            None
        };
        let inconsistent = !plug_enabled && !(self.state == MinerState::PoweredOff
            || self.state.terminal());
        let overdue_now = match (self.command_ts, timeout(self.state)) {
            (Some(since), Some(limit)) => is_overdue(now, since, limit),
            _ => false,
        };
        let command = if self.state == MinerState::PoweredOff && self.target_state == Some(
            MinerState::Running,
        ) {
            self.state = MinerState::Starting;
            self.command_ts = Some(now);
            Some(MinerCommand::PowerOn)
        } else if self.state == MinerState::Running && self.target_state == Some(
            MinerState::PoweredOff,
        ) {
            self.state = MinerState::Stopping;
            self.command_ts = Some(now);
            Some(MinerCommand::PowerOff)
        } else if overdue_now {
            self.ask(now);
            Some(MinerCommand::StateReport)
        } else {
            None
        };
        Effect { command, relay, inconsistent }
    }
}

} // verus!
