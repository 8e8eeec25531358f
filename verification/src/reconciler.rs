//! The reconciler: the one owner of the system's state. It takes the
//! listeners' messages one by one, and on every timeout it runs the
//! watchdog and, once enough switchboard readings have come in, the
//! scheduler. What has to be published or stored it hands back to its
//! caller.

use vstd::prelude::*;
use crate::billing::{month_at, month_of, BillingPeriod, YearMonth};
use crate::scheduler::outlook::Accounts;
use crate::scheduler::{plan, schedule, Outlook};
use crate::structs::{DeviceState, EnergyData, Message};
use crate::system::{miner_ids, position, Action, Devices, System};

verus! {

/// The number of switchboard readings that a scheduling decision waits for.
pub const MIN_READINGS: u64 = 5;

/// How long before the end of the billing period the reconciler stops, in
/// milliseconds.
pub const ROLLOVER_MARGIN: i64 = 60_000;

pub open spec fn sat_add(a: u64, b: u64) -> u64 {
    if a + b > u64::MAX {
        u64::MAX
    } else {
        (a + b) as u64
    }
}

pub open spec fn sat_sub(a: u64, b: u64) -> u64 {
    if a < b {
        0
    } else {
        (a - b) as u64
    }
}

pub open spec fn lesser(a: u64, b: u64) -> u64 {
    if a < b {
        a
    } else {
        b
    }
}

/// `a` with `x` added on phase `p`.
pub open spec fn added_on(a: [u64; 3], p: int, x: u64) -> [u64; 3] {
    [
        if p == 0 {
            sat_add(a[0], x)
        } else {
            a[0]
        },
        if p == 1 {
            sat_add(a[1], x)
        } else {
            a[1]
        },
        if p == 2 {
            sat_add(a[2], x)
        } else {
            a[2]
        },
    ]
}

/// `a` and `b` added phase by phase.
pub open spec fn added(a: [u64; 3], b: [u64; 3]) -> [u64; 3] {
    [sat_add(a[0], b[0]), sat_add(a[1], b[1]), sat_add(a[2], b[2])]
}

/// `a` less `b`, phase by phase; 0 where `b` is the greater.
pub open spec fn reduced(a: [u64; 3], b: [u64; 3]) -> [u64; 3] {
    [sat_sub(a[0], b[0]), sat_sub(a[1], b[1]), sat_sub(a[2], b[2])]
}

/// The whole seconds from the instant `from` to the instant `to`, both in
/// milliseconds; 0 where `to` is not the later.
pub open spec fn seconds_between(from: i64, to: i64) -> u64 {
    if to > from {
        ((to - from) / 1000) as u64
    } else {
        0
    }
}

pub fn seconds_from(from: i64, to: i64) -> (s: u64)
    ensures
        s == seconds_between(from, to),
{
    if to > from {
        (((to as i128) - (from as i128)) / 1000) as u64
    } else {
        0
    }
}

fn add_each(a: &[u64; 3], b: &[u64; 3]) -> (r: [u64; 3])
    ensures
        r == added(*a, *b),
{
    let r = [a[0].saturating_add(b[0]), a[1].saturating_add(b[1]), a[2].saturating_add(b[2])];
    assert(r@ =~= added(*a, *b)@);
    r
}

fn reduce_each(a: &[u64; 3], b: &[u64; 3]) -> (r: [u64; 3])
    ensures
        r == reduced(*a, *b),
{
    let r = [a[0].saturating_sub(b[0]), a[1].saturating_sub(b[1]), a[2].saturating_sub(b[2])];
    assert(r@ =~= reduced(*a, *b)@);
    r
}

/// `a` with `x` added on phase `p`; the sum stops at the highest number.
pub fn add_on(a: &[u64; 3], p: u8, x: u64) -> (r: [u64; 3])
    requires
        p < 3,
    ensures
        r == added_on(*a, p as int, x),
{
    let mut r = *a;
    r[p as usize] = a[p as usize].saturating_add(x);
    assert(r@ =~= added_on(*a, p as int, x)@);
    r
}

/// The energy accounts that the reconciler keeps between two messages.
/// Meter totals are watt hours, everything else watt minutes.
#[derive(Clone, Copy, Debug)]
pub struct Counters {
    /// The meter totals when the billing period started.
    pub start_consumed: [u64; 3],
    pub start_returned: [u64; 3],
    /// The meter totals of the latest reading.
    pub actual_consumed: [u64; 3],
    pub actual_returned: [u64; 3],
    /// What the miners consumed since the period started.
    pub miners_consumed: [u64; 3],
    /// What the miners drew from the grid since the period started.
    pub miners_grid_consumed: [u64; 3],
    /// What the miners consumed since the last decision.
    pub last_miners_consumed: [u64; 3],
    /// What was drawn from and returned to the grid since the last decision.
    pub last_switchboard_consumed: [u64; 3],
    pub last_switchboard_returned: [u64; 3],
    /// The switchboard readings since the last decision.
    pub switchboard_received_msgs: u64,
    /// The reconciler's clock at the last decision, in milliseconds.
    pub last_scheduling: u64,
}

impl Counters {
    /// The accounts after a miner on phase `p` consumed `ec`.
    pub open spec fn with_miner_energy(self, p: int, ec: u64) -> Counters {
        Counters {
            miners_consumed: added_on(self.miners_consumed, p, ec),
            last_miners_consumed: added_on(self.last_miners_consumed, p, ec),
            ..self
        }
    }

    /// The accounts after a reading of the switchboard.
    pub open spec fn with_reading(
        self,
        ec: [u64; 3],
        er: [u64; 3],
        tc: [u64; 3],
        tr: [u64; 3],
    ) -> Counters {
        Counters {
            last_switchboard_consumed: added(self.last_switchboard_consumed, ec),
            last_switchboard_returned: added(self.last_switchboard_returned, er),
            actual_consumed: tc,
            actual_returned: tr,
            switchboard_received_msgs: sat_add(self.switchboard_received_msgs, 1),
            ..self
        }
    }

    /// What the miners on phase `p` drew from the grid since the last
    /// decision: what they consumed, but no more than the phase drew.
    pub open spec fn grid_share(self, p: int) -> u64 {
        lesser(self.last_miners_consumed[p], self.last_switchboard_consumed[p])
    }

    /// The accounts once the miners' draw from the grid has been booked.
    pub open spec fn with_grid_share(self) -> Counters {
        Counters {
            miners_grid_consumed: added(
                self.miners_grid_consumed,
                [self.grid_share(0), self.grid_share(1), self.grid_share(2)],
            ),
            ..self
        }
    }

    /// The accounts as a decision at `monotonic` leaves them for the next.
    pub open spec fn restarted(self, monotonic: u64) -> Counters {
        Counters {
            last_miners_consumed: [0, 0, 0],
            last_switchboard_consumed: [0, 0, 0],
            last_switchboard_returned: [0, 0, 0],
            switchboard_received_msgs: 0,
            last_scheduling: monotonic,
            ..self
        }
    }

    /// What the scheduler is told of the accounts.
    pub open spec fn accounts(
        self,
        period_start: i64,
        period_end: i64,
        now: i64,
        monotonic: u64,
        recovery_ratio: u32,
        month: Option<YearMonth>,
    ) -> Accounts {
        Accounts {
            total_consumed: reduced(self.actual_consumed, self.start_consumed),
            total_returned: reduced(self.actual_returned, self.start_returned),
            miners_grid_consumed: self.miners_grid_consumed,
            last_consumed: self.last_switchboard_consumed,
            last_returned: self.last_switchboard_returned,
            last_miners_consumed: self.last_miners_consumed,
            elapsed: sat_sub(monotonic, self.last_scheduling),
            since_period_start: seconds_between(period_start, now),
            until_period_end: seconds_between(now, period_end),
            recovery_ratio,
            month: match month {
                Some(m) => m.month,
                None => 0,
            },
        }
    }
}

/// What accounts allow; accounts out of range allow nothing.
pub open spec fn outlook_of(a: Accounts) -> Outlook {
    if a.valid() {
        Outlook {
            exhausted: a.exhausted(),
            effective_power: a.effective_power(),
            phase_caps: [a.phase_cap(0), a.phase_cap(1), a.phase_cap(2)],
            production: [
                a.effective_production(0),
                a.effective_production(1),
                a.effective_production(2),
            ],
        }
    } else {
        Outlook { exhausted: true, effective_power: 0, phase_caps: [0, 0, 0], production: [0, 0, 0] }
    }
}

pub fn outlook_for(a: &Accounts) -> (o: Outlook)
    ensures
        o == outlook_of(*a),
{
    if a.is_valid() {
        let o = a.outlook();
        assert(o.phase_caps =~= outlook_of(*a).phase_caps);
        assert(o.production =~= outlook_of(*a).production);
        o
    } else {
        let o = Outlook {
            exhausted: true,
            effective_power: 0,
            phase_caps: [0, 0, 0],
            production: [0, 0, 0],
        };
        assert(o.phase_caps =~= outlook_of(*a).phase_caps);
        assert(o.production =~= outlook_of(*a).production);
        o
    }
}

/// How the reconciler goes on after a timeout.
#[derive(Clone, Copy, Debug, PartialEq, Eq, Structural)]
pub enum Verdict {
    Continue,
    /// The billing period is about to end: stop, and start anew in the next.
    Rollover,
    /// A worker has stopped: shut down.
    Failure,
}

/// What a timeout leaves for the reconciler's caller to do.
#[derive(Debug)]
pub struct Tick {
    pub actions: Vec<Action>,
    /// The rows to store of what the miners drew from the grid.
    pub rows: Vec<EnergyData>,
    pub verdict: Verdict,
}

/// The reconciler's state as a mathematical value.
pub struct State {
    pub devices: Devices,
    pub counters: Counters,
    pub period: BillingPeriod,
    /// The first instant of the period and the first after it.
    pub period_start: i64,
    pub period_end: i64,
}

/// A timeout's outcome as a mathematical value.
pub struct Outcome {
    pub state: State,
    pub actions: Seq<Action>,
    pub rows: Seq<EnergyData>,
    pub verdict: Verdict,
}

impl Devices {
    pub open spec fn with_all_targets_off(self) -> Devices {
        Devices {
            miners: Seq::new(self.miners.len(), |i: int| self.miners[i].with_target(false)),
            ..self
        }
    }
}

impl State {
    pub open spec fn with_devices(self, devices: Devices) -> State {
        State { devices, ..self }
    }

    /// The state after a message handled at `now`.
    pub open spec fn after_message(self, msg: Message, now: i64) -> State {
        match msg {
            Message::Energy(EnergyData::Miner { name, ec, power, .. }) => match position(
                miner_ids(self.devices.miners),
                name@,
            ) {
                Some(m) => State {
                    devices: self.devices.after_miner_power(name@, power),
                    counters: self.counters.with_miner_energy(
                        self.devices.miners[m].phase as int,
                        ec,
                    ),
                    ..self
                },
                None => self,
            },
            Message::Energy(EnergyData::Switchboard { ts, ec, er, tc, tr }) => State {
                devices: self.devices.after_switchboard_seen(ts),
                counters: self.counters.with_reading(ec, er, tc, tr),
                ..self
            },
            Message::Energy(EnergyData::MinersGrid { .. }) => self,
            Message::Guard { guard_id, ts, data } => self.with_devices(
                self.devices.after_guard_msg(guard_id@, ts, data, now),
            ),
            Message::Plug { plug_id, ts, is_on } => self.with_devices(
                self.devices.after_plug_msg(plug_id@, ts, is_on),
            ),
            Message::User { miner_id, command } => self.with_devices(
                self.devices.after_user_command(miner_id@, command, now),
            ),
        }
    }

    /// What is to be done after a message.
    pub open spec fn message_actions(self, msg: Message) -> Seq<Action> {
        match msg {
            Message::Guard { guard_id, ts, data } => self.devices.guard_msg_actions(guard_id@, data),
            Message::User { miner_id, command } => self.devices.user_command_actions(
                miner_id@,
                command,
            ),
            _ => Seq::empty(),
        }
    }

    /// The rows that book what the miners drew from the grid.
    pub open spec fn grid_rows(self, now: i64) -> Seq<EnergyData> {
        seq![
            EnergyData::MinersGrid { ts: now, ec: self.counters.grid_share(0), phase: 0 },
            EnergyData::MinersGrid { ts: now, ec: self.counters.grid_share(1), phase: 1 },
            EnergyData::MinersGrid { ts: now, ec: self.counters.grid_share(2), phase: 2 },
        ]
    }

    /// The reconciler stops for the rollover within a minute of the
    /// period's end.
    pub open spec fn verdict_at(self, now: i64) -> Verdict {
        if self.period_end - now < ROLLOVER_MARGIN {
            Verdict::Rollover
        } else {
            Verdict::Continue
        }
    }

    /// The outcome of a timeout at the instant `now` of the wall clock and
    /// `monotonic` of the reconciler's own, in the calendar month `month`.
    ///
    /// With a worker down, nothing is done. Else the watchdog runs. If the
    /// switchboard is not available after that, every miner gets the
    /// target `PoweredOff` and the accounts start anew. If it is, and
    /// enough readings have come in, the miners' draw from the grid is
    /// booked, the scheduler decides, the accounts start anew, the
    /// decision becomes the miners' targets and the watchdog runs again.
    pub open spec fn after_timeout(
        self,
        now: i64,
        monotonic: u64,
        workers_running: bool,
        month: Option<YearMonth>,
    ) -> Outcome {
        if !workers_running {
            Outcome {
                state: self,
                actions: Seq::empty(),
                rows: Seq::empty(),
                verdict: Verdict::Failure,
            }
        } else {
            let watched = self.devices.after_watchdog(now);
            let first = self.devices.watchdog_actions(now, self.devices.miners.len() as int);
            if watched.switchboard.state != DeviceState::Available {
                Outcome {
                    state: State {
                        devices: watched.with_all_targets_off(),
                        counters: self.counters.restarted(monotonic),
                        ..self
                    },
                    actions: first,
                    rows: Seq::empty(),
                    verdict: self.verdict_at(now),
                }
            } else if self.counters.switchboard_received_msgs >= MIN_READINGS {
                let booked = self.counters.with_grid_share();
                let accounts = booked.accounts(
                    self.period_start,
                    self.period_end,
                    now,
                    monotonic,
                    self.devices.contract.recovery_ratio,
                    month,
                );
                let decision = plan(watched.candidates(), outlook_of(accounts));
                let decided = watched.after_schedule(decision.run, decision.stop);
                Outcome {
                    state: State {
                        devices: decided.after_watchdog(now),
                        counters: booked.restarted(monotonic),
                        ..self
                    },
                    actions: first + decided.watchdog_actions(now, decided.miners.len() as int),
                    rows: self.grid_rows(now),
                    verdict: self.verdict_at(now),
                }
            } else {
                Outcome {
                    state: self.with_devices(watched),
                    actions: first,
                    rows: Seq::empty(),
                    verdict: self.verdict_at(now),
                }
            }
        }
    }
}

/// The reconciler.
#[derive(Debug)]
pub struct Reconciler {
    pub(crate) system: System,
    pub(crate) counters: Counters,
    pub(crate) period: BillingPeriod,
    pub(crate) period_start: i64,
    pub(crate) period_end: i64,
}

impl View for Reconciler {
    type V = State;

    open(crate) spec fn view(&self) -> State {
        State {
            devices: self.system@,
            counters: self.counters,
            period: self.period,
            period_start: self.period_start,
            period_end: self.period_end,
        }
    }
}

impl Reconciler {
    pub open spec fn wf(&self) -> bool {
        self@.devices.wf()
    }

    /// A reconciler for `system` in the billing period `period`, which
    /// lasts from the instant `period_start` to the instant `period_end`.
    /// The meter stood at `start_consumed` and `start_returned` when the
    /// period started; since then the miners consumed `miners_consumed`,
    /// of which `miners_grid_consumed` came from the grid.
    pub fn new(
        system: System,
        period: BillingPeriod,
        period_start: i64,
        period_end: i64,
        start_consumed: [u64; 3],
        start_returned: [u64; 3],
        miners_consumed: [u64; 3],
        miners_grid_consumed: [u64; 3],
        monotonic: u64,
    ) -> (r: Reconciler)
        requires
            system.wf(),
        ensures
            r.wf(),
            r@.devices == system@,
            r@.period == period,
            r@.period_start == period_start,
            r@.period_end == period_end,
            r@.counters == (Counters {
                start_consumed,
                start_returned,
                actual_consumed: [0, 0, 0],
                actual_returned: [0, 0, 0],
                miners_consumed,
                miners_grid_consumed,
                last_miners_consumed: [0, 0, 0],
                last_switchboard_consumed: [0, 0, 0],
                last_switchboard_returned: [0, 0, 0],
                switchboard_received_msgs: 0,
                last_scheduling: monotonic,
            }),
    {
        Reconciler {
            system,
            counters: Counters {
                start_consumed,
                start_returned,
                actual_consumed: [0, 0, 0],
                actual_returned: [0, 0, 0],
                miners_consumed,
                miners_grid_consumed,
                last_miners_consumed: [0, 0, 0],
                last_switchboard_consumed: [0, 0, 0],
                last_switchboard_returned: [0, 0, 0],
                switchboard_received_msgs: 0,
                last_scheduling: monotonic,
            },
            period,
            period_start,
            period_end,
        }
    }

    pub fn system(&self) -> (s: &System)
        ensures
            s@ == self@.devices,
    {
        &self.system
    }

    pub fn counters(&self) -> (c: Counters)
        ensures
            c == self@.counters,
    {
        self.counters
    }

    pub fn period(&self) -> (p: BillingPeriod)
        ensures
            p == self@.period,
    {
        self.period
    }

    /// Takes a message of a listener into the state at `now`.
    pub fn on_message(&mut self, msg: &Message, now: i64) -> (actions: Vec<Action>)
        requires
            old(self).wf(),
        ensures
            final(self).wf(),
            final(self)@ == old(self)@.after_message(*msg, now),
            actions@ == old(self)@.message_actions(*msg),
            final(self)@.devices.same_topology(old(self)@.devices),
    {
        match msg {
            Message::Energy(EnergyData::Miner { name, ec, power, .. }) => {
                match self.system.record_miner_power(name.as_str(), *power) {
                    Some(phase) => {
                        self.counters.miners_consumed = add_on(
                            &self.counters.miners_consumed,
                            phase,
                            *ec,
                        );
                        self.counters.last_miners_consumed = add_on(
                            &self.counters.last_miners_consumed,
                            phase,
                            *ec,
                        );
                    },
                    None => {},
                }
                Vec::new()
            },
            Message::Energy(EnergyData::Switchboard { ts, ec, er, tc, tr }) => {
                self.system.switchboard_seen(*ts);
                self.counters.last_switchboard_consumed = add_each(
                    &self.counters.last_switchboard_consumed,
                    ec,
                );
                self.counters.last_switchboard_returned = add_each(
                    &self.counters.last_switchboard_returned,
                    er,
                );
                self.counters.actual_consumed = *tc;
                self.counters.actual_returned = *tr;
                self.counters.switchboard_received_msgs =
                    self.counters.switchboard_received_msgs.saturating_add(1);
                Vec::new()
            },
            Message::Energy(EnergyData::MinersGrid { .. }) => Vec::new(),
            Message::Guard { guard_id, ts, data } => {
                let actions = self.system.handle_guard_msg(guard_id.as_str(), *ts, data, now);
                actions
            },
            Message::Plug { plug_id, ts, is_on } => {
                let _ = self.system.handle_plug_msg(plug_id.as_str(), *ts, *is_on);
                Vec::new()
            },
            Message::User { miner_id, command } => {
                let actions = self.system.handle_user_command(miner_id.as_str(), *command, now);
                actions
            },
        }
    }

    fn accounts_at(&self, now: i64, monotonic: u64, month: Option<YearMonth>) -> (a: Accounts)
        ensures
            a == self@.counters.accounts(
                self@.period_start,
                self@.period_end,
                now,
                monotonic,
                self@.devices.contract.recovery_ratio,
                month,
            ),
    {
        Accounts {
            total_consumed: reduce_each(&self.counters.actual_consumed, &self.counters.start_consumed),
            total_returned: reduce_each(&self.counters.actual_returned, &self.counters.start_returned),
            miners_grid_consumed: self.counters.miners_grid_consumed,
            last_consumed: self.counters.last_switchboard_consumed,
            last_returned: self.counters.last_switchboard_returned,
            last_miners_consumed: self.counters.last_miners_consumed,
            elapsed: monotonic.saturating_sub(self.counters.last_scheduling),
            since_period_start: seconds_from(self.period_start, now),
            until_period_end: seconds_from(now, self.period_end),
            recovery_ratio: self.system.contract.recovery_ratio,
            month: match month {
                Some(m) => m.month,
                None => 0,
            },
        }
    }

    fn restart_counters(&mut self, monotonic: u64)
        ensures
            final(self).counters == old(self).counters.restarted(monotonic),
            final(self).system == old(self).system,
            final(self).period == old(self).period,
            final(self).period_start == old(self).period_start,
            final(self).period_end == old(self).period_end,
    {
        self.counters.last_miners_consumed = [0, 0, 0];
        self.counters.last_switchboard_consumed = [0, 0, 0];
        self.counters.last_switchboard_returned = [0, 0, 0];
        self.counters.switchboard_received_msgs = 0;
        self.counters.last_scheduling = monotonic;
    }

    /// A timeout in the calendar month `month`; see `State::after_timeout`.
    pub fn on_timeout_in_month(
        &mut self,
        now: i64,
        monotonic: u64,
        workers_running: bool,
        month: Option<YearMonth>,
    ) -> (tick: Tick)
        requires
            old(self).wf(),
        ensures
            final(self).wf(),
            final(self)@ == old(self)@.after_timeout(now, monotonic, workers_running, month).state,
            tick.actions@ == old(self)@.after_timeout(now, monotonic, workers_running, month).actions,
            tick.rows@ == old(self)@.after_timeout(now, monotonic, workers_running, month).rows,
            tick.verdict == old(self)@.after_timeout(now, monotonic, workers_running, month).verdict,
            final(self)@.devices.same_topology(old(self)@.devices),
    {
        if !workers_running {
            return Tick { actions: Vec::new(), rows: Vec::new(), verdict: Verdict::Failure };
        }
        let verdict = if (self.period_end as i128) - (now as i128) < (ROLLOVER_MARGIN as i128) {
            Verdict::Rollover
        } else {
            Verdict::Continue
        };
        let mut actions = self.system.validate_devices(now);
        let mut rows: Vec<EnergyData> = Vec::new();
        if self.system.switchboard.state != DeviceState::Available {
            self.system.power_off_all();
            self.restart_counters(monotonic);
        } else if self.counters.switchboard_received_msgs >= MIN_READINGS {
            let c = self.counters;
            let share = [
                if c.last_miners_consumed[0] < c.last_switchboard_consumed[0] {
                    c.last_miners_consumed[0]
                } else {
                    c.last_switchboard_consumed[0]
                },
                if c.last_miners_consumed[1] < c.last_switchboard_consumed[1] {
                    c.last_miners_consumed[1]
                } else {
                    c.last_switchboard_consumed[1]
                },
                if c.last_miners_consumed[2] < c.last_switchboard_consumed[2] {
                    c.last_miners_consumed[2]
                } else {
                    c.last_switchboard_consumed[2]
                },
            ];
            rows.push(EnergyData::MinersGrid { ts: now, ec: share[0], phase: 0 });
            rows.push(EnergyData::MinersGrid { ts: now, ec: share[1], phase: 1 });
            rows.push(EnergyData::MinersGrid { ts: now, ec: share[2], phase: 2 });
            assert(rows@ =~= old(self)@.grid_rows(now));
            self.counters.miners_grid_consumed = add_each(&c.miners_grid_consumed, &share);
            assert(share@ =~= [c.grid_share(0), c.grid_share(1), c.grid_share(2)]@);
            assert(self.counters == c.with_grid_share());
            let candidates = self.system.collect_miners();
            let accounts = self.accounts_at(now, monotonic, month);
            let outlook = outlook_for(&accounts);
            let (run, stop) = schedule(&candidates, &outlook);
            self.restart_counters(monotonic);
            self.system.apply_schedule(&run, &stop);
            let mut more = self.system.validate_devices(now);
            actions.append(&mut more);
        }
        Tick { actions, rows, verdict }
    }

    /// A timeout at the instant `now` of the wall clock and `monotonic` of
    /// the reconciler's own: `on_timeout_in_month` for the calendar month
    /// that `now` lies in.
    pub fn on_timeout(&mut self, now: i64, monotonic: u64, workers_running: bool) -> (tick: Tick)
        requires
            old(self).wf(),
        ensures
            final(self).wf(),
            final(self)@ == old(self)@.after_timeout(
                now,
                monotonic,
                workers_running,
                month_at(now),
            ).state,
            tick.actions@ == old(self)@.after_timeout(
                now,
                monotonic,
                workers_running,
                month_at(now),
            ).actions,
            tick.rows@ == old(self)@.after_timeout(
                now,
                monotonic,
                workers_running,
                month_at(now),
            ).rows,
            tick.verdict == old(self)@.after_timeout(
                now,
                monotonic,
                workers_running,
                month_at(now),
            ).verdict,
            final(self)@.devices.same_topology(old(self)@.devices),
    {
        let month = month_of(now);
        self.on_timeout_in_month(now, monotonic, workers_running, month)
    }
}

impl System {
    /// Gives every miner the target `PoweredOff`.
    pub fn power_off_all(&mut self)
        requires
            old(self).wf(),
        ensures
            final(self).wf(),
            final(self)@ == old(self)@.with_all_targets_off(),
            final(self)@.same_topology(old(self)@),
    {
        let mut i: usize = 0;
        while i < self.miners.len()
            invariant
                i <= self.miners.len(),
                self.miners.len() == old(self).miners.len(),
                self.plugs == old(self).plugs,
                self.guards == old(self).guards,
                self.switchboard == old(self).switchboard,
                self.contract == old(self).contract,
                self.mqtt_config == old(self).mqtt_config,
                old(self).wf(),
                forall|j: int|
                    0 <= j < i ==> (#[trigger] self.miners@[j]) == old(
                        self,
                    ).miners@[j].with_target(false),
                forall|j: int|
                    i <= j < self.miners.len() ==> (#[trigger] self.miners@[j]) == old(
                        self,
                    ).miners@[j],
            decreases self.miners.len() - i,
        {
            self.miners[i].set_target(false);
            i = i + 1;
        }
        assert(self@.miners =~= old(self)@.with_all_targets_off().miners);
    }
}

} // verus!
