//! From the energy accounts to what the scheduler may spend.
//!
//! Energy since the start of the billing period is counted in watt hours
//! (meter totals) and watt minutes (increments), time in seconds, the time
//! since the last decision in milliseconds. All results are whole watts.

use vstd::prelude::*;
use crate::scheduler::Outlook;

verus! {

/// The highest meter total that the accounts take, in watt hours.
pub const MAX_TOTAL: u64 = 1_099_511_627_776;

/// The highest sum of increments that the accounts take, in watt minutes.
pub const MAX_INCREMENT: u64 = 70_368_744_177_664;

/// The longest time to either end of the billing period, in seconds.
pub const MAX_SECONDS: u64 = 4_294_967_296;

/// The energy accounts at the time of a decision.
#[derive(Clone, Copy, Debug)]
pub struct Accounts {
    /// Drawn from the grid on each phase since the period started, in watt hours.
    pub total_consumed: [u64; 3],
    /// Returned to the grid on each phase since the period started, in watt hours.
    pub total_returned: [u64; 3],
    /// What the miners drew from the grid since the period started, in watt minutes.
    pub miners_grid_consumed: [u64; 3],
    /// Drawn from the grid since the last decision, in watt minutes.
    pub last_consumed: [u64; 3],
    /// Returned to the grid since the last decision, in watt minutes.
    pub last_returned: [u64; 3],
    /// What the miners consumed since the last decision, in watt minutes.
    pub last_miners_consumed: [u64; 3],
    /// The time since the last decision, in milliseconds.
    pub elapsed: u64,
    /// The time since the billing period started, in seconds.
    pub since_period_start: u64,
    /// The time until the billing period ends, in seconds.
    pub until_period_end: u64,
    /// The share of the returned energy that may be drawn back, in millionths.
    pub recovery_ratio: u32,
    /// The calendar month, 1 to 12.
    pub month: u32,
}

pub open spec fn sum3(a: [u64; 3]) -> int {
    a[0] + a[1] + a[2]
}

pub open spec fn each_at_most(a: [u64; 3], bound: u64) -> bool {
    a[0] <= bound && a[1] <= bound && a[2] <= bound
}

/// The share of a phase's production that miners may use in a calendar
/// month, in hundredths: least in winter, most in summer.
pub open spec fn utilisation(month: u32) -> int {
    if month == 3 || month == 10 {
        55
    } else if month == 4 || month == 9 {
        70
    } else if 5 <= month <= 8 {
        80
    } else {
        40
    }
}

/// `x`, or the highest 64-bit number where `x` is above it.
pub open spec fn capped(x: int) -> u64 {
    if x > u64::MAX {
        u64::MAX
    } else if x < 0 {
        0
    } else {
        x as u64
    }
}

impl Accounts {
    pub open spec fn valid(&self) -> bool {
        &&& each_at_most(self.total_consumed, MAX_TOTAL)
        &&& each_at_most(self.total_returned, MAX_TOTAL)
        &&& each_at_most(self.miners_grid_consumed, MAX_INCREMENT)
        &&& each_at_most(self.last_consumed, MAX_INCREMENT)
        &&& each_at_most(self.last_returned, MAX_INCREMENT)
        &&& each_at_most(self.last_miners_consumed, MAX_INCREMENT)
        &&& self.since_period_start <= MAX_SECONDS
        &&& self.until_period_end <= MAX_SECONDS
        &&& self.recovery_ratio <= 1_000_000
        &&& 1 <= self.month <= 12
    }

    /// A million times the watt hours that may be drawn back from the grid.
    pub open spec fn recoverable(&self) -> int {
        self.recovery_ratio * sum3(self.total_returned)
    }

    /// As much has been drawn from the grid as may be drawn back, or more.
    pub open spec fn exhausted(&self) -> bool {
        sum3(self.total_consumed) * 1_000_000 >= self.recoverable()
    }

    /// What the household without the miners drew from the grid since the
    /// period started, in joules.
    pub open spec fn household(&self) -> int {
        sum3(self.total_consumed) * 3600 - sum3(self.miners_grid_consumed) * 60
    }

    /// The power that may be spent on miners until the period ends is this
    /// number over `surplus_denominator`: what may still be drawn back,
    /// spread over the time left, less the household's average draw.
    pub open spec fn surplus_numerator(&self) -> int {
        self.recoverable() * 3600 * self.since_period_start - self.household() * 1_000_000
            * self.until_period_end
    }

    pub open spec fn surplus_denominator(&self) -> int {
        1_000_000 * self.until_period_end * self.since_period_start
    }

    /// The whole watts that may be spent on miners until the period ends;
    /// 0 where it is less than one watt, or where the period has no time
    /// behind it or none ahead.
    pub open spec fn effective_power(&self) -> u64 {
        if self.since_period_start > 0 && self.until_period_end > 0 && self.surplus_numerator()
            >= self.surplus_denominator() {
            capped(self.surplus_numerator() / self.surplus_denominator())
        } else {
            0
        }
    }

    /// What phase `p` produced since the last decision, in watt minutes:
    /// what it returned and what its miners consumed, less what it drew.
    pub open spec fn produced(&self, p: int) -> int {
        let net = self.last_returned[p] + self.last_miners_consumed[p] - self.last_consumed[p];
        if net > 0 {
            net
        } else {
            0
        }
    }

    /// The whole watts of phase `p`'s latest production that miners may use.
    pub open spec fn effective_production(&self, p: int) -> u64 {
        if self.elapsed > 0 {
            capped(self.produced(p) * 600 * utilisation(self.month) / (self.elapsed as int))
        } else {
            0
        }
    }

    /// The limit of phase `p` while the effective power is spent: the
    /// effective power and nine tenths of the phase's latest production.
    pub open spec fn phase_cap(&self, p: int) -> u64 {
        if self.elapsed > 0 {
            capped(self.effective_power() + self.produced(p) * 54_000 / (self.elapsed as int))
        } else {
            self.effective_power()
        }
    }

    pub fn is_valid(&self) -> (r: bool)
        ensures
            r == self.valid(),
    {
        within(&self.total_consumed, MAX_TOTAL) && within(&self.total_returned, MAX_TOTAL)
            && within(&self.miners_grid_consumed, MAX_INCREMENT) && within(
            &self.last_consumed,
            MAX_INCREMENT,
        ) && within(&self.last_returned, MAX_INCREMENT) && within(
            &self.last_miners_consumed,
            MAX_INCREMENT,
        ) && self.since_period_start <= MAX_SECONDS && self.until_period_end <= MAX_SECONDS
            && self.recovery_ratio <= 1_000_000 && 1 <= self.month && self.month <= 12
    }

    fn produced_on(&self, p: usize) -> (r: u64)
        requires
            self.valid(),
            p < 3,
        ensures
            r == self.produced(p as int),
            r <= 2 * MAX_INCREMENT,
    {
        let gain: u64 = self.last_returned[p] + self.last_miners_consumed[p];
        if gain > self.last_consumed[p] {
            gain - self.last_consumed[p]
        } else {
            0
        }
    }

    fn effective_power_now(&self) -> (r: u64)
        requires
            self.valid(),
        ensures
            r == self.effective_power(),
    {
        if self.since_period_start == 0 || self.until_period_end == 0 {
            return 0;
        }
        let sum_c: i128 = (self.total_consumed[0] + self.total_consumed[1]
            + self.total_consumed[2]) as i128;
        let sum_r: i128 = (self.total_returned[0] + self.total_returned[1]
            + self.total_returned[2]) as i128;
        let sum_g: i128 = (self.miners_grid_consumed[0] + self.miners_grid_consumed[1]
            + self.miners_grid_consumed[2]) as i128;
        let since: i128 = self.since_period_start as i128;
        let until: i128 = self.until_period_end as i128;
        let recoverable: i128 = product(
            self.recovery_ratio as i128,
            sum_r,
            Ghost(1_000_000),
            Ghost(3 * MAX_TOTAL as int),
        );
        let gain: i128 = product(
            recoverable * 3600,
            since,
            Ghost(3600 * 1_000_000 * 3 * MAX_TOTAL as int),
            Ghost(MAX_SECONDS as int),
        );
        let household: i128 = sum_c * 3600 - sum_g * 60;
        let loss: i128 = product(
            household * 1_000_000,
            until,
            Ghost(1_000_000 * 3600 * 3 * MAX_INCREMENT as int),
            Ghost(MAX_SECONDS as int),
        );
        let numerator: i128 = gain - loss;
        let denominator: i128 = product(
            1_000_000 * until,
            since,
            Ghost(1_000_000 * MAX_SECONDS as int),
            Ghost(MAX_SECONDS as int),
        );
        assert(numerator == self.surplus_numerator()) by (nonlinear_arith)
            requires
                numerator == gain - loss,
                gain == recoverable * 3600 * since,
                loss == household * 1_000_000 * until,
                recoverable == self.recoverable(),
                household == self.household(),
                since == self.since_period_start,
                until == self.until_period_end,
                self.surplus_numerator() == self.recoverable() * 3600 * self.since_period_start
                    - self.household() * 1_000_000 * self.until_period_end,
        ;
        assert(denominator == self.surplus_denominator());
        assert(denominator > 0) by (nonlinear_arith)
            requires
                denominator == 1_000_000 * until * since,
                until > 0,
                since > 0,
        ;
        if numerator >= denominator {
            let q: i128 = numerator / denominator;
            assert(q >= 0) by (nonlinear_arith)
                requires
                    q == numerator / denominator,
                    numerator >= denominator,
                    denominator > 0,
            ;
            if q > u64::MAX as i128 {
                u64::MAX
            } else {
                q as u64
            }
        } else {
            0
        }
    }

    fn effective_production_now(&self, p: usize) -> (r: u64)
        requires
            self.valid(),
            p < 3,
        ensures
            r == self.effective_production(p as int),
    {
        if self.elapsed == 0 {
            return 0;
        }
        let share: u128 = if self.month == 3 || self.month == 10 {
            55
        } else if self.month == 4 || self.month == 9 {
            70
        } else if 5 <= self.month && self.month <= 8 {
            80
        } else {
            40
        };
        let produced: u128 = self.produced_on(p) as u128;
        let scaled: u128 = produced * 600;
        let used: i128 = product(scaled as i128, share as i128, Ghost(1_200 * MAX_INCREMENT as int), Ghost(80));
        let q: i128 = used / (self.elapsed as i128);
        assert(q >= 0) by (nonlinear_arith)
            requires
                q == used / (self.elapsed as i128),
                used >= 0,
                self.elapsed > 0,
        ;
        if q > u64::MAX as i128 {
            u64::MAX
        } else {
            q as u64
        }
    }

    fn phase_cap_now(&self, power: u64, p: usize) -> (r: u64)
        requires
            self.valid(),
            p < 3,
            power == self.effective_power(),
        ensures
            r == self.phase_cap(p as int),
    {
        if self.elapsed == 0 {
            return power;
        }
        let produced: u128 = self.produced_on(p) as u128;
        let q: u128 = produced * 54_000 / (self.elapsed as u128);
        let cap: u128 = power as u128 + q;
        if cap > u64::MAX as u128 {
            u64::MAX
        } else {
            cap as u64
        }
    }

    /// What the accounts allow the scheduler to spend.
    pub fn outlook(&self) -> (o: Outlook)
        requires
            self.valid(),
        ensures
            o.exhausted == self.exhausted(),
            o.effective_power == self.effective_power(),
            forall|p: int| 0 <= p < 3 ==> o.phase_caps[p] == self.phase_cap(p),
            forall|p: int| 0 <= p < 3 ==> o.production[p] == self.effective_production(p),
    {
        let sum_c: u128 = (self.total_consumed[0] + self.total_consumed[1]
            + self.total_consumed[2]) as u128;
        let sum_r: i128 = (self.total_returned[0] + self.total_returned[1]
            + self.total_returned[2]) as i128;
        let recoverable: i128 = product(
            self.recovery_ratio as i128,
            sum_r,
            Ghost(1_000_000),
            Ghost(3 * MAX_TOTAL as int),
        );
        let exhausted = (sum_c * 1_000_000) as i128 >= recoverable;
        let effective_power = self.effective_power_now();
        let phase_caps = [
            self.phase_cap_now(effective_power, 0),
            self.phase_cap_now(effective_power, 1),
            self.phase_cap_now(effective_power, 2),
        ];
        let production = [
            self.effective_production_now(0),
            self.effective_production_now(1),
            self.effective_production_now(2),
        ];
        Outlook { exhausted, effective_power, phase_caps, production }
    }
}

fn within(a: &[u64; 3], bound: u64) -> (r: bool)
    ensures
        r == each_at_most(*a, bound),
{
    a[0] <= bound && a[1] <= bound && a[2] <= bound
}

/// The product of two numbers whose sizes are known to leave room for it.
fn product(a: i128, b: i128, Ghost(a_max): Ghost<int>, Ghost(b_max): Ghost<int>) -> (r: i128)
    requires
        -a_max <= a <= a_max,
        -b_max <= b <= b_max,
        a_max * b_max <= 0x7fff_ffff_ffff_ffff_ffff_ffff_ffff_ffff,
    ensures
        r == a * b,
        -(a_max * b_max) <= r <= a_max * b_max,
{
    assert(-(a_max * b_max) <= a * b <= a_max * b_max) by (nonlinear_arith)
        requires
            -a_max <= a <= a_max,
            -b_max <= b <= b_max,
    ;
    a * b
}

} // verus!
