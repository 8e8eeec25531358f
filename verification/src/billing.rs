//! Billing periods: runs of whole calendar months, counted from the month
//! in which the contract started.

use vstd::prelude::*;
use chrono::{DateTime, Datelike, NaiveDate};

verus! {

/// The earliest and the latest year that a calendar month may lie in.
pub const MAX_YEAR: i32 = 262_142;

/// A calendar month of the Gregorian calendar.
#[derive(Clone, Copy, Debug, PartialEq, Eq, Structural)]
pub struct YearMonth {
    pub year: i32,
    /// 1 for January to 12 for December.
    pub month: u32,
}

/// The months from the first of `start` up to, but without, the first of `end`.
#[derive(Clone, Copy, Debug, PartialEq, Eq, Structural)]
pub struct BillingPeriod {
    pub start: YearMonth,
    pub end: YearMonth,
}

impl BillingPeriod {
    /// Both ends are months of years that are not negative, and the period
    /// does not end before it starts.
    pub open spec fn wf(&self) -> bool {
        &&& self.start.year >= 0
        &&& self.end.year >= 0
        &&& 1 <= self.start.month <= 12
        &&& 1 <= self.end.month <= 12
        &&& self.start.index() <= self.end.index()
    }

    pub fn is_well_formed(&self) -> (r: bool)
        ensures
            r == self.wf(),
    {
        self.start.year >= 0 && self.end.year >= 0 && 1 <= self.start.month && self.start.month <= 12
            && 1 <= self.end.month && self.end.month <= 12 && !self.end.is_before(&self.start)
    }
}

impl YearMonth {
    pub open spec fn valid(&self) -> bool {
        0 <= self.year <= MAX_YEAR && 1 <= self.month <= 12
    }

    /// The number of the month, counted from January of the year 0.
    pub open spec fn index(&self) -> int {
        self.year * 12 + self.month - 1
    }

    /// The month with the number `index`.
    pub open spec fn at(index: int) -> YearMonth {
        YearMonth { year: (index / 12) as i32, month: (index % 12 + 1) as u32 }
    }

    pub fn is_valid(&self) -> (r: bool)
        ensures
            r == self.valid(),
    {
        0 <= self.year && self.year <= MAX_YEAR && 1 <= self.month && self.month <= 12
    }

    fn number(&self) -> (n: u64)
        requires
            self.valid(),
        ensures
            n == self.index(),
    {
        self.year as u64 * 12 + self.month as u64 - 1
    }

    fn numbered(index: u64) -> (m: YearMonth)
        requires
            index <= 12 * 0x7fff_ffff + 11,
        ensures
            m == YearMonth::at(index as int),
            m.index() == index,
            1 <= m.month <= 12,
            m.year >= 0,
    {
        YearMonth { year: (index / 12) as i32, month: (index % 12 + 1) as u32 }
    }

    /// The month after this one.
    pub fn next(&self) -> (m: YearMonth)
        requires
            self.year >= 0,
            1 <= self.month <= 12,
            self.year < i32::MAX || self.month < 12,
        ensures
            m.index() == self.index() + 1,
            1 <= m.month <= 12,
            m.year >= 0,
            m == YearMonth::at(self.index() + 1),
    {
        YearMonth::numbered(self.year as u64 * 12 + self.month as u64)
    }

    /// Whether this month comes before `other`.
    pub fn is_before(&self, other: &YearMonth) -> (r: bool)
        requires
            1 <= self.month <= 12,
            1 <= other.month <= 12,
        ensures
            r == (self.index() < other.index()),
    {
        self.year < other.year || (self.year == other.year && self.month < other.month)
    }
}

/// The number of the first month of the billing period that holds the month
/// numbered `now`, for a contract that started in the month numbered
/// `start` and bills every `months` months. Before the contract starts, the
/// first period counts.
pub open spec fn period_start(start: int, months: int, now: int) -> int {
    if now < start {
        start
    } else {
        start + (now - start) / months * months
    }
}

/// The billing period that holds the month `now`.
pub open spec fn period_at(start: YearMonth, months: u32, now: YearMonth) -> BillingPeriod {
    let first = period_start(start.index(), months as int, now.index());
    BillingPeriod { start: YearMonth::at(first), end: YearMonth::at(first + months) }
}

/// The billing period that holds the month `now`, for a contract that
/// started in the month `start` and bills every `months` months.
pub fn billing_period_at(start: YearMonth, months: u32, now: YearMonth) -> (p: BillingPeriod)
    requires
        start.valid(),
        now.valid(),
        months >= 1,
    ensures
        p == period_at(start, months, now),
        p.wf(),
        p.end.index() == p.start.index() + months,
        start.index() <= p.start.index(),
        (p.start.index() - start.index()) % (months as int) == 0,
        start.index() <= now.index() ==> p.start.index() <= now.index() < p.end.index(),
{
    let s: u64 = start.number();
    let n: u64 = now.number();
    let m: u64 = months as u64;
    let first: u64 = if n < s {
        s
    } else {
        let whole: u64 = (n - s) / m;
        assert(whole * m <= n - s && n - s < whole * m + m && (whole * m) % (m as int) == 0) by (nonlinear_arith)
            requires
                whole == (n - s) / (m as int),
                n >= s,
                m >= 1,
        ;
        s + whole * m
    };
    let p = BillingPeriod { start: YearMonth::numbered(first), end: YearMonth::numbered(first + m) };
    assert(first == period_start(start.index(), months as int, now.index()));
    assert((first - s) % (m as int) == 0) by (nonlinear_arith)
        requires
            m >= 1,
            n < s ==> first == s,
            n >= s ==> first - s == (n - s) / (m as int) * m,
    ;
    p
}

/// A billing period has the length that the contract gives it and starts
/// a whole number of periods after the contract did; once the contract has
/// started, the period that is found for a month holds that month.
pub proof fn period_holds_its_month(start: YearMonth, months: u32, now: YearMonth)
    requires
        start.valid(),
        now.valid(),
        months >= 1,
        start.index() <= now.index(),
    ensures
        period_at(start, months, now).end.index() == period_at(start, months, now).start.index()
            + months,
        period_at(start, months, now).start.index() <= now.index(),
        now.index() < period_at(start, months, now).end.index(),
{
    let s = start.index();
    let n = now.index();
    let m = months as int;
    let whole = (n - s) / m;
    assert(whole * m <= n - s && n - s < whole * m + m && whole >= 0) by (nonlinear_arith)
        requires
            whole == (n - s) / m,
            m >= 1,
            n - s >= 0,
    ;
    let first = period_start(s, m, n);
    assert(0 <= first <= n);
    assert(first + m <= n + m);
}

/// The calendar month, in UTC, of the instant `millis` milliseconds after
/// the Unix epoch, where the calendar reaches that far.
pub uninterp spec fn calendar_month_of(millis: i64) -> Option<(i32, u32)>;

/// The first instant, in UTC, of a calendar month, in milliseconds since
/// the Unix epoch, where the calendar has that month.
pub uninterp spec fn first_instant_of(year: i32, month: u32) -> Option<i64>;

/// chrono's `DateTime::from_timestamp_millis`, then `Datelike::year` and
/// `Datelike::month` of the result: the calendar month of an instant, which
/// depends on the instant alone, with the month counted from 1 to 12; `None`
/// where chrono's calendar does not reach the instant.
#[verifier::external_body]
pub(crate) fn calendar_month(millis: i64) -> (r: Option<(i32, u32)>)
    ensures
        r == calendar_month_of(millis),
        match r {
            Some((_, month)) => 1 <= month <= 12,
            None => true,
        },
{
    match DateTime::from_timestamp_millis(millis) {
        Some(d) => Some((d.year(), d.month())),
        None => None,
    }
}

/// chrono's `NaiveDate::from_ymd_opt` for the first day of a month, then
/// `and_hms_opt` for midnight and `timestamp_millis` of that instant in
/// UTC: a function of year and month alone; `None` where chrono has no such
/// date.
#[verifier::external_body]
pub(crate) fn first_instant(year: i32, month: u32) -> (r: Option<i64>)
    ensures
        r == first_instant_of(year, month),
{
    match NaiveDate::from_ymd_opt(year, month, 1) {
        Some(date) => match date.and_hms_opt(0, 0, 0) {
            Some(midnight) => Some(midnight.and_utc().timestamp_millis()),
            None => None,
        },
        None => None,
    }
}

/// The first instant of a billing period and the first after it, in
/// milliseconds since the Unix epoch.
#[derive(Clone, Copy, Debug, PartialEq, Eq, Structural)]
pub struct Instants {
    pub start: i64,
    pub end: i64,
}

/// The instants between which a billing period lies, where the calendar
/// has both its months.
pub open spec fn instants_of(p: BillingPeriod) -> Option<Instants> {
    match (first_instant_of(p.start.year, p.start.month), first_instant_of(p.end.year, p.end.month)) {
        (Some(start), Some(end)) => Some(Instants { start, end }),
        _ => None,
    }
}

/// The instants between which the billing period `p` lies.
pub fn period_instants(p: &BillingPeriod) -> (i: Option<Instants>)
    ensures
        i == instants_of(*p),
{
    match (first_instant(p.start.year, p.start.month), first_instant(p.end.year, p.end.month)) {
        (Some(start), Some(end)) => Some(Instants { start, end }),
        _ => None,
    }
}

/// The calendar month at the instant `millis`, as a month that billing
/// periods can be counted from: `None` where the calendar does not reach
/// the instant or the year is out of range.
pub open spec fn month_at(millis: i64) -> Option<YearMonth> {
    match calendar_month_of(millis) {
        Some((year, month)) => if 0 <= year <= MAX_YEAR && 1 <= month <= 12 {
            Some(YearMonth { year, month })
        } else {
            None
        },
        None => None,
    }
}

/// The calendar month at the instant `millis`.
pub fn month_of(millis: i64) -> (m: Option<YearMonth>)
    ensures
        m == month_at(millis),
        m is Some ==> m->0.valid(),
{
    match calendar_month(millis) {
        Some((year, month)) => {
            let m = YearMonth { year, month };
            if m.is_valid() {
                Some(m)
            } else {
                None
            }
        },
        None => None,
    }
}

/// The billing period that `found` stands for: the one that holds the
/// month `now`, if the contract's start is a month, its periods have a
/// length, and the month `now` is known.
pub open spec fn period_for(
    start_year: i32,
    start_month: u32,
    billing_period: u32,
    now: Option<YearMonth>,
) -> Option<BillingPeriod> {
    let start = YearMonth { year: start_year, month: start_month };
    if start.valid() && billing_period >= 1 && now is Some {
        Some(period_at(start, billing_period, now->0))
    } else {
        None
    }
}

/// The billing period that holds the month `now`; `None` unless the
/// contract's start is a month, its periods have a length, and `now` is
/// known.
pub fn billing_period_for(
    start_year: i32,
    start_month: u32,
    billing_period: u32,
    now: Option<YearMonth>,
) -> (p: Option<BillingPeriod>)
    requires
        now is Some ==> now->0.valid(),
    ensures
        p == period_for(start_year, start_month, billing_period, now),
        p is Some ==> {
            let start = YearMonth { year: start_year, month: start_month };
            &&& p->0.wf()
            &&& p->0.end.index() == p->0.start.index() + billing_period
            &&& start.index() <= p->0.start.index()
            &&& (p->0.start.index() - start.index()) % (billing_period as int) == 0
            &&& start.index() <= now->0.index() ==> p->0.start.index() <= now->0.index()
                < p->0.end.index()
        },
{
    let start = YearMonth { year: start_year, month: start_month };
    match now {
        Some(m) => if start.is_valid() && billing_period >= 1 {
            Some(billing_period_at(start, billing_period, m))
        } else {
            None
        },
        None => None,
    }
}

/// The billing period that holds the instant `now`, given in milliseconds
/// since the Unix epoch: what `period_for` gives for the calendar month of
/// that instant. A period is found exactly when the contract's start is a
/// month, its periods have a length, and the calendar reaches the instant.
/// A period that is found has the contract's length and starts a whole
/// number of periods after the contract did; once the contract has
/// started it holds the month of `now`.
pub fn current_biling_period(start_year: i32, start_month: u32, billing_period: u32, now: i64) -> (p:
    Option<BillingPeriod>)
    ensures
        p == period_for(start_year, start_month, billing_period, month_at(now)),
        p is Some ==> {
            let start = YearMonth { year: start_year, month: start_month };
            let month = month_at(now)->0;
            &&& p->0.wf()
            &&& p->0.end.index() == p->0.start.index() + billing_period
            &&& start.index() <= p->0.start.index()
            &&& (p->0.start.index() - start.index()) % (billing_period as int) == 0
            &&& start.index() <= month.index() ==> p->0.start.index() <= month.index()
                < p->0.end.index()
        },
{
    billing_period_for(start_year, start_month, billing_period, month_of(now))
}

} // verus!
