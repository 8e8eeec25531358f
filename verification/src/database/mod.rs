//! What the database is asked and told: the tables that a billing period
//! needs, the months to look through, and the statement that stores an
//! energy record.

use vstd::prelude::*;
use crate::billing::{month_at, month_of, BillingPeriod, YearMonth};
use crate::database::queries::{
    create_miner_grid_table,
    create_miner_grid_table_text,
    create_miner_table,
    create_miner_table_text,
    create_switchboard_table,
    create_switchboard_table_text,
    insert_miners_grid_row,
    insert_miners_grid_row_text,
    insert_miners_row,
    insert_miners_row_text,
    insert_switchboard_row,
    insert_switchboard_row_text,
    miners_grid_table,
    miners_grid_table_name,
    miners_table,
    miners_table_name,
    switchboard_table,
    switchboard_table_name,
};
use crate::reconciler::{add_on, added_on};
use crate::structs::EnergyData;
use crate::text::{same_text, texts};

pub mod queries;

verus! {

/// The statements that create those of a month's three tables that are
/// not among `tables`.
pub open spec fn month_statements(tables: Seq<Seq<char>>, m: YearMonth) -> Seq<Seq<char>> {
    let y = m.year as int;
    let n = m.month as nat;
    (if tables.contains(switchboard_table(y, n)) {
        Seq::<Seq<char>>::empty()
    } else {
        seq![create_switchboard_table_text(y, n)]
    }) + (if tables.contains(miners_table(y, n)) {
        Seq::<Seq<char>>::empty()
    } else {
        seq![create_miner_table_text(y, n)]
    }) + (if tables.contains(miners_grid_table(y, n)) {
        Seq::<Seq<char>>::empty()
    } else {
        seq![create_miner_grid_table_text(y, n)]
    })
}

/// The statements that create the missing tables of the months numbered
/// from `from` up to, but without, `to`.
pub open spec fn schema_statements(tables: Seq<Seq<char>>, from: int, to: int) -> Seq<Seq<char>>
    decreases to - from,
{
    if from >= to {
        Seq::empty()
    } else {
        schema_statements(tables, from, to - 1) + month_statements(tables, YearMonth::at(to - 1))
    }
}

/// The months numbered from `from` up to, but without, `to`.
pub open spec fn months(from: int, to: int) -> Seq<YearMonth> {
    Seq::new(
        if to > from {
            (to - from) as nat
        } else {
            0
        },
        |i: int| YearMonth::at(from + i),
    )
}

fn contains_name(tables: &Vec<String>, name: &str) -> (r: bool)
    ensures
        r == texts(tables@).contains(name@),
{
    let mut i: usize = 0;
    while i < tables.len()
        invariant
            i <= tables.len(),
            forall|k: int| 0 <= k < i ==> texts(tables@)[k] != name@,
        decreases tables.len() - i,
    {
        if same_text(tables[i].as_str(), name) {
            assert(texts(tables@)[i as int] == name@);
            return true;
        }
        i = i + 1;
    }
    false
}

fn push_month_statements(out: &mut Vec<String>, tables: &Vec<String>, m: YearMonth)
    ensures
        texts(final(out)@) == texts(old(out)@) + month_statements(texts(tables@), m),
{
    if !contains_name(tables, switchboard_table_name(m.year, m.month).as_str()) {
        out.push(create_switchboard_table(m.year, m.month));
    }
    if !contains_name(tables, miners_table_name(m.year, m.month).as_str()) {
        out.push(create_miner_table(m.year, m.month));
    }
    if !contains_name(tables, miners_grid_table_name(m.year, m.month).as_str()) {
        out.push(create_miner_grid_table(m.year, m.month));
    }
    assert(texts(out@) =~= texts(old(out)@) + month_statements(texts(tables@), m));
}

/// The statements that give the database every table that the billing
/// period needs and that is not among `tables`: month by month, the table
/// of the switchboard, of the miners and of the miners' draw from the grid.
pub fn check_db_schema(tables: &Vec<String>, period: &BillingPeriod) -> (statements: Vec<String>)
    requires
        period.wf(),
    ensures
        texts(statements@) == schema_statements(
            texts(tables@),
            period.start.index(),
            period.end.index(),
        ),
{
    let mut statements: Vec<String> = Vec::new();
    let mut month = period.start;
    assert(texts(statements@) =~= schema_statements(
        texts(tables@),
        period.start.index(),
        period.start.index(),
    ));
    while month.is_before(&period.end)
        invariant
            month.year >= 0,
            1 <= month.month <= 12,
            1 <= period.end.month <= 12,
            period.start.index() <= month.index() <= period.end.index(),
            texts(statements@) == schema_statements(
                texts(tables@),
                period.start.index(),
                month.index(),
            ),
        decreases period.end.index() - month.index(),
    {
        push_month_statements(&mut statements, tables, month);
        assert(YearMonth::at(month.index()) == month);
        month = month.next();
    }
    statements
}

/// The months from `start` through `last`, in order; none where `last`
/// comes before `start`.
pub fn months_through(start: YearMonth, last: YearMonth) -> (list: Vec<YearMonth>)
    requires
        start.year >= 0,
        1 <= start.month <= 12,
        last.valid(),
    ensures
        list@ == months(start.index(), last.index() + 1),
{
    let mut list: Vec<YearMonth> = Vec::new();
    let mut month = start;
    let ghost from = start.index();
    while !last.is_before(&month)
        invariant
            month.year >= 0,
            1 <= month.month <= 12,
            last.valid(),
            from == start.index(),
            from <= month.index(),
            month.index() <= last.index() + 1 || list@.len() == 0,
            list@.len() == month.index() - from,
            forall|i: int| 0 <= i < list@.len() ==> list@[i] == YearMonth::at(from + i),
        decreases last.index() + 1 - month.index(),
    {
        assert(YearMonth::at(month.index()) == month);
        list.push(month);
        month = month.next();
    }
    assert(list@ =~= months(start.index(), last.index() + 1));
    list
}

/// The statement that stores a record in the tables of the month `m`.
pub open spec fn insert_text(data: EnergyData, m: YearMonth) -> Seq<char> {
    match data {
        EnergyData::Switchboard { .. } => insert_switchboard_row_text(m.year as int, m.month as nat),
        EnergyData::Miner { .. } => insert_miners_row_text(m.year as int, m.month as nat),
        EnergyData::MinersGrid { .. } => insert_miners_grid_row_text(m.year as int, m.month as nat),
    }
}

/// The time at which a record was taken.
pub open spec fn taken_at(data: EnergyData) -> i64 {
    match data {
        EnergyData::Switchboard { ts, .. } => ts,
        EnergyData::Miner { ts, .. } => ts,
        EnergyData::MinersGrid { ts, .. } => ts,
    }
}

/// The statement that stores `data` in the tables of the month `m`.
pub fn insert_statement_in(data: &EnergyData, m: YearMonth) -> (statement: String)
    ensures
        statement@ == insert_text(*data, m),
{
    match data {
        EnergyData::Switchboard { .. } => insert_switchboard_row(m.year, m.month),
        EnergyData::Miner { .. } => insert_miners_row(m.year, m.month),
        EnergyData::MinersGrid { .. } => insert_miners_grid_row(m.year, m.month),
    }
}

/// The statement that stores `data` in the tables of the month in which
/// it was taken; `None` where that month is not known.
pub fn insert_energy_data(data: &EnergyData) -> (statement: Option<String>)
    ensures
        match (statement, month_at(taken_at(*data))) {
            (Some(s), Some(m)) => s@ == insert_text(*data, m),
            (None, None) => true,
            _ => false,
        },
{
    let ts = match data {
        EnergyData::Switchboard { ts, .. } => *ts,
        EnergyData::Miner { ts, .. } => *ts,
        EnergyData::MinersGrid { ts, .. } => *ts,
    };
    match month_of(ts) {
        Some(m) => Some(insert_statement_in(data, m)),
        None => None,
    }
}

/// The consumption per phase with a month's sum added on phase `phase`;
/// a sum below 0 adds nothing.
pub open spec fn with_month_sum(totals: [u64; 3], phase: u8, sum: i64) -> [u64; 3] {
    added_on(
        totals,
        phase as int,
        if sum > 0 {
            sum as u64
        } else {
            0
        },
    )
}

/// Adds the sum that the database gave for a month and a phase to the
/// consumption per phase.
pub fn add_month_sum(totals: &[u64; 3], phase: u8, sum: i64) -> (r: [u64; 3])
    requires
        phase < 3,
    ensures
        r == with_month_sum(*totals, phase, sum),
{
    let x: u64 = if sum > 0 {
        sum as u64
    } else {
        0
    };
    add_on(totals, phase, x)
}

} // verus!
