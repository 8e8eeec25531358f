//! The SQL text sent to the database. Energy rows live in one table per
//! calendar month; every builder here names the table of a given month.

use vstd::prelude::*;
use crate::text::{push_decimal, push_signed_decimal, push_two_digit_decimal};
use crate::text::{decimal, signed_decimal, two_digit_decimal};

verus! {

/// Lists every base table of the public schema.
pub const GET_ALL_TABLES: &'static str =
    "\nSELECT table_name FROM information_schema.tables \n    WHERE \n        table_schema = 'public' AND\n        table_type = 'BASE TABLE'\n;";

pub const SWITCHBOARD_COLUMNS: &'static str =
    " (\n            ts timestamp PRIMARY KEY,\n            energy_consumed_Wmin_0 bigint,\n            energy_consumed_Wmin_1 bigint,\n            energy_consumed_Wmin_2 bigint,\n            energy_returned_Wmin_0 bigint,\n            energy_returned_Wmin_1 bigint,\n            energy_returned_Wmin_2 bigint,\n            total_consumed_Wh_0 double precision,\n            total_consumed_Wh_1 double precision,\n            total_consumed_Wh_2 double precision,\n            total_returned_Wh_0 double precision,\n            total_returned_Wh_1 double precision,\n            total_returned_Wh_2 double precision\n        );";

pub const MINER_COLUMNS: &'static str =
    " (\n            ts timestamp PRIMARY KEY,\n            name text,\n            energy_consumed_Wmin bigint,\n            phase smallint,\n            power_W real\n        );";

pub const MINER_GRID_COLUMNS: &'static str =
    " (\n            ts timestamp PRIMARY KEY,\n            energy_consumed_Wmin bigint,\n            phase smallint\n        );";

/// The name of the table that holds one kind of row for one month: the
/// kind's prefix, the year, an underscore and the month in two digits.
pub open spec fn month_table(prefix: Seq<char>, year: int, month: nat) -> Seq<char> {
    prefix + signed_decimal(year) + "_"@ + two_digit_decimal(month)
}

pub open spec fn switchboard_table(year: int, month: nat) -> Seq<char> {
    month_table("switchboard_"@, year, month)
}

pub open spec fn miners_table(year: int, month: nat) -> Seq<char> {
    month_table("miners_"@, year, month)
}

pub open spec fn miners_grid_table(year: int, month: nat) -> Seq<char> {
    month_table("miners_grid_"@, year, month)
}

/// The query that sums one phase's consumption over one month's table.
pub open spec fn month_sum_query(table: Seq<char>, phase: nat) -> Seq<char> {
    "SELECT CAST(COALESCE(SUM(energy_consumed_Wmin), 0) AS bigint) AS sum FROM "@ + table
        + "\n         WHERE phase = "@ + decimal(phase) + ";"@
}

pub open spec fn create_switchboard_table_text(year: int, month: nat) -> Seq<char> {
    "CREATE TABLE "@ + switchboard_table(year, month) + SWITCHBOARD_COLUMNS@
}

pub open spec fn create_miner_table_text(year: int, month: nat) -> Seq<char> {
    "CREATE TABLE "@ + miners_table(year, month) + MINER_COLUMNS@
}

pub open spec fn create_miner_grid_table_text(year: int, month: nat) -> Seq<char> {
    "CREATE TABLE "@ + miners_grid_table(year, month) + MINER_GRID_COLUMNS@
}

pub open spec fn get_first_row_text(year: int, month: nat) -> Seq<char> {
    "SELECT * FROM "@ + switchboard_table(year, month)
        + "\n        WHERE ts = (\n            SELECT MIN(ts) FROM "@ + switchboard_table(year, month)
        + "\n        );"@
}

pub open spec fn insert_switchboard_row_text(year: int, month: nat) -> Seq<char> {
    "INSERT INTO "@ + switchboard_table(year, month)
        + " VALUES ($1, $2, $3, $4, $5, $6, $7, $8, $9, $10, $11, $12, $13);"@
}

pub open spec fn insert_miners_row_text(year: int, month: nat) -> Seq<char> {
    "INSERT INTO "@ + miners_table(year, month) + " VALUES ($1, $2, $3, $4, $5);"@
}

pub open spec fn insert_miners_grid_row_text(year: int, month: nat) -> Seq<char> {
    "INSERT INTO "@ + miners_grid_table(year, month) + " VALUES ($1, $2, $3);"@
}

fn push_month_table(out: &mut String, prefix: &str, year: i32, month: u32)
    ensures
        final(out)@ == old(out)@ + month_table(prefix@, year as int, month as nat),
{
    out.append(prefix);
    push_signed_decimal(out, year as i64);
    out.append("_");
    push_two_digit_decimal(out, month as u64);
    assert(out@ =~= old(out)@ + month_table(prefix@, year as int, month as nat));
}

/// The name of the month's table of switchboard readings.
pub fn switchboard_table_name(year: i32, month: u32) -> (name: String)
    ensures
        name@ == switchboard_table(year as int, month as nat),
{
    let mut name = String::new();
    push_month_table(&mut name, "switchboard_", year, month);
    assert(name@ =~= switchboard_table(year as int, month as nat));
    name
}

/// The name of the month's table of miner consumption.
pub fn miners_table_name(year: i32, month: u32) -> (name: String)
    ensures
        name@ == miners_table(year as int, month as nat),
{
    let mut name = String::new();
    push_month_table(&mut name, "miners_", year, month);
    assert(name@ =~= miners_table(year as int, month as nat));
    name
}

/// The name of the month's table of miner consumption drawn from the grid.
pub fn miners_grid_table_name(year: i32, month: u32) -> (name: String)
    ensures
        name@ == miners_grid_table(year as int, month as nat),
{
    let mut name = String::new();
    push_month_table(&mut name, "miners_grid_", year, month);
    assert(name@ =~= miners_grid_table(year as int, month as nat));
    name
}

pub fn create_switchboard_table(year: i32, month: u32) -> (query: String)
    ensures
        query@ == create_switchboard_table_text(year as int, month as nat),
{
    let mut query = String::from_str("CREATE TABLE ");
    push_month_table(&mut query, "switchboard_", year, month);
    query.append(SWITCHBOARD_COLUMNS);
    assert(query@ =~= "CREATE TABLE "@ + switchboard_table(year as int, month as nat)
        + SWITCHBOARD_COLUMNS@);
    query
}

pub fn create_miner_table(year: i32, month: u32) -> (query: String)
    ensures
        query@ == create_miner_table_text(year as int, month as nat),
{
    let mut query = String::from_str("CREATE TABLE ");
    push_month_table(&mut query, "miners_", year, month);
    query.append(MINER_COLUMNS);
    assert(query@ =~= "CREATE TABLE "@ + miners_table(year as int, month as nat)
        + MINER_COLUMNS@);
    query
}

pub fn create_miner_grid_table(year: i32, month: u32) -> (query: String)
    ensures
        query@ == create_miner_grid_table_text(year as int, month as nat),
{
    let mut query = String::from_str("CREATE TABLE ");
    push_month_table(&mut query, "miners_grid_", year, month);
    query.append(MINER_GRID_COLUMNS);
    assert(query@ =~= "CREATE TABLE "@ + miners_grid_table(year as int, month as nat)
        + MINER_GRID_COLUMNS@);
    query
}

/// Selects the earliest switchboard reading of the month.
pub fn get_first_row(year: i32, month: u32) -> (query: String)
    ensures
        query@ == get_first_row_text(year as int, month as nat),
{
    let mut query = String::from_str("SELECT * FROM ");
    push_month_table(&mut query, "switchboard_", year, month);
    query.append("\n        WHERE ts = (\n            SELECT MIN(ts) FROM ");
    push_month_table(&mut query, "switchboard_", year, month);
    query.append("\n        );");
    assert(query@ =~= "SELECT * FROM "@ + switchboard_table(year as int, month as nat)
        + "\n        WHERE ts = (\n            SELECT MIN(ts) FROM "@ + switchboard_table(
        year as int,
        month as nat,
    ) + "\n        );"@);
    query
}

fn push_month_sum_query(out: &mut String, prefix: &str, year: i32, month: u32, phase: u32)
    requires
        old(out)@.len() == 0,
    ensures
        final(out)@ == month_sum_query(month_table(prefix@, year as int, month as nat), phase as nat),
{
    out.append("SELECT CAST(COALESCE(SUM(energy_consumed_Wmin), 0) AS bigint) AS sum FROM ");
    push_month_table(out, prefix, year, month);
    out.append("\n         WHERE phase = ");
    push_decimal(out, phase as u64);
    out.append(";");
    assert(out@ =~= month_sum_query(
        month_table(prefix@, year as int, month as nat),
        phase as nat,
    ));
}

/// Sums what the miners on one phase consumed during the month.
pub fn get_month_miner_consumption(year: i32, month: u32, phase: u32) -> (query: String)
    ensures
        query@ == month_sum_query(miners_table(year as int, month as nat), phase as nat),
{
    let mut query = String::new();
    push_month_sum_query(&mut query, "miners_", year, month, phase);
    query
}

/// Sums what the miners on one phase drew from the grid during the month.
pub fn get_month_miner_grid_consumption(year: i32, month: u32, phase: u32) -> (query: String)
    ensures
        query@ == month_sum_query(miners_grid_table(year as int, month as nat), phase as nat),
{
    let mut query = String::new();
    push_month_sum_query(&mut query, "miners_grid_", year, month, phase);
    query
}

pub fn insert_switchboard_row(year: i32, month: u32) -> (query: String)
    ensures
        query@ == insert_switchboard_row_text(year as int, month as nat),
{
    let mut query = String::from_str("INSERT INTO ");
    push_month_table(&mut query, "switchboard_", year, month);
    query.append(" VALUES ($1, $2, $3, $4, $5, $6, $7, $8, $9, $10, $11, $12, $13);");
    assert(query@ =~= "INSERT INTO "@ + switchboard_table(year as int, month as nat)
        + " VALUES ($1, $2, $3, $4, $5, $6, $7, $8, $9, $10, $11, $12, $13);"@);
    query
}

pub fn insert_miners_row(year: i32, month: u32) -> (query: String)
    ensures
        query@ == insert_miners_row_text(year as int, month as nat),
{
    let mut query = String::from_str("INSERT INTO ");
    push_month_table(&mut query, "miners_", year, month);
    query.append(" VALUES ($1, $2, $3, $4, $5);");
    assert(query@ =~= "INSERT INTO "@ + miners_table(year as int, month as nat)
        + " VALUES ($1, $2, $3, $4, $5);"@);
    query
}

pub fn insert_miners_grid_row(year: i32, month: u32) -> (query: String)
    ensures
        query@ == insert_miners_grid_row_text(year as int, month as nat),
{
    let mut query = String::from_str("INSERT INTO ");
    push_month_table(&mut query, "miners_grid_", year, month);
    query.append(" VALUES ($1, $2, $3);");
    assert(query@ =~= "INSERT INTO "@ + miners_grid_table(year as int, month as nat)
        + " VALUES ($1, $2, $3);"@);
    query
}

} // verus!
