//! Randomized read/write traffic against the synchronized schema: picking an
//! event type uniformly at random, deriving type-correct literal values per
//! column, and deriving the exact INSERT and SELECT statements. Executing the
//! statements against the database is the caller's business.

use vstd::prelude::*;
use vstd::string::StringExecFns;

use crate::catalog::{BindingModel, DataTypeTag, TypeCatalog};
use crate::numfmt::{dec_str, u64_to_string};
use crate::sqlfmt::{join_with, joined, views_of};

verus! {

/// Relies on rand::thread_rng and rand::Rng::gen_range: a uniform sample
/// from [0, n); gen_range panics only on an empty range, which `n > 0`
/// rules out.
#[verifier::external_body]
fn random_usize_below(n: usize) -> (r: usize)
    requires
        n > 0,
    ensures
        r < n,
{
    rand::Rng::gen_range(&mut rand::thread_rng(), 0..n)
}

/// Relies on rand::thread_rng and rand::Rng::gen_range: a uniform sample
/// from [lo, hi); gen_range panics only on an empty range, which `lo < hi`
/// rules out.
#[verifier::external_body]
fn random_i64_in(lo: i64, hi: i64) -> (r: i64)
    requires
        lo < hi,
    ensures
        lo <= r < hi,
{
    rand::Rng::gen_range(&mut rand::thread_rng(), lo..hi)
}

/// A single-quoted SQL literal of at least the 'YYYY-MM-DD HH:MM:SS' width:
/// all that is statable of a timestamp literal whose instant the clock
/// decides.
pub open spec fn quoted_literal(v: Seq<char>) -> bool {
    &&& v.len() >= 21
    &&& v[0] == '\''
    &&& v[v.len() - 1] == '\''
}

/// Relies on chrono's Utc::now, TimeDelta::milliseconds and DateTime::format:
/// the current instant minus the given offset, as a quoted
/// 'YYYY-MM-DD HH:MM:SS' literal — the format string opens and closes with a
/// quote, and %Y prints at least four digits, so the result is a quoted
/// literal of at least 21 characters whatever the clock read.
/// TimeDelta::milliseconds panics only below -i64::MAX, and the subtraction
/// only when the offset leaves the representable range; a non-negative
/// offset under a day's worth of milliseconds rules both out for any clock
/// reading chrono can produce.
#[verifier::external_body]
fn quoted_timestamp_before_ms(ms: i64) -> (r: String)
    requires
        0 <= ms < 86_400_000,
    ensures
        quoted_literal(r@),
{
    (chrono::Utc::now() - chrono::Duration::milliseconds(ms)).format("'%Y-%m-%d %H:%M:%S'")
        .to_string()
}

/// A random write-path literal for an `int` column: uniform in [1, 1000).
pub fn random_int_value() -> (v: i64)
    ensures
        1 <= v < 1000,
{
    random_i64_in(1, 1000)
}

/// A random write-path literal for a `bigint` column: uniform in
/// [1, 1_000_000_000).
pub fn random_bigint_value() -> (v: i64)
    ensures
        1 <= v < 1_000_000_000,
{
    random_i64_in(1, 1_000_000_000)
}

/// A random timestamp offset: uniform in [1, 1_000_000) milliseconds, so the
/// instant it stands for lies within the trailing 1_000_000 ms window of the
/// moment it is drawn.
pub fn random_timestamp_offset_ms() -> (v: i64)
    ensures
        1 <= v < 1_000_000,
{
    random_i64_in(1, 1_000_000)
}

/// Picks an event type uniformly at random from the catalog.
pub fn pick_random_event_type(catalog: &TypeCatalog) -> (i: usize)
    requires
        catalog@.len() > 0,
    ensures
        i < catalog@.len(),
{
    random_usize_below(catalog.len())
}

/// The exact INSERT statement for a table, a column list and a value list.
pub open spec fn insert_stmt(table: Seq<char>, cols: Seq<Seq<char>>, vals: Seq<Seq<char>>) -> Seq<
    char,
> {
    "INSERT INTO "@ + table + "("@ + joined(cols, ", "@) + ") VALUES ("@ + joined(vals, ", "@)
        + ")"@
}

/// The exact bounded time-range SELECT statement for a table.
pub open spec fn select_stmt(table: Seq<char>, before: Seq<char>, now: Seq<char>) -> Seq<char> {
    "SELECT time,amount FROM "@ + table + " WHERE time BETWEEN "@ + before + " AND "@ + now
}

/// A write-path literal is type-correct for its column's data type: for the
/// integer types, the decimal digits of a value inside the documented
/// bounds; for a timestamp, a quoted literal — its instant depends on the
/// clock, so no more is statable of it.
pub open spec fn value_ok(tag: DataTypeTag, v: Seq<char>) -> bool {
    match tag {
        DataTypeTag::Int => exists|n: int| 1 <= n < 1000 && v == #[trigger] dec_str(n as nat),
        DataTypeTag::BigInt => exists|n: int|
            1 <= n < 1_000_000_000 && v == #[trigger] dec_str(n as nat),
        DataTypeTag::Timestamp => quoted_literal(v),
    }
}

/// One synthetic row, ready to be rendered as an INSERT statement and
/// committed inside one repeatable-read transaction.
pub struct InsertEvent {
    /// The picked event type's name, which is the target table.
    pub table: String,
    /// The column list, in the event type's declared order.
    pub columns: Vec<String>,
    /// The value literals, aligned with the column list.
    pub values: Vec<String>,
}

impl InsertEvent {
    /// The row is for the given event type: same table, the columns in
    /// declared order, and a type-correct literal for every column.
    pub open spec fn matches_binding(&self, b: BindingModel) -> bool {
        &&& self.table@ == b.name
        &&& self.columns@.len() == b.def.len()
        &&& self.values@.len() == b.def.len()
        &&& forall|j: int| 0 <= j < b.def.len() ==> (#[trigger] self.columns@[j])@ == b.def[j].name
        &&& forall|j: int|
            0 <= j < b.def.len() ==> value_ok(b.def[j].data_type, (#[trigger] self.values@[j])@)
    }

    /// Renders the row as its exact INSERT statement.
    pub fn sql(&self) -> (s: String)
        ensures
            s@ == insert_stmt(self.table@, views_of(self.columns@), views_of(self.values@)),
    {
        let mut s = "INSERT INTO ".to_owned();
        s.append(self.table.as_str());
        s.append("(");
        let cols = join_with(&self.columns, ", ");
        s.append(cols.as_str());
        s.append(") VALUES (");
        let vals = join_with(&self.values, ", ");
        s.append(vals.as_str());
        s.append(")");
        s
    }
}

/// Derives one synthetic row for an event type picked uniformly at random
/// from the catalog: per column, an `int` value in [1, 1000), a `bigint`
/// value in [1, 1_000_000_000), or a timestamp within the trailing
/// 1_000_000 ms of the call.
pub fn commit_random_event(catalog: &TypeCatalog) -> (ev: InsertEvent)
    requires
        catalog@.len() > 0,
    ensures
        exists|i: int| 0 <= i < catalog@.len() && ev.matches_binding(catalog@[i]),
{
    let idx = pick_random_event_type(catalog);
    let binding = catalog.get(idx);
    let mut columns: Vec<String> = Vec::new();
    let mut values: Vec<String> = Vec::new();
    let n = binding.def.columns.len();
    for j in 0..n
        invariant
            n == binding.def.columns@.len(),
            columns@.len() == j,
            values@.len() == j,
            forall|l: int| 0 <= l < j ==> (#[trigger] columns@[l])@ == binding.def@[l].name,
            forall|l: int|
                0 <= l < j ==> value_ok(binding.def@[l].data_type, (#[trigger] values@[l])@),
    {
        let col = &binding.def.columns[j];
        columns.push(col.name.clone());
        let literal: String = match col.data_type {
            DataTypeTag::Timestamp => {
                let ms = random_timestamp_offset_ms();
                quoted_timestamp_before_ms(ms)
            },
            DataTypeTag::BigInt => {
                let v = random_bigint_value();
                let s = u64_to_string(v as u64);
                proof {
                    let n: int = v as int;
                    assert(s@ == dec_str(n as nat));
                    assert(value_ok(DataTypeTag::BigInt, s@));
                }
                s
            },
            DataTypeTag::Int => {
                let v = random_int_value();
                let s = u64_to_string(v as u64);
                proof {
                    let n: int = v as int;
                    assert(s@ == dec_str(n as nat));
                    assert(value_ok(DataTypeTag::Int, s@));
                }
                s
            },
        };
        values.push(literal);
    }
    let ev = InsertEvent { table: binding.name.clone(), columns, values };
    proof {
        assert(ev.matches_binding(catalog@[idx as int]));
    }
    ev
}

/// Derives the exact SELECT statement for a time window.
pub fn query_for_time_range(table: &str, before: &str, now: &str) -> (s: String)
    ensures
        s@ == select_stmt(table@, before@, now@),
{
    let mut s = "SELECT time,amount FROM ".to_owned();
    s.append(table);
    s.append(" WHERE time BETWEEN ");
    s.append(before);
    s.append(" AND ");
    s.append(now);
    s
}

/// Derives one bounded time-range read against an event type picked
/// uniformly at random: the window reaches from a random instant within the
/// trailing 1_000_000 ms back to the moment of the call. The statement is
/// executed by the caller, without a surrounding transaction.
pub fn execute_random_read_query(catalog: &TypeCatalog) -> (q: String)
    requires
        catalog@.len() > 0,
    ensures
        exists|i: int, before: Seq<char>, now: Seq<char>|
            0 <= i < catalog@.len() && q@ == select_stmt(catalog@[i].name, before, now)
                && quoted_literal(before) && quoted_literal(now),
{
    let idx = pick_random_event_type(catalog);
    let binding = catalog.get(idx);
    let ms = random_timestamp_offset_ms();
    let before = quoted_timestamp_before_ms(ms);
    let now = quoted_timestamp_before_ms(0);
    let q = query_for_time_range(binding.name.as_str(), before.as_str(), now.as_str());
    proof {
        assert(q@ == select_stmt(catalog@[idx as int].name, before@, now@));
    }
    q
}

} // verus!
