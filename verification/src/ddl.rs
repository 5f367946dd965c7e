//! Derivation of the idempotent DDL that brings the live schema to parity
//! with a type catalog: create-table, create-index and add-column statements,
//! each pinned to its exact character sequence, and the per-event-type
//! synchronization plan built from them.

use vstd::prelude::*;
use vstd::string::StringExecFns;

use crate::catalog::{ColumnModel, DataTypeTag, EventTypeDef, TypeCatalog, spec_sql_type,
    sql_type_name};
use crate::sqlfmt::{join_with, joined, views_of};

verus! {

/// One column as it appears in a create-table column list: name, a space,
/// the SQL type name.
pub open spec fn column_frag(c: ColumnModel) -> Seq<char> {
    c.name + " "@ + spec_sql_type(c.data_type)
}

/// The exact create-table statement for an event type: every column in
/// declared order with its mapped SQL type, guarded by IF NOT EXISTS.
pub open spec fn create_table_stmt(name: Seq<char>, cols: Seq<ColumnModel>) -> Seq<char> {
    "CREATE TABLE IF NOT EXISTS "@ + name + " ("@ + joined(
        cols.map_values(|c: ColumnModel| column_frag(c)),
        ","@,
    ) + ")"@
}

/// The exact add-column statement that retrofits one column onto a table.
pub open spec fn add_column_stmt(table: Seq<char>, column: Seq<char>, data_type: Seq<char>) -> Seq<
    char,
> {
    "ALTER TABLE "@ + table + " ADD COLUMN IF NOT EXISTS "@ + column + " "@ + data_type
}

/// The deterministic name of a table's time index.
pub open spec fn index_name(table: Seq<char>) -> Seq<char> {
    table + "_tsidx"@
}

/// The exact conditional create-index statement on a table's time column.
/// The concurrent variant cannot run inside a transaction block.
pub open spec fn create_index_stmt(table: Seq<char>) -> Seq<char> {
    "CREATE INDEX CONCURRENTLY IF NOT EXISTS "@ + table + "_tsidx ON "@ + table + "(time)"@
}

/// Derives the create-table statement for an event type.
pub fn query_from_event_type(name: &str, def: &EventTypeDef) -> (s: String)
    ensures
        s@ == create_table_stmt(name@, def@),
{
    let mut frags: Vec<String> = Vec::new();
    let n = def.columns.len();
    for i in 0..n
        invariant
            n == def.columns@.len(),
            frags@.len() == i,
            forall|k: int| 0 <= k < i ==> (#[trigger] frags@[k])@ == column_frag(def@[k]),
    {
        let mut frag = def.columns[i].name.clone();
        frag.append(" ");
        frag.append(sql_type_name(def.columns[i].data_type));
        proof {
            assert(frag@ == column_frag(def@[i as int]));
        }
        frags.push(frag);
    }
    proof {
        assert(views_of(frags@) =~= def@.map_values(|c: ColumnModel| column_frag(c)));
    }
    let mut s = "CREATE TABLE IF NOT EXISTS ".to_owned();
    s.append(name);
    s.append(" (");
    let list = join_with(&frags, ",");
    s.append(list.as_str());
    s.append(")");
    s
}

/// Derives the add-column statement for one column of a table, the SQL type
/// given as its type name.
pub fn query_from_column_data_type(table_name: &str, column_name: &str, data_type: &str) -> (s:
    String)
    ensures
        s@ == add_column_stmt(table_name@, column_name@, data_type@),
{
    let mut s = "ALTER TABLE ".to_owned();
    s.append(table_name);
    s.append(" ADD COLUMN IF NOT EXISTS ");
    s.append(column_name);
    s.append(" ");
    s.append(data_type);
    s
}

/// Derives the conditional create-index statement for a table's time column.
pub fn query_for_index(table_name: &str) -> (s: String)
    ensures
        s@ == create_index_stmt(table_name@),
{
    let mut s = "CREATE INDEX CONCURRENTLY IF NOT EXISTS ".to_owned();
    s.append(table_name);
    s.append("_tsidx ON ");
    s.append(table_name);
    s.append("(time)");
    s
}

/// The statements that synchronize one event type, in the order they must
/// run: the create-table statement inside one serializable transaction, then
/// the create-index statement outside any transaction, then the add-column
/// statements inside one serializable transaction.
pub struct TableSync {
    /// The event type's name, which is also the table's name.
    pub table: String,
    /// Run first, inside one serializable transaction.
    pub create_table: String,
    /// Run second, outside any transaction; its failure is reported but does
    /// not abort the add-column step.
    pub create_index: String,
    /// Run third, inside one serializable transaction, in column order.
    pub add_columns: Vec<String>,
}

impl TableSync {
    /// The plan entry derives every statement from the binding it is for.
    pub open spec fn matches(&self, name: Seq<char>, def: Seq<ColumnModel>) -> bool {
        &&& self.table@ == name
        &&& self.create_table@ == create_table_stmt(name, def)
        &&& self.create_index@ == create_index_stmt(name)
        &&& self.add_columns@.len() == def.len()
        &&& forall|j: int|
            0 <= j < def.len() ==> self.add_columns@[j]@ == add_column_stmt(
                name,
                def[j].name,
                spec_sql_type(def[j].data_type),
            )
    }
}

/// Derives the full synchronization plan for a catalog: one entry per event
/// type, in catalog order.
pub fn plan_synchronize(catalog: &TypeCatalog) -> (p: Vec<TableSync>)
    ensures
        p@.len() == catalog@.len(),
        forall|i: int|
            0 <= i < p@.len() ==> (#[trigger] p@[i]).matches(catalog@[i].name, catalog@[i].def),
{
    let mut p: Vec<TableSync> = Vec::new();
    let n = catalog.len();
    for i in 0..n
        invariant
            n == catalog@.len(),
            p@.len() == i,
            forall|k: int|
                0 <= k < i ==> (#[trigger] p@[k]).matches(catalog@[k].name, catalog@[k].def),
    {
        let binding = catalog.get(i);
        let mut add_columns: Vec<String> = Vec::new();
        let m = binding.def.columns.len();
        for j in 0..m
            invariant
                m == binding.def.columns@.len(),
                add_columns@.len() == j,
                forall|l: int|
                    0 <= l < j ==> add_columns@[l]@ == add_column_stmt(
                        binding.name@,
                        binding.def@[l].name,
                        spec_sql_type(binding.def@[l].data_type),
                    ),
        {
            let col = &binding.def.columns[j];
            let stmt = query_from_column_data_type(
                binding.name.as_str(),
                col.name.as_str(),
                sql_type_name(col.data_type),
            );
            add_columns.push(stmt);
        }
        let entry = TableSync {
            table: binding.name.clone(),
            create_table: query_from_event_type(binding.name.as_str(), &binding.def),
            create_index: query_for_index(binding.name.as_str()),
            add_columns,
        };
        p.push(entry);
    }
    p
}

/// Deriving DDL is a function of the description alone: two derivations from
/// equal event-type definitions are byte-identical, so re-deriving the same
/// description is idempotent.
pub proof fn lemma_ddl_derivation_deterministic(
    name1: Seq<char>,
    def1: Seq<ColumnModel>,
    name2: Seq<char>,
    def2: Seq<ColumnModel>,
)
    requires
        name1 == name2,
        def1 == def2,
    ensures
        create_table_stmt(name1, def1) == create_table_stmt(name2, def2),
        create_index_stmt(name1) == create_index_stmt(name2),
{
}

} // verus!
