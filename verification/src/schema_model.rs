//! A model of the live database schema and of what the derived DDL does to
//! it: tables with their columns, and the set of existing indexes. The model
//! applies, per event type, the same create-table, create-index and
//! add-column steps — in the same order — that `crate::ddl::plan_synchronize`
//! renders as statements, with each step's documented IF NOT EXISTS
//! semantics. Under those semantics a synchronization pass only ever adds
//! tables, columns and indexes — the one-way ratchet that the lemmas at the
//! bottom state and prove.

use vstd::prelude::*;

use crate::catalog::{BindingModel, ColumnModel, DataTypeTag};
use crate::ddl::index_name;

verus! {

/// The live schema: each table's columns with their types, and the names of
/// the indexes that exist.
pub struct SchemaModel {
    pub tables: Map<Seq<char>, Map<Seq<char>, DataTypeTag>>,
    pub indexes: Set<Seq<char>>,
}

/// The columns of a freshly created table.
pub open spec fn columns_map(cols: Seq<ColumnModel>) -> Map<Seq<char>, DataTypeTag>
    decreases cols.len(),
{
    if cols.len() == 0 {
        Map::empty()
    } else {
        columns_map(cols.drop_last()).insert(cols.last().name, cols.last().data_type)
    }
}

/// What CREATE TABLE IF NOT EXISTS does: creates the table with the declared
/// columns when it is missing, and changes nothing when it exists.
pub open spec fn apply_create_table(
    s: SchemaModel,
    name: Seq<char>,
    cols: Seq<ColumnModel>,
) -> SchemaModel {
    if s.tables.contains_key(name) {
        s
    } else {
        SchemaModel { tables: s.tables.insert(name, columns_map(cols)), indexes: s.indexes }
    }
}

/// What CREATE INDEX CONCURRENTLY IF NOT EXISTS does: makes the table's time
/// index exist.
pub open spec fn apply_create_index(s: SchemaModel, table: Seq<char>) -> SchemaModel {
    SchemaModel { tables: s.tables, indexes: s.indexes.insert(index_name(table)) }
}

/// What ALTER TABLE ... ADD COLUMN IF NOT EXISTS does: adds the column when
/// the table exists and lacks it, and changes nothing otherwise.
pub open spec fn apply_add_column(s: SchemaModel, table: Seq<char>, col: ColumnModel) -> SchemaModel {
    if !s.tables.contains_key(table) {
        s
    } else if s.tables[table].contains_key(col.name) {
        s
    } else {
        SchemaModel {
            tables: s.tables.insert(table, s.tables[table].insert(col.name, col.data_type)),
            indexes: s.indexes,
        }
    }
}

/// The add-column statements of one event type, applied in column order.
pub open spec fn apply_add_columns(
    s: SchemaModel,
    table: Seq<char>,
    cols: Seq<ColumnModel>,
) -> SchemaModel
    decreases cols.len(),
{
    if cols.len() == 0 {
        s
    } else {
        apply_add_columns(apply_add_column(s, table, cols[0]), table, cols.drop_first())
    }
}

/// One event type's full synchronization: create-table, then create-index,
/// then column reconciliation.
pub open spec fn apply_event_type(s: SchemaModel, b: BindingModel) -> SchemaModel {
    apply_add_columns(
        apply_create_index(apply_create_table(s, b.name, b.def), b.name),
        b.name,
        b.def,
    )
}

/// A full synchronization pass: every event type, in catalog order.
pub open spec fn apply_catalog(s: SchemaModel, cat: Seq<BindingModel>) -> SchemaModel
    decreases cat.len(),
{
    if cat.len() == 0 {
        s
    } else {
        apply_catalog(apply_event_type(s, cat[0]), cat.drop_first())
    }
}

/// One schema extends another: every table is still there, every column of
/// every table is still there with its type unchanged, and every index is
/// still there.
pub open spec fn schema_le(a: SchemaModel, b: SchemaModel) -> bool {
    &&& forall|t: Seq<char>| a.tables.contains_key(t) ==> b.tables.contains_key(t)
    &&& forall|t: Seq<char>, c: Seq<char>|
        a.tables.contains_key(t) && #[trigger] a.tables[t].contains_key(c) ==> {
            &&& b.tables.contains_key(t)
            &&& b.tables[t].contains_key(c)
            &&& b.tables[t][c] == a.tables[t][c]
        }
    &&& a.indexes.subset_of(b.indexes)
}

/// An event type is installed: its table exists, its time index exists, and
/// the table has every declared column.
pub open spec fn table_in_schema(b: BindingModel, s: SchemaModel) -> bool {
    &&& s.tables.contains_key(b.name)
    &&& s.indexes.contains(index_name(b.name))
    &&& forall|j: int|
        0 <= j < b.def.len() ==> s.tables[b.name].contains_key(#[trigger] b.def[j].name)
}

/// Every event type of a catalog is installed in the schema.
pub open spec fn catalog_in_schema(cat: Seq<BindingModel>, s: SchemaModel) -> bool {
    forall|i: int| 0 <= i < cat.len() ==> table_in_schema(#[trigger] cat[i], s)
}

pub proof fn lemma_le_trans(a: SchemaModel, b: SchemaModel, c: SchemaModel)
    requires
        schema_le(a, b),
        schema_le(b, c),
    ensures
        schema_le(a, c),
{
}

proof fn lemma_add_column_le(s: SchemaModel, table: Seq<char>, col: ColumnModel)
    ensures
        schema_le(s, apply_add_column(s, table, col)),
{
}

proof fn lemma_add_columns_le(s: SchemaModel, table: Seq<char>, cols: Seq<ColumnModel>)
    ensures
        schema_le(s, apply_add_columns(s, table, cols)),
    decreases cols.len(),
{
    if cols.len() > 0 {
        let s1 = apply_add_column(s, table, cols[0]);
        lemma_add_column_le(s, table, cols[0]);
        lemma_add_columns_le(s1, table, cols.drop_first());
        lemma_le_trans(s, s1, apply_add_columns(s1, table, cols.drop_first()));
    }
}

proof fn lemma_event_type_le(s: SchemaModel, b: BindingModel)
    ensures
        schema_le(s, apply_event_type(s, b)),
{
    let s1 = apply_create_table(s, b.name, b.def);
    let s2 = apply_create_index(s1, b.name);
    lemma_add_columns_le(s2, b.name, b.def);
    lemma_le_trans(s, s2, apply_add_columns(s2, b.name, b.def));
}

/// A synchronization pass only ever adds: the schema after the pass extends
/// the schema before it.
pub proof fn lemma_catalog_le(s: SchemaModel, cat: Seq<BindingModel>)
    ensures
        schema_le(s, apply_catalog(s, cat)),
    decreases cat.len(),
{
    if cat.len() > 0 {
        let s1 = apply_event_type(s, cat[0]);
        lemma_event_type_le(s, cat[0]);
        lemma_catalog_le(s1, cat.drop_first());
        lemma_le_trans(s, s1, apply_catalog(s1, cat.drop_first()));
    }
}

/// Whatever a catalog has installed stays installed in any extension of the
/// schema.
pub proof fn lemma_le_preserves_in_schema(cat: Seq<BindingModel>, a: SchemaModel, b: SchemaModel)
    requires
        catalog_in_schema(cat, a),
        schema_le(a, b),
    ensures
        catalog_in_schema(cat, b),
{
}

proof fn lemma_add_columns_installs(s: SchemaModel, table: Seq<char>, cols: Seq<ColumnModel>)
    requires
        s.tables.contains_key(table),
    ensures
        apply_add_columns(s, table, cols).tables.contains_key(table),
        forall|j: int|
            0 <= j < cols.len() ==> apply_add_columns(s, table, cols).tables[table].contains_key(
                #[trigger] cols[j].name,
            ),
    decreases cols.len(),
{
    if cols.len() > 0 {
        let s1 = apply_add_column(s, table, cols[0]);
        assert(s1.tables.contains_key(table));
        assert(s1.tables[table].contains_key(cols[0].name));
        lemma_add_columns_installs(s1, table, cols.drop_first());
        lemma_add_columns_le(s1, table, cols.drop_first());
        assert(forall|j: int|
            1 <= j < cols.len() ==> cols.drop_first()[j - 1] == #[trigger] cols[j]);
    }
}

proof fn lemma_event_type_installs(s: SchemaModel, b: BindingModel)
    ensures
        table_in_schema(b, apply_event_type(s, b)),
{
    let s1 = apply_create_table(s, b.name, b.def);
    let s2 = apply_create_index(s1, b.name);
    assert(s2.tables.contains_key(b.name));
    assert(s2.indexes.contains(index_name(b.name)));
    lemma_add_columns_installs(s2, b.name, b.def);
    lemma_add_columns_le(s2, b.name, b.def);
}

/// A full pass installs every event type of the catalog it was derived from.
pub proof fn lemma_catalog_installs(s: SchemaModel, cat: Seq<BindingModel>)
    ensures
        catalog_in_schema(cat, apply_catalog(s, cat)),
    decreases cat.len(),
{
    if cat.len() > 0 {
        let s1 = apply_event_type(s, cat[0]);
        lemma_event_type_installs(s, cat[0]);
        lemma_catalog_installs(s1, cat.drop_first());
        lemma_catalog_le(s1, cat.drop_first());
        lemma_le_preserves_in_schema(seq![cat[0]], s1, apply_catalog(s1, cat.drop_first()));
        assert(forall|i: int|
            1 <= i < cat.len() ==> cat.drop_first()[i - 1] == #[trigger] cat[i]);
        assert(table_in_schema(cat[0], apply_catalog(s1, cat.drop_first())));
    }
}

/// The one-way ratchet: across any run of synchronization passes, the live
/// schema is a superset of every previously synchronized catalog. One pass
/// never removes what an earlier pass installed, and installs its own catalog
/// in full.
pub proof fn lemma_synchronize_ratchet(
    s: SchemaModel,
    prev: Seq<BindingModel>,
    next: Seq<BindingModel>,
)
    requires
        catalog_in_schema(prev, s),
    ensures
        schema_le(s, apply_catalog(s, next)),
        catalog_in_schema(prev, apply_catalog(s, next)),
        catalog_in_schema(next, apply_catalog(s, next)),
{
    lemma_catalog_le(s, next);
    lemma_le_preserves_in_schema(prev, s, apply_catalog(s, next));
    lemma_catalog_installs(s, next);
}

} // verus!
