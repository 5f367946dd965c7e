//! The type catalog: the in-memory form of the event-type description.
//!
//! An event type is a named, ordered list of columns, each with a data type
//! drawn from a closed set of tags. The catalog maps event-type names to
//! their definitions; each event type is backed by one database table named
//! identically to its key.

use vstd::prelude::*;

verus! {

/// The closed set of data types a column of an event type may have.
/// An unrecognized tag in the description is a validation error.
#[derive(Clone, Copy, PartialEq, Eq, Structural, Debug)]
pub enum DataTypeTag {
    Timestamp,
    BigInt,
    Int,
}

/// The tag, if any, that a data-type string of the description denotes.
/// Tags are case-sensitive.
pub open spec fn spec_tag_of(s: Seq<char>) -> Option<DataTypeTag> {
    if s == "timestamp"@ {
        Some(DataTypeTag::Timestamp)
    } else if s == "bigint"@ {
        Some(DataTypeTag::BigInt)
    } else if s == "int"@ {
        Some(DataTypeTag::Int)
    } else {
        None
    }
}

/// The SQL type name a tag maps to in derived DDL.
pub open spec fn spec_sql_type(t: DataTypeTag) -> Seq<char> {
    match t {
        DataTypeTag::Timestamp => "timestamp"@,
        DataTypeTag::BigInt => "bigint"@,
        DataTypeTag::Int => "int"@,
    }
}

/// Parses a data-type tag string of the description.
pub fn parse_tag(s: &str) -> (t: Option<DataTypeTag>)
    ensures
        t == spec_tag_of(s@),
{
    let owned = s.to_owned();
    if owned == "timestamp".to_owned() {
        Some(DataTypeTag::Timestamp)
    } else if owned == "bigint".to_owned() {
        Some(DataTypeTag::BigInt)
    } else if owned == "int".to_owned() {
        Some(DataTypeTag::Int)
    } else {
        None
    }
}

/// The SQL type name a tag maps to.
pub fn sql_type_name(t: DataTypeTag) -> (s: &'static str)
    ensures
        s@ == spec_sql_type(t),
{
    match t {
        DataTypeTag::Timestamp => "timestamp",
        DataTypeTag::BigInt => "bigint",
        DataTypeTag::Int => "int",
    }
}

/// The mathematical value of one column definition.
pub struct ColumnModel {
    pub name: Seq<char>,
    pub data_type: DataTypeTag,
}

/// One column of an event type: a name and a data type.
#[derive(Debug)]
pub struct ColumnDef {
    pub name: String,
    pub data_type: DataTypeTag,
}

impl View for ColumnDef {
    type V = ColumnModel;

    open spec fn view(&self) -> ColumnModel {
        ColumnModel { name: self.name@, data_type: self.data_type }
    }
}

/// An event type's definition: its columns, in declared order.
#[derive(Debug)]
pub struct EventTypeDef {
    pub columns: Vec<ColumnDef>,
}

impl View for EventTypeDef {
    type V = Seq<ColumnModel>;

    open spec fn view(&self) -> Seq<ColumnModel> {
        self.columns@.map_values(|c: ColumnDef| c@)
    }
}

impl EventTypeDef {
    /// Column names are unique within one event type.
    pub open spec fn wf(&self) -> bool {
        forall|i: int, j: int|
            0 <= i < j < self@.len() ==> self@[i].name != self@[j].name
    }
}

/// One entry of the catalog: an event-type name bound to its definition.
/// The name is also the name of the backing database table.
#[derive(Debug)]
pub struct EventTypeBinding {
    pub name: String,
    pub def: EventTypeDef,
}

/// The mathematical value of one catalog entry.
pub struct BindingModel {
    pub name: Seq<char>,
    pub def: Seq<ColumnModel>,
}

impl View for EventTypeBinding {
    type V = BindingModel;

    open spec fn view(&self) -> BindingModel {
        BindingModel { name: self.name@, def: self.def@ }
    }
}

/// The catalog: event-type bindings in the order the description gave them.
#[derive(Debug)]
pub struct TypeCatalog {
    pub entries: Vec<EventTypeBinding>,
}

impl View for TypeCatalog {
    type V = Seq<BindingModel>;

    open spec fn view(&self) -> Seq<BindingModel> {
        self.entries@.map_values(|b: EventTypeBinding| b@)
    }
}

impl TypeCatalog {
    /// Event-type names are unique, and every definition is well formed.
    pub open spec fn wf(&self) -> bool {
        &&& forall|i: int, j: int|
            0 <= i < j < self@.len() ==> self@[i].name != self@[j].name
        &&& forall|i: int|
            0 <= i < self.entries@.len() ==> (#[trigger] self.entries@[i]).def.wf()
    }

    /// The number of event types.
    pub fn len(&self) -> (n: usize)
        ensures
            n == self@.len(),
    {
        self.entries.len()
    }

    /// Whether the catalog holds no event types at all.
    pub fn is_empty(&self) -> (b: bool)
        ensures
            b == (self@.len() == 0),
    {
        self.entries.len() == 0
    }

    /// The entry at a position of the catalog's order.
    pub fn get(&self, i: usize) -> (b: &EventTypeBinding)
        requires
            i < self@.len(),
        ensures
            b@ == self@[i as int],
    {
        &self.entries[i]
    }

    /// The definition bound to a name, if the name is an event type of the
    /// catalog.
    pub fn get_def(&self, name: &str) -> (r: Option<&EventTypeDef>)
        ensures
            match r {
                Some(d) => exists|i: int|
                    0 <= i < self@.len() && self@[i].name == name@ && d@ == self@[i].def,
                None => forall|i: int| 0 <= i < self@.len() ==> self@[i].name != name@,
            },
    {
        let target = name.to_owned();
        let n = self.entries.len();
        for i in 0..n
            invariant
                n == self@.len(),
                target@ == name@,
                forall|k: int| 0 <= k < i ==> self@[k].name != name@,
        {
            if self.entries[i].name == target {
                proof {
                    assert(self@[i as int] == self.entries@[i as int]@);
                }
                return Some(&self.entries[i].def);
            }
        }
        None
    }
}

/// Why a description failed to load: the backing store was unreadable, the
/// document held no event type at all, or its structure or a data-type tag
/// was invalid.
#[derive(Clone, Copy, PartialEq, Eq, Structural, Debug)]
pub enum LoadError {
    Io,
    Empty,
    Malformed,
}

} // verus!
