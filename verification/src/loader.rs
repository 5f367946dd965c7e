//! Loading the declarative event-type description: the document text is
//! parsed as a JSON object by serde_json behind trusted declarations, the
//! parse tree is flattened into a raw, plainly-valued form, and the raw form
//! is validated into a `TypeCatalog` by fully verified code. A load is
//! all-or-nothing: no partial catalog is ever returned.

use vstd::prelude::*;

use crate::catalog::{ColumnDef, ColumnModel, EventTypeBinding, EventTypeDef, LoadError,
    TypeCatalog, parse_tag, spec_tag_of};

verus! {

#[verifier::external_type_specification]
#[verifier::external_body]
pub struct ExJsonValue(serde_json::Value);

#[verifier::external_type_specification]
#[verifier::external_body]
#[verifier::reject_recursive_types(K)]
#[verifier::reject_recursive_types(V)]
pub struct ExJsonMap<K, V>(serde_json::Map<K, V>);

#[verifier::external_type_specification]
#[verifier::external_body]
pub struct ExJsonError(serde_json::Error);

/// Whether the document text parses as a JSON object: serde_json's parse is
/// a function of the text alone.
pub uninterp spec fn json_doc_ok(text: Seq<char>) -> bool;

/// The raw event-type document a parseable text denotes: a function of the
/// text alone, so two loads of byte-identical text see one and the same
/// document, in the same order.
pub uninterp spec fn json_doc_raw(text: Seq<char>) -> Seq<RawModel>;

/// The set of keys a parsed JSON object holds.
pub uninterp spec fn json_object_keys(m: serde_json::Map<String, serde_json::Value>) -> Set<
    Seq<char>,
>;

/// The document reading of a parsed JSON object: its keys in the map's own
/// (deterministic) order, each with the raw body its value denotes.
pub uninterp spec fn json_map_doc(m: serde_json::Map<String, serde_json::Value>) -> Seq<RawModel>;

/// The column reading of a parsed JSON object, as a `type_mapping` object:
/// its keys in the map's own order, each with the string its value holds, if
/// it holds one.
pub uninterp spec fn json_map_columns(m: serde_json::Map<String, serde_json::Value>) -> Seq<
    RawColumnModel,
>;

/// The raw body an event type's value denotes: the column entries of its
/// `type_mapping` object member, or `Other` for any other shape.
pub uninterp spec fn json_value_body(v: serde_json::Value) -> RawBodyModel;

/// The raw body an event type's object denotes: as `json_value_body`, one
/// object level in.
pub uninterp spec fn json_object_body(m: serde_json::Map<String, serde_json::Value>) -> RawBodyModel;

/// The raw body a `type_mapping` member's value denotes: its column entries
/// where it is an object, `Other` otherwise.
pub uninterp spec fn json_value_mapping(v: serde_json::Value) -> RawBodyModel;

/// The string a JSON value holds, if it is a string: what `Value::as_str`
/// returns.
pub uninterp spec fn json_value_str(v: serde_json::Value) -> Option<Seq<char>>;

/// Relies on serde_json::from_str: parses the document text as a JSON object
/// keyed by event-type name, or fails on any other document. The parse
/// depends on the text alone, so its outcome and the document the object
/// holds carry the text-level names.
#[verifier::external_body]
fn parse_json_object(text: &str) -> (r: Result<
    serde_json::Map<String, serde_json::Value>,
    serde_json::Error,
>)
    ensures
        r is Ok <==> json_doc_ok(text@),
        r matches Ok(m) ==> json_map_doc(m) == json_doc_raw(text@),
{
    serde_json::from_str(text)
}

/// Relies on serde_json::Map::keys: every key of the object exactly once, in
/// the map's own (deterministic) order — which is also the order of the
/// object's entries under either reading.
#[verifier::external_body]
fn object_keys(m: &serde_json::Map<String, serde_json::Value>) -> (r: Vec<String>)
    ensures
        r@.len() == json_map_doc(*m).len(),
        forall|i: int| 0 <= i < r@.len() ==> (#[trigger] r@[i])@ == json_map_doc(*m)[i].name,
        r@.len() == json_map_columns(*m).len(),
        forall|i: int| 0 <= i < r@.len() ==> (#[trigger] r@[i])@ == json_map_columns(*m)[i].name,
        forall|i: int| 0 <= i < r@.len() ==> json_object_keys(*m).contains((#[trigger] r@[i])@),
        forall|i: int, j: int| 0 <= i < j < r@.len() ==> r@[i]@ != r@[j]@,
        forall|k: Seq<char>|
            #[trigger] json_object_keys(*m).contains(k) ==> exists|i: int|
                0 <= i < r@.len() && r@[i]@ == k,
{
    m.keys().cloned().collect()
}

/// Relies on serde_json::Map::get: Some exactly for the object's keys, and
/// the value under a key is the object's entry of that name — under the
/// document reading, the column reading, and for the `type_mapping` member
/// that decides the object's body.
#[verifier::external_body]
fn object_get<'a>(
    m: &'a serde_json::Map<String, serde_json::Value>,
    key: &str,
) -> (r: Option<&'a serde_json::Value>)
    ensures
        r is Some <==> json_object_keys(*m).contains(key@),
        r matches Some(v) ==> forall|i: int|
            0 <= i < json_map_doc(*m).len() && (#[trigger] json_map_doc(*m)[i]).name == key@
                ==> json_value_body(*v) == json_map_doc(*m)[i].body,
        r matches Some(v) ==> forall|i: int|
            0 <= i < json_map_columns(*m).len() && (#[trigger] json_map_columns(*m)[i]).name
                == key@ ==> json_value_str(*v) == json_map_columns(*m)[i].tag,
        key@ == "type_mapping"@ ==> match r {
            Some(v) => json_object_body(*m) == json_value_mapping(*v),
            None => json_object_body(*m) == RawBodyModel::Other,
        },
{
    m.get(key)
}

/// Relies on serde_json::Value::as_object: Some exactly when the value is an
/// object. A non-object denotes `Other` under both body readings; an
/// object's body is decided one level in.
#[verifier::external_body]
fn value_as_object<'a>(v: &'a serde_json::Value) -> (r: Option<
    &'a serde_json::Map<String, serde_json::Value>,
>)
    ensures
        r is None ==> json_value_body(*v) == RawBodyModel::Other && json_value_mapping(*v)
            == RawBodyModel::Other,
        r matches Some(m) ==> json_value_body(*v) == json_object_body(*m) && json_value_mapping(
            *v,
        ) == RawBodyModel::Mapping(json_map_columns(*m)),
{
    v.as_object()
}

/// Relies on serde_json::Value::as_str: Some exactly when the value is a
/// string, and then its content.
#[verifier::external_body]
fn value_as_str<'a>(v: &'a serde_json::Value) -> (r: Option<&'a str>)
    ensures
        r matches Some(s) ==> json_value_str(*v) == Some(s@),
        r is None ==> json_value_str(*v) is None,
{
    v.as_str()
}

/// One entry of a `type_mapping` object, as plain values: the column name and
/// the data-type tag, or None where the mapped value was not a string.
pub struct RawColumn {
    pub name: String,
    pub tag: Option<String>,
}

/// The mathematical value of a raw column.
pub struct RawColumnModel {
    pub name: Seq<char>,
    pub tag: Option<Seq<char>>,
}

impl View for RawColumn {
    type V = RawColumnModel;

    open spec fn view(&self) -> RawColumnModel {
        RawColumnModel {
            name: self.name@,
            tag: match self.tag {
                Some(s) => Some(s@),
                None => None,
            },
        }
    }
}

/// What stood under one event-type name: a `type_mapping` object's entries,
/// or anything else (no object, or no `type_mapping` object inside it).
pub enum RawBody {
    Mapping(Vec<RawColumn>),
    Other,
}

/// The mathematical value of a raw body.
pub enum RawBodyModel {
    Mapping(Seq<RawColumnModel>),
    Other,
}

impl View for RawBody {
    type V = RawBodyModel;

    open spec fn view(&self) -> RawBodyModel {
        match self {
            RawBody::Mapping(cols) => RawBodyModel::Mapping(
                cols@.map_values(|c: RawColumn| c@),
            ),
            RawBody::Other => RawBodyModel::Other,
        }
    }
}

/// One event type of the document before validation.
pub struct RawEventType {
    pub name: String,
    pub body: RawBody,
}

/// The mathematical value of a raw event type.
pub struct RawModel {
    pub name: Seq<char>,
    pub body: RawBodyModel,
}

impl View for RawEventType {
    type V = RawModel;

    open spec fn view(&self) -> RawModel {
        RawModel { name: self.name@, body: self.body@ }
    }
}

/// The models of a sequence of raw event types.
pub open spec fn raw_models(s: Seq<RawEventType>) -> Seq<RawModel> {
    s.map_values(|r: RawEventType| r@)
}

/// A raw column is valid when its tag is a string naming a recognized data
/// type.
pub open spec fn raw_column_valid(c: RawColumnModel) -> bool {
    c.tag matches Some(t) && spec_tag_of(t) is Some
}

/// A raw event type is valid when it has a `type_mapping` object and every
/// entry of it is a valid column.
pub open spec fn raw_entry_valid(r: RawModel) -> bool {
    r.body matches RawBodyModel::Mapping(cols) && forall|j: int|
        0 <= j < cols.len() ==> raw_column_valid(#[trigger] cols[j])
}

/// A whole raw document is valid when each of its event types is.
pub open spec fn raw_doc_valid(rs: Seq<RawModel>) -> bool {
    forall|i: int| 0 <= i < rs.len() ==> raw_entry_valid(#[trigger] rs[i])
}

/// The column a valid raw column validates to.
pub open spec fn column_of_raw(c: RawColumnModel) -> ColumnModel {
    ColumnModel {
        name: c.name,
        data_type: match c.tag {
            Some(t) => match spec_tag_of(t) {
                Some(d) => d,
                None => arbitrary(),
            },
            None => arbitrary(),
        },
    }
}

/// The binding a valid raw event type validates to.
pub open spec fn binding_of_raw(r: RawModel) -> crate::catalog::BindingModel {
    crate::catalog::BindingModel {
        name: r.name,
        def: match r.body {
            RawBodyModel::Mapping(cols) => cols.map_values(|c: RawColumnModel| column_of_raw(c)),
            RawBodyModel::Other => Seq::empty(),
        },
    }
}

/// The catalog a valid raw document validates to, in document order.
pub open spec fn catalog_of_raw(rs: Seq<RawModel>) -> Seq<crate::catalog::BindingModel> {
    rs.map_values(|r: RawModel| binding_of_raw(r))
}

/// Names are unique across the document and within each `type_mapping`, as
/// they are for any document that came out of a JSON object.
pub open spec fn raw_names_unique(rs: Seq<RawModel>) -> bool {
    &&& forall|i: int, j: int| 0 <= i < j < rs.len() ==> rs[i].name != rs[j].name
    &&& forall|i: int|
        0 <= i < rs.len() ==> match (#[trigger] rs[i]).body {
            RawBodyModel::Mapping(cols) => forall|a: int, b: int|
                0 <= a < b < cols.len() ==> cols[a].name != cols[b].name,
            RawBodyModel::Other => true,
        }
}

/// Validates a raw document into a catalog: `Empty` for a document with no
/// event type at all, `Malformed` exactly when some event type lacks a
/// `type_mapping` object or maps a column to anything but a recognized tag,
/// and otherwise the catalog with every event type and column in document
/// order.
pub fn catalog_from_raw(raw: &Vec<RawEventType>) -> (r: Result<TypeCatalog, LoadError>)
    requires
        raw_names_unique(raw_models(raw@)),
    ensures
        raw@.len() == 0 ==> r == Err::<TypeCatalog, LoadError>(LoadError::Empty),
        raw@.len() > 0 && raw_doc_valid(raw_models(raw@)) ==> (r matches Ok(c) && c@
            == catalog_of_raw(raw_models(raw@))),
        raw@.len() > 0 && !raw_doc_valid(raw_models(raw@)) ==> r == Err::<
            TypeCatalog,
            LoadError,
        >(LoadError::Malformed),
        r matches Ok(c) ==> c.wf() && c@.len() > 0,
{
    let ghost rs = raw_models(raw@);
    if raw.len() == 0 {
        return Err(LoadError::Empty);
    }
    let mut entries: Vec<EventTypeBinding> = Vec::new();
    let n = raw.len();
    for i in 0..n
        invariant
            n == raw@.len(),
            rs == raw_models(raw@),
            raw_names_unique(rs),
            entries@.len() == i,
            forall|k: int| 0 <= k < i ==> raw_entry_valid(#[trigger] rs[k]),
            forall|k: int| 0 <= k < i ==> (#[trigger] entries@[k])@ == binding_of_raw(rs[k]),
    {
        match &raw[i].body {
            RawBody::Other => {
                proof {
                    assert(!raw_entry_valid(rs[i as int]));
                }
                return Err(LoadError::Malformed);
            },
            RawBody::Mapping(cols) => {
                let ghost cms = cols@.map_values(|c: RawColumn| c@);
                let mut cdefs: Vec<ColumnDef> = Vec::new();
                let m = cols.len();
                for j in 0..m
                    invariant
                        m == cols@.len(),
                        cms == cols@.map_values(|c: RawColumn| c@),
                        rs == raw_models(raw@),
                        0 <= i < raw@.len(),
                        raw@[i as int].body@ == RawBodyModel::Mapping(cms),
                        cdefs@.len() == j,
                        forall|l: int| 0 <= l < j ==> raw_column_valid(#[trigger] cms[l]),
                        forall|l: int|
                            0 <= l < j ==> (#[trigger] cdefs@[l])@ == column_of_raw(cms[l]),
                {
                    let tag_ok: Option<crate::catalog::DataTypeTag> = match &cols[j].tag {
                        Some(t) => parse_tag(t.as_str()),
                        None => None,
                    };
                    match tag_ok {
                        None => {
                            proof {
                                assert(cms[j as int] == cols@[j as int]@);
                                assert(!raw_column_valid(cms[j as int]));
                                assert(rs[i as int].body == raw@[i as int].body@);
                                assert(!raw_entry_valid(rs[i as int])) by {
                                    if raw_entry_valid(rs[i as int]) {
                                        assert(rs[i as int].body == RawBodyModel::Mapping(cms));
                                        assert(rs[i as int].body->Mapping_0 == cms);
                                        assert(raw_column_valid(rs[i as int].body->Mapping_0[j as int]));
                                        assert(raw_column_valid(cms[j as int]));
                                    }
                                }
                            }
                            return Err(LoadError::Malformed);
                        },
                        Some(d) => {
                            cdefs.push(ColumnDef { name: cols[j].name.clone(), data_type: d });
                            proof {
                                assert(cms[j as int] == cols@[j as int]@);
                                assert(cdefs@[j as int]@ == column_of_raw(cms[j as int]));
                            }
                        },
                    }
                }
                let binding = EventTypeBinding {
                    name: raw[i].name.clone(),
                    def: EventTypeDef { columns: cdefs },
                };
                entries.push(binding);
                proof {
                    assert(rs[i as int].body == raw@[i as int].body@);
                    assert(raw_entry_valid(rs[i as int]));
                    let built = entries@[i as int]@;
                    let target = binding_of_raw(rs[i as int]);
                    assert(built.def =~= target.def);
                    assert(built == target);
                }
            },
        }
    }
    let cat = TypeCatalog { entries };
    proof {
        assert(cat@ =~= catalog_of_raw(rs));
        assert forall|i: int, j: int| 0 <= i < j < cat@.len() implies cat@[i].name
            != cat@[j].name by {
            assert(cat@[i].name == rs[i].name);
            assert(cat@[j].name == rs[j].name);
        }
        assert forall|i: int| 0 <= i < cat.entries@.len() implies (
        #[trigger] cat.entries@[i]).def.wf() by {
            let def = cat.entries@[i].def;
            match rs[i].body {
                RawBodyModel::Mapping(cols) => {
                    assert(def@ == cols.map_values(|c: RawColumnModel| column_of_raw(c)));
                    assert forall|a: int, b: int| 0 <= a < b < def@.len() implies def@[a].name
                        != def@[b].name by {
                        assert(def@[a].name == cols[a].name);
                        assert(def@[b].name == cols[b].name);
                    }
                },
                RawBodyModel::Other => {
                    assert(raw_entry_valid(rs[i]));
                },
            }
        }
    }
    Ok(cat)
}

/// Loads and validates an event-type description document, all-or-nothing:
/// `Empty` exactly for the empty text and for a document with no event type
/// at all, `Malformed` exactly for text that is no JSON object and for a
/// document that fails validation, and otherwise exactly the catalog the
/// text denotes — so two loads of byte-identical text yield equal catalogs
/// in the same order.
pub fn load_event_types(text: &str) -> (r: Result<TypeCatalog, LoadError>)
    ensures
        r is Ok <==> text@.len() > 0 && json_doc_ok(text@) && json_doc_raw(text@).len() > 0
            && raw_doc_valid(json_doc_raw(text@)),
        r matches Ok(c) ==> c@ == catalog_of_raw(json_doc_raw(text@)) && c.wf() && c@.len() > 0,
        r == Err::<TypeCatalog, LoadError>(LoadError::Empty) <==> text@.len() == 0 || (
        json_doc_ok(text@) && json_doc_raw(text@).len() == 0),
        r == Err::<TypeCatalog, LoadError>(LoadError::Malformed) <==> text@.len() > 0 && (
        !json_doc_ok(text@) || (json_doc_raw(text@).len() > 0 && !raw_doc_valid(
            json_doc_raw(text@),
        ))),
        r != Err::<TypeCatalog, LoadError>(LoadError::Io),
{
    if text.is_empty() {
        return Err(LoadError::Empty);
    }
    let obj = match parse_json_object(text) {
        Ok(obj) => obj,
        Err(_) => {
            return Err(LoadError::Malformed);
        },
    };
    let ghost doc = json_map_doc(obj);
    let keys = object_keys(&obj);
    let mut raw: Vec<RawEventType> = Vec::new();
    let nk = keys.len();
    for i in 0..nk
        invariant
            nk == keys@.len(),
            doc == json_map_doc(obj),
            keys@.len() == doc.len(),
            forall|a: int| 0 <= a < keys@.len() ==> (#[trigger] keys@[a])@ == doc[a].name,
            forall|a: int|
                0 <= a < keys@.len() ==> json_object_keys(obj).contains((#[trigger] keys@[a])@),
            forall|a: int, b: int| 0 <= a < b < keys@.len() ==> keys@[a]@ != keys@[b]@,
            raw@.len() == i,
            forall|k: int| 0 <= k < i ==> (#[trigger] raw@[k])@ == doc[k],
            forall|k: int|
                0 <= k < i ==> match (#[trigger] raw@[k])@.body {
                    RawBodyModel::Mapping(cols) => forall|a: int, b: int|
                        0 <= a < b < cols.len() ==> cols[a].name != cols[b].name,
                    RawBodyModel::Other => true,
                },
    {
        let key = &keys[i];
        let body = match object_get(&obj, key.as_str()) {
            None => {
                // The key was just listed, so the lookup cannot miss.
                proof {
                    assert(false);
                }
                RawBody::Other
            },
            Some(v) => {
                proof {
                    assert(json_value_body(*v) == doc[i as int].body);
                }
                match value_as_object(v) {
                    None => RawBody::Other,
                    Some(ev_obj) => match object_get(ev_obj, "type_mapping") {
                        None => RawBody::Other,
                        Some(tm_val) => match value_as_object(tm_val) {
                            None => RawBody::Other,
                            Some(tm_obj) => {
                                let ghost columns = json_map_columns(*tm_obj);
                                let inner = object_keys(tm_obj);
                                let mut cols: Vec<RawColumn> = Vec::new();
                                let nc = inner.len();
                                for j in 0..nc
                                    invariant
                                        nc == inner@.len(),
                                        columns == json_map_columns(*tm_obj),
                                        inner@.len() == columns.len(),
                                        forall|a: int|
                                            0 <= a < inner@.len() ==> (#[trigger] inner@[a])@
                                                == columns[a].name,
                                        forall|a: int|
                                            0 <= a < inner@.len() ==> json_object_keys(
                                                *tm_obj,
                                            ).contains((#[trigger] inner@[a])@),
                                        forall|a: int, b: int|
                                            0 <= a < b < inner@.len() ==> inner@[a]@ != inner@[b]@,
                                        cols@.len() == j,
                                        forall|l: int|
                                            0 <= l < j ==> (#[trigger] cols@[l])@ == columns[l],
                                {
                                    let tag: Option<String> = match object_get(
                                        tm_obj,
                                        inner[j].as_str(),
                                    ) {
                                        None => {
                                            // The key was just listed, so the
                                            // lookup cannot miss.
                                            proof {
                                                assert(false);
                                            }
                                            None
                                        },
                                        Some(tv) => {
                                            proof {
                                                assert(json_value_str(*tv) == columns[j as int].tag);
                                            }
                                            match value_as_str(tv) {
                                                None => None,
                                                Some(t) => Some(t.to_owned()),
                                            }
                                        },
                                    };
                                    cols.push(RawColumn { name: inner[j].clone(), tag });
                                    proof {
                                        assert(cols@[j as int]@ == columns[j as int]);
                                    }
                                }
                                proof {
                                    let cms = cols@.map_values(|c: RawColumn| c@);
                                    assert(cms =~= columns);
                                    assert forall|a: int, b: int|
                                        0 <= a < b < cms.len() implies cms[a].name
                                        != cms[b].name by {
                                        assert(cms[a].name == inner@[a]@);
                                        assert(cms[b].name == inner@[b]@);
                                    }
                                }
                                RawBody::Mapping(cols)
                            },
                        },
                    },
                }
            },
        };
        proof {
            assert(body@ == doc[i as int].body);
            assert(match body@ {
                RawBodyModel::Mapping(cols) => forall|a: int, b: int|
                    0 <= a < b < cols.len() ==> cols[a].name != cols[b].name,
                RawBodyModel::Other => true,
            });
        }
        raw.push(RawEventType { name: key.clone(), body });
        proof {
            assert(raw@[i as int]@ == doc[i as int]);
            assert(raw@[i as int]@.body == body@);
        }
    }
    proof {
        assert(raw_models(raw@) =~= doc);
        assert(raw_models(raw@) == json_doc_raw(text@));
        assert forall|i: int, j: int|
            0 <= i < j < raw_models(raw@).len() implies raw_models(raw@)[i].name != raw_models(
            raw@,
        )[j].name by {
            assert(raw_models(raw@)[i].name == raw@[i].name@);
            assert(raw_models(raw@)[j].name == raw@[j].name@);
            assert(raw@[i].name@ == keys@[i]@);
            assert(raw@[j].name@ == keys@[j]@);
        }
        assert(raw_names_unique(raw_models(raw@)));
    }
    catalog_from_raw(&raw)
}

} // verus!
