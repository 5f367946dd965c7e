use dbreadwrite::catalog::{ColumnDef, DataTypeTag, EventTypeDef, LoadError};
use dbreadwrite::ddl::{plan_synchronize, query_for_index, query_from_column_data_type,
    query_from_event_type};
use dbreadwrite::loader::load_event_types;
use dbreadwrite::manager::{ChangeEvent, PollOutcome, SchemaManager, SyncDecision, SyncError};

fn type_mapping_document() -> &'static str {
    r#"{
        "mint_coins": {
            "type_mapping": {
                "account_id": "int",
                "amount": "bigint",
                "time": "timestamp"
            }
        },
        "burn_coins": {
            "type_mapping": {
                "account_id": "int",
                "amount": "bigint",
                "time": "timestamp"
            }
        },
        "transfer_coins": {
            "type_mapping": {
                "from_account_id": "int",
                "to_account_id": "int",
                "amount": "bigint",
                "time": "timestamp"
            }
        }
    }"#
}

#[test]
fn test_query_from_column_data_type() {
    let q = query_from_column_data_type("mint_coins", "time", "timestamp");
    assert_eq!(
        &q,
        "ALTER TABLE mint_coins ADD COLUMN IF NOT EXISTS time timestamp"
    );
}

#[test]
fn test_load_event_types_from_file() {
    let map = load_event_types(type_mapping_document()).unwrap();
    assert!(map.len() == 3usize);
}

#[test]
fn test_query_from_event_type() {
    let map = load_event_types(type_mapping_document()).unwrap();
    let def = map.get_def("mint_coins").unwrap();
    let query = query_from_event_type("mint_coins", def);
    println!("{}", query);
    assert_eq!(
        &query,
        "CREATE TABLE IF NOT EXISTS mint_coins (account_id int,amount bigint,time timestamp)"
    );
}

#[test]
fn test_create_table_derivation_round_trip() {
    let def = EventTypeDef {
        columns: vec![
            ColumnDef { name: "account_id".to_string(), data_type: DataTypeTag::Int },
            ColumnDef { name: "amount".to_string(), data_type: DataTypeTag::BigInt },
            ColumnDef { name: "time".to_string(), data_type: DataTypeTag::Timestamp },
        ],
    };
    let first = query_from_event_type("events", &def);
    let second = query_from_event_type("events", &def);
    assert_eq!(
        &first,
        "CREATE TABLE IF NOT EXISTS events (account_id int,amount bigint,time timestamp)"
    );
    assert_eq!(first, second);
}

#[test]
fn test_query_for_index() {
    let q = query_for_index("burns");
    assert_eq!(&q, "CREATE INDEX CONCURRENTLY IF NOT EXISTS burns_tsidx ON burns(time)");
}

#[test]
fn test_load_empty_document() {
    assert_eq!(load_event_types("").unwrap_err(), LoadError::Empty);
    assert_eq!(load_event_types("{}").unwrap_err(), LoadError::Empty);
}

#[test]
fn test_load_unrecognized_tag() {
    let doc = r#"{"mint_coins": {"type_mapping": {"time": "datetime"}}}"#;
    assert_eq!(load_event_types(doc).unwrap_err(), LoadError::Malformed);
}

#[test]
fn test_load_tag_case_sensitive() {
    let doc = r#"{"mint_coins": {"type_mapping": {"time": "Timestamp"}}}"#;
    assert_eq!(load_event_types(doc).unwrap_err(), LoadError::Malformed);
}

#[test]
fn test_load_not_an_object() {
    assert_eq!(load_event_types("[1, 2, 3]").unwrap_err(), LoadError::Malformed);
    assert_eq!(load_event_types("not json at all").unwrap_err(), LoadError::Malformed);
}

#[test]
fn test_load_missing_type_mapping() {
    let doc = r#"{"mint_coins": {"columns": {"time": "timestamp"}}}"#;
    assert_eq!(load_event_types(doc).unwrap_err(), LoadError::Malformed);
}

#[test]
fn test_load_non_string_tag() {
    let doc = r#"{"mint_coins": {"type_mapping": {"time": 7}}}"#;
    assert_eq!(load_event_types(doc).unwrap_err(), LoadError::Malformed);
}

#[test]
fn test_load_keeps_declared_columns() {
    let doc = r#"{"burns": {"type_mapping": {"account_id": "int", "amount": "bigint", "time": "timestamp"}}}"#;
    let catalog = load_event_types(doc).unwrap();
    assert_eq!(catalog.len(), 1);
    let def = catalog.get_def("burns").unwrap();
    assert_eq!(def.columns.len(), 3);
    assert_eq!(def.columns[0].name, "account_id");
    assert_eq!(def.columns[0].data_type, DataTypeTag::Int);
    assert_eq!(def.columns[1].name, "amount");
    assert_eq!(def.columns[1].data_type, DataTypeTag::BigInt);
    assert_eq!(def.columns[2].name, "time");
    assert_eq!(def.columns[2].data_type, DataTypeTag::Timestamp);
}

#[test]
fn test_plan_is_additive_across_growing_catalogs() {
    let before = load_event_types(r#"{"burns": {"type_mapping": {"time": "timestamp"}}}"#)
        .unwrap();
    let after = load_event_types(
        r#"{
            "burns": {"type_mapping": {"amount": "bigint", "time": "timestamp"}},
            "mints": {"type_mapping": {"time": "timestamp"}}
        }"#,
    )
    .unwrap();
    let plan_before = plan_synchronize(&before);
    let plan_after = plan_synchronize(&after);
    assert_eq!(plan_before.len(), 1);
    assert_eq!(plan_after.len(), 2);
    // Everything the first pass set up is still asked for, conditionally, by
    // the second pass; the new column arrives as a retrofit.
    assert_eq!(&plan_after[0].table, "burns");
    assert_eq!(
        &plan_after[0].add_columns[1],
        "ALTER TABLE burns ADD COLUMN IF NOT EXISTS time timestamp"
    );
    assert_eq!(
        &plan_after[0].add_columns[0],
        "ALTER TABLE burns ADD COLUMN IF NOT EXISTS amount bigint"
    );
    assert_eq!(&plan_after[0].create_index, &plan_before[0].create_index);
    for entry in plan_after.iter() {
        assert!(entry.create_table.starts_with("CREATE TABLE IF NOT EXISTS "));
        assert!(entry.create_index.starts_with("CREATE INDEX CONCURRENTLY IF NOT EXISTS "));
        for stmt in entry.add_columns.iter() {
            assert!(stmt.starts_with("ALTER TABLE "));
            assert!(stmt.contains(" ADD COLUMN IF NOT EXISTS "));
        }
    }
}

#[test]
fn test_load_is_reproducible() {
    let doc = type_mapping_document();
    let first = load_event_types(doc).unwrap();
    let second = load_event_types(doc).unwrap();
    assert_eq!(first.len(), second.len());
    let plan_first = plan_synchronize(&first);
    let plan_second = plan_synchronize(&second);
    for (a, b) in plan_first.iter().zip(plan_second.iter()) {
        assert_eq!(a.table, b.table);
        assert_eq!(a.create_table, b.create_table);
        assert_eq!(a.create_index, b.create_index);
        assert_eq!(a.add_columns, b.add_columns);
    }
}

#[test]
fn test_check_update_schema_decisions() {
    assert_eq!(
        SchemaManager::check_update_schema(PollOutcome::Event(ChangeEvent::Write)),
        SyncDecision::Resynchronize
    );
    assert_eq!(
        SchemaManager::check_update_schema(PollOutcome::Event(ChangeEvent::Other)),
        SyncDecision::NoAction
    );
    assert_eq!(SchemaManager::check_update_schema(PollOutcome::Empty), SyncDecision::NoAction);
    assert_eq!(
        SchemaManager::check_update_schema(PollOutcome::Disconnected),
        SyncDecision::Fatal
    );
}

#[test]
fn test_snapshot_whole_value_replacement() {
    let mut manager = SchemaManager::new();
    assert!(manager.get_event_types().is_empty());

    let two = load_event_types(
        r#"{
            "burns": {"type_mapping": {"time": "timestamp"}},
            "mints": {"type_mapping": {"time": "timestamp"}}
        }"#,
    )
    .unwrap();
    assert!(manager.commit_sync(two).is_ok());
    let snapshot = manager.get_event_types();
    assert_eq!(snapshot.len(), 2);
    assert!(snapshot.get_def("burns").is_some());
    assert!(snapshot.get_def("mints").is_some());

    let three = load_event_types(
        r#"{
            "burns": {"type_mapping": {"time": "timestamp"}},
            "mints": {"type_mapping": {"time": "timestamp"}},
            "transfers": {"type_mapping": {"time": "timestamp"}}
        }"#,
    )
    .unwrap();
    assert!(manager.commit_sync(three).is_ok());
    let snapshot = manager.get_event_types();
    assert_eq!(snapshot.len(), 3);
    assert!(snapshot.get_def("transfers").is_some());
}

#[test]
fn test_commit_sync_rejects_empty_catalog() {
    let mut manager = SchemaManager::new();
    let one = load_event_types(r#"{"burns": {"type_mapping": {"time": "timestamp"}}}"#).unwrap();
    assert!(manager.commit_sync(one).is_ok());
    let empty = dbreadwrite::catalog::TypeCatalog { entries: Vec::new() };
    assert_eq!(manager.commit_sync(empty).unwrap_err(), SyncError::EmptyCatalog);
    assert!(manager.get_event_types().is_empty());
}
