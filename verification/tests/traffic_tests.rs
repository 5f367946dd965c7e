use dbreadwrite::catalog::{ColumnDef, DataTypeTag, EventTypeBinding, EventTypeDef, TypeCatalog};
use dbreadwrite::loader::load_event_types;
use dbreadwrite::traffic::{InsertEvent, commit_random_event, execute_random_read_query,
    pick_random_event_type, random_bigint_value, random_int_value, random_timestamp_offset_ms};

fn burns_catalog() -> TypeCatalog {
    load_event_types(
        r#"{"burns": {"type_mapping": {"account_id": "int", "amount": "bigint", "time": "timestamp"}}}"#,
    )
    .unwrap()
}

#[test]
fn test_random_generation_bounds() {
    for _ in 0..10_000 {
        let v = random_int_value();
        assert!((1..1000).contains(&v));
        let v = random_bigint_value();
        assert!((1..1_000_000_000).contains(&v));
        let v = random_timestamp_offset_ms();
        assert!((1..1_000_000).contains(&v));
    }
}

#[test]
fn test_pick_random_event_type_in_range() {
    let catalog = burns_catalog();
    for _ in 0..100 {
        assert!(pick_random_event_type(&catalog) < catalog.len());
    }
}

#[test]
fn test_insert_event_sql_exact() {
    let ev = InsertEvent {
        table: "burns".to_string(),
        columns: vec!["account_id".to_string(), "amount".to_string(), "time".to_string()],
        values: vec!["7".to_string(), "11".to_string(), "'2021-01-01 00:00:00'".to_string()],
    };
    assert_eq!(
        &ev.sql(),
        "INSERT INTO burns(account_id, amount, time) VALUES (7, 11, '2021-01-01 00:00:00')"
    );
}

#[test]
fn test_end_to_end_scenario() {
    let catalog = burns_catalog();
    assert_eq!(catalog.len(), 1);

    let plan = dbreadwrite::ddl::plan_synchronize(&catalog);
    assert_eq!(plan.len(), 1);
    assert_eq!(
        &plan[0].create_table,
        "CREATE TABLE IF NOT EXISTS burns (account_id int,amount bigint,time timestamp)"
    );
    assert_eq!(
        &plan[0].create_index,
        "CREATE INDEX CONCURRENTLY IF NOT EXISTS burns_tsidx ON burns(time)"
    );

    let called_at = chrono::Utc::now().naive_utc();
    let ev = commit_random_event(&catalog);
    assert_eq!(&ev.table, "burns");
    assert_eq!(ev.columns, vec!["account_id", "amount", "time"]);
    assert_eq!(ev.values.len(), 3);

    let account_id: i64 = ev.values[0].parse().unwrap();
    assert!(account_id >= 1 && account_id < 1000);
    let amount: i64 = ev.values[1].parse().unwrap();
    assert!(amount >= 1 && amount < 1_000_000_000);

    let time_literal = &ev.values[2];
    assert!(time_literal.starts_with('\'') && time_literal.ends_with('\''));
    let inner = &time_literal[1..time_literal.len() - 1];
    let instant = chrono::NaiveDateTime::parse_from_str(inner, "%Y-%m-%d %H:%M:%S").unwrap();
    // Within the trailing 1000-second window of the call, with slack for the
    // truncation to whole seconds and for the clock moving between the call
    // and the check.
    assert!(instant >= called_at - chrono::Duration::seconds(1002));
    assert!(instant <= called_at + chrono::Duration::seconds(2));

    let sql = ev.sql();
    let expected = format!(
        "INSERT INTO burns(account_id, amount, time) VALUES ({}, {}, {})",
        ev.values[0], ev.values[1], ev.values[2]
    );
    assert_eq!(sql, expected);
}

#[test]
fn test_commit_random_event_picks_a_known_event_type() {
    let catalog = TypeCatalog {
        entries: vec![
            EventTypeBinding {
                name: "burns".to_string(),
                def: EventTypeDef {
                    columns: vec![ColumnDef {
                        name: "amount".to_string(),
                        data_type: DataTypeTag::BigInt,
                    }],
                },
            },
            EventTypeBinding {
                name: "mints".to_string(),
                def: EventTypeDef {
                    columns: vec![ColumnDef {
                        name: "account_id".to_string(),
                        data_type: DataTypeTag::Int,
                    }],
                },
            },
        ],
    };
    for _ in 0..50 {
        let ev = commit_random_event(&catalog);
        assert!(ev.table == "burns" || ev.table == "mints");
        if ev.table == "burns" {
            assert_eq!(ev.columns, vec!["amount"]);
            let v: i64 = ev.values[0].parse().unwrap();
            assert!(v >= 1 && v < 1_000_000_000);
        } else {
            assert_eq!(ev.columns, vec!["account_id"]);
            let v: i64 = ev.values[0].parse().unwrap();
            assert!(v >= 1 && v < 1000);
        }
    }
}

#[test]
fn test_execute_random_read_query_shape() {
    let catalog = burns_catalog();
    for _ in 0..20 {
        let q = execute_random_read_query(&catalog);
        assert!(q.starts_with("SELECT time,amount FROM burns WHERE time BETWEEN '"));
        assert!(q.contains("' AND '"));
        assert!(q.ends_with('\''));
    }
}
