use dbreadwrite::catalog::{ColumnDef, DataTypeTag, EventTypeBinding, EventTypeDef, TypeCatalog,
    parse_tag, sql_type_name};
use dbreadwrite::numfmt::u64_to_string;

#[test]
fn test_parse_tag_recognizes_the_closed_set() {
    assert_eq!(parse_tag("timestamp"), Some(DataTypeTag::Timestamp));
    assert_eq!(parse_tag("bigint"), Some(DataTypeTag::BigInt));
    assert_eq!(parse_tag("int"), Some(DataTypeTag::Int));
    assert_eq!(parse_tag("Timestamp"), None);
    assert_eq!(parse_tag("varchar"), None);
    assert_eq!(parse_tag(""), None);
}

#[test]
fn test_sql_type_name_round_trips_with_parse_tag() {
    for tag in [DataTypeTag::Timestamp, DataTypeTag::BigInt, DataTypeTag::Int] {
        assert_eq!(parse_tag(sql_type_name(tag)), Some(tag));
    }
}

#[test]
fn test_u64_to_string_exact() {
    assert_eq!(&u64_to_string(0), "0");
    assert_eq!(&u64_to_string(7), "7");
    assert_eq!(&u64_to_string(10), "10");
    assert_eq!(&u64_to_string(999), "999");
    assert_eq!(&u64_to_string(123_456_789), "123456789");
    assert_eq!(&u64_to_string(u64::MAX), "18446744073709551615");
}

#[test]
fn test_catalog_get_def_finds_only_known_names() {
    let catalog = TypeCatalog {
        entries: vec![EventTypeBinding {
            name: "burns".to_string(),
            def: EventTypeDef {
                columns: vec![ColumnDef {
                    name: "time".to_string(),
                    data_type: DataTypeTag::Timestamp,
                }],
            },
        }],
    };
    assert!(catalog.get_def("burns").is_some());
    assert!(catalog.get_def("mints").is_none());
    assert_eq!(catalog.get(0).name, "burns");
    assert!(!catalog.is_empty());
    assert_eq!(catalog.len(), 1);
}
