use bamboolog::config_store::{ConfigEntry, ConfigError, ConfigTable, JWT_CONFIG_ID, SYSTEM_COMPONENT};

fn decode_number(s: &str) -> Result<i64, String> {
    s.trim().parse::<i64>().map_err(|e| e.to_string())
}

fn rows_for(table: &ConfigTable, entry: &ConfigEntry) -> usize {
    table
        .rows
        .iter()
        .filter(|r| r.component == entry.component && r.config_id == entry.config_id)
        .count()
}

#[test]
fn get_on_empty_table_is_none() {
    let table = ConfigTable::new();
    assert!(ConfigEntry::jwt().get_string(&table).is_none());
    assert!(matches!(ConfigEntry::jwt().get(&table, decode_number), Ok(None)));
}

#[test]
fn set_then_get_returns_value() {
    let mut table = ConfigTable::new();
    let entry = ConfigEntry::new("blog", 7);
    assert!(entry.set_string(&mut table, "42".to_string()).is_ok());
    assert_eq!(entry.get_string(&table), Some("42".to_string()));
    assert!(matches!(entry.get(&table, decode_number), Ok(Some(42))));
}

#[test]
fn set_then_get_typed_json_round_trip() {
    let mut table = ConfigTable::new();
    let entry = ConfigEntry::site();
    let value = r#"{"site_name":"Bamboo","base_url":"https://example.org"}"#.to_string();
    assert!(entry.set_string(&mut table, value.clone()).is_ok());
    let decoded = entry.get(&table, |s: &str| {
        serde_json::from_str::<serde_json::Value>(s).map_err(|e| e.to_string())
    });
    match decoded {
        Ok(Some(v)) => assert_eq!(v, serde_json::from_str::<serde_json::Value>(&value).unwrap()),
        _ => panic!("expected a decoded value"),
    }
}

#[test]
fn set_twice_keeps_one_row_with_latest_value() {
    let mut table = ConfigTable::new();
    let entry = ConfigEntry::jwt();
    assert!(entry.set_string(&mut table, "first".to_string()).is_ok());
    assert!(entry.set_string(&mut table, "second".to_string()).is_ok());
    assert_eq!(rows_for(&table, &entry), 1);
    assert_eq!(table.rows.len(), 1);
    assert_eq!(entry.get_string(&table), Some("second".to_string()));
}

#[test]
fn update_keeps_surrogate_id() {
    let mut table = ConfigTable::new();
    let a = ConfigEntry::new("a", 1);
    let b = ConfigEntry::new("a", 2);
    assert!(a.set_string(&mut table, "x".to_string()).is_ok());
    assert!(b.set_string(&mut table, "y".to_string()).is_ok());
    let id_a = table.rows[0].id;
    assert!(a.set_string(&mut table, "z".to_string()).is_ok());
    assert_eq!(table.rows.len(), 2);
    assert_eq!(table.rows[0].id, id_a);
    assert_ne!(table.rows[0].id, table.rows[1].id);
    assert_eq!(b.get_string(&table), Some("y".to_string()));
    assert_eq!(a.get_string(&table), Some("z".to_string()));
}

#[test]
fn keys_differ_by_component_and_id() {
    let mut table = ConfigTable::new();
    assert!(ConfigEntry::new("system", 1).set_string(&mut table, "s1".to_string()).is_ok());
    assert!(ConfigEntry::new("other", 1).set_string(&mut table, "o1".to_string()).is_ok());
    assert_eq!(ConfigEntry::jwt().get_string(&table), Some("s1".to_string()));
    assert_eq!(ConfigEntry::new("other", 1).get_string(&table), Some("o1".to_string()));
    assert!(ConfigEntry::new("system", 2).get_string(&table).is_none());
}

#[test]
fn decode_error_carries_message() {
    let mut table = ConfigTable::new();
    let entry = ConfigEntry::theme_service();
    assert!(entry.set_string(&mut table, "not a number".to_string()).is_ok());
    match entry.get(&table, decode_number) {
        Err(ConfigError::DecodeError(m)) => assert!(!m.is_empty()),
        _ => panic!("expected a decode error"),
    }
}

#[test]
fn insert_fails_when_ids_are_exhausted() {
    let mut table = ConfigTable::new();
    table.next_id = i32::MAX;
    match ConfigEntry::jwt().set_string(&mut table, "v".to_string()) {
        Err(ConfigError::StoreError(_)) => {}
        _ => panic!("expected a store error"),
    }
    assert_eq!(table.rows.len(), 0);
}

#[test]
fn built_in_entries() {
    assert_eq!(ConfigEntry::jwt().component, SYSTEM_COMPONENT);
    assert_eq!(ConfigEntry::jwt().config_id, JWT_CONFIG_ID);
    assert_eq!(ConfigEntry::theme_service().config_id, 2);
    assert_eq!(ConfigEntry::site().config_id, 3);
}
