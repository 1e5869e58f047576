use std::time::{SystemTime, UNIX_EPOCH};

use stickyvar::location::{resolve_db_location, DbLocation};
use stickyvar::store::{
    assignment_lines, first_value, listing_lines, replace_params, text_param, Record, SqlParam, Store,
    StoreError,
};

fn now() -> i64 {
    SystemTime::now().duration_since(UNIX_EPOCH).unwrap().as_secs() as i64
}

fn memory_store() -> Store {
    Store::open(":memory:").unwrap()
}

#[test]
fn set_twice_keeps_one_record_with_last_value() {
    let store = memory_store();
    store.set("X", "a", now()).unwrap();
    store.set("X", "b", now()).unwrap();
    assert_eq!(store.get("X"), Ok("b".to_string()));
    let records = store.list().unwrap();
    assert_eq!(records.iter().filter(|r| r.name == "X").count(), 1);
}

#[test]
fn get_missing_is_not_found_and_changes_nothing() {
    let store = memory_store();
    store.set("KEEP", "v", now()).unwrap();
    let before = store.list().unwrap();
    assert_eq!(store.get("missing"), Err(StoreError::NotFound));
    assert_eq!(store.list().unwrap(), before);
}

#[test]
fn list_returns_all_records_with_times() {
    let store = memory_store();
    let before = now();
    store.set("A", "1", now()).unwrap();
    store.set("B", "2", now()).unwrap();
    let mut records = store.list().unwrap();
    records.sort_by(|a, b| a.name.cmp(&b.name));
    assert_eq!(records.len(), 2);
    assert_eq!((records[0].name.as_str(), records[0].value.as_str()), ("A", "1"));
    assert_eq!((records[1].name.as_str(), records[1].value.as_str()), ("B", "2"));
    for r in &records {
        assert!(r.modified_at.unwrap() >= before);
    }
}

#[test]
fn delete_removes_and_is_idempotent() {
    let store = memory_store();
    store.set("X", "v", now()).unwrap();
    store.delete("X").unwrap();
    assert_eq!(store.get("X"), Err(StoreError::NotFound));
    assert_eq!(store.delete("X"), Ok(()));
    assert_eq!(store.delete("never-set"), Ok(()));
}

#[test]
fn values_round_trip_through_store() {
    let store = memory_store();
    let value = "multi\nline = \"quoted\" ünï 🎉";
    store.set("V", value, now()).unwrap();
    assert_eq!(store.get("V"), Ok(value.to_string()));
    store.set("EMPTY", "", now()).unwrap();
    assert_eq!(store.get("EMPTY"), Ok(String::new()));
}

#[test]
fn get_all_prints_encoded_value() {
    let store = memory_store();
    store.set("GREETING", "hello world", now()).unwrap();
    let lines = store.get_all_lines().unwrap();
    assert_eq!(lines, vec!["GREETING=hello%20world".to_string()]);
}

#[test]
fn list_prints_escaped_newline() {
    let store = memory_store();
    store.set("MSG", "line1\nline2", now()).unwrap();
    let lines = store.list_lines().unwrap();
    assert_eq!(lines, vec!["MSG=\"line1\\nline2\"".to_string()]);
}

#[test]
fn open_fails_on_unusable_path() {
    let r = Store::open("/nonexistent-directory/deeper/sticky-var.db");
    match r {
        Err(StoreError::StorageUnavailable(message)) => assert!(!message.is_empty()),
        _ => panic!("expected StorageUnavailable"),
    }
}

#[test]
fn first_value_of_no_rows_is_not_found() {
    assert_eq!(first_value(&Vec::new()), Err(StoreError::NotFound));
    let rows = vec![Record { name: "N".to_string(), value: "v".to_string(), modified_at: None }];
    assert_eq!(first_value(&rows), Ok("v".to_string()));
}

#[test]
fn lines_follow_record_order() {
    let rows = vec![
        Record { name: "A".to_string(), value: "x y".to_string(), modified_at: Some(1) },
        Record { name: "B".to_string(), value: "q\"".to_string(), modified_at: None },
    ];
    assert_eq!(assignment_lines(&rows), vec!["A=x%20y".to_string(), "B=q%22".to_string()]);
    assert_eq!(listing_lines(&rows), vec!["A=\"x y\"".to_string(), "B=\"q\\\"\"".to_string()]);
}

#[test]
fn location_prefers_override_then_state_then_data() {
    let s = |x: &str| Some(x.to_string());
    assert_eq!(
        resolve_db_location(s("/tmp/my.db"), s("/state"), s("/data")),
        Ok(DbLocation::Explicit("/tmp/my.db".to_string()))
    );
    assert_eq!(
        resolve_db_location(None, s("/state"), s("/data")),
        Ok(DbLocation::Platform("/state".to_string()))
    );
    assert_eq!(
        resolve_db_location(None, None, s("/data")),
        Ok(DbLocation::Platform("/data".to_string()))
    );
    assert_eq!(resolve_db_location(None, None, None), Err(StoreError::Config));
}

#[test]
fn replace_binds_name_value_and_time_in_order() {
    let p = replace_params("N", "v w", 42);
    assert_eq!(p.len(), 3);
    assert!(matches!(&p[0], SqlParam::Text(t) if t == "N"));
    assert!(matches!(&p[1], SqlParam::Text(t) if t == "v w"));
    assert!(matches!(&p[2], SqlParam::Integer(42)));
    let q = text_param("X");
    assert!(q.len() == 1 && matches!(&q[0], SqlParam::Text(t) if t == "X"));
}
