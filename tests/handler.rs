use kvdict::command::handler::CommandHandler;
use kvdict::command::handler_v1;
use kvdict::command::{Command, CommandHandle};
use kvdict::errors::DictError;
use kvdict::storage::memory::MemDB;
use kvdict::storage::Storage;
use kvdict::Value;

#[test]
fn test_handle_get() {
    let store = MemDB::new(100);
    let handler = CommandHandler::new(store);

    let result = handler.get(Command::Get("test-key".to_string()));
    assert!(result.is_err());
    assert_eq!(
        result.err().unwrap(),
        DictError::KeyNotFound("test-key".to_string())
    );

    let result = handler.get(Command::Delete("test-key".to_string()));
    assert!(result.is_err());
    assert_eq!(
        result.err().unwrap(),
        DictError::InvalidCommand("expect get command".to_string())
    );
}

#[test]
fn test_handle_set() {
    let store = MemDB::new(100);
    let mut handler = CommandHandler::new(store);

    let result = handler.set(Command::Put(
        "test-key".to_string(),
        Value {
            value: b"1000".to_vec(),
        },
    ));
    assert!(result.is_ok());

    let result = handler.get(Command::Get("test-key".to_string()));
    assert!(result.is_ok());
    assert_eq!(
        result.ok().unwrap(),
        Value {
            value: b"1000".to_vec(),
        },
    );
}

#[test]
fn test_handle_delete() {
    let store = MemDB::new(100);
    let mut handler = CommandHandler::new(store);

    let result = handler.set(Command::Put(
        "test-key".to_string(),
        Value {
            value: b"1000".to_vec(),
        },
    ));
    assert!(result.is_ok());

    let result = handler.delete(Command::Delete("test-key".to_string()));
    assert!(result.is_ok());
    assert_eq!(result.ok().unwrap(), ());

    let value: Result<Value, DictError> = handler.get(Command::Get("test-key".to_string()));
    assert!(value.is_err());
    assert_eq!(
        value.err().unwrap(),
        DictError::KeyNotFound("test-key".to_string())
    );
}

#[test]
fn get_entry_point_refuses_other_tags_and_changes_nothing() {
    let mut store = MemDB::new(10);
    store.set("a", &Value { value: b"1".to_vec() }).unwrap();
    let handler = CommandHandler::new(store);

    let r = handler.get(Command::Put("a".to_string(), Value { value: b"2".to_vec() }));
    assert_eq!(r.err().unwrap(), DictError::InvalidCommand("expect get command".to_string()));
    let r = handler.get(Command::Delete("a".to_string()));
    assert_eq!(r.err().unwrap(), DictError::InvalidCommand("expect get command".to_string()));

    let v = handler.get(Command::Get("a".to_string())).unwrap();
    assert_eq!(v, Value { value: b"1".to_vec() });
}

#[test]
fn set_and_delete_entry_points_refuse_other_tags() {
    let mut handler = CommandHandler::new(MemDB::new(0));
    handler.set(Command::Put("a".to_string(), Value { value: b"1".to_vec() })).unwrap();

    let r = handler.set(Command::Delete("a".to_string()));
    assert_eq!(r.err().unwrap(), DictError::InvalidCommand("expect set command".to_string()));
    let r = handler.set(Command::Get("a".to_string()));
    assert_eq!(r.err().unwrap(), DictError::InvalidCommand("expect set command".to_string()));

    let r = handler.delete(Command::Get("a".to_string()));
    assert_eq!(r.err().unwrap(), DictError::InvalidCommand("expect delete command".to_string()));
    let r = handler.delete(Command::Put("a".to_string(), Value { value: b"9".to_vec() }));
    assert_eq!(r.err().unwrap(), DictError::InvalidCommand("expect delete command".to_string()));

    let v = handler.get(Command::Get("a".to_string())).unwrap();
    assert_eq!(v, Value { value: b"1".to_vec() });
}

#[test]
fn end_to_end_scenario() {
    let mut handler = CommandHandler::new(MemDB::new(100));
    assert!(handler
        .set(Command::Put("k".to_string(), Value { value: b"1000".to_vec() }))
        .is_ok());
    assert_eq!(
        handler.get(Command::Get("k".to_string())).unwrap(),
        Value { value: b"1000".to_vec() }
    );
    assert!(handler.delete(Command::Delete("k".to_string())).is_ok());
    assert_eq!(
        handler.get(Command::Get("k".to_string())).err().unwrap(),
        DictError::KeyNotFound("k".to_string())
    );
}

#[test]
fn borrowed_handler_reads_the_engine() {
    let mut store = MemDB::new(4);
    store.set("x", &Value { value: vec![7, 8] }).unwrap();
    let handler = handler_v1::CommandHandler::new(&store);
    assert_eq!(
        handler.get(Command::Get("x".to_string())).unwrap(),
        Value { value: vec![7, 8] }
    );
    assert_eq!(
        handler.get(Command::Get("y".to_string())).err().unwrap(),
        DictError::KeyNotFound("y".to_string())
    );
    assert_eq!(
        handler.get(Command::Delete("x".to_string())).err().unwrap(),
        DictError::InvalidCommand("expect get command".to_string())
    );
}
