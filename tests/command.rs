use minikv::storage::{InMemoryStorage, KvError};
use minikv::{Command, Response};

#[test]
fn test_command_execution() {
    let mut store = InMemoryStorage::new();

    let cmd = Command::SetValue {
        key: "test".into(),
        value: "value".into(),
    };
    assert_eq!(cmd.execute(&mut store).unwrap(), "OK");

    let cmd = Command::Get { key: "test".into() };
    assert_eq!(cmd.execute(&mut store).unwrap(), "value");

    let cmd = Command::Del { key: "test".into() };
    assert_eq!(cmd.execute(&mut store).unwrap(), "Deleted");

    let cmd = Command::Get { key: "test".into() };
    assert!(cmd.execute(&mut store).is_err());
}

#[test]
fn set_then_get_round_trips() {
    let mut store = InMemoryStorage::new();
    for value in ["", "plain", "with spaces and \"quotes\"", "ünïcödé ✓"] {
        Command::SetValue { key: "k".into(), value: value.into() }
            .execute(&mut store)
            .unwrap();
        let got = Command::Get { key: "k".into() }.execute(&mut store).unwrap();
        assert_eq!(got, value);
    }
}

#[test]
fn delete_of_absent_key_fails() {
    let mut store = InMemoryStorage::new();
    let r = Command::Del { key: "nope".into() }.execute(&mut store);
    assert!(matches!(r, Err(KvError::KeyNotFound)));
}

#[test]
fn delete_then_get_fails() {
    let mut store = InMemoryStorage::new();
    Command::SetValue { key: "k".into(), value: "v".into() }
        .execute(&mut store)
        .unwrap();
    assert_eq!(
        Command::Del { key: "k".into() }.execute(&mut store).unwrap(),
        "Deleted"
    );
    let r = Command::Get { key: "k".into() }.execute(&mut store);
    assert!(matches!(r, Err(KvError::KeyNotFound)));
}

#[test]
fn second_set_overwrites_first() {
    let mut store = InMemoryStorage::new();
    Command::SetValue { key: "k".into(), value: "v1".into() }
        .execute(&mut store)
        .unwrap();
    Command::SetValue { key: "k".into(), value: "v2".into() }
        .execute(&mut store)
        .unwrap();
    assert_eq!(
        Command::Get { key: "k".into() }.execute(&mut store).unwrap(),
        "v2"
    );
}

#[test]
fn responses_from_results() {
    match Response::from_result(&Ok("1".to_string())) {
        Response::Success { value } => assert_eq!(value, "1"),
        Response::Error { .. } => panic!("expected success"),
    }
    match Response::from_result(&Err(KvError::KeyNotFound)) {
        Response::Error { message } => assert_eq!(message, "Key not found"),
        Response::Success { .. } => panic!("expected error"),
    }
    match Response::from_result(&Err(KvError::Internal("x".into()))) {
        Response::Error { message } => assert_eq!(message, "Internal error: x"),
        Response::Success { .. } => panic!("expected error"),
    }
}

#[test]
fn command_clone_is_equal() {
    let c = Command::SetValue { key: "a".into(), value: "b".into() };
    match c.clone() {
        Command::SetValue { key, value } => {
            assert_eq!(key, "a");
            assert_eq!(value, "b");
        }
        _ => panic!("variant changed"),
    }
}

#[test]
fn in_memory_commands_never_fail_but_for_a_missing_key() {
    let mut store = InMemoryStorage::new();
    assert_eq!(
        Command::SetValue { key: String::new(), value: "v".into() }
            .execute(&mut store)
            .unwrap(),
        "OK"
    );
    assert_eq!(Command::Get { key: String::new() }.execute(&mut store).unwrap(), "v");
    assert!(matches!(
        Command::Get { key: "x".into() }.execute(&mut store),
        Err(KvError::KeyNotFound)
    ));
}
