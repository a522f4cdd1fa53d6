use minikv::storage::{InMemoryStorage, KvError, SharedInMemoryStorage, Storage};

#[test]
fn test_inmemory_storage() {
    let mut store = InMemoryStorage::new();

    store.set("key1".into(), "value1".into()).unwrap();
    assert_eq!(store.get("key1").unwrap(), "value1");

    store.set("key1".into(), "value2".into()).unwrap();
    assert_eq!(store.get("key1").unwrap(), "value2");

    store.delete("key1").unwrap();
    assert!(store.get("key1").is_err());

    assert!(store.delete("key1").is_err());
}

#[test]
fn test_shared_inmemory_storage() {
    let mut store = SharedInMemoryStorage::new();

    store.set("key1".into(), "value1".into()).unwrap();
    let store_clone = store.clone();

    assert_eq!(store_clone.get("key1").unwrap(), "value1");

    assert_eq!(store.get("key1").unwrap(), "value1");
}

#[test]
fn repeated_shared_gets_agree() {
    let mut store = SharedInMemoryStorage::new();
    store.set("k".into(), "shared value".into()).unwrap();
    let handles: Vec<SharedInMemoryStorage> = (0..16).map(|_| store.clone()).collect();
    for h in &handles {
        for _ in 0..50 {
            assert_eq!(h.get("k").unwrap(), "shared value");
        }
    }
}

#[test]
fn shared_clones_see_each_others_writes() {
    let mut a = SharedInMemoryStorage::new();
    let mut b = a.clone();
    a.set("x".into(), "1".into()).unwrap();
    assert_eq!(b.get("x").unwrap(), "1");
    b.delete("x").unwrap();
    assert!(matches!(a.get("x"), Err(KvError::KeyNotFound)));
    assert!(matches!(a.delete("x"), Err(KvError::KeyNotFound)));
}

#[test]
fn get_of_absent_key_is_key_not_found() {
    let store = InMemoryStorage::new();
    assert!(matches!(store.get("missing"), Err(KvError::KeyNotFound)));
}

#[test]
fn delete_twice_fails_the_second_time() {
    let mut store = InMemoryStorage::new();
    store.set("k".into(), "v".into()).unwrap();
    assert!(store.delete("k").is_ok());
    assert!(matches!(store.delete("k"), Err(KvError::KeyNotFound)));
}

#[test]
fn empty_key_and_value_are_legal() {
    let mut store = InMemoryStorage::new();
    store.set(String::new(), String::new()).unwrap();
    assert_eq!(store.get("").unwrap(), "");
}

#[test]
fn keys_are_independent() {
    let mut store = InMemoryStorage::new();
    store.set("a".into(), "1".into()).unwrap();
    store.set("b".into(), "2".into()).unwrap();
    store.set("c".into(), "3".into()).unwrap();
    store.delete("b").unwrap();
    store.set("a".into(), "10".into()).unwrap();
    assert_eq!(store.get("a").unwrap(), "10");
    assert!(store.get("b").is_err());
    assert_eq!(store.get("c").unwrap(), "3");
}

#[test]
fn error_messages() {
    assert_eq!(KvError::KeyNotFound.message(), "Key not found");
    assert_eq!(
        KvError::Internal("lock poisoned".into()).message(),
        "Internal error: lock poisoned"
    );
    assert_eq!(
        KvError::StorageError("disk full".into()).message(),
        "Storage error: disk full"
    );
}
