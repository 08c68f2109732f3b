use tempfile::{NamedTempFile, TempDir};
use veifka::datastore::{
    data_result, is_partition_name_char, is_valid_partition_name, partition_result, presence,
};
use veifka::{DataStore, DataStoreError, DataStorePartition};

fn create_test_store() -> (TempDir, DataStore, DataStorePartition) {
    let temp_dir = TempDir::new().expect("Failed to create temp dir");
    let data_store = DataStore::new(temp_dir.path().to_str().unwrap()).unwrap();
    let partition_handle = data_store.create_partition("test_partition").unwrap();
    let partition = DataStorePartition::new(partition_handle);
    (temp_dir, data_store, partition)
}

fn data_error_detail<T: std::fmt::Debug>(result: Result<T, DataStoreError>) -> String {
    match result {
        Err(DataStoreError::DataError(detail)) => detail,
        other => panic!("expected a data error, got {:?}", other),
    }
}

#[test]
fn test_basic_operations() {
    let (_temp_dir, _data_store, store) = create_test_store();

    // Test set and get
    store.set(b"key1", b"value1").unwrap();
    assert_eq!(store.get(b"key1").unwrap(), Some(b"value1".to_vec()));

    // Test exists
    assert!(store.contains_key(b"key1").unwrap());
    assert!(!store.contains_key(b"nonexistent").unwrap());

    // Test delete
    store.delete(b"key1").unwrap();
    assert_eq!(store.get(b"key1").unwrap(), None);
}

#[test]
fn set_overwrites_the_previous_value() {
    let (_temp_dir, _data_store, store) = create_test_store();
    store.set(b"k", b"first").unwrap();
    store.set(b"k", b"second").unwrap();
    assert_eq!(store.get(b"k").unwrap(), Some(b"second".to_vec()));
}

#[test]
fn values_may_be_empty_or_binary() {
    let (_temp_dir, _data_store, store) = create_test_store();
    store.set(b"empty", b"").unwrap();
    assert_eq!(store.get(b"empty").unwrap(), Some(Vec::new()));
    assert!(store.contains_key(b"empty").unwrap());

    let key = [0xffu8, 0x00, 0xfe];
    let value = [0x00u8, 0xc3, 0x28, 0xff];
    store.set(&key, &value).unwrap();
    assert_eq!(store.get(&key).unwrap(), Some(value.to_vec()));
}

#[test]
fn set_refuses_an_empty_key() {
    let (_temp_dir, _data_store, store) = create_test_store();
    assert_eq!(data_error_detail(store.set(b"", b"value")), "key may not be empty");
}

#[test]
fn set_refuses_a_key_over_the_limit() {
    let (_temp_dir, _data_store, store) = create_test_store();
    let long_key = vec![b'k'; 65536];
    assert_eq!(
        data_error_detail(store.set(&long_key, b"value")),
        "keys can be 65535 bytes in length"
    );
}

#[test]
fn the_longest_key_is_accepted() {
    let (_temp_dir, _data_store, store) = create_test_store();
    let key = vec![b'k'; 65535];
    store.set(&key, b"value").unwrap();
    assert_eq!(store.get(&key).unwrap(), Some(b"value".to_vec()));
    store.delete(&key).unwrap();
    assert_eq!(store.get(&key).unwrap(), None);
}

#[test]
fn get_refuses_a_key_over_the_limit() {
    let (_temp_dir, _data_store, store) = create_test_store();
    let long_key = vec![b'k'; 65536];
    assert_eq!(data_error_detail(store.get(&long_key)), "keys can be 65535 bytes in length");
    assert_eq!(
        data_error_detail(store.contains_key(&long_key)),
        "keys can be 65535 bytes in length"
    );
}

#[test]
fn get_of_the_empty_key_finds_nothing() {
    let (_temp_dir, _data_store, store) = create_test_store();
    assert_eq!(store.get(b"").unwrap(), None);
    assert!(!store.contains_key(b"").unwrap());
}

#[test]
fn delete_refuses_keys_outside_the_limits() {
    let (_temp_dir, _data_store, store) = create_test_store();
    assert_eq!(data_error_detail(store.delete(b"")), "key may not be empty");
    let long_key = vec![b'k'; 70000];
    assert_eq!(data_error_detail(store.delete(&long_key)), "keys can be 65535 bytes in length");
}

#[test]
fn delete_of_a_missing_key_succeeds() {
    let (_temp_dir, _data_store, store) = create_test_store();
    store.delete(b"never-set").unwrap();
    assert_eq!(store.get(b"never-set").unwrap(), None);
}

#[test]
fn a_cloned_handle_shares_the_partition() {
    let (_temp_dir, _data_store, store) = create_test_store();
    let other = store.clone();
    store.set(b"shared", b"1").unwrap();
    assert_eq!(other.get(b"shared").unwrap(), Some(b"1".to_vec()));
    other.delete(b"shared").unwrap();
    assert_eq!(store.get(b"shared").unwrap(), None);
}

#[test]
fn opening_a_partition_twice_gives_the_same_data() {
    let (_temp_dir, data_store, store) = create_test_store();
    store.set(b"k", b"v").unwrap();
    let again = DataStorePartition::new(data_store.create_partition("test_partition").unwrap());
    assert_eq!(again.get(b"k").unwrap(), Some(b"v".to_vec()));
}

#[test]
fn create_partition_refuses_an_invalid_name() {
    let (_temp_dir, data_store, _store) = create_test_store();
    for name in ["", "has space", "slash/inside", "caf\u{e9}"] {
        match data_store.create_partition(name) {
            Err(DataStoreError::PartitionError(detail)) => {
                assert_eq!(detail, "invalid partition name")
            }
            other => panic!("expected a partition error for {:?}, got {:?}", name, other.is_ok()),
        }
    }
    let too_long = "a".repeat(256);
    assert!(matches!(
        data_store.create_partition(&too_long),
        Err(DataStoreError::PartitionError(_))
    ));
}

#[test]
fn create_partition_accepts_every_allowed_character() {
    let (_temp_dir, data_store, _store) = create_test_store();
    assert!(data_store.create_partition("aZ09_-.#$").is_ok());
    let longest = "p".repeat(255);
    assert!(data_store.create_partition(&longest).is_ok());
}

#[test]
fn partition_name_rules() {
    assert!(is_valid_partition_name("default_partition"));
    assert!(is_valid_partition_name("a"));
    assert!(is_valid_partition_name(&"x".repeat(255)));
    assert!(!is_valid_partition_name(&"x".repeat(256)));
    assert!(!is_valid_partition_name(""));
    assert!(!is_valid_partition_name("a b"));
    assert!(!is_valid_partition_name("a/b"));
    assert!(!is_valid_partition_name("\u{e9}"));
    for c in ['a', 'z', 'A', 'Z', '0', '9', '_', '-', '.', '#', '$'] {
        assert!(is_partition_name_char(c), "{:?}", c);
    }
    for c in [' ', '/', '@', '[', '`', '{', ':', '\u{e9}', '\0'] {
        assert!(!is_partition_name_char(c), "{:?}", c);
    }
}

#[test]
fn opening_a_keyspace_on_a_file_is_a_keyspace_error() {
    let file = NamedTempFile::new().expect("Failed to create temp file");
    let result = DataStore::new(file.path().to_str().unwrap());
    assert!(matches!(result, Err(DataStoreError::KeyspaceError(_))));
}

#[test]
fn results_of_the_engine_are_passed_on() {
    assert_eq!(data_result(Ok(7u8)).unwrap(), 7u8);
    let (_temp_dir, data_store, _store) = create_test_store();
    let keyspace = data_store.keyspace().clone();
    assert!(DataStore::from_opened(Ok(keyspace)).is_ok());
    let handle = data_store.create_partition("other").unwrap();
    assert!(partition_result(Ok(handle)).is_ok());
}

#[test]
fn failures_of_the_engine_become_errors_of_their_kind() {
    let failure = || fjall::Error::Poisoned;
    match data_result::<()>(Err(failure())) {
        Err(DataStoreError::DataError(detail)) => assert_eq!(detail, "Poisoned"),
        other => panic!("unexpected result: {:?}", other),
    }
    match DataStore::from_opened(Err(failure())) {
        Err(DataStoreError::KeyspaceError(detail)) => assert_eq!(detail, "FjallError: Poisoned"),
        other => panic!("unexpected result: {:?}", other.is_ok()),
    }
    match partition_result(Err(failure())) {
        Err(DataStoreError::PartitionError(detail)) => assert_eq!(detail, "FjallError: Poisoned"),
        other => panic!("unexpected result: {:?}", other.is_ok()),
    }
}

#[test]
fn presence_tells_whether_a_value_was_found() {
    assert!(presence(Ok(Some(b"v".to_vec()))).unwrap());
    assert!(presence(Ok(Some(Vec::new()))).unwrap());
    assert!(!presence(Ok(None)).unwrap());
    match presence(Err(DataStoreError::DataError("boom".to_string()))) {
        Err(DataStoreError::DataError(detail)) => assert_eq!(detail, "boom"),
        other => panic!("unexpected result: {:?}", other),
    }
}

#[test]
fn error_messages_name_their_category() {
    let keyspace = DataStoreError::KeyspaceError("no such directory".to_string());
    let partition = DataStoreError::PartitionError("invalid partition name".to_string());
    let data = DataStoreError::DataError("key may not be empty".to_string());
    assert_eq!(keyspace.message(), "Keyspace error: no such directory");
    assert_eq!(partition.message(), "Partition error: invalid partition name");
    assert_eq!(data.message(), "Data error: key may not be empty");
    assert_eq!(keyspace.detail_text(), "no such directory");
    assert_eq!(partition.detail_text(), "invalid partition name");
    assert_eq!(data.detail_text(), "key may not be empty");
    assert_eq!(DataStoreError::DataError(String::new()).message(), "Data error: ");
}
