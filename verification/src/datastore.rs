//! The storage adapter: a keyspace on disk and handles to its partitions.
//!
//! The storage engine is the `fjall` crate. This module calls it through a
//! handful of small functions whose contracts are taken on trust; everything
//! else here is verified against those contracts.

use crate::error::DataStoreError;
use std::sync::Arc;
use vstd::prelude::*;
use vstd::string::StrSliceExecFns;
use vstd::string::StringExecFns;

verus! {

/// `fjall::Keyspace`, a handle to an open keyspace. It is carried through
/// as it is; nothing is known of what it holds.
#[verifier::external_type_specification]
#[verifier::external_body]
pub struct ExKeyspace(fjall::Keyspace);

/// `fjall::PartitionHandle`, a handle to an open partition. It is carried
/// through as it is; nothing is known of what it holds.
#[verifier::external_type_specification]
#[verifier::external_body]
pub struct ExPartitionHandle(fjall::PartitionHandle);

/// `fjall::Error`, the storage engine's error. It is carried through as it
/// is and turned into text; nothing is known of what it holds.
#[verifier::external_type_specification]
#[verifier::external_body]
pub struct ExStorageError(fjall::Error);

/// `Clone::clone` of `fjall::Keyspace`, which hands out another handle to
/// the same keyspace. Nothing is claimed of the result.
pub assume_specification[ <fjall::Keyspace as Clone>::clone ](keyspace: &fjall::Keyspace) -> (copy:
    fjall::Keyspace)
;

/// The longest key the storage engine takes, in bytes.
pub const MAX_KEY_LEN: usize = 65535;

/// The longest value the storage engine takes, in bytes.
pub const MAX_VALUE_LEN: usize = 4294967295;

/// The longest partition name, in characters.
pub const MAX_PARTITION_NAME_LEN: usize = 255;

/// A key can be looked up when it is not longer than [`MAX_KEY_LEN`].
pub open spec fn key_readable(key: Seq<u8>) -> bool {
    key.len() <= MAX_KEY_LEN
}

/// A key can be written or removed when it is non-empty and not longer than
/// [`MAX_KEY_LEN`].
pub open spec fn key_writable(key: Seq<u8>) -> bool {
    1 <= key.len() <= MAX_KEY_LEN
}

/// A value can be written when it is not longer than [`MAX_VALUE_LEN`].
pub open spec fn value_writable(value: Seq<u8>) -> bool {
    value.len() <= MAX_VALUE_LEN
}

/// The characters a partition name may hold: ASCII letters and digits,
/// and `_`, `-`, `.`, `#`, `$`.
pub open spec fn partition_name_char(c: char) -> bool {
    ||| 'a' <= c <= 'z'
    ||| 'A' <= c <= 'Z'
    ||| '0' <= c <= '9'
    ||| c == '_'
    ||| c == '-'
    ||| c == '.'
    ||| c == '#'
    ||| c == '$'
}

/// A partition name is valid when it has between 1 and 255 characters, all
/// of them from [`partition_name_char`].
pub open spec fn valid_partition_name(name: Seq<char>) -> bool {
    &&& 1 <= name.len() <= MAX_PARTITION_NAME_LEN
    &&& forall|i: int| 0 <= i < name.len() ==> partition_name_char(#[trigger] name[i])
}

/// Why this layer refuses to look a key up, if it does.
pub open spec fn read_refusal(key: Seq<u8>) -> Option<Seq<char>> {
    if !key_readable(key) {
        Some("keys can be 65535 bytes in length"@)
    } else {
        None
    }
}

/// Why this layer refuses to remove a key, if it does.
pub open spec fn remove_refusal(key: Seq<u8>) -> Option<Seq<char>> {
    if key.len() == 0 {
        Some("key may not be empty"@)
    } else {
        read_refusal(key)
    }
}

/// Why this layer refuses to write a key-value pair, if it does. The key is
/// judged before the value.
pub open spec fn write_refusal(key: Seq<u8>, value: Seq<u8>) -> Option<Seq<char>> {
    if remove_refusal(key) is Some {
        remove_refusal(key)
    } else if !value_writable(value) {
        Some("values can be 2^32 bytes in length"@)
    } else {
        None
    }
}

/// What every result of a partition operation satisfies: if this layer
/// refuses the arguments, the result is a `DataError` with the refusal's
/// text; any other failure is a `DataError` too.
pub open spec fn respects_refusal<T>(
    refusal: Option<Seq<char>>,
    result: Result<T, DataStoreError>,
) -> bool {
    &&& result matches Err(e) ==> e is DataError
    &&& refusal matches Some(reason) ==> result is Err && result->Err_0.detail() == reason
}

/// Opens the keyspace stored under `path`, creating it if it does not exist.
///
/// Calls `fjall::Config::new(path).open()`. Nothing is claimed of the
/// result: it depends on the file system. `Config::new` makes the path
/// absolute and for that reads the process's current directory; it panics
/// where the current directory cannot be determined.
#[verifier::external_body]
fn open_keyspace(path: &str) -> (result: Result<fjall::Keyspace, fjall::Error>) {
    fjall::Config::new(path).open()
}

/// Opens the partition `name` of a keyspace with default options, creating
/// it if it does not exist.
///
/// Calls `fjall::Keyspace::open_partition`, which panics on an invalid
/// name; the precondition keeps such names out. Nothing is claimed of the
/// result.
#[verifier::external_body]
fn open_partition(keyspace: &fjall::Keyspace, name: &str) -> (result: Result<
    fjall::PartitionHandle,
    fjall::Error,
>)
    requires
        valid_partition_name(name@),
{
    keyspace.open_partition(name, fjall::PartitionCreateOptions::default())
}

/// Writes a key-value pair.
///
/// Calls `fjall::PartitionHandle::insert`, which panics on an empty key, on
/// a key longer than 65535 bytes and on a value longer than 2^32 - 1 bytes;
/// the precondition keeps those out. Nothing is claimed of the result.
#[verifier::external_body]
fn partition_insert(partition: &fjall::PartitionHandle, key: &[u8], value: &[u8]) -> (result:
    Result<(), fjall::Error>)
    requires
        key_writable(key@),
        value_writable(value@),
{
    partition.insert(key, value)
}

/// Looks a key up and copies the value found into a vector.
///
/// Calls `fjall::PartitionHandle::get`, which panics on a key longer than
/// 65535 bytes; the precondition keeps those out. Nothing is claimed of the
/// result.
#[verifier::external_body]
fn partition_get(partition: &fjall::PartitionHandle, key: &[u8]) -> (result: Result<
    Option<Vec<u8>>,
    fjall::Error,
>)
    requires
        key_readable(key@),
{
    match partition.get(key) {
        Ok(Some(value)) => Ok(Some(value.to_vec())),
        Ok(None) => Ok(None),
        Err(e) => Err(e),
    }
}

/// Removes a key.
///
/// Calls `fjall::PartitionHandle::remove`, which panics on an empty key and
/// on a key longer than 65535 bytes; the precondition keeps those out.
/// Nothing is claimed of the result.
#[verifier::external_body]
fn partition_remove(partition: &fjall::PartitionHandle, key: &[u8]) -> (result: Result<
    (),
    fjall::Error,
>)
    requires
        key_writable(key@),
{
    partition.remove(key)
}

/// The text of a storage engine error as its `Display` impl writes it.
/// Nothing is claimed of the text.
#[verifier::external_body]
fn error_display_text(e: &fjall::Error) -> (text: String) {
    e.to_string()
}

/// The text of a storage engine error as its `Debug` impl writes it.
/// Nothing is claimed of the text.
#[verifier::external_body]
fn error_debug_text(e: &fjall::Error) -> (text: String) {
    format!("{:?}", e)
}

/// Tells whether `c` may occur in a partition name.
pub fn is_partition_name_char(c: char) -> (ok: bool)
    ensures
        ok == partition_name_char(c),
{
    ('a' <= c && c <= 'z') || ('A' <= c && c <= 'Z') || ('0' <= c && c <= '9') || c == '_' || c
        == '-' || c == '.' || c == '#' || c == '$'
}

/// Tells whether `name` is a valid partition name.
pub fn is_valid_partition_name(name: &str) -> (ok: bool)
    ensures
        ok == valid_partition_name(name@),
{
    let len = name.unicode_len();
    if len == 0 || len > MAX_PARTITION_NAME_LEN {
        return false;
    }
    let mut i: usize = 0;
    while i < len
        invariant
            i <= len,
            len == name@.len(),
            1 <= len <= MAX_PARTITION_NAME_LEN,
            forall|j: int| 0 <= j < i ==> partition_name_char(#[trigger] name@[j]),
        decreases len - i,
    {
        if !is_partition_name_char(name.get_char(i)) {
            return false;
        }
        i += 1;
    }
    true
}

/// Turns what a read or write of the storage engine returned into this
/// layer's result: a success is passed on, a failure becomes a `DataError`
/// that carries the engine's description of it.
pub fn data_result<T>(outcome: Result<T, fjall::Error>) -> (result: Result<T, DataStoreError>)
    ensures
        outcome matches Ok(value) ==> result == Ok::<T, DataStoreError>(value),
        outcome is Err ==> result is Err && result->Err_0 is DataError,
{
    match outcome {
        Ok(value) => Ok(value),
        Err(e) => Err(DataStoreError::DataError(error_debug_text(&e))),
    }
}

/// A refusal of this layer as a `DataError`.
fn refused<T>(reason: &str) -> (result: Result<T, DataStoreError>)
    ensures
        result is Err,
        result->Err_0 is DataError,
        result->Err_0.detail() == reason@,
{
    Err(DataStoreError::DataError(String::from_str(reason)))
}

/// Turns what opening a partition returned into this layer's result: the
/// handle is passed on, a failure becomes a `PartitionError` that carries
/// the engine's description of it.
pub fn partition_result(opened: Result<fjall::PartitionHandle, fjall::Error>) -> (result: Result<
    fjall::PartitionHandle,
    DataStoreError,
>)
    ensures
        opened matches Ok(handle) ==> result == Ok::<fjall::PartitionHandle, DataStoreError>(
            handle,
        ),
        opened is Err ==> result is Err && result->Err_0 is PartitionError,
{
    match opened {
        Ok(handle) => Ok(handle),
        Err(e) => Err(DataStoreError::PartitionError(error_display_text(&e))),
    }
}

/// An open keyspace: a database directory that holds partitions.
///
/// The keyspace must stay alive as long as its partitions are in use.
#[derive(Clone)]
pub struct DataStore {
    keyspace: fjall::Keyspace,
}

impl DataStore {
    /// The keyspace this store holds.
    pub closed spec fn handle(self) -> fjall::Keyspace {
        self.keyspace
    }

    /// Opens (or creates) the keyspace stored under `keyspace_name`.
    ///
    /// A failure of the storage engine is reported as a `KeyspaceError`.
    pub fn new(keyspace_name: &str) -> (result: Result<Self, DataStoreError>)
        ensures
            result matches Err(e) ==> e is KeyspaceError,
    {
        Self::from_opened(open_keyspace(keyspace_name))
    }

    /// Builds the store from what opening the keyspace returned: the store
    /// that holds the keyspace, or a `KeyspaceError` that carries the
    /// engine's description of the failure.
    pub fn from_opened(opened: Result<fjall::Keyspace, fjall::Error>) -> (result: Result<
        Self,
        DataStoreError,
    >)
        ensures
            opened matches Ok(keyspace) ==> result is Ok && result->Ok_0.handle() == keyspace,
            opened is Err ==> result is Err && result->Err_0 is KeyspaceError,
    {
        match opened {
            Ok(keyspace) => Ok(DataStore { keyspace }),
            Err(e) => Err(DataStoreError::KeyspaceError(error_display_text(&e))),
        }
    }

    /// The underlying keyspace.
    pub fn keyspace(&self) -> (keyspace: &fjall::Keyspace)
        ensures
            *keyspace == self.handle(),
    {
        &self.keyspace
    }

    /// Opens (or creates) the partition `partition_name` of this keyspace.
    ///
    /// An invalid name is refused with a `PartitionError` whose detail is
    /// `"invalid partition name"`, without consulting the storage engine; a
    /// failure of the storage engine is a `PartitionError` too.
    pub fn create_partition(&self, partition_name: &str) -> (result: Result<
        fjall::PartitionHandle,
        DataStoreError,
    >)
        ensures
            result matches Err(e) ==> e is PartitionError,
            !valid_partition_name(partition_name@) ==> result is Err && result->Err_0.detail()
                == "invalid partition name"@,
    {
        if !is_valid_partition_name(partition_name) {
            return Err(
                DataStoreError::PartitionError(String::from_str("invalid partition name")),
            );
        }
        partition_result(open_partition(&self.keyspace, partition_name))
    }
}

/// A handle to one partition. Cloning the handle shares the partition: it
/// is a reference, not a copy of the data.
#[derive(Clone)]
pub struct DataStorePartition {
    partition_handle: Arc<fjall::PartitionHandle>,
}

impl DataStorePartition {
    /// The partition handle this value shares.
    pub closed spec fn handle(self) -> fjall::PartitionHandle {
        *self.partition_handle
    }

    /// Wraps a partition handle for sharing.
    pub fn new(partition_handle: fjall::PartitionHandle) -> (partition: Self)
        ensures
            partition.handle() == partition_handle,
    {
        DataStorePartition { partition_handle: Arc::new(partition_handle) }
    }

    /// Stores `value` under `key`, replacing what was there.
    ///
    /// The key must be non-empty and at most 65535 bytes long and the value
    /// at most 2^32 - 1 bytes long; otherwise the pair is refused with a
    /// `DataError` and the storage engine is not consulted.
    pub fn set(&self, key: &[u8], value: &[u8]) -> (result: Result<(), DataStoreError>)
        ensures
            respects_refusal(write_refusal(key@, value@), result),
    {
        if key.len() == 0 {
            return refused("key may not be empty");
        }
        if key.len() > MAX_KEY_LEN {
            return refused("keys can be 65535 bytes in length");
        }
        if value.len() > MAX_VALUE_LEN {
            return refused("values can be 2^32 bytes in length");
        }
        data_result(partition_insert(&self.partition_handle, key, value))
    }

    /// Looks `key` up: `Some(value)` if it is stored, `None` if not.
    ///
    /// A key longer than 65535 bytes is refused with a `DataError` and the
    /// storage engine is not consulted.
    pub fn get(&self, key: &[u8]) -> (result: Result<Option<Vec<u8>>, DataStoreError>)
        ensures
            respects_refusal(read_refusal(key@), result),
    {
        if key.len() > MAX_KEY_LEN {
            return refused("keys can be 65535 bytes in length");
        }
        data_result(partition_get(&self.partition_handle, key))
    }

    /// Removes `key`. Removing a key that is not stored succeeds.
    ///
    /// An empty key and a key longer than 65535 bytes are refused with a
    /// `DataError` and the storage engine is not consulted.
    pub fn delete(&self, key: &[u8]) -> (result: Result<(), DataStoreError>)
        ensures
            respects_refusal(remove_refusal(key@), result),
    {
        if key.len() == 0 {
            return refused("key may not be empty");
        }
        if key.len() > MAX_KEY_LEN {
            return refused("keys can be 65535 bytes in length");
        }
        data_result(partition_remove(&self.partition_handle, key))
    }

    /// Tells whether `key` is stored, by looking it up.
    pub fn contains_key(&self, key: &[u8]) -> (result: Result<bool, DataStoreError>)
        ensures
            respects_refusal(read_refusal(key@), result),
    {
        presence(self.get(key))
    }
}

/// Turns the result of a lookup into the answer to "is the key stored?".
pub fn presence(found: Result<Option<Vec<u8>>, DataStoreError>) -> (result: Result<
    bool,
    DataStoreError,
>)
    ensures
        found matches Ok(value) ==> result == Ok::<bool, DataStoreError>(value is Some),
        found matches Err(e) ==> result == Err::<bool, DataStoreError>(e),
{
    match found {
        Ok(value) => Ok(value.is_some()),
        Err(e) => Err(e),
    }
}

} // verus!
