//! Errors reported by the storage layer.

use vstd::prelude::*;
use vstd::string::StringExecFns;

verus! {

/// Why a storage operation failed. Each variant carries the detail text
/// reported by the backend (or by this layer's own limit checks).
#[derive(Debug, Clone)]
pub enum DataStoreError {
    /// The keyspace (the database directory) could not be opened.
    KeyspaceError(String),
    /// A partition of the keyspace could not be opened.
    PartitionError(String),
    /// A read or write of a key failed.
    DataError(String),
}

impl DataStoreError {
    /// The detail text carried by the error, without its category prefix.
    pub open spec fn detail(self) -> Seq<char> {
        match self {
            DataStoreError::KeyspaceError(d) => d@,
            DataStoreError::PartitionError(d) => d@,
            DataStoreError::DataError(d) => d@,
        }
    }

    /// The category prefix that `message` puts before the detail.
    pub open spec fn prefix(self) -> Seq<char> {
        match self {
            DataStoreError::KeyspaceError(_) => "Keyspace error: "@,
            DataStoreError::PartitionError(_) => "Partition error: "@,
            DataStoreError::DataError(_) => "Data error: "@,
        }
    }

    /// The full human-readable text: category prefix followed by the detail.
    pub open spec fn message_text(self) -> Seq<char> {
        self.prefix() + self.detail()
    }

    /// Returns the detail text of the error.
    pub fn detail_text(&self) -> (text: &String)
        ensures
            text@ == self.detail(),
    {
        match self {
            DataStoreError::KeyspaceError(d) => d,
            DataStoreError::PartitionError(d) => d,
            DataStoreError::DataError(d) => d,
        }
    }

    /// Renders the error as `"<category> error: <detail>"`.
    pub fn message(&self) -> (text: String)
        ensures
            text@ == self.message_text(),
    {
        match self {
            DataStoreError::KeyspaceError(d) => String::from_str("Keyspace error: ").concat(
                d.as_str(),
            ),
            DataStoreError::PartitionError(d) => String::from_str("Partition error: ").concat(
                d.as_str(),
            ),
            DataStoreError::DataError(d) => String::from_str("Data error: ").concat(d.as_str()),
        }
    }
}

} // verus!
