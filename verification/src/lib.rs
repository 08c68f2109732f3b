//! A small key-value server core: protocol frames, command dispatch over a
//! shared storage partition, and the per-connection state machine.

pub mod command;
pub mod connection;
pub mod datastore;
pub mod dispatch;
pub mod error;
pub mod frame;
pub mod model;

pub use datastore::DataStore;
pub use datastore::DataStorePartition;
pub use error::DataStoreError;
pub use frame::Frame;
