//! Access layer for an append-only flash storage engine: the storage-medium
//! abstraction with flash-like erase/read/write semantics, the entry and
//! status model shared by the key-value and time-series databases, the
//! streaming value reader, and the iteration bridges.
//!
//! The record encoding, sector management, garbage collection and timestamp
//! enforcement belong to the external engine and are out of scope here.

pub mod dispatch;
pub mod error;
pub mod kvdb;
pub mod reader;
pub mod storage;
pub mod time;
pub mod tsdb;
