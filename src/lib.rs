//! Replication engine for document collections: the decisions of a sync loop
//! that copies documents from a source collection to a target collection,
//! either from a live change feed or by polling a sortable field.

pub mod key;
pub mod poll;
pub mod feed;
pub mod write;
pub mod version;
pub mod sync;
pub mod mapping;
pub mod cli;
pub mod column;
pub mod reading;
