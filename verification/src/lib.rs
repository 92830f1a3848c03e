//! A keyed store of JSON documents, one file per key in an application's data
//! directory.
//!
//! The store decides; its host touches the disk. An [`storage::Operation`] names the
//! one thing it needs done next as a [`storage::Request`], the host carries that out
//! and reports a [`storage::Response`], and the operation advances until it is done.
//! What the store decides at each step is fixed by its contracts, and the laws of
//! the store are proved against a model of the data directory in `model`.

pub mod config;
pub mod error;
pub mod json;
pub mod model;
pub mod storage;
