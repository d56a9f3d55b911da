//! A small in-memory key-value store whose entries are reached through one
//! exclusive lock.
mod data_store;
mod errors;
pub mod laws;
mod lock;

pub use data_store::{lawful_key, lookup, DataStore};
pub use errors::{error_text, Error};
