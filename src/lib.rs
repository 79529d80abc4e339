//! Serialises the work of many caller threads onto one transactional
//! connection owned by a single worker.
//!
//! - `lifecycle`: the worker's state machine, from opening the transaction
//!   to closing the connection.
//! - `channel`: the request and reply channels and the outside types they carry.
//! - `facade`: the sharable handle through which callers submit work.

pub mod channel;
pub mod facade;
pub mod lifecycle;
