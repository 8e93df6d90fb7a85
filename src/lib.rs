//! Todo records and the repositories that store them.
//!
//! The library holds the record types and their validation rules, the
//! storage-agnostic repository contract, a verified in-memory backend, and the
//! decisions that a relational backend makes on what its statements return.
pub mod repositories;
