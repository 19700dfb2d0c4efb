//! Transfer of a directory tree between two nodes: how a file is cut into
//! chunks, how paths and names are derived, and the decisions that the
//! sending worker, the receiving worker, the decrypting pass and the
//! orchestrator take between two operations of the file service.
//!
//! The crate performs no I/O. Each actor is a state machine: it is handed the
//! outcome of the last operation and answers with the next one to perform.

pub mod chunks;
pub mod decryptor;
pub mod files;
pub mod import;
pub mod listing;
pub mod names;
pub mod orchestrator;
pub mod paths;
pub mod sender;
pub mod steps;
pub mod structs;
pub mod worker;
