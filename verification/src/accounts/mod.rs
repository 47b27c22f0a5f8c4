//! The account sessions that a user has saved, and the operations on them.
pub mod types;
pub mod session;
pub mod store;
pub mod response;
pub mod operation;
pub mod laws;
pub mod effects;
pub mod runs;
