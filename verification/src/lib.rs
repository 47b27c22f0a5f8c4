//! Saved account sessions, and merging the context of one session into another.
//!
//! [`accounts`] keeps a list of saved sessions: credentials, whose they are, and which of them is
//! in use. [`merge`] brings the context of a source thread into a target thread. Both say step by
//! step what is to be done outside and take back what came of it.
pub mod accounts;
pub mod base64url;
pub mod clock;
pub mod ids;
pub mod merge;
pub mod paths;
pub mod text;
