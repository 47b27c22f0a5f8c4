//! Merging the context of one session into another.
pub mod types;
pub mod framing;
pub mod record;
pub mod task;
pub mod laws;
pub mod effects;
pub mod runs;
