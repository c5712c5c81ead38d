//! Typed errors for an archive-extraction library: classification of the
//! native status codes, the phase in which they were seen, and the messages
//! that describe each pair.

pub mod error;
