//! A verified supervisor core for a long-lived worker process that is driven
//! line by line over its pipes: request rendering, response decoding, and the
//! restart and serialization rules for the single worker handle.
//!
//! Two wire forms exist, for two worker builds: one JSON object per line, and
//! a bare decimal numeral per line; a process pairs with one worker and uses
//! one of them, never both.
//!
//! Process spawning and pipe I/O live outside this crate; the library states
//! and proves the decisions around them: when a worker must be respawned, how
//! a command is serialized, and how each response line is interpreted.

pub mod numeral;
pub mod request;
pub mod response;
pub mod bare;
pub mod launch;
pub mod supervisor;
