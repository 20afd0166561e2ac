//! Verified core of the fuzzor continuous fuzzing infrastructure: project
//! configuration, harness locations, build environments, fuzzer planning,
//! log and stats parsing, stack-trace deduplication and the campaign
//! state machine.

pub mod builder;
pub mod campaign;
pub mod digest;
pub mod ensemble;
pub mod env;
pub mod launcher;
pub mod pattern;
pub mod reproducer;
pub mod stack_trace;
pub mod text;
pub mod types;
