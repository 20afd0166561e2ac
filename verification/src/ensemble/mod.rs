//! The ensembler: runs several fuzz engines side by side on one harness,
//! tracks their progress from their logs and stats files, and syncs their
//! corpora.

pub mod aflpp;
pub mod honggfuzz;
pub mod libfuzzer;
pub mod native_go;
pub mod options;
pub mod semsan;
pub mod settings;
pub mod sync;
pub mod setup;
