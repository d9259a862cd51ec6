//! Deterministic synthesis of a structured log-record dataset, chunked into
//! typed columnar batches.
//!
//! The generator produces records whose every field is a pure function of the
//! record index and a handful of fixed lookup tables, so a run is fully
//! replayable. The chunked builder partitions the record sequence into
//! fixed-size windows and materializes each window as an immutable columnar
//! batch, one equal-length typed column per schema field.

pub mod batch;
pub mod generator;
pub mod record;
pub mod tables;
pub mod text;
