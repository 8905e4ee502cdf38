//! Redeye: a verified core for turning NCSA-style access-log lines into
//! structured events and moving batches of events through a bounded,
//! backpressure-respecting pipeline.
//!
//! The crate covers the pieces with real invariants: the layout matcher
//! that extracts raw capture slices from a line, the field builder that
//! interprets captures into typed values (with nested grouping and the
//! `-` sentinel for absent fields), the Common and Combined line parsers,
//! the bounded event buffer with its size-based flush signal, and the
//! backpressure sender. Command-line handling, JSON rendering and the
//! byte-level I/O around the core are ordinary plumbing and live outside
//! the library.

pub mod buf;
pub mod builder;
pub mod capture;
pub mod enrich;
pub mod num;
pub mod parser;
pub mod scan;
pub mod send;
pub mod timestamp;
pub mod types;
