//! An in-memory schedule database for UK rail CIF timetable feeds.
//!
//! The crate is organised as a two-stage pipeline: a record decoder that
//! turns the raw fixed-width byte stream into typed records, and a schedule
//! application engine that folds a record stream into a schedule database.

pub mod apply;
pub mod codes;
pub mod dates;
pub mod daysrun;
pub mod decoder;
pub mod errors;
pub mod laws;
pub mod records;
pub mod schedule;
pub mod text;
pub mod time;
