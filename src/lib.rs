//! Reconciles the stored timestamps of media files with the capture date
//! that their names carry (`IMG_20180401_191831.jpg`).
//!
//! Everything here is a function from plain values to plain values: the
//! caller lists directories, reads and writes timestamps, and hands the
//! library names, dates and flags.
pub mod calendar;
pub mod date;
pub mod directory;
pub mod file;
pub mod file_metadata;
pub mod guarantees;
pub mod normalization;

pub use calendar::Date;
