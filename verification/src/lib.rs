//! Core engine of a personal work-hour tracker: calendar dates, clock times,
//! signed durations, work periods, logged work entries, and the flex-time
//! ledger that balances worked time against an eight-hour weekday baseline.
//!
//! All parsing, persistence and console output live outside this crate; the
//! engine consumes and produces plain in-memory values only.

pub mod project_log;
pub mod text;
pub mod time;
