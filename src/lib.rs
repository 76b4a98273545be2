//! Extraction of a radio campaign's date window, featured persons and music
//! schedule from the values read off one rendered page, and their assembly
//! into one outbound record.
pub mod error;
pub mod payload;
pub mod period;
pub mod roster;
pub mod schedule;
