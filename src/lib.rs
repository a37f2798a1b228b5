//! Supervision of one long-lived worker process reached over its standard
//! streams: the occupancy slot with its start / stop / send transitions, the
//! replies those transitions produce, and the line drains that turn the
//! worker's output streams into lines.

pub mod drain;
pub mod outcome;
pub mod supervisor;
