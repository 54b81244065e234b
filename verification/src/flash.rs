//! Flashing and dumping through a device file read and written in sequence.
pub mod writer;
