//! blkops: finding, flashing and dumping Android block-device partitions.
//!
//! The library holds the decisions of the tool: where a partition is found,
//! when an image may be written, how a copy advances, what the progress
//! display shows and how tool output is read. The program around it does the
//! system calls and hands the results in as plain values.
pub mod blockio;
pub mod cli;
pub mod device;
pub mod error;
pub mod file;
pub mod flash;
pub mod helpers;
pub mod paths;
pub mod progress;
pub mod sys;
pub mod text;
pub mod transfer;
pub mod writer;

use vstd::prelude::*;

verus! {

} // verus!
