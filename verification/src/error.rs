//! The errors of block-device input and output.
use vstd::prelude::*;
use crate::sys::io_error_text;
use crate::text::{decimal, push_decimal};

verus! {

/// An error of block-device input or output.
#[derive(Debug)]
pub enum BlockIOError {
    IoError(std::io::Error),
    DeviceNotFound(String),
    PermissionDenied(String),
    InvalidBlockSize(u64),
    SizeMismatch(u64, u64),
    ChecksumMismatch,
    Cancelled,
}

impl BlockIOError {
    /// The error's message, as the tool prints it.
    pub fn message(&self) -> (r: String)
        ensures
            match self {
                BlockIOError::IoError(_) => r@.len() >= 10 && r@.subrange(0, 10) == "IO error: "@,
                BlockIOError::DeviceNotFound(d) => r@ == "Device not found: "@ + d@,
                BlockIOError::PermissionDenied(d) => r@ == "Permission denied: "@ + d@,
                BlockIOError::InvalidBlockSize(n) => r@ == "Invalid block size: "@ + decimal(
                    *n as nat,
                ),
                BlockIOError::SizeMismatch(e, g) => r@ == "Size mismatch: expected "@ + decimal(
                    *e as nat,
                ) + ", got "@ + decimal(*g as nat),
                BlockIOError::ChecksumMismatch => r@ == "Checksum mismatch"@,
                BlockIOError::Cancelled => r@ == "Operation cancelled"@,
            },
    {
        match self {
            BlockIOError::IoError(e) => {
                let mut s = String::from_str("IO error: ");
                proof {
                    reveal_strlit("IO error: ");
                }
                let t = io_error_text(e);
                s.append(t.as_str());
                assert(s@.subrange(0, 10) =~= "IO error: "@);
                s
            },
            BlockIOError::DeviceNotFound(d) => {
                let mut s = String::from_str("Device not found: ");
                s.append(d.as_str());
                s
            },
            BlockIOError::PermissionDenied(d) => {
                let mut s = String::from_str("Permission denied: ");
                s.append(d.as_str());
                s
            },
            BlockIOError::InvalidBlockSize(n) => {
                let mut s = String::from_str("Invalid block size: ");
                push_decimal(&mut s, *n);
                s
            },
            BlockIOError::SizeMismatch(e, g) => {
                let mut s = String::from_str("Size mismatch: expected ");
                push_decimal(&mut s, *e);
                s.append(", got ");
                push_decimal(&mut s, *g);
                s
            },
            BlockIOError::ChecksumMismatch => String::from_str("Checksum mismatch"),
            BlockIOError::Cancelled => String::from_str("Operation cancelled"),
        }
    }
}

} // verus!
