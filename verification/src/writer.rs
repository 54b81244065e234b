//! Flashing an image to a partition and dumping a partition to an image,
//! through a device opened for positioned reads and writes.
//!
//! The program performs the reads and writes; the functions here decide
//! whether the operation may start, how it advances and when it fails.
use vstd::prelude::*;
use crate::helpers::{output_text, uid_output_is_root};
use crate::sys::io_error_text;
use crate::text::{decimal, push_decimal};
use crate::transfer::{Transfer, TransferView};

verus! {

/// The size of the copy buffer: 4 MiB.
pub open spec fn flash_buffer_size() -> nat {
    4 * 1024 * 1024
}

/// Why flashing or dumping failed.
#[derive(Debug)]
pub enum FlashError {
    /// A file could not be opened.
    FileOpenError(std::io::Error),
    /// The tool does not run as root.
    PermissionDenied,
    /// The flash was refused or went wrong; the text says how.
    FlashFailed(String),
}

/// The refusal of an image larger than the device.
pub open spec fn too_large_message(image_size: nat, device_size: nat) -> Seq<char> {
    "Image too large: "@ + decimal(image_size) + " > "@ + decimal(device_size)
}

/// The failure of a write that stored fewer bytes than it was given.
pub open spec fn write_mismatch_message(written: nat, read: nat) -> Seq<char> {
    "Write mismatch: wrote "@ + decimal(written) + " of "@ + decimal(read) + " bytes"@
}

impl FlashError {
    /// The error's message, as the tool prints it.
    pub fn message(&self) -> (r: String)
        ensures
            match self {
                FlashError::FileOpenError(_) => r@.len() >= 21 && r@.subrange(0, 21)
                    == "Failed to open file: "@,
                FlashError::PermissionDenied => r@ == "Permission denied"@,
                FlashError::FlashFailed(m) => r@ == "Flash failed: "@ + m@,
            },
    {
        match self {
            FlashError::FileOpenError(e) => {
                let mut s = String::from_str("Failed to open file: ");
                proof {
                    reveal_strlit("Failed to open file: ");
                }
                let t = io_error_text(e);
                s.append(t.as_str());
                assert(s@.subrange(0, 21) =~= "Failed to open file: "@);
                s
            },
            FlashError::PermissionDenied => String::from_str("Permission denied"),
            FlashError::FlashFailed(m) => {
                let mut s = String::from_str("Flash failed: ");
                s.append(m.as_str());
                s
            },
        }
    }
}

/// Refuses to go on unless `id -u` reported root.
fn root_check(id_output: &[u8]) -> (r: Result<(), FlashError>)
    ensures
        r is Ok <==> output_text(id_output@) == seq!['0'],
        r is Err ==> r->Err_0 is PermissionDenied,
{
    if uid_output_is_root(id_output) {
        Ok(())
    } else {
        Err(FlashError::PermissionDenied)
    }
}

/// Writes images to partitions.
pub struct ImageFlasher;

impl ImageFlasher {
    pub fn new() -> (r: Self) {
        ImageFlasher
    }

    /// Flashing needs root: refuses unless `id -u` printed `0`.
    pub fn require_root(&self, id_output: &[u8]) -> (r: Result<(), FlashError>)
        ensures
            r is Ok <==> output_text(id_output@) == seq!['0'],
            r is Err ==> r->Err_0 is PermissionDenied,
    {
        root_check(id_output)
    }

    /// Starts flashing an image of `image_size` bytes to a device of
    /// `device_size` bytes: refused when the image is larger than the device,
    /// otherwise a copy of the whole image in 4 MiB chunks from offset 0.
    pub fn plan(&self, image_size: u64, device_size: u64) -> (r: Result<Transfer, FlashError>)
        ensures
            image_size <= device_size ==> r is Ok && r->Ok_0@ == (TransferView {
                target: image_size as nat,
                done: 0,
                chunk: flash_buffer_size(),
            }),
            image_size > device_size ==> r is Err && (r->Err_0 matches FlashError::FlashFailed(m)
                && m@ == too_large_message(image_size as nat, device_size as nat)),
    {
        if image_size > device_size {
            let mut m = String::from_str("Image too large: ");
            push_decimal(&mut m, image_size);
            m.append(" > ");
            push_decimal(&mut m, device_size);
            return Err(FlashError::FlashFailed(m));
        }
        Ok(Transfer::new(image_size, 4 * 1024 * 1024))
    }

    /// Checks that a write stored every byte it was given: a short write
    /// fails the flash.
    pub fn check_write(&self, bytes_read: u64, bytes_written: u64) -> (r: Result<(), FlashError>)
        ensures
            r is Ok <==> bytes_written == bytes_read,
            r is Err ==> (r->Err_0 matches FlashError::FlashFailed(m) && m@
                == write_mismatch_message(bytes_written as nat, bytes_read as nat)),
    {
        if bytes_written != bytes_read {
            let mut m = String::from_str("Write mismatch: wrote ");
            push_decimal(&mut m, bytes_written);
            m.append(" of ");
            push_decimal(&mut m, bytes_read);
            m.append(" bytes");
            return Err(FlashError::FlashFailed(m));
        }
        Ok(())
    }
}

/// Reads partitions into image files.
pub struct ImageDumper;

impl ImageDumper {
    pub fn new() -> (r: Self) {
        ImageDumper
    }

    /// Dumping needs root: refuses unless `id -u` printed `0`.
    pub fn require_root(&self, id_output: &[u8]) -> (r: Result<(), FlashError>)
        ensures
            r is Ok <==> output_text(id_output@) == seq!['0'],
            r is Err ==> r->Err_0 is PermissionDenied,
    {
        root_check(id_output)
    }

    /// Starts dumping a device of `device_size` bytes: a copy of the whole
    /// device in 4 MiB chunks from offset 0.
    pub fn plan(&self, device_size: u64) -> (r: Transfer)
        ensures
            r@ == (TransferView { target: device_size as nat, done: 0, chunk: flash_buffer_size() }),
    {
        Transfer::new(device_size, 4 * 1024 * 1024)
    }
}

} // verus!
