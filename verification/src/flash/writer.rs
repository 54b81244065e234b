//! Flashing an image to a partition and dumping a partition to an image,
//! through a device file that is read and written front to back.
//!
//! The program performs the reads and writes; the functions here decide
//! whether the operation may start, how it advances and when it fails.
use vstd::prelude::*;
use crate::helpers::{output_text, uid_output_is_root};
use crate::sys::io_error_text;
use crate::text::{decimal, push_decimal};
use crate::transfer::{Transfer, TransferView};

verus! {

/// The size of the copy buffer: 4 MiB.
pub open spec fn copy_buffer_size() -> nat {
    4 * 1024 * 1024
}

/// Why flashing or dumping failed.
#[derive(Debug)]
pub enum FlashError {
    /// A file could not be opened.
    FileOpenError(std::io::Error),
    /// The tool does not run as root.
    PermissionDenied,
    /// The flash was refused; the text says why.
    FlashFailed(String),
    /// The dump was refused; the text says why.
    DumpFailed(String),
}

/// The refusal of an image larger than the device.
pub open spec fn oversize_message(image_size: nat, device_size: nat) -> Seq<char> {
    "Image size ("@ + decimal(image_size) + " bytes) exceeds device size ("@ + decimal(device_size)
        + " bytes)"@
}

impl FlashError {
    /// The error's message, as the tool prints it.
    pub fn message(&self) -> (r: String)
        ensures
            match self {
                FlashError::FileOpenError(_) => r@.len() >= 21 && r@.subrange(0, 21)
                    == "Failed to open file: "@,
                FlashError::PermissionDenied => r@ == "Permission denied"@,
                FlashError::FlashFailed(m) => r@ == "Flash failed: "@ + m@,
                FlashError::DumpFailed(m) => r@ == "Dump failed: "@ + m@,
            },
    {
        match self {
            FlashError::FileOpenError(e) => {
                let mut s = String::from_str("Failed to open file: ");
                proof {
                    reveal_strlit("Failed to open file: ");
                }
                let t = io_error_text(e);
                s.append(t.as_str());
                assert(s@.subrange(0, 21) =~= "Failed to open file: "@);
                s
            },
            FlashError::PermissionDenied => String::from_str("Permission denied"),
            FlashError::FlashFailed(m) => {
                let mut s = String::from_str("Flash failed: ");
                s.append(m.as_str());
                s
            },
            FlashError::DumpFailed(m) => {
                let mut s = String::from_str("Dump failed: ");
                s.append(m.as_str());
                s
            },
        }
    }
}

/// Refuses to go on unless `id -u` reported root.
fn root_check(id_output: &[u8]) -> (r: Result<(), FlashError>)
    ensures
        r is Ok <==> output_text(id_output@) == seq!['0'],
        r is Err ==> r->Err_0 is PermissionDenied,
{
    if uid_output_is_root(id_output) {
        Ok(())
    } else {
        Err(FlashError::PermissionDenied)
    }
}

/// Writes images to partitions.
pub struct ImageFlasher;

impl ImageFlasher {
    pub fn new() -> (r: Self) {
        ImageFlasher
    }

    /// Flashing needs root: refuses unless `id -u` printed `0`.
    pub fn require_root(&self, id_output: &[u8]) -> (r: Result<(), FlashError>)
        ensures
            r is Ok <==> output_text(id_output@) == seq!['0'],
            r is Err ==> r->Err_0 is PermissionDenied,
    {
        root_check(id_output)
    }

    /// Starts flashing an image of `image_size` bytes to a device of
    /// `device_size` bytes: refused when the image is larger than the device,
    /// otherwise a copy of the whole image in 4 MiB chunks from the start of
    /// the device.
    pub fn plan(&self, image_size: u64, device_size: u64) -> (r: Result<Transfer, FlashError>)
        ensures
            image_size <= device_size ==> r is Ok && r->Ok_0@ == (TransferView {
                target: image_size as nat,
                done: 0,
                chunk: copy_buffer_size(),
            }),
            image_size > device_size ==> r is Err && (r->Err_0 matches FlashError::FlashFailed(m)
                && m@ == oversize_message(image_size as nat, device_size as nat)),
    {
        if image_size > device_size {
            let mut m = String::from_str("Image size (");
            push_decimal(&mut m, image_size);
            m.append(" bytes) exceeds device size (");
            push_decimal(&mut m, device_size);
            m.append(" bytes)");
            return Err(FlashError::FlashFailed(m));
        }
        Ok(Transfer::new(image_size, 4 * 1024 * 1024))
    }
}

/// Reads partitions into image files.
pub struct ImageDumper;

impl ImageDumper {
    pub fn new() -> (r: Self) {
        ImageDumper
    }

    /// Dumping needs root: refuses unless `id -u` printed `0`.
    pub fn require_root(&self, id_output: &[u8]) -> (r: Result<(), FlashError>)
        ensures
            r is Ok <==> output_text(id_output@) == seq!['0'],
            r is Err ==> r->Err_0 is PermissionDenied,
    {
        root_check(id_output)
    }

    /// Starts dumping a device of `device_size` bytes: refused for an empty
    /// device, otherwise a copy of the whole device in 4 MiB chunks from its
    /// start.
    pub fn plan(&self, device_size: u64) -> (r: Result<Transfer, FlashError>)
        ensures
            device_size > 0 ==> r is Ok && r->Ok_0@ == (TransferView {
                target: device_size as nat,
                done: 0,
                chunk: copy_buffer_size(),
            }),
            device_size == 0 ==> r is Err && (r->Err_0 matches FlashError::DumpFailed(m) && m@
                == "Device size is 0"@),
    {
        if device_size == 0 {
            return Err(FlashError::DumpFailed(String::from_str("Device size is 0")));
        }
        Ok(Transfer::new(device_size, 4 * 1024 * 1024))
    }
}

} // verus!
