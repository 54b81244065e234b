//! The decisions of reading a whole block device into an image file and of
//! writing an image file onto a block device: where the device's size and
//! logical block size come from, how each copy advances, and what a failed
//! read leads to.
use vstd::prelude::*;
use crate::sys::{path_file_name, path_file_name_text};
use crate::text::{trim, parse_u64_spec, trim_str, parse_u64_str};
use crate::transfer::{Transfer, TransferView};

verus! {

/// The size of the copy buffer: 64 KiB.
pub open spec fn io_buffer_size() -> nat {
    64 * 1024
}

/// A read of unknown length stops once more than 1 GiB has been read.
pub open spec fn open_ended_limit() -> nat {
    1024 * 1024 * 1024
}

/// The block size assumed where sysfs does not tell it.
pub open spec fn default_block_size() -> nat {
    512
}

/// The sysfs file that holds an attribute of a device: the device's file
/// name under `/sys/class/block`, then `tail`; none where the device path has
/// no file name.
pub open spec fn sysfs_path(device_path: Seq<char>, tail: Seq<char>) -> Option<Seq<char>> {
    match path_file_name_text(device_path) {
        Some(n) => if n.len() > 0 {
            Some("/sys/class/block/"@ + n + tail)
        } else {
            None
        },
        None => None,
    }
}

fn sysfs_path_exec(device_path: &str, tail: &str) -> (r: Option<String>)
    ensures
        r is Some <==> sysfs_path(device_path@, tail@) is Some,
        r is Some ==> r->0@ == sysfs_path(device_path@, tail@)->0,
{
    match path_file_name(device_path) {
        Some(n) => {
            if n.as_str().is_empty() {
                None
            } else {
                let mut p = String::from_str("/sys/class/block/");
                p.append(n.as_str());
                p.append(tail);
                Some(p)
            }
        },
        None => None,
    }
}

/// The sysfs file holding the device's size in 512-byte sectors.
pub fn sysfs_size_path(device_path: &str) -> (r: Option<String>)
    ensures
        r is Some <==> sysfs_path(device_path@, "/size"@) is Some,
        r is Some ==> r->0@ == sysfs_path(device_path@, "/size"@)->0,
{
    sysfs_path_exec(device_path, "/size")
}

/// The sysfs file holding the device's logical block size.
pub fn sysfs_block_size_path(device_path: &str) -> (r: Option<String>)
    ensures
        r is Some <==> sysfs_path(device_path@, "/queue/logical_block_size"@) is Some,
        r is Some ==> r->0@ == sysfs_path(device_path@, "/queue/logical_block_size"@)->0,
{
    sysfs_path_exec(device_path, "/queue/logical_block_size")
}

/// The number written in a sysfs file, surrounding whitespace ignored.
pub fn sysfs_number(content: &str) -> (r: Option<u64>)
    ensures
        r == parse_u64_spec(trim(content@)),
{
    let t = trim_str(content);
    parse_u64_str(t.as_str())
}

/// The bytes in `sectors` sectors of 512 bytes.
pub fn sectors_to_bytes(sectors: u64) -> (r: u64)
    requires
        sectors * 512 <= u64::MAX,
    ensures
        r == sectors * 512,
{
    sectors * 512
}

/// The device size that sysfs gives, from the content of the sysfs size
/// file (`None` where the device path has no file name or the file could not
/// be read): 0 for "unknown" when there is no content, the sector count times
/// 512 when the content holds a number, and `None` (a parse failure) when it
/// does not.
pub fn size_from_sysfs(content: Option<&str>) -> (r: Option<u64>)
    requires
        match content {
            Some(c) => match parse_u64_spec(trim(c@)) {
                Some(n) => n * 512 <= u64::MAX,
                None => true,
            },
            None => true,
        },
    ensures
        r == match content {
            Some(c) => match parse_u64_spec(trim(c@)) {
                Some(n) => Some((n * 512) as u64),
                None => None::<u64>,
            },
            None => Some(0u64),
        },
{
    match content {
        Some(c) => match sysfs_number(c) {
            Some(n) => Some(sectors_to_bytes(n)),
            None => None,
        },
        None => Some(0),
    }
}

/// The logical block size: the number in the sysfs file when it could be
/// read (`content`) and holds one, 512 otherwise.
pub fn block_size_from_sysfs(content: Option<&str>) -> (r: u64)
    ensures
        r == match content {
            Some(c) => match parse_u64_spec(trim(c@)) {
                Some(v) => v,
                None => 512,
            },
            None => 512,
        },
{
    match content {
        Some(c) => match sysfs_number(c) {
            Some(v) => v,
            None => 512,
        },
        None => 512,
    }
}

/// The device size: what the size ioctl reported when that is not zero
/// (a failed ioctl reports zero), else the size from sysfs when there is a
/// non-zero one, else zero for "unknown".
pub fn select_total_size(ioctl_size: u64, sysfs_size: Option<u64>) -> (r: u64)
    ensures
        r == if ioctl_size > 0 {
            ioctl_size
        } else {
            match sysfs_size {
                Some(s) => s,
                None => 0,
            }
        },
{
    if ioctl_size > 0 {
        ioctl_size
    } else {
        match sysfs_size {
            Some(s) => s,
            None => 0,
        }
    }
}

/// A copy of `size` bytes in 64 KiB chunks from offset 0: reading a device
/// of known size, or writing an image file of that size.
pub fn chunked_transfer(size: u64) -> (r: Transfer)
    ensures
        r@ == (TransferView { target: size as nat, done: 0, chunk: io_buffer_size() }),
{
    Transfer::new(size, 64 * 1024)
}

/// The kinds of read failure the copy loops tell apart.
#[derive(Debug, Clone, Copy, PartialEq, Eq, Structural)]
pub enum ReadFailure {
    WouldBlock,
    TimedOut,
    UnexpectedEof,
    Other,
}

/// What follows a failed read.
#[derive(Debug, Clone, Copy, PartialEq, Eq, Structural)]
pub enum ReadStep {
    /// Read again.
    Retry,
    /// End the copy as if the device had ended.
    Stop,
    /// Give up with the read's error.
    Fail,
}

/// What follows a failed read: a read that would block or timed out is
/// retried; an unexpected end of file ends a read of unknown length; any
/// other failure gives up.
pub fn after_read_error(kind: ReadFailure, size_known: bool) -> (r: ReadStep)
    ensures
        r == match kind {
            ReadFailure::WouldBlock | ReadFailure::TimedOut => ReadStep::Retry,
            ReadFailure::UnexpectedEof => if size_known {
                ReadStep::Fail
            } else {
                ReadStep::Stop
            },
            ReadFailure::Other => ReadStep::Fail,
        },
{
    match kind {
        ReadFailure::WouldBlock | ReadFailure::TimedOut => ReadStep::Retry,
        ReadFailure::UnexpectedEof => if size_known {
            ReadStep::Fail
        } else {
            ReadStep::Stop
        },
        ReadFailure::Other => ReadStep::Fail,
    }
}

/// What a read of a device of unknown size leads to.
#[derive(Debug, Clone, Copy, PartialEq, Eq, Structural)]
pub enum OpenStep {
    /// The read returned nothing: the device has ended.
    SourceEnded,
    /// The bytes were read; says whether reading goes on.
    Read { go_on: bool },
}

/// A read of a device of unknown size: whole buffers until the device ends
/// or more than 1 GiB has been read.
pub struct OpenEndedRead {
    done: u64,
}

impl View for OpenEndedRead {
    type V = nat;

    /// The bytes read so far.
    closed spec fn view(&self) -> nat {
        self.done as nat
    }
}

impl OpenEndedRead {
    #[verifier::type_invariant]
    spec fn inv(self) -> bool {
        self.done <= open_ended_limit() + io_buffer_size()
    }

    pub fn new() -> (r: Self)
        ensures
            r@ == 0,
    {
        OpenEndedRead { done: 0 }
    }

    /// The size of each read: a whole buffer of 64 KiB.
    pub fn chunk_len(&self) -> (r: u64)
        ensures
            r == io_buffer_size(),
    {
        64 * 1024
    }

    /// The bytes read so far.
    pub fn total(&self) -> (r: u64)
        ensures
            r == self@,
            r <= open_ended_limit() + io_buffer_size(),
    {
        proof {
            use_type_invariant(self);
        }
        self.done
    }

    /// Records a read of `n` bytes (at most a buffer) while the limit has not
    /// been passed; says whether reading goes on.
    pub fn record(&mut self, n: u64) -> (go_on: bool)
        requires
            old(self)@ <= open_ended_limit(),
            n <= io_buffer_size(),
        ensures
            final(self)@ == old(self)@ + n,
            go_on == (final(self)@ <= open_ended_limit()),
    {
        proof {
            use_type_invariant(&*self);
        }
        self.done = self.done + n;
        self.done <= 1024 * 1024 * 1024
    }

    /// Takes the result of a read of `n` bytes: a read of nothing ends the
    /// copy and changes nothing; otherwise the bytes are counted and reading
    /// goes on while no more than 1 GiB has been read.
    pub fn advance(&mut self, n: u64) -> (r: OpenStep)
        requires
            old(self)@ <= open_ended_limit(),
            n <= io_buffer_size(),
        ensures
            n == 0 ==> r == OpenStep::SourceEnded && final(self)@ == old(self)@,
            n > 0 ==> final(self)@ == old(self)@ + n && r == (OpenStep::Read {
                go_on: final(self)@ <= open_ended_limit(),
            }),
    {
        if n == 0 {
            return OpenStep::SourceEnded;
        }
        let go_on = self.record(n);
        OpenStep::Read { go_on }
    }
}

} // verus!
