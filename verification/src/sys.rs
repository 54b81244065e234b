//! The standard-library items that the library's logic reaches and that vstd
//! gives no specification: the I/O error and clock types it carries, and the
//! few pure std functions it calls. Each contract here is believed, not proved.
use vstd::prelude::*;
use vstd::utf8::*;

verus! {

/// `std::io::Error`, carried through the library's error types unopened.
#[verifier::external_type_specification]
#[verifier::external_body]
pub struct ExIoError(std::io::Error);

/// `std::time::Instant`, a point on the monotonic clock.
#[verifier::external_type_specification]
#[verifier::external_body]
pub struct ExInstant(std::time::Instant);

/// What `String::from_utf8_lossy` makes of a byte sequence.
pub uninterp spec fn lossy_text(bytes: Seq<u8>) -> Seq<char>;

/// Calls `String::from_utf8_lossy`. Claimed: the result depends on the bytes
/// alone, and on valid UTF-8 it is exactly the decoded text (the std
/// documentation: invalid sequences are the only thing replaced).
#[verifier::external_body]
pub(crate) fn utf8_lossy(bytes: &[u8]) -> (r: String)
    ensures
        r@ == lossy_text(bytes@),
        valid_utf8(bytes@) ==> r@ == decode_utf8(bytes@),
{
    String::from_utf8_lossy(bytes).into_owned()
}

/// What `std::path::Path::parent` gives for a path.
pub uninterp spec fn path_parent_text(path: Seq<char>) -> Option<Seq<char>>;

/// Calls `Path::parent` on a UTF-8 path. Claimed: the result depends on the
/// path alone (std's `Path::parent` only looks at the text of the path).
#[verifier::external_body]
pub(crate) fn path_parent(path: &str) -> (r: Option<String>)
    ensures
        r is Some <==> path_parent_text(path@) is Some,
        r is Some ==> r->0@ == path_parent_text(path@)->0,
{
    match std::path::Path::new(path).parent() {
        Some(p) => Some(p.to_string_lossy().into_owned()),
        None => None,
    }
}

/// What `std::path::Path::file_name` gives for a path.
pub uninterp spec fn path_file_name_text(path: Seq<char>) -> Option<Seq<char>>;

/// Calls `Path::file_name` on a UTF-8 path. Claimed: the result depends on the
/// path alone.
#[verifier::external_body]
pub(crate) fn path_file_name(path: &str) -> (r: Option<String>)
    ensures
        r is Some <==> path_file_name_text(path@) is Some,
        r is Some ==> r->0@ == path_file_name_text(path@)->0,
{
    match std::path::Path::new(path).file_name() {
        Some(n) => Some(n.to_string_lossy().into_owned()),
        None => None,
    }
}

/// Calls `Display::fmt` of `std::io::Error` (through `to_string`). Nothing is
/// claimed of the text: for an error from the operating system it comes from
/// the system's message table.
#[verifier::external_body]
pub(crate) fn io_error_text(e: &std::io::Error) -> (r: String) {
    e.to_string()
}

/// Calls `Instant::now`. Nothing is claimed of the reading.
#[verifier::external_body]
pub(crate) fn clock_now() -> (r: std::time::Instant) {
    std::time::Instant::now()
}

/// Calls `Instant::elapsed` and takes its whole milliseconds
/// (`Duration::as_millis`). Nothing is claimed of the reading: it depends on
/// the clock.
#[verifier::external_body]
pub(crate) fn elapsed_millis(since: &std::time::Instant) -> (r: u128) {
    since.elapsed().as_millis()
}

} // verus!
