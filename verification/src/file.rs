//! Checks on image files against devices.
use vstd::prelude::*;

verus! {

/// An image file verifies against a device when it is exactly as large as
/// the device.
pub fn image_matches_device(image_size: u64, device_size: u64) -> (r: bool)
    ensures
        r == (image_size == device_size),
{
    image_size == device_size
}

} // verus!
