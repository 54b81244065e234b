//! Reading and writing a block device opened as a file.
pub mod device;
