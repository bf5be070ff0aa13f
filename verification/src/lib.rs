//! On-disk superblock ("header") for the benFS local file system.
//!
//! The header is the first block of a storage volume. It identifies the
//! volume (magic signature and format version), carries a randomly generated
//! 128-bit volume identifier, the volume's total size, and the block
//! addresses of the root directory and of the free-space structure, padded
//! to exactly one storage block.
//!
//! The byte layout is fixed and explicit (little-endian integers at fixed
//! offsets), so the serialized form is stable across platforms and matches
//! what is persisted on disk.

pub mod codec;
pub mod header;
