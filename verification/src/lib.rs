//! Decoder for the boot sector of a FAT32 volume.
//!
//! The boot sector is the first 512-byte sector of the volume. It carries the
//! BIOS Parameter Block, a fixed-offset table of little-endian integers that
//! describe the volume's geometry. [`BootSector::from_bytes`] extracts the six
//! fields needed to locate the FAT tables and the root directory; its contract
//! is stated over [`boot_sector::decoded`], a function of the sector's bytes.

pub mod boot_sector;
pub mod invariance;
pub mod little_endian;

pub use boot_sector::{test_boot_sector_parsing, BootSector, DecodeError};
