//! The boot sector descriptor and its decoder.

use crate::little_endian::{le_u16_at, le_u32_at, read_u16_le, read_u32_le};
use vstd::prelude::*;

verus! {

/// Number of bytes a boot sector image must at least hold.
pub const SECTOR_SIZE: usize = 512;

/// Offset of the two-byte logical sector size.
pub const BYTES_PER_SECTOR_OFFSET: usize = 11;

/// Offset of the one-byte cluster size, in sectors.
pub const SECTORS_PER_CLUSTER_OFFSET: usize = 13;

/// Offset of the two-byte count of reserved sectors.
pub const RESERVED_SECTORS_OFFSET: usize = 14;

/// Offset of the one-byte count of FAT copies.
pub const NUM_FATS_OFFSET: usize = 16;

/// Offset of the four-byte size of one FAT, in sectors.
pub const SECTORS_PER_FAT_OFFSET: usize = 36;

/// Offset of the four-byte first cluster of the root directory.
pub const ROOT_DIR_FIRST_CLUSTER_OFFSET: usize = 44;

/// Geometry of a FAT32 volume, as recorded in its boot sector.
#[derive(Debug, Clone, Copy, PartialEq, Eq, Structural)]
pub struct BootSector {
    /// Logical sector size in bytes.
    pub bytes_per_sector: u16,
    /// Sectors grouped into one allocation unit.
    pub sectors_per_cluster: u8,
    /// Sectors that precede the first FAT.
    pub reserved_sectors: u16,
    /// Number of FAT copies.
    pub num_fats: u8,
    /// Size of one FAT, in sectors.
    pub sectors_per_fat: u32,
    /// Cluster at which the root directory begins.
    pub root_dir_first_cluster: u32,
}

/// Why a buffer could not be decoded.
#[derive(Debug, Clone, Copy, PartialEq, Eq, Structural)]
pub enum DecodeError {
    /// The buffer holds fewer than 512 bytes.
    BufferTooSmall,
}

/// Whether `i` is the offset of a byte that belongs to one of the six fields.
pub open spec fn is_field_offset(i: int) -> bool {
    ||| 11 <= i <= 16
    ||| 36 <= i <= 39
    ||| 44 <= i <= 47
}

/// The descriptor that a sector image of at least 512 bytes holds.
pub open spec fn descriptor_of(bytes: Seq<u8>) -> BootSector
    recommends
        bytes.len() >= SECTOR_SIZE,
{
    BootSector {
        bytes_per_sector: le_u16_at(bytes, 11) as u16,
        sectors_per_cluster: bytes[13],
        reserved_sectors: le_u16_at(bytes, 14) as u16,
        num_fats: bytes[16],
        sectors_per_fat: le_u32_at(bytes, 36) as u32,
        root_dir_first_cluster: le_u32_at(bytes, 44) as u32,
    }
}

/// What decoding `bytes` yields: the descriptor when at least 512 bytes are
/// present, `BufferTooSmall` otherwise.
pub open spec fn decoded(bytes: Seq<u8>) -> Result<BootSector, DecodeError> {
    if bytes.len() < SECTOR_SIZE {
        Err(DecodeError::BufferTooSmall)
    } else {
        Ok(descriptor_of(bytes))
    }
}

impl BootSector {
    /// Decodes the boot sector held in the first 512 bytes of `data`.
    ///
    /// Fails exactly when `data` is shorter than 512 bytes. Otherwise every
    /// field is the little-endian integer found at its fixed offset; no other
    /// byte of `data` is read and no value is checked.
    pub fn from_bytes(data: &[u8]) -> (result: Result<BootSector, DecodeError>)
        ensures
            result == decoded(data@),
            data@.len() < 512 <==> result == Err::<BootSector, DecodeError>(
                DecodeError::BufferTooSmall,
            ),
            data@.len() >= 512 ==> (result matches Ok(bs) && {
                &&& bs.bytes_per_sector == data@[11] + 0x100 * data@[12]
                &&& bs.sectors_per_cluster == data@[13]
                &&& bs.reserved_sectors == data@[14] + 0x100 * data@[15]
                &&& bs.num_fats == data@[16]
                &&& bs.sectors_per_fat == data@[36] + 0x100 * data@[37] + 0x1_0000 * data@[38]
                    + 0x100_0000 * data@[39]
                &&& bs.root_dir_first_cluster == data@[44] + 0x100 * data@[45] + 0x1_0000
                    * data@[46] + 0x100_0000 * data@[47]
            }),
    {
        if data.len() < SECTOR_SIZE {
            return Err(DecodeError::BufferTooSmall);
        }
        Ok(
            BootSector {
                bytes_per_sector: read_u16_le(data, BYTES_PER_SECTOR_OFFSET),
                sectors_per_cluster: data[SECTORS_PER_CLUSTER_OFFSET],
                reserved_sectors: read_u16_le(data, RESERVED_SECTORS_OFFSET),
                num_fats: data[NUM_FATS_OFFSET],
                sectors_per_fat: read_u32_le(data, SECTORS_PER_FAT_OFFSET),
                root_dir_first_cluster: read_u32_le(data, ROOT_DIR_FIRST_CLUSTER_OFFSET),
            },
        )
    }
}

/// Decodes a sector image with known field values and reports whether every
/// decoded field has the value that was written.
///
/// The image is 512 zero bytes in which the fields are set to 512 bytes per
/// sector, 8 sectors per cluster, 32 reserved sectors, 2 FATs, 16 sectors per
/// FAT and a root directory at cluster 2. The result is always `true`.
pub fn test_boot_sector_parsing() -> (passed: bool)
    ensures
        passed,
{
    let mut data: [u8; 512] = [0u8; 512];

    data[11] = 0x00;
    data[12] = 0x02;

    data[13] = 0x08;

    data[14] = 0x20;
    data[15] = 0x00;

    data[16] = 0x02;

    data[36] = 0x10;
    data[37] = 0x00;
    data[38] = 0x00;
    data[39] = 0x00;

    data[44] = 0x02;
    data[45] = 0x00;
    data[46] = 0x00;
    data[47] = 0x00;

    match BootSector::from_bytes(&data) {
        Ok(bs) => {
            bs.bytes_per_sector == 512 && bs.sectors_per_cluster == 8 && bs.reserved_sectors == 32
                && bs.num_fats == 2 && bs.sectors_per_fat == 16 && bs.root_dir_first_cluster == 2
        },
        Err(_) => false,
    }
}

} // verus!
