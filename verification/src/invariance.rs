//! What the decoded descriptor depends on, and what it does not.

use crate::boot_sector::{decoded, descriptor_of, is_field_offset, BootSector, DecodeError};
use crate::little_endian::{lemma_le_u16_digits, lemma_le_u32_digits};
use vstd::prelude::*;

verus! {

/// Two sector images of at least 512 bytes that agree on every byte of the six
/// fields decode to the same descriptor, whatever their other bytes and
/// lengths are.
pub proof fn lemma_decoded_reads_fields_only(a: Seq<u8>, b: Seq<u8>)
    requires
        a.len() >= 512,
        b.len() >= 512,
        forall|i: int| is_field_offset(i) ==> a[i] == b[i],
    ensures
        decoded(a) == decoded(b),
{
    assert(is_field_offset(11) && is_field_offset(12) && is_field_offset(13));
    assert(is_field_offset(14) && is_field_offset(15) && is_field_offset(16));
    assert(is_field_offset(36) && is_field_offset(37) && is_field_offset(38) && is_field_offset(
        39,
    ));
    assert(is_field_offset(44) && is_field_offset(45) && is_field_offset(46) && is_field_offset(
        47,
    ));
}

/// Overwriting one byte that lies outside the six fields never changes what a
/// buffer decodes to, be it a descriptor or the error.
pub proof fn lemma_unread_byte_ignored(bytes: Seq<u8>, i: int, value: u8)
    requires
        0 <= i < bytes.len(),
        !is_field_offset(i),
    ensures
        decoded(bytes.update(i, value)) == decoded(bytes),
{
    let changed = bytes.update(i, value);
    assert(changed.len() == bytes.len());
    if bytes.len() >= 512 {
        assert forall|j: int| is_field_offset(j) implies changed[j] == bytes[j] by {
            assert(j != i);
        }
        lemma_decoded_reads_fields_only(changed, bytes);
    }
}

/// Decoding is a function of the buffer's contents: buffers that hold the same
/// bytes decode to equal results.
pub proof fn lemma_decoding_is_deterministic(a: Seq<u8>, b: Seq<u8>)
    requires
        a.len() == b.len(),
        forall|i: int| 0 <= i < a.len() ==> a[i] == b[i],
    ensures
        decoded(a) == decoded(b),
{
    assert(a =~= b);
}

/// A buffer is rejected exactly when it is shorter than 512 bytes, and the
/// only error is `BufferTooSmall`: 511 bytes always fail, 512 always succeed.
pub proof fn lemma_length_decides_success(bytes: Seq<u8>)
    ensures
        bytes.len() < 512 ==> decoded(bytes) == Err::<BootSector, DecodeError>(
            DecodeError::BufferTooSmall,
        ),
        bytes.len() >= 512 ==> decoded(bytes) == Ok::<BootSector, DecodeError>(
            descriptor_of(bytes),
        ),
{
}

/// In every multi-byte field the first byte is the least significant one:
/// dividing the decoded value by successive powers of 256 gives back the
/// field's bytes in the order in which the buffer holds them.
pub proof fn lemma_least_significant_byte_first(bytes: Seq<u8>)
    requires
        bytes.len() >= 512,
    ensures
        ({
            let bs = descriptor_of(bytes);
            &&& bs.bytes_per_sector % 0x100 == bytes[11]
            &&& bs.bytes_per_sector / 0x100 == bytes[12]
            &&& bs.reserved_sectors % 0x100 == bytes[14]
            &&& bs.reserved_sectors / 0x100 == bytes[15]
            &&& bs.sectors_per_fat % 0x100 == bytes[36]
            &&& bs.sectors_per_fat / 0x100 % 0x100 == bytes[37]
            &&& bs.sectors_per_fat / 0x1_0000 % 0x100 == bytes[38]
            &&& bs.sectors_per_fat / 0x100_0000 == bytes[39]
            &&& bs.root_dir_first_cluster % 0x100 == bytes[44]
            &&& bs.root_dir_first_cluster / 0x100 % 0x100 == bytes[45]
            &&& bs.root_dir_first_cluster / 0x1_0000 % 0x100 == bytes[46]
            &&& bs.root_dir_first_cluster / 0x100_0000 == bytes[47]
        }),
{
    lemma_le_u16_digits(bytes, 11);
    lemma_le_u16_digits(bytes, 14);
    lemma_le_u32_digits(bytes, 36);
    lemma_le_u32_digits(bytes, 44);
}

} // verus!
