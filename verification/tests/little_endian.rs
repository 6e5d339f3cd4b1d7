use fat32_boot::little_endian::{read_u16_le, read_u32_le};

#[test]
fn read_u16_le_puts_first_byte_lowest() {
    assert_eq!(read_u16_le(&[0x34, 0x12], 0), 0x1234);
    assert_eq!(read_u16_le(&[0x00, 0x02], 0), 512);
    assert_eq!(read_u16_le(&[0x01, 0x00], 0), 1);
    assert_eq!(read_u16_le(&[0x00, 0x01], 0), 256);
    assert_eq!(read_u16_le(&[0xFF, 0xFF], 0), u16::MAX);
}

#[test]
fn read_u16_le_starts_at_the_offset() {
    let data = [0xAA, 0xBB, 0x34, 0x12, 0xCC];
    assert_eq!(read_u16_le(&data, 2), 0x1234);
    assert_eq!(read_u16_le(&data, 0), 0xBBAA);
    assert_eq!(read_u16_le(&data, 3), 0xCC12);
}

#[test]
fn read_u32_le_puts_first_byte_lowest() {
    assert_eq!(read_u32_le(&[0x78, 0x56, 0x34, 0x12], 0), 0x1234_5678);
    assert_eq!(read_u32_le(&[0x10, 0x00, 0x00, 0x00], 0), 16);
    assert_eq!(read_u32_le(&[0x00, 0x01, 0x00, 0x00], 0), 256);
    assert_eq!(read_u32_le(&[0x00, 0x00, 0x01, 0x00], 0), 65_536);
    assert_eq!(read_u32_le(&[0x00, 0x00, 0x00, 0x01], 0), 16_777_216);
    assert_eq!(read_u32_le(&[0xFF, 0xFF, 0xFF, 0xFF], 0), u32::MAX);
}

#[test]
fn read_u32_le_starts_at_the_offset() {
    let data = [0xAA, 0x78, 0x56, 0x34, 0x12, 0xBB];
    assert_eq!(read_u32_le(&data, 1), 0x1234_5678);
    assert_eq!(read_u32_le(&data, 0), 0x3456_78AA);
    assert_eq!(read_u32_le(&data, 2), 0xBB12_3456);
}

#[test]
fn readers_agree_with_the_standard_conversions() {
    let data: Vec<u8> = (0..=255u8).collect();
    for offset in 0..=252 {
        assert_eq!(
            read_u16_le(&data, offset),
            u16::from_le_bytes([data[offset], data[offset + 1]])
        );
        assert_eq!(
            read_u32_le(&data, offset),
            u32::from_le_bytes([
                data[offset],
                data[offset + 1],
                data[offset + 2],
                data[offset + 3]
            ])
        );
    }
}
