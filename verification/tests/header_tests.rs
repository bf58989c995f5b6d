use sims_textures::ByteOrder;
use sims_textures::Encoding;
use sims_textures::PaletteSize;
use sims_textures::TextureError;
use sims_textures::find_first_zero;
use sims_textures::parse_header;

/// Builds a record with the sentinel at `prefix` nonzero bytes, then header
/// fields in `order`, then `tail` extra bytes.
fn build_record(
    prefix: usize,
    order: ByteOrder,
    width: u16,
    height: u16,
    discriminant: u8,
    palette_count: Option<u16>,
    tail: usize,
) -> Vec<u8> {
    let mut record = vec![9u8; prefix];
    record.push(0);
    // Two header bytes before the width field; keep them nonzero filler.
    record.push(7);
    record.push(7);
    let put = |record: &mut Vec<u8>, value: u16| match order {
        ByteOrder::Little => record.extend_from_slice(&value.to_le_bytes()),
        ByteOrder::Big => record.extend_from_slice(&value.to_be_bytes()),
    };
    put(&mut record, width);
    put(&mut record, height);
    record.push(discriminant);
    record.push(7);
    if let Some(count) = palette_count {
        put(&mut record, count);
    }
    record.extend(std::iter::repeat(7u8).take(tail));
    record
}

#[test]
fn finds_first_zero_at_start() {
    let record = [0u8, 5, 5];
    assert_eq!(find_first_zero(&record), Some(0));
}

#[test]
fn finds_first_zero_past_prefix() {
    let record = [3u8, 5, 0, 0, 1];
    assert_eq!(find_first_zero(&record), Some(2));
}

#[test]
fn finds_no_zero() {
    let record = [3u8, 5, 9];
    assert_eq!(find_first_zero(&record), None);
}

#[test]
fn parses_direct_header_little_endian() {
    let record = build_record(4, ByteOrder::Little, 32, 64, 0, None, 0);
    let header = parse_header(&record, ByteOrder::Little).unwrap();
    assert_eq!(header.width, 32);
    assert_eq!(header.height, 64);
    assert_eq!(header.encoding, Encoding::Direct);
}

#[test]
fn parses_direct_header_big_endian() {
    let record = build_record(0, ByteOrder::Big, 300, 513, 0, None, 0);
    let header = parse_header(&record, ByteOrder::Big).unwrap();
    assert_eq!(header.width, 300);
    assert_eq!(header.height, 513);
    assert_eq!(header.encoding, Encoding::Direct);
}

#[test]
fn byte_order_changes_the_fields_read() {
    // 0x0120 read little-endian is 0x2001 read big-endian.
    let record = build_record(0, ByteOrder::Little, 0x0120, 0x0120, 0, None, 0);
    let header = parse_header(&record, ByteOrder::Big).unwrap();
    assert_eq!(header.width, 0x2001);
    assert_eq!(header.height, 0x2001);
}

#[test]
fn parses_small_palette_header() {
    let record = build_record(2, ByteOrder::Little, 16, 16, 2, Some(16), 0);
    let header = parse_header(&record, ByteOrder::Little).unwrap();
    assert_eq!(header.encoding, Encoding::Indexed(PaletteSize::Entries16));
}

#[test]
fn parses_large_palette_header() {
    let record = build_record(2, ByteOrder::Big, 16, 16, 2, Some(256), 0);
    let header = parse_header(&record, ByteOrder::Big).unwrap();
    assert_eq!(header.encoding, Encoding::Indexed(PaletteSize::Entries256));
}

#[test]
fn record_without_zero_byte_is_malformed() {
    let record = vec![1u8, 2, 3, 4, 5, 6, 7, 8, 9, 10, 11, 12];
    assert_eq!(
        parse_header(&record, ByteOrder::Little),
        Err(TextureError::MalformedRecord)
    );
}

#[test]
fn empty_record_is_malformed() {
    let record: Vec<u8> = Vec::new();
    assert_eq!(
        parse_header(&record, ByteOrder::Little),
        Err(TextureError::MalformedRecord)
    );
}

#[test]
fn truncated_direct_header_is_malformed() {
    // Sentinel at the start but only seven bytes follow it in total.
    let record = vec![0u8, 7, 7, 32, 0, 32, 0];
    assert_eq!(
        parse_header(&record, ByteOrder::Little),
        Err(TextureError::MalformedRecord)
    );
}

#[test]
fn truncated_indexed_header_is_malformed() {
    // Discriminator announces a palette but the entry count is cut off.
    let record = vec![0u8, 7, 7, 32, 0, 32, 0, 2, 7, 16];
    assert_eq!(
        parse_header(&record, ByteOrder::Little),
        Err(TextureError::MalformedRecord)
    );
}

#[test]
fn unknown_discriminator_is_malformed() {
    let record = build_record(0, ByteOrder::Little, 32, 32, 1, Some(16), 0);
    assert_eq!(
        parse_header(&record, ByteOrder::Little),
        Err(TextureError::MalformedRecord)
    );
}

#[test]
fn unknown_palette_count_is_malformed() {
    let record = build_record(0, ByteOrder::Little, 32, 32, 2, Some(64), 0);
    assert_eq!(
        parse_header(&record, ByteOrder::Little),
        Err(TextureError::MalformedRecord)
    );
}

#[test]
fn header_is_read_relative_to_the_sentinel() {
    // Ten nonzero bytes precede the sentinel; fields still parse.
    let record = build_record(10, ByteOrder::Little, 128, 256, 0, None, 5);
    let header = parse_header(&record, ByteOrder::Little).unwrap();
    assert_eq!(header.width, 128);
    assert_eq!(header.height, 256);
}
