use tinygif::{
    rgb565_from_rgb888, Block, ByteIterator, ColorTable, ExtensionLabel, GifFrameStreamer, GifInfo,
    GraphicsControl, Header, LocalImageDescriptor, ParseError,
};

fn minimal(magic: &[u8]) -> Vec<u8> {
    let mut bytes = magic.to_vec();
    bytes.extend_from_slice(&[0x01, 0x00, 0x01, 0x00, 0x00, 0x00, 0x00, 0x3B]);
    bytes
}

/// A 1x1 image block with a two-color local table, code size 2 and an LZW stream for index 0.
fn image_block() -> Vec<u8> {
    vec![
        0x2C, 0, 0, 0, 0, 1, 0, 1, 0, 0x80, 255, 255, 255, 0, 0, 0, 0x02, 0x02, 0x44, 0x01, 0x00,
    ]
}

fn scan(bytes: &[u8]) -> Result<GifInfo, ParseError> {
    let mut iter = ByteIterator::from_slice(bytes);
    GifInfo::parser(&mut iter)
}

#[test]
fn bad_magic_is_bad_file() {
    let bytes = minimal(b"GIF99z");
    assert!(matches!(scan(&bytes), Err(ParseError::BadGifFile)));
    assert!(matches!(GifFrameStreamer::from_slice(&bytes), Err(ParseError::BadGifFile)));
}

#[test]
fn both_magic_versions_are_accepted() {
    assert_eq!(scan(&minimal(b"GIF87a")).unwrap().num_images(), 0);
    assert_eq!(scan(&minimal(b"GIF89a")).unwrap().num_images(), 0);
}

#[test]
fn empty_and_truncated_sources_end_early() {
    assert!(matches!(scan(&[]), Err(ParseError::UnexpectedEof)));
    assert!(matches!(scan(b"GIF8"), Err(ParseError::UnexpectedEof)));
    assert!(matches!(scan(b"GIF89a\x01\x00"), Err(ParseError::UnexpectedEof)));
    let mut no_trailer = minimal(b"GIF89a");
    no_trailer.pop();
    assert!(matches!(scan(&no_trailer), Err(ParseError::UnexpectedEof)));
}

#[test]
fn unknown_block_label_is_refused() {
    let mut bytes = minimal(b"GIF89a");
    bytes.insert(13, 0x42);
    assert!(matches!(scan(&bytes), Err(ParseError::IncorrectBlockLabel)));
}

#[test]
fn unknown_extension_label_is_refused() {
    let mut bytes = minimal(b"GIF89a");
    bytes.pop();
    bytes.extend_from_slice(&[0x21, 0x77, 0x00, 0x3B]);
    assert!(matches!(scan(&bytes), Err(ParseError::IncorrectExtension)));
}

#[test]
fn offsets_point_after_image_labels() {
    let mut bytes = minimal(b"GIF89a");
    bytes.pop();
    let first = bytes.len() + 1;
    bytes.extend(image_block());
    // An application extension and a comment in between are skipped.
    bytes.extend_from_slice(&[0x21, 0xFF, 0x03, b'a', b'b', b'c', 0x02, 1, 2, 0x00]);
    bytes.extend_from_slice(&[0x21, 0xFE, 0x01, b'x', 0x00]);
    bytes.extend_from_slice(&[0x21, 0x01, 0x00]);
    let second = bytes.len() + 1;
    bytes.extend(image_block());
    bytes.push(0x3B);
    let info = scan(&bytes).unwrap();
    assert_eq!(info.num_images(), 2);
    assert_eq!(info.image_offset(0), first);
    assert_eq!(info.image_offset(1), second);
    assert_eq!(bytes[first - 1], 0x2C);
    assert_eq!(bytes[second - 1], 0x2C);
    assert_eq!(info.delay_time(), 50);
    assert!(info.global_table().is_none());
}

#[test]
fn last_graphics_control_wins() {
    let mut bytes = minimal(b"GIF89a");
    bytes.pop();
    bytes.extend_from_slice(&[0x21, 0xF9, 0x04, 0x00, 0x03, 0x00, 0x00, 0x00]);
    bytes.extend_from_slice(&[0x21, 0xF9, 0x04, 0x00, 0x07, 0x00, 0x00, 0x00]);
    bytes.push(0x3B);
    let info = scan(&bytes).unwrap();
    assert_eq!(info.delay_time(), 70);
}

#[test]
fn large_delay_does_not_wrap() {
    let mut bytes = minimal(b"GIF89a");
    bytes.pop();
    bytes.extend_from_slice(&[0x21, 0xF9, 0x04, 0x00, 0xFF, 0xFF, 0x00, 0x00]);
    bytes.push(0x3B);
    assert_eq!(scan(&bytes).unwrap().delay_time(), 655350);
}

#[test]
fn graphics_control_fields() {
    let bytes = [0x04, 0b0000_1101, 0x0A, 0x00, 0x05, 0x00];
    let mut iter = ByteIterator::from_slice(&bytes);
    let gc = GraphicsControl::parse(&mut iter).unwrap();
    assert_eq!(gc.delay_time, 100);
    assert_eq!(gc.get_transparent_idx(), Some(5));
    assert_eq!(gc.disposal_method(), 3);
    assert_eq!(iter.get_offset(), 6);
    let opaque = GraphicsControl { ctrl: 0b0000_1000, transparent_idx: 5, delay_time: 0 };
    assert_eq!(opaque.get_transparent_idx(), None);
    assert_eq!(opaque.disposal_method(), 2);
    let mut short = ByteIterator::from_slice(&bytes[..4]);
    assert!(matches!(GraphicsControl::parse(&mut short), Err(ParseError::UnexpectedEof)));
}

#[test]
fn header_reads_global_table() {
    let bytes = [
        b'G', b'I', b'F', b'8', b'9', b'a', 0x10, 0x00, 0x08, 0x00, 0x91, 0x03, 0x00, 0xFF, 0x00,
        0x00, 0x00, 0xFF, 0x00, 0x00, 0x00, 0xFF, 0x84, 0x84, 0x84, 0x3B,
    ];
    let mut iter = ByteIterator::from_slice(&bytes);
    let header = Header::parser(&mut iter).unwrap();
    assert_eq!((header.width, header.height), (16, 8));
    assert!(header.global_table.is_some());
    assert_eq!(iter.get_offset(), 25);
    let info = scan(&bytes).unwrap();
    assert_eq!(info.base_size(), (16, 8));
    let table = info.global_table().unwrap();
    assert_eq!(table.len(), 4);
    assert_eq!(table.get(0), 0xF800);
    assert_eq!(table.get(1), 0x07E0);
    assert_eq!(table.get(2), 0x001F);
    assert_eq!(table.get(3), 0x8430);
}

#[test]
fn truncated_global_table_ends_early() {
    let bytes = [b'G', b'I', b'F', b'8', b'9', b'a', 1, 0, 1, 0, 0x81, 0, 0, 1, 2, 3, 4, 5, 6, 7];
    assert!(matches!(scan(&bytes), Err(ParseError::UnexpectedEof)));
}

#[test]
fn rgb565_truncates_each_channel() {
    assert_eq!(rgb565_from_rgb888(0xFF, 0xFF, 0xFF), 0xFFFF);
    assert_eq!(rgb565_from_rgb888(0, 0, 0), 0x0000);
    assert_eq!(rgb565_from_rgb888(0x84, 0x84, 0x84), 0x8430);
    assert_eq!(rgb565_from_rgb888(0x07, 0x03, 0x07), 0x0000);
    assert_eq!(rgb565_from_rgb888(0x08, 0x04, 0x08), 0x0821);
}

#[test]
fn color_table_reads_triplets() {
    let bytes = [255, 0, 0, 0, 255, 0, 9];
    let mut iter = ByteIterator::from_slice(&bytes);
    let table = ColorTable::new(2, &mut iter).unwrap();
    assert_eq!(table.len(), 2);
    assert_eq!(table.get(0), 0xF800);
    assert_eq!(table.get(1), 0x07E0);
    assert_eq!(iter.get_offset(), 6);
    let mut short = ByteIterator::from_slice(&bytes);
    assert!(matches!(ColorTable::new(3, &mut short), Err(ParseError::UnexpectedEof)));
    assert_eq!(ColorTable::default().len(), 0);
}

#[test]
fn descriptor_fields_and_local_table() {
    let bytes = [3, 0, 4, 0, 5, 0, 6, 0, 0xC0, 1, 2, 3, 4, 5, 6];
    let mut iter = ByteIterator::from_slice(&bytes);
    let d = LocalImageDescriptor::parser(&mut iter).unwrap();
    assert_eq!(d.origin(), (3, 4));
    assert_eq!(d.size(), (5, 6));
    assert_eq!(d.num_pixels(), 30);
    assert_eq!(d.bounding_box(), ((3, 4), (5, 6)));
    assert_eq!(d.color_table().unwrap().len(), 2);
    assert_eq!(iter.get_offset(), 15);
    let plain = [0, 0, 0, 0, 1, 0, 1, 0, 0x07];
    let mut iter = ByteIterator::from_slice(&plain);
    let d = LocalImageDescriptor::parser(&mut iter).unwrap();
    assert!(d.color_table().is_none());
    assert_eq!(iter.get_offset(), 9);
}

#[test]
fn block_labels() {
    assert_eq!(Block::from_u8(0x2C), Ok(Block::Image));
    assert_eq!(Block::from_u8(0x21), Ok(Block::Extension));
    assert_eq!(Block::from_u8(0x3B), Ok(Block::Trailer));
    assert_eq!(Block::from_u8(0x00), Err(ParseError::IncorrectBlockLabel));
}

#[test]
fn extension_labels() {
    assert_eq!(ExtensionLabel::from_u8(0xF9), Ok(ExtensionLabel::Graphics));
    assert_eq!(ExtensionLabel::from_u8(0xFF), Ok(ExtensionLabel::App));
    assert_eq!(ExtensionLabel::from_u8(0x01), Ok(ExtensionLabel::Text));
    assert_eq!(ExtensionLabel::from_u8(0xFE), Ok(ExtensionLabel::Comment));
    assert_eq!(ExtensionLabel::from_u8(0x02), Err(ParseError::IncorrectExtension));
}
