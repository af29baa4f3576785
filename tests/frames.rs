use tinygif::{
    step_transition, ByteIterator, DecodeState, GifFrame, GifFrameStreamer, GifInfo, ParseError,
    SeekableIter, SeekableSliceIter, StepStatus, MAX_STALLS,
};
use weezl::encode::Encoder;
use weezl::BitOrder;

const BLACK: u16 = 0x0000;
const WHITE: u16 = 0xFFFF;

fn lzw(min_code_size: u8, indices: &[u8]) -> Vec<u8> {
    Encoder::new(BitOrder::Lsb, min_code_size).encode(indices).unwrap()
}

/// Splits data into sub-blocks of at most 255 bytes and appends the terminator.
fn sub_blocks(data: &[u8]) -> Vec<u8> {
    let mut out = Vec::new();
    for chunk in data.chunks(255) {
        out.push(chunk.len() as u8);
        out.extend_from_slice(chunk);
    }
    out.push(0);
    out
}

fn header(width: u16, height: u16, global: Option<&[[u8; 3]]>) -> Vec<u8> {
    let mut out = b"GIF89a".to_vec();
    out.extend_from_slice(&width.to_le_bytes());
    out.extend_from_slice(&height.to_le_bytes());
    match global {
        Some(table) => {
            let bits = table_bits(table.len());
            out.push(0x80 | (bits - 1));
            out.push(0);
            out.push(0);
            for c in table {
                out.extend_from_slice(c);
            }
        }
        None => {
            out.push(0);
            out.push(0);
            out.push(0);
        }
    }
    out
}

fn table_bits(len: usize) -> u8 {
    let mut bits = 1u8;
    while (1usize << bits) < len {
        bits += 1;
    }
    bits
}

fn graphics_control(delay: u16) -> Vec<u8> {
    let mut out = vec![0x21, 0xF9, 4, 0];
    out.extend_from_slice(&delay.to_le_bytes());
    out.push(0);
    out.push(0);
    out
}

fn image(width: u16, height: u16, local: Option<&[[u8; 3]]>, indices: &[u8]) -> Vec<u8> {
    let mut out = vec![0x2C, 0, 0, 0, 0];
    out.extend_from_slice(&width.to_le_bytes());
    out.extend_from_slice(&height.to_le_bytes());
    match local {
        Some(table) => {
            let bits = table_bits(table.len());
            out.push(0x80 | (bits - 1));
            for c in table {
                out.extend_from_slice(c);
            }
        }
        None => out.push(0),
    }
    let min_code_size = 2u8.max(table_bits(local.map(|t| t.len()).unwrap_or(4)));
    out.push(min_code_size);
    out.extend_from_slice(&sub_blocks(&lzw(min_code_size, indices)));
    out
}

fn collect<S: SeekableIter>(frame: &mut GifFrame<S>) -> Vec<u16> {
    let mut pixels = Vec::new();
    while let Some(p) = frame.next() {
        pixels.push(p);
    }
    pixels
}

const BW: [[u8; 3]; 2] = [[0, 0, 0], [255, 255, 255]];

fn palette4() -> [[u8; 3]; 4] {
    [[0, 0, 0], [255, 0, 0], [0, 255, 0], [0, 0, 255]]
}

const RED: u16 = 0xF800;
const GREEN: u16 = 0x07E0;
const BLUE: u16 = 0x001F;

#[test]
fn minimal_87a_without_images() {
    let bytes = [0x47, 0x49, 0x46, 0x38, 0x37, 0x61, 0x01, 0x00, 0x01, 0x00, 0x00, 0x00, 0x00, 0x3B];
    let gif = GifFrameStreamer::from_slice(&bytes).unwrap();
    assert_eq!(gif.num_images(), 0);
    assert_eq!(gif.delay_ms(), 50);
    assert_eq!(gif.base_size(), (1, 1));
}

#[test]
fn single_white_pixel() {
    let mut bytes = header(1, 1, Some(&BW));
    bytes.extend(image(1, 1, None, &[1]));
    bytes.push(0x3B);
    let mut gif = GifFrameStreamer::from_slice(&bytes).unwrap();
    assert_eq!(gif.num_images(), 1);
    let mut frame = gif.next_frame().unwrap();
    assert_eq!(frame.num_pixels(), 1);
    let pixels = collect(&mut frame);
    assert_eq!(pixels, vec![WHITE]);
    assert!(frame.done());
    assert_eq!(frame.error(), None);
}

#[test]
fn single_pixel_follows_first_index() {
    let mut bytes = header(1, 1, Some(&BW));
    bytes.extend(image(1, 1, None, &[0]));
    bytes.push(0x3B);
    let mut gif = GifFrameStreamer::from_slice(&bytes).unwrap();
    let mut frame = gif.next_frame().unwrap();
    assert_eq!(collect(&mut frame), vec![BLACK]);
}

#[test]
fn two_frames_with_delay() {
    let mut bytes = header(2, 2, Some(&BW));
    bytes.extend(graphics_control(9));
    bytes.extend(image(2, 2, None, &[0, 1, 1, 0]));
    bytes.extend(graphics_control(9));
    bytes.extend(image(2, 2, None, &[1, 1, 1, 1]));
    bytes.push(0x3B);
    let mut gif = GifFrameStreamer::from_slice(&bytes).unwrap();
    assert_eq!(gif.delay_ms(), 90);
    assert_eq!(gif.num_images(), 2);
    for expected in [vec![BLACK, WHITE, WHITE, BLACK], vec![WHITE; 4]] {
        let mut frame = gif.next_frame().unwrap();
        let pixels = collect(&mut frame);
        assert_eq!(pixels.len(), frame.num_pixels());
        assert_eq!(pixels, expected);
    }
}

#[test]
fn local_table_wins_over_global() {
    let local = [[0, 255, 0], [0, 0, 255]];
    let global = [[255, 0, 0], [255, 255, 255]];
    let mut bytes = header(1, 1, Some(&global));
    bytes.extend(image(1, 1, Some(&local), &[0]));
    bytes.push(0x3B);
    let mut gif = GifFrameStreamer::from_slice(&bytes).unwrap();
    let mut frame = gif.next_frame().unwrap();
    assert_eq!(frame.next(), Some(GREEN));
}

#[test]
fn mixed_local_and_global_tables() {
    let global = palette4();
    let local = [[0, 0, 255], [0, 255, 0]];
    let mut bytes = header(1, 1, Some(&global));
    bytes.extend(image(1, 1, None, &[1]));
    bytes.extend(image(1, 1, Some(&local), &[1]));
    bytes.extend(image(1, 1, None, &[3]));
    bytes.push(0x3B);
    let mut gif = GifFrameStreamer::from_slice(&bytes).unwrap();
    let mut seen = Vec::new();
    for _ in 0..3 {
        let mut frame = gif.next_frame().unwrap();
        seen.push(collect(&mut frame));
    }
    assert_eq!(seen, vec![vec![RED], vec![GREEN], vec![BLUE]]);
}

fn three_frames() -> Vec<u8> {
    let mut bytes = header(1, 1, Some(&palette4()));
    bytes.extend(image(1, 1, None, &[1]));
    bytes.extend(image(1, 1, None, &[2]));
    bytes.extend(image(1, 1, None, &[3]));
    bytes.push(0x3B);
    bytes
}

#[test]
fn wrap_around_after_last_frame() {
    let bytes = three_frames();
    let mut gif = GifFrameStreamer::from_slice(&bytes).unwrap();
    let mut seen = Vec::new();
    for _ in 0..4 {
        let mut frame = gif.next_frame().unwrap();
        seen.push(collect(&mut frame)[0]);
    }
    assert_eq!(seen, vec![RED, GREEN, BLUE, RED]);
}

#[test]
fn reset_replays_the_same_frames() {
    let bytes = three_frames();
    let mut gif = GifFrameStreamer::from_slice(&bytes).unwrap();
    let mut first = Vec::new();
    for _ in 0..gif.num_images() {
        let mut frame = gif.next_frame().unwrap();
        first.push(collect(&mut frame));
    }
    let _ = gif.next_frame().unwrap();
    gif.reset().unwrap();
    let mut second = Vec::new();
    for _ in 0..gif.num_images() {
        let mut frame = gif.next_frame().unwrap();
        second.push(collect(&mut frame));
    }
    assert_eq!(first, second);
}

#[test]
fn frame_yields_width_times_height_pixels() {
    let (w, h) = (40u16, 30u16);
    let indices: Vec<u8> = (0..(w as usize * h as usize)).map(|i| ((i * 7 + i / 13) % 4) as u8).collect();
    let mut bytes = header(w, h, Some(&palette4()));
    bytes.extend(image(w, h, None, &indices));
    bytes.push(0x3B);
    let mut gif = GifFrameStreamer::from_slice(&bytes).unwrap();
    let mut frame = gif.next_frame().unwrap();
    assert_eq!(frame.img_size(), (40, 30));
    let pixels = collect(&mut frame);
    assert_eq!(pixels.len(), frame.num_pixels());
    let colors = [BLACK, RED, GREEN, BLUE];
    let expected: Vec<u16> = indices.iter().map(|&i| colors[i as usize]).collect();
    assert_eq!(pixels, expected);
    assert_eq!(frame.error(), None);
}

#[test]
fn long_image_data_spans_many_sub_blocks() {
    let (w, h) = (64u16, 64u16);
    let mut seed = 12345u32;
    let indices: Vec<u8> = (0..(w as usize * h as usize))
        .map(|_| {
            seed = seed.wrapping_mul(1103515245).wrapping_add(12345);
            ((seed >> 16) % 4) as u8
        })
        .collect();
    let mut bytes = header(w, h, Some(&palette4()));
    bytes.extend(image(w, h, None, &indices));
    bytes.push(0x3B);
    let mut gif = GifFrameStreamer::from_slice(&bytes).unwrap();
    let mut frame = gif.next_frame().unwrap();
    let pixels = collect(&mut frame);
    assert_eq!(pixels.len(), 64 * 64);
    let colors = [BLACK, RED, GREEN, BLUE];
    assert!(pixels.iter().zip(indices.iter()).all(|(p, &i)| *p == colors[i as usize]));
}

#[test]
fn chain_ending_at_end_of_source_is_not_over_read() {
    let mut bytes = header(2, 1, Some(&BW));
    bytes.extend(image(2, 1, None, &[1, 0]));
    let end = bytes.len();
    bytes.push(0x3B);
    let mut iter = ByteIterator::from_slice(&bytes);
    let info = GifInfo::parser(&mut iter).unwrap();
    let truncated = &bytes[..end];
    let mut gif = GifFrameStreamer::new(info, ByteIterator::from_slice(truncated));
    let mut frame = gif.next_frame().unwrap();
    assert_eq!(collect(&mut frame), vec![WHITE, BLACK]);
    assert!(frame.done());
    assert_eq!(frame.error(), None);
    assert_eq!(frame.next(), None);
}

#[test]
fn frame_area_follows_descriptor() {
    let mut bytes = header(8, 8, Some(&BW));
    let mut img = image(2, 3, None, &[1, 1, 1, 1, 1, 1]);
    img[1] = 5;
    img[3] = 4;
    bytes.extend(img);
    bytes.push(0x3B);
    let mut gif = GifFrameStreamer::from_slice(&bytes).unwrap();
    let frame = gif.next_frame().unwrap();
    assert_eq!(frame.origin(), (5, 4));
    assert_eq!(frame.img_size(), (2, 3));
    assert_eq!(frame.frame_area(), ((5, 4), (2, 3)));
    assert_eq!(frame.num_pixels(), 6);
}

#[test]
fn current_frame_before_any_seek() {
    let bytes = three_frames();
    let gif = GifFrameStreamer::from_slice(&bytes).unwrap();
    assert!(matches!(gif.current_frame(), Err(ParseError::NoImagesLeft)));
}

#[test]
fn current_frame_after_seek() {
    let bytes = three_frames();
    let mut gif = GifFrameStreamer::from_slice(&bytes).unwrap();
    gif.seek_to_next_frame().unwrap();
    gif.seek_to_next_frame().unwrap();
    let mut frame = gif.current_frame().unwrap();
    assert_eq!(collect(&mut frame), vec![GREEN]);
}

#[test]
fn seek_without_frames_is_bad_file() {
    let bytes = [0x47, 0x49, 0x46, 0x38, 0x37, 0x61, 0x01, 0x00, 0x01, 0x00, 0x00, 0x00, 0x00, 0x3B];
    let mut gif = GifFrameStreamer::from_slice(&bytes).unwrap();
    assert_eq!(gif.seek_to_next_frame(), Err(ParseError::BadGifFile));
    assert!(matches!(gif.next_frame(), Err(ParseError::BadGifFile)));
}

#[test]
fn frame_without_any_color_table_is_bad_file() {
    let mut bytes = header(1, 1, None);
    bytes.extend(image(1, 1, None, &[0]));
    bytes.push(0x3B);
    let mut gif = GifFrameStreamer::from_slice(&bytes).unwrap();
    assert!(matches!(gif.next_frame(), Err(ParseError::BadGifFile)));
}

#[test]
fn code_size_above_twelve_is_bad_file() {
    let mut bytes = header(1, 1, Some(&BW));
    bytes.extend_from_slice(&[0x2C, 0, 0, 0, 0, 1, 0, 1, 0, 0, 13, 1, 0, 0]);
    bytes.push(0x3B);
    let mut gif = GifFrameStreamer::from_slice(&bytes).unwrap();
    assert!(matches!(gif.next_frame(), Err(ParseError::BadGifFile)));
}

#[test]
fn index_past_the_table_ends_the_frame() {
    let mut bytes = header(1, 1, Some(&BW));
    bytes.extend(image(1, 1, None, &[3]));
    bytes.push(0x3B);
    let mut gif = GifFrameStreamer::from_slice(&bytes).unwrap();
    let mut frame = gif.next_frame().unwrap();
    assert_eq!(frame.next(), None);
    assert!(frame.done());
    assert_eq!(frame.error(), Some(ParseError::BadGifFile));
}

#[test]
fn invalid_lzw_code_ends_the_frame() {
    let mut bytes = header(1, 1, Some(&BW));
    // min code size 2: codes are 3 bits; 7 is past every known code.
    bytes.extend_from_slice(&[0x2C, 0, 0, 0, 0, 1, 0, 1, 0, 0, 2, 1, 0x07, 0]);
    bytes.push(0x3B);
    let mut gif = GifFrameStreamer::from_slice(&bytes).unwrap();
    let mut frame = gif.next_frame().unwrap();
    assert_eq!(frame.next(), None);
    assert_eq!(frame.error(), Some(ParseError::BadGifFile));
}

#[test]
fn truncated_image_data_ends_the_frame() {
    let mut bytes = header(4, 4, Some(&BW));
    bytes.extend(image(4, 4, None, &[1; 16]));
    let end = bytes.len() - 1;
    bytes.push(0x3B);
    let mut iter = ByteIterator::from_slice(&bytes);
    let info = GifInfo::parser(&mut iter).unwrap();
    let mut gif = GifFrameStreamer::new(info, ByteIterator::from_slice(&bytes[..end]));
    let mut frame = gif.next_frame().unwrap();
    let pixels = collect(&mut frame);
    assert!(pixels.iter().all(|&p| p == WHITE));
    assert!(frame.done());
    assert_eq!(frame.error(), Some(ParseError::UnexpectedEof));
}

#[test]
fn transition_after_each_step_status() {
    assert_eq!(
        step_transition(StepStatus::Progress, 3, 0, 7),
        (DecodeState::ProcessingSubBlock, 0, None)
    );
    assert_eq!(
        step_transition(StepStatus::Progress, 0, 5, 7),
        (DecodeState::ProcessingSubBlock, 7, None)
    );
    assert_eq!(
        step_transition(StepStatus::Progress, 0, 0, 7),
        (DecodeState::ProcessingSubBlock, 8, None)
    );
    assert_eq!(
        step_transition(StepStatus::Progress, 0, 0, MAX_STALLS),
        (DecodeState::FrameDone, MAX_STALLS, Some(ParseError::BadGifFile))
    );
    assert_eq!(step_transition(StepStatus::NoProgress, 0, 0, 4), (DecodeState::BlockDone, 4, None));
    assert_eq!(step_transition(StepStatus::Done, 2, 9, 4), (DecodeState::BlockDone, 0, None));
    assert_eq!(
        step_transition(StepStatus::InvalidCode, 1, 0, 0),
        (DecodeState::FrameDone, 0, Some(ParseError::BadGifFile))
    );
}

#[test]
fn empty_image_data_ends_without_error() {
    let mut bytes = header(1, 1, Some(&BW));
    bytes.extend_from_slice(&[0x2C, 0, 0, 0, 0, 1, 0, 1, 0, 0, 2, 0]);
    bytes.push(0x3B);
    let mut gif = GifFrameStreamer::from_slice(&bytes).unwrap();
    let mut frame = gif.next_frame().unwrap();
    assert_eq!(frame.next(), None);
    assert!(frame.done());
    assert_eq!(frame.error(), None);
}

#[test]
fn streamer_over_any_seekable_source() {
    let mut bytes = header(1, 1, Some(&BW));
    bytes.extend(image(1, 1, None, &[1]));
    bytes.push(0x3B);
    let mut iter = ByteIterator::from_slice(&bytes);
    let info = GifInfo::parser(&mut iter).unwrap();
    let source = ByteIterator::new(SeekableSliceIter::new(&bytes));
    let mut gif = GifFrameStreamer::new(info, source);
    let mut frame = gif.next_frame().unwrap();
    assert_eq!(collect(&mut frame), vec![WHITE]);
}

#[test]
fn two_current_frames_yield_the_same_pixels() {
    let bytes = three_frames();
    let mut gif = GifFrameStreamer::from_slice(&bytes).unwrap();
    gif.seek_to_next_frame().unwrap();
    let first = collect(&mut gif.current_frame().unwrap());
    let second = collect(&mut gif.current_frame().unwrap());
    assert_eq!(first, vec![RED]);
    assert_eq!(first, second);
}
