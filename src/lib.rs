//! A small streaming GIF decoder for constrained environments.
//!
//! A [`GifFrameStreamer`] indexes a GIF source once and then hands out one [`GifFrame`] at a
//! time; a frame yields its pixels as packed RGB565 values, decoded on demand through two
//! small fixed-size buffers.
mod collections;
mod common;
mod frame;
mod header;
mod iterators;
mod lzw;

pub use common::{Block, ExtensionLabel, ParseError};
pub use frame::{
    active_table, frame_result, frame_setup, index_after, lemma_frames_cycle,
    lemma_failure_causes, lemma_frame_complete, lemma_no_over_read, lemma_pixels_from_palette, lemma_reassembly, next_slot, phase,
    step_transition, transition, DecodeState, GifFrame, GifFrameStreamer, MAX_STALLS,
};
pub use header::{
    chain_data, chain_end, control_at, delay_of, descriptor_spec, has_table, header_spec,
    image_at, image_data_end, images_before, info_result, lemma_chain_data_end,
    lemma_chain_data_extend, lemma_chain_end_after, lemma_scan_finds_images,
    lemma_scan_offsets, magic_ok, rgb565, rgb565_from_rgb888, scan_blocks, scan_spec,
    source_fits, table_at, table_entries, walk_meets_image, ColorTable, DescriptorModel,
    GifInfo, GifModel, GlobalColorTable, GlobalModel, GraphicsControl, Header, HeaderModel,
    LocalImageDescriptor, CONTROL_LEN,
};
pub use iterators::{u16_le, ByteIterator, SeekableIter, SeekableSliceIter};
pub use lzw::{lzw_code_size, lzw_decode, lzw_fed, lzw_written, LzwDecoder, StepStatus, MAX_CODE_SIZE};
