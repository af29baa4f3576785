use vstd::prelude::*;

use vstd::arithmetic::div_mod::{
    lemma_add_mod_noop, lemma_mod_pos_bound, lemma_mod_self_0, lemma_small_mod,
};

use crate::common::ParseError;
use crate::header::{
    chain_data, chain_end, delay_of, descriptor_spec, image_at, lemma_chain_data_end,
    lemma_chain_data_extend, lemma_chain_end_after, lemma_scan_offsets, scan_spec, source_fits,
    ColorTable, DescriptorModel, GifInfo, GifModel, LocalImageDescriptor,
};
use crate::iterators::{ByteIterator, SeekableIter, SeekableSliceIter};
use crate::lzw::{
    lzw_code_size, lzw_decode, lzw_decoder, lzw_fed, lzw_step, lzw_written, LzwDecoder,
    StepStatus, MAX_CODE_SIZE,
};

verus! {

/// A small fixed-size queue: the entries `buf[idx..size]` are waiting to be read.
pub(crate) struct LilQ<T, const SIZE: usize> {
    buf: [T; SIZE],
    idx: usize,
    size: usize,
}

impl<T: Copy, const SIZE: usize> LilQ<T, SIZE> {
    spec fn wf(&self) -> bool {
        self.idx <= self.size <= SIZE
    }

    /// An empty queue whose slots hold `fill`.
    fn new(fill: T) -> (r: Self)
        ensures
            r.wf(),
            r.idx == 0,
            r.size == 0,
    {
        LilQ { buf: [fill; SIZE], idx: 0, size: 0 }
    }

    /// Nothing is left to read.
    #[inline]
    fn empty(&self) -> (r: bool)
        ensures
            r == (self.idx >= self.size),
    {
        self.idx >= self.size
    }

    /// Reads the next entry.
    fn next(&mut self) -> (r: Option<T>)
        requires
            old(self).wf(),
        ensures
            final(self).wf(),
            final(self).buf == old(self).buf,
            final(self).size == old(self).size,
            old(self).idx < old(self).size ==> r == Some(old(self).buf@[old(self).idx as int])
                && final(self).idx == old(self).idx + 1,
            old(self).idx >= old(self).size ==> r is None && final(self).idx == old(self).idx,
    {
        if self.idx < self.size {
            let rv: T = self.buf[self.idx];
            self.idx = self.idx + 1;
            Some(rv)
        } else {
            None
        }
    }

    /// The entries waiting to be read.
    fn live_slice(&self) -> (r: &[T])
        requires
            self.wf(),
        ensures
            r@ == self.buf@.subrange(self.idx as int, self.size as int),
    {
        &self.buf.as_slice()[self.idx..self.size]
    }

    /// Empties the queue.
    fn reset(&mut self)
        ensures
            final(self).buf == old(self).buf,
            final(self).idx == 0,
            final(self).size == 0,
    {
        self.idx = 0;
        self.size = 0;
    }
}

/// Where a frame decoder stands in the chain of sub-blocks of its image data.
#[derive(Debug, Copy, Clone, PartialEq, Eq, Structural)]
pub enum DecodeState {
    /// No sub-block is loaded.
    NewSubBlock,
    /// A sub-block is loaded and being decoded.
    ProcessingSubBlock,
    /// The decoder asked for more input: the next sub-block is to be read.
    BlockDone,
    /// The terminating sub-block was seen, or decoding failed.
    FrameDone,
}

/// Number of LZW steps in a row that neither read nor write before a frame is given up as
/// stuck.
pub const MAX_STALLS: usize = 4096;

/// Rank of a state in the order in which one refill step moves through them.
pub open spec fn phase(s: DecodeState) -> int {
    match s {
        DecodeState::FrameDone => 0,
        DecodeState::NewSubBlock => 1,
        DecodeState::BlockDone => 1,
        DecodeState::ProcessingSubBlock => 2,
    }
}

/// What follows one LZW step that read `consumed_in` bytes and wrote `consumed_out` indices
/// with `status`, after `stalls` steps in a row that neither read nor wrote: the next state,
/// the new count of such steps, and the error that ends the frame, if one does.
pub open spec fn transition(
    status: StepStatus,
    consumed_in: usize,
    consumed_out: usize,
    stalls: usize,
) -> (DecodeState, usize, Option<ParseError>) {
    match status {
        StepStatus::InvalidCode => (
            DecodeState::FrameDone,
            stalls,
            Some(ParseError::BadGifFile),
        ),
        StepStatus::NoProgress | StepStatus::Done => (
            DecodeState::BlockDone,
            if consumed_in > 0 {
                0
            } else {
                stalls
            },
            None,
        ),
        StepStatus::Progress => if consumed_in > 0 {
            (DecodeState::ProcessingSubBlock, 0, None)
        } else if consumed_out > 0 {
            (DecodeState::ProcessingSubBlock, stalls, None)
        } else if stalls >= MAX_STALLS {
            (DecodeState::FrameDone, stalls, Some(ParseError::BadGifFile))
        } else {
            (DecodeState::ProcessingSubBlock, (stalls + 1) as usize, None)
        },
    }
}

/// Decides what follows one LZW step: a step that went well keeps decoding the loaded
/// sub-block; one that needs input or reached the end code asks for the next sub-block; an
/// invalid code, or too many steps in a row without progress, ends the frame with
/// `BadGifFile`.
pub fn step_transition(
    status: StepStatus,
    consumed_in: usize,
    consumed_out: usize,
    stalls: usize,
) -> (r: (DecodeState, usize, Option<ParseError>))
    requires
        stalls <= MAX_STALLS,
    ensures
        r == transition(status, consumed_in, consumed_out, stalls),
        r.1 <= MAX_STALLS,
{
    match status {
        StepStatus::InvalidCode => (DecodeState::FrameDone, stalls, Some(ParseError::BadGifFile)),
        StepStatus::NoProgress | StepStatus::Done => {
            let next_stalls = if consumed_in > 0 {
                0
            } else {
                stalls
            };
            (DecodeState::BlockDone, next_stalls, None)
        },
        StepStatus::Progress => {
            if consumed_in > 0 {
                (DecodeState::ProcessingSubBlock, 0, None)
            } else if consumed_out > 0 {
                (DecodeState::ProcessingSubBlock, stalls, None)
            } else if stalls >= MAX_STALLS {
                (DecodeState::FrameDone, stalls, Some(ParseError::BadGifFile))
            } else {
                (DecodeState::ProcessingSubBlock, stalls + 1, None)
            }
        },
    }
}

/// The pixels of one frame, decoded on demand: sub-blocks are gathered into a 255-byte
/// buffer, decoded by LZW into palette indices, and looked up in the color table.
pub struct GifFrame<'header, S: SeekableIter> {
    bytes: ByteIterator<S>,
    color_table: &'header ColorTable,
    image_descriptor: &'header LocalImageDescriptor,
    decoder: LzwDecoder,
    /// Buffer that sub-blocks are read into.
    block_buffer: LilQ<u8, 255>,
    /// Pixels decoded and not yet handed out.
    color_buffer: LilQ<u16, 512>,
    pub(crate) state: DecodeState,
    fault: Option<ParseError>,
    /// Every pixel handed out so far, in order.
    pixels: Ghost<Seq<u16>>,
    /// Offset of the first sub-block length byte of the image data.
    data_start: Ghost<int>,
    /// The payload of every sub-block read so far, in order.
    payload: Ghost<Seq<u8>>,
    /// No payload byte was passed over without being handed to the LZW decoder.
    intact: Ghost<bool>,
    /// Decoding was given up after `MAX_STALLS` steps in a row that neither read nor wrote.
    stalled: Ghost<bool>,
}

impl<'header, S: SeekableIter> GifFrame<'header, S> {
    /// The color table that the frame's indices go through.
    pub closed spec fn table(&self) -> Seq<u16> {
        self.color_table@
    }

    /// The descriptor of the frame.
    pub closed spec fn descriptor(&self) -> DescriptorModel {
        self.image_descriptor@
    }

    /// Every palette index that the LZW decoder produced so far, in order.
    pub closed spec fn indices(&self) -> Seq<u8> {
        lzw_written(self.decoder)
    }

    /// The LZW minimum code size that the decoder was made with.
    pub closed spec fn code_size(&self) -> u8 {
        lzw_code_size(self.decoder)
    }

    /// Every byte handed to the LZW decoder and consumed by it, in order.
    pub closed spec fn fed(&self) -> Seq<u8> {
        lzw_fed(self.decoder)
    }

    /// No payload byte was passed over without being handed to the LZW decoder.
    pub closed spec fn intact(&self) -> bool {
        self.intact@
    }

    /// Decoding was given up after `MAX_STALLS` steps in a row that neither read nor wrote.
    pub closed spec fn stalled(&self) -> bool {
        self.stalled@
    }

    /// Every pixel handed out so far, in order.
    pub closed spec fn pixels(&self) -> Seq<u16> {
        self.pixels@
    }

    /// Number of pixels handed out so far.
    pub open spec fn emitted(&self) -> nat {
        self.pixels().len()
    }

    /// The bytes of the source.
    pub closed spec fn source(&self) -> Seq<u8> {
        self.bytes.bytes()
    }

    /// Offset of the next byte of image data to be read.
    pub closed spec fn position(&self) -> nat {
        self.bytes.pos()
    }

    /// Offset of the first sub-block length byte of the image data.
    pub closed spec fn data_start(&self) -> int {
        self.data_start@
    }

    /// The payload of every sub-block read so far, in order.
    pub closed spec fn payload(&self) -> Seq<u8> {
        self.payload@
    }

    /// The decoding state.
    pub closed spec fn decode_state(&self) -> DecodeState {
        self.state
    }

    /// The error that ended decoding, if one did.
    pub closed spec fn failure(&self) -> Option<ParseError> {
        self.fault
    }

    /// Nothing is left to hand out, and nothing will be.
    pub open spec fn finished(&self) -> bool {
        self.decode_state() == DecodeState::FrameDone && self.emitted() == self.decoded_len()
    }

    /// Number of pixels decoded so far and kept: those handed out and those buffered.
    pub closed spec fn decoded_len(&self) -> nat {
        (self.pixels@.len() + (self.color_buffer.size - self.color_buffer.idx)) as nat
    }

    pub closed spec fn wf(&self) -> bool {
        &&& self.bytes.wf()
        &&& self.block_buffer.wf()
        &&& self.color_buffer.wf()
        &&& self.decoded_len() <= self.indices().len()
        &&& self.state != DecodeState::FrameDone || self.fault is None ==> self.decoded_len()
            == self.indices().len()
        &&& forall|k: int|
            0 <= k < self.pixels@.len() ==> #[trigger] self.pixels@[k] == self.color_table@[self.indices()[k] as int]
        &&& forall|k: int| 0 <= k < self.decoded_len() ==> (#[trigger] self.indices()[k] as int) < self.color_table@.len()
        &&& forall|j: int|
            self.color_buffer.idx <= j < self.color_buffer.size ==> #[trigger] self.color_buffer.buf@[j]
                == self.color_table@[self.indices()[self.pixels@.len() + j - self.color_buffer.idx] as int]
        &&& lzw_decode(self.code_size(), self.fed()) is Some ==> self.indices().is_prefix_of(
            lzw_decode(self.code_size(), self.fed())->Some_0,
        )
        &&& self.state == DecodeState::FrameDone ==> self.color_buffer.idx >= self.color_buffer.size
        &&& self.chained()
    }

    /// The cursor never passes the end of the image data; until the frame is done it stands
    /// on a sub-block boundary, every payload byte read so far is recorded, and the block
    /// buffer holds the payload bytes not yet handed to the LZW decoder.
    closed spec fn chained(&self) -> bool {
        let s = self.bytes.bytes();
        let start = self.data_start@;
        &&& chain_end(s, start) is Ok ==> self.bytes.pos() <= chain_end(s, start)->Ok_0
        &&& self.state == DecodeState::FrameDone && self.fault is None ==> chain_end(s, start)
            == Ok::<int, ParseError>(self.bytes.pos() as int)
        &&& self.fault == Some(ParseError::UnexpectedEof) ==> chain_end(s, start) is Err
        &&& self.state != DecodeState::FrameDone ==> self.fault is None
        &&& self.fault is None || self.fault == Some(ParseError::UnexpectedEof) || self.fault
            == Some(ParseError::BadGifFile)
        &&& self.fault == Some(ParseError::BadGifFile) ==> {
            ||| lzw_decode(lzw_code_size(self.decoder), lzw_fed(self.decoder)) is None
            ||| exists|k: int|
                0 <= k < lzw_written(self.decoder).len() && (#[trigger] lzw_written(
                    self.decoder,
                )[k] as int) >= self.color_table@.len()
            ||| self.stalled@
        }
        &&& self.state != DecodeState::FrameDone ==> {
            &&& self.intact@ ==> lzw_fed(self.decoder) + self.block_buffer.buf@.subrange(
                self.block_buffer.idx as int,
                self.block_buffer.size as int,
            ) == self.payload@
            &&& chain_data(s, start, self.bytes.pos() as int) == Some(self.payload@)
            &&& self.block_buffer.size - self.block_buffer.idx <= self.payload@.len()
            &&& forall|j: int|
                self.block_buffer.idx <= j < self.block_buffer.size ==> #[trigger] self.block_buffer.buf@[j]
                    == self.payload@[self.payload@.len() - self.block_buffer.size + j]
        }
    }

    /// A decoder for the image data at the cursor: reads the LZW minimum code size byte and
    /// starts before the first sub-block.
    pub fn new(
        mut bytes: ByteIterator<S>,
        color_table: &'header ColorTable,
        image_descriptor: &'header LocalImageDescriptor,
    ) -> (r: Result<Self, ParseError>)
        requires
            bytes.wf(),
        ensures
            bytes.pos() >= bytes.bytes().len() ==> r == Err::<Self, ParseError>(
                ParseError::UnexpectedEof,
            ),
            bytes.pos() < bytes.bytes().len() && bytes.bytes()[bytes.pos() as int] > MAX_CODE_SIZE
                ==> r == Err::<Self, ParseError>(ParseError::BadGifFile),
            bytes.pos() < bytes.bytes().len() && bytes.bytes()[bytes.pos() as int] <= MAX_CODE_SIZE
                ==> {
                &&& r is Ok
                &&& r->Ok_0.wf()
                &&& r->Ok_0.table() == color_table@
                &&& r->Ok_0.descriptor() == image_descriptor@
                &&& r->Ok_0.source() == bytes.bytes()
                &&& r->Ok_0.position() == bytes.pos() + 1
                &&& r->Ok_0.decode_state() == DecodeState::NewSubBlock
                &&& r->Ok_0.indices() == Seq::<u8>::empty()
                &&& r->Ok_0.emitted() == 0
                &&& r->Ok_0.failure() is None
                &&& r->Ok_0.data_start() == bytes.pos() + 1
                &&& r->Ok_0.payload() == Seq::<u8>::empty()
                &&& r->Ok_0.code_size() == bytes.bytes()[bytes.pos() as int]
                &&& r->Ok_0.fed() == Seq::<u8>::empty()
                &&& r->Ok_0.intact()
                &&& !r->Ok_0.stalled()
            },
    {
        let code_size = bytes.take_byte()?;
        proof {
            lemma_chain_end_after(bytes.bytes(), bytes.pos() as int);
        }
        if code_size > MAX_CODE_SIZE {
            return Err(ParseError::BadGifFile);
        }
        Ok(GifFrame {
            bytes,
            color_table,
            image_descriptor,
            decoder: lzw_decoder(code_size),
            block_buffer: LilQ::new(0u8),
            color_buffer: LilQ::new(0u16),
            state: DecodeState::NewSubBlock,
            fault: None,
            pixels: Ghost(Seq::empty()),
            data_start: Ghost(bytes.pos() as int),
            payload: Ghost(Seq::empty()),
            intact: Ghost(true),
            stalled: Ghost(false),
        })
    }

    /// The terminating sub-block was seen, or decoding failed.
    pub fn done(&self) -> (r: bool)
        ensures
            r == (self.decode_state() == DecodeState::FrameDone),
    {
        match self.state {
            DecodeState::FrameDone => true,
            _ => false,
        }
    }

    /// The error that ended decoding, if one did.
    pub fn error(&self) -> (r: Option<ParseError>)
        ensures
            r == self.failure(),
    {
        self.fault
    }

    /// The area of the canvas that the frame covers: its origin and its size.
    pub fn frame_area(&self) -> (r: ((i32, i32), (u32, u32)))
        ensures
            r == ((self.descriptor().left as i32, self.descriptor().top as i32), (
                self.descriptor().width as u32,
                self.descriptor().height as u32,
            )),
    {
        self.image_descriptor.bounding_box()
    }

    /// Width and height of the frame.
    pub fn img_size(&self) -> (r: (u32, u32))
        ensures
            r == (self.descriptor().width as u32, self.descriptor().height as u32),
    {
        self.image_descriptor.size()
    }

    /// Top-left corner of the frame on the canvas.
    pub fn origin(&self) -> (r: (i32, i32))
        ensures
            r == (self.descriptor().left as i32, self.descriptor().top as i32),
    {
        self.image_descriptor.origin()
    }

    /// Number of pixels that the descriptor announces.
    pub fn num_pixels(&self) -> (r: usize)
        ensures
            r == self.descriptor().width * self.descriptor().height,
    {
        self.image_descriptor.num_pixels()
    }
}

/// Reads `n` bytes of the source into the front of `buf`.
fn read_into<S: SeekableIter>(bytes: &mut ByteIterator<S>, buf: &mut [u8; 255], n: u8) -> (r: Result<(), ParseError>)
    requires
        old(bytes).wf(),
        n <= 255,
    ensures
        final(bytes).wf(),
        final(bytes).bytes() == old(bytes).bytes(),
        final(bytes).pos() >= old(bytes).pos(),
        r is Ok ==> {
            &&& old(bytes).pos() + n <= old(bytes).bytes().len()
            &&& final(bytes).pos() == old(bytes).pos() + n
            &&& final(buf)@.subrange(0, n as int) == old(bytes).bytes().subrange(
                old(bytes).pos() as int,
                old(bytes).pos() + n,
            )
        },
        r is Err ==> r == Err::<(), ParseError>(ParseError::UnexpectedEof),
        old(bytes).pos() + n <= old(bytes).bytes().len() ==> r is Ok,
{
    let ghost p0 = bytes.pos() as int;
    let mut idx: u8 = 0;
    while idx < n
        invariant
            bytes.wf(),
            bytes.bytes() == old(bytes).bytes(),
            p0 == old(bytes).pos(),
            idx <= n <= 255,
            bytes.pos() == p0 + idx,
            forall|k: int| 0 <= k < idx ==> buf@[k] == bytes.bytes()[p0 + k],
        decreases n - idx,
    {
        let b = bytes.take_byte()?;
        buf[idx as usize] = b;
        idx = idx + 1;
    }
    assert(buf@.subrange(0, n as int) =~= bytes.bytes().subrange(p0, p0 + n));
    Ok(())
}

/// Looks up the first `n` palette indices of `idx` in `table`, into the front of `dst`.
/// Fails, leaving the rest undefined, when an index lies past the end of the table.
fn lookup_colors(table: &ColorTable, idx: &[u8; 256], n: usize, dst: &mut [u16; 512]) -> (ok: bool)
    requires
        n <= 256,
    ensures
        ok == (forall|k: int| 0 <= k < n ==> (#[trigger] idx@[k] as int) < table@.len()),
        ok ==> forall|k: int| 0 <= k < n ==> #[trigger] final(dst)@[k] == table@[idx@[k] as int],
{
    let table_len = table.len();
    let mut k: usize = 0;
    while k < n
        invariant
            k <= n <= 256,
            table_len == table@.len(),
            forall|j: int| 0 <= j < k ==> (#[trigger] idx@[j] as int) < table@.len(),
            forall|j: int| 0 <= j < k ==> #[trigger] dst@[j] == table@[idx@[j] as int],
        decreases n - k,
    {
        let ci = idx[k] as usize;
        if ci >= table_len {
            return false;
        }
        dst[k] = table.get(ci);
        k = k + 1;
    }
    true
}

impl<'header, S: SeekableIter> GifFrame<'header, S> {
    /// Reads the next sub-block length byte and that many bytes into the block buffer. A
    /// length of 0 ends the frame.
    fn fill_block_buffer(&mut self) -> (r: Result<(), ParseError>)
        requires
            old(self).bytes.wf(),
            old(self).block_buffer.wf(),
            chain_data(old(self).bytes.bytes(), old(self).data_start@, old(self).bytes.pos() as int)
                == Some(old(self).payload@),
        ensures
            final(self).bytes.wf(),
            final(self).bytes.bytes() == old(self).bytes.bytes(),
            final(self).block_buffer.wf(),
            final(self).color_table == old(self).color_table,
            final(self).image_descriptor == old(self).image_descriptor,
            final(self).color_buffer == old(self).color_buffer,
            final(self).fault == old(self).fault,
            final(self).pixels == old(self).pixels,
            final(self).decoder == old(self).decoder,
            final(self).data_start == old(self).data_start,
            final(self).intact == old(self).intact,
            ({
                let s = old(self).bytes.bytes();
                let o = old(self).bytes.pos() as int;
                &&& o < s.len() && o + 1 + s[o] <= s.len() ==> r is Ok
                &&& r is Ok ==> final(self).block_buffer.size == s[o] && final(self).bytes.pos()
                    == o + 1 + s[o]
                &&& r is Err ==> r == Err::<(), ParseError>(ParseError::UnexpectedEof)
            }),
            r is Ok ==> {
                &&& final(self).bytes.pos() > old(self).bytes.pos()
                &&& final(self).block_buffer.idx == 0
                &&& final(self).state == if final(self).block_buffer.size == 0 {
                    DecodeState::FrameDone
                } else {
                    DecodeState::NewSubBlock
                }
            },
            r is Ok && final(self).block_buffer.size == 0 ==> chain_end(
                old(self).bytes.bytes(),
                old(self).bytes.pos() as int,
            ) == Ok::<int, ParseError>(final(self).bytes.pos() as int),
            r is Ok && final(self).block_buffer.size > 0 ==> {
                &&& chain_data(
                    final(self).bytes.bytes(),
                    final(self).data_start@,
                    final(self).bytes.pos() as int,
                ) == Some(final(self).payload@)
                &&& final(self).payload@ == old(self).payload@
                    + final(self).block_buffer.buf@.subrange(0, final(self).block_buffer.size as int)
            },
            r is Ok && final(self).block_buffer.size == 0 ==> final(self).payload == old(self).payload,
            r is Err ==> chain_end(old(self).bytes.bytes(), old(self).bytes.pos() as int) is Err,
            r is Err ==> final(self).bytes.pos() > old(self).bytes.pos() || (final(self).bytes.pos()
                == old(self).bytes.pos() && final(self).block_buffer == old(self).block_buffer
                && final(self).state == old(self).state),
    {
        let ghost s = self.bytes.bytes();
        let ghost q = self.bytes.pos() as int;
        let num_bytes = self.bytes.take_byte()?;
        self.block_buffer.reset();
        if num_bytes == 0 {
            self.state = DecodeState::FrameDone;
        } else {
            self.state = DecodeState::NewSubBlock;
            read_into(&mut self.bytes, &mut self.block_buffer.buf, num_bytes)?;
            proof {
                lemma_chain_data_extend(s, self.data_start@, q);
                self.payload@ = self.payload@ + s.subrange(q + 1, q + 1 + num_bytes);
            }
        }
        self.block_buffer.size = num_bytes as usize;
        Ok(())
    }

    /// Refills the empty pixel buffer: reads sub-blocks and runs LZW steps until some pixels
    /// are decoded or the frame is done.
    #[verifier::rlimit(60)]
    fn fill_color_buffer(&mut self)
        requires
            old(self).wf(),
            old(self).color_buffer.idx >= old(self).color_buffer.size,
        ensures
            final(self).wf(),
            final(self).color_table == old(self).color_table,
            final(self).image_descriptor == old(self).image_descriptor,
            final(self).bytes.bytes() == old(self).bytes.bytes(),
            final(self).pixels == old(self).pixels,
            final(self).data_start == old(self).data_start,
            old(self).indices().is_prefix_of(final(self).indices()),
            final(self).color_buffer.idx < final(self).color_buffer.size || final(self).state
                == DecodeState::FrameDone,
            old(self).state != DecodeState::FrameDone ==> final(self).color_buffer.idx == 0
                && final(self).color_buffer.size <= 256,
            ({
                let s = old(self).bytes.bytes();
                let o = old(self).bytes.pos() as int;
                (old(self).state == DecodeState::NewSubBlock || old(self).state
                    == DecodeState::BlockDone) && o < s.len() && s[o] == 0 ==> final(self).state
                    == DecodeState::FrameDone && final(self).fault == old(self).fault
                    && final(self).color_buffer.idx >= final(self).color_buffer.size
            }),
            old(self).state == DecodeState::FrameDone ==> *final(self) == *old(self),
    {
        if self.done() {
            return ;
        }
        self.color_buffer.reset();
        let mut stalls: usize = 0;
        while self.color_buffer.empty() && !self.done()
            invariant
                self.wf(),
                self.color_table == old(self).color_table,
                self.image_descriptor == old(self).image_descriptor,
                self.bytes.bytes() == old(self).bytes.bytes(),
                self.pixels == old(self).pixels,
                self.data_start == old(self).data_start,
                old(self).indices().is_prefix_of(self.indices()),
                stalls <= MAX_STALLS,
                self.color_buffer.idx == 0,
                self.color_buffer.size <= 256,
                ({
                    let s = old(self).bytes.bytes();
                    let o = old(self).bytes.pos() as int;
                    (old(self).state == DecodeState::NewSubBlock || old(self).state
                        == DecodeState::BlockDone) && o < s.len() && s[o] == 0 ==> (self.state
                        == old(self).state && self.bytes.pos() == o && self.fault == old(self).fault
                        && self.color_buffer.idx >= self.color_buffer.size)
                        || (self.state == DecodeState::FrameDone && self.fault == old(self).fault)
                }),
            decreases
                self.bytes.bytes().len() - self.bytes.pos(),
                self.block_buffer.size - self.block_buffer.idx,
                phase(self.state),
                MAX_STALLS - stalls,
                if self.color_buffer.idx >= self.color_buffer.size { 1int } else { 0int },
        {
            if self.state == DecodeState::NewSubBlock || self.state == DecodeState::BlockDone {
                let ghost src = self.bytes.bytes();
                let ghost q = self.bytes.pos() as int;
                let ghost had_live = self.block_buffer.idx < self.block_buffer.size;
                let ghost fed0 = lzw_fed(self.decoder);
                let ghost live0 = self.block_buffer.buf@.subrange(
                    self.block_buffer.idx as int,
                    self.block_buffer.size as int,
                );
                proof {
                    lemma_chain_data_end(src, self.data_start@, q);
                }
                match self.fill_block_buffer() {
                    Ok(()) => {},
                    Err(e) => {
                        self.fault = Some(e);
                        self.state = DecodeState::FrameDone;
                    },
                }
                proof {
                    if had_live {
                        self.intact@ = false;
                    }
                    if self.intact@ && self.state != DecodeState::FrameDone {
                        assert(live0 =~= Seq::<u8>::empty());
                        assert(fed0 + live0 =~= fed0);
                        assert(lzw_fed(self.decoder) + self.block_buffer.buf@.subrange(
                            self.block_buffer.idx as int,
                            self.block_buffer.size as int,
                        ) == self.payload@);
                    }
                    if self.state != DecodeState::FrameDone {
                        lemma_chain_data_end(src, self.data_start@, self.bytes.pos() as int);
                        lemma_chain_end_after(src, self.bytes.pos() as int);
                    }
                }
                stalls = 0;
            }
            if !self.done() {
                let mut out: [u8; 256] = [0u8; 256];
                let ghost live = self.block_buffer.buf@.subrange(
                    self.block_buffer.idx as int,
                    self.block_buffer.size as int,
                );
                let ghost fed1 = lzw_fed(self.decoder);
                let (consumed_in, consumed_out, status) = lzw_step(
                    &mut self.decoder,
                    self.block_buffer.live_slice(),
                    &mut out,
                );
                self.block_buffer.idx = self.block_buffer.idx + consumed_in;
                proof {
                    let rest = self.block_buffer.buf@.subrange(
                        self.block_buffer.idx as int,
                        self.block_buffer.size as int,
                    );
                    assert(live =~= live.subrange(0, consumed_in as int) + rest);
                    assert(fed1 + live.subrange(0, consumed_in as int) + rest =~= fed1 + (live.subrange(
                        0,
                        consumed_in as int,
                    ) + rest));
                }
                let (state, new_stalls, fault) = step_transition(
                    status,
                    consumed_in,
                    consumed_out,
                    stalls,
                );
                self.state = state;
                stalls = new_stalls;
                if fault.is_some() {
                    self.fault = fault;
                    proof {
                        if status == StepStatus::Progress {
                            self.stalled@ = true;
                        }
                    }
                }
                if !self.done() && consumed_out > 0 {
                    if lookup_colors(
                        self.color_table,
                        &out,
                        consumed_out,
                        &mut self.color_buffer.buf,
                    ) {
                        self.color_buffer.size = consumed_out;
                        self.color_buffer.idx = 0;
                        assert(forall|j: int|
                            0 <= j < consumed_out ==> self.indices()[self.pixels@.len() + j] == out@[j]);
                    } else {
                        assert(exists|k: int|
                            0 <= k < consumed_out && (#[trigger] out@[k] as int)
                                >= self.color_table@.len());
                        let ghost k = choose|k: int|
                            0 <= k < consumed_out && (#[trigger] out@[k] as int)
                                >= self.color_table@.len();
                        let ghost w = self.indices().len() - consumed_out + k;
                        assert(lzw_written(self.decoder)[w] == out@[k]);
                        assert(0 <= w < lzw_written(self.decoder).len() && (lzw_written(
                            self.decoder,
                        )[w] as int) >= self.color_table@.len());
                        self.fault = Some(ParseError::BadGifFile);
                        self.state = DecodeState::FrameDone;
                    }
                }
            }
        }
    }

    /// The next pixel of the frame, as RGB565; `None` once the frame is done.
    pub fn next(&mut self) -> (r: Option<u16>)
        requires
            old(self).wf(),
        ensures
            final(self).wf(),
            final(self).table() == old(self).table(),
            final(self).descriptor() == old(self).descriptor(),
            final(self).source() == old(self).source(),
            final(self).data_start() == old(self).data_start(),
            old(self).indices().is_prefix_of(final(self).indices()),
            r is Some ==> {
                &&& final(self).pixels() == old(self).pixels().push(r->Some_0)
                &&& old(self).emitted() < final(self).indices().len()
                &&& r->Some_0 == final(self).table()[final(self).indices()[old(
                    self,
                ).emitted() as int] as int]
            },
            r is None ==> final(self).pixels() == old(self).pixels() && final(self).finished(),
            r is None ==> final(self).decode_state() == DecodeState::FrameDone,
            ({
                let s = old(self).source();
                let o = old(self).position() as int;
                (old(self).decode_state() == DecodeState::NewSubBlock || old(self).decode_state()
                    == DecodeState::BlockDone) && old(self).emitted() == old(self).indices().len()
                    && o < s.len() && s[o] == 0 ==> r is None && final(self).failure()
                    == old(self).failure()
            }),
            old(self).finished() ==> r is None && *final(self) == *old(self),
    {
        if self.color_buffer.empty() {
            self.fill_color_buffer();
        }
        let r = self.color_buffer.next();
        match r {
            Some(c) => {
                self.pixels = Ghost(self.pixels@.push(c));
            },
            None => {},
        }
        r
    }
}

/// The slot of the offset list that a seek from frame index `i` uses: `i` itself, or 0 once
/// the list is exhausted.
pub open spec fn next_slot(i: nat, n: nat) -> nat {
    if i < n {
        i
    } else {
        0
    }
}

/// Setting up the frame whose descriptor is at `o`: the descriptor and the offset after it.
pub open spec fn frame_setup(s: Seq<u8>, o: int) -> Result<(DescriptorModel, int), ParseError> {
    if o > s.len() {
        Err(ParseError::UnexpectedEof)
    } else {
        descriptor_spec(s, o)
    }
}

/// The color table that a frame uses: its local table, else the global one.
pub open spec fn active_table(d: DescriptorModel, m: GifModel) -> Option<Seq<u16>> {
    match d.local {
        Some(t) => Some(t),
        None => match m.global {
            Some(g) => Some(g.table),
            None => None,
        },
    }
}

/// Frame iteration over an indexed GIF source held in memory.
pub struct GifFrameStreamer<S: SeekableIter> {
    pub(crate) header_info: GifInfo,
    frame_offset: usize,
    local_image_descriptor: Option<LocalImageDescriptor>,
    bytes: ByteIterator<S>,
}

impl<'src> GifFrameStreamer<SeekableSliceIter<'src>> {
    /// Indexes `slice` and prepares to stream its frames from the first.
    pub fn from_slice(slice: &'src [u8]) -> (r: Result<GifFrameStreamer<SeekableSliceIter<'src>>, ParseError>)
        requires
            source_fits(slice@),
        ensures
            match scan_spec(slice@, 0) {
                Ok(m) => {
                    &&& r is Ok
                    &&& r->Ok_0.wf()
                    &&& r->Ok_0.info() == m
                    &&& r->Ok_0.source() == slice@
                    &&& r->Ok_0.position() == 0
                    &&& r->Ok_0.frame_index() == 0
                    &&& r->Ok_0.current() is None
                },
                Err(e) => r == Err::<GifFrameStreamer<SeekableSliceIter<'src>>, ParseError>(e),
            },
    {
        let mut bytes = ByteIterator::from_slice(slice);
        let header_info = GifInfo::parser(&mut bytes)?;
        bytes.seek_to(0)?;
        Ok(GifFrameStreamer { bytes, frame_offset: 0, local_image_descriptor: None, header_info })
    }
}

impl<S: SeekableIter> GifFrameStreamer<S> {
    /// The structural index of the source.
    pub closed spec fn info(&self) -> GifModel {
        self.header_info@
    }

    /// Number of frames set up so far, modulo wrapping: the next seek uses this slot.
    pub closed spec fn frame_index(&self) -> nat {
        self.frame_offset as nat
    }

    /// The descriptor of the frame most recently set up.
    pub closed spec fn current(&self) -> Option<DescriptorModel> {
        match self.local_image_descriptor {
            Some(d) => Some(d@),
            None => None,
        }
    }

    /// The bytes of the source.
    pub closed spec fn source(&self) -> Seq<u8> {
        self.bytes.bytes()
    }

    /// Offset of the streamer's own cursor.
    pub closed spec fn position(&self) -> nat {
        self.bytes.pos()
    }

    pub closed spec fn wf(&self) -> bool {
        self.bytes.wf()
    }

    /// The index is the scan of the source.
    pub open spec fn indexed(&self) -> bool {
        scan_spec(self.source(), 0) == Ok::<GifModel, ParseError>(self.info())
    }

    /// A streamer over `bytes` with the index `header_info`, from the first frame.
    pub fn new(header_info: GifInfo, bytes: ByteIterator<S>) -> (r: Self)
        requires
            bytes.wf(),
        ensures
            r.wf(),
            r.info() == header_info@,
            r.source() == bytes.bytes(),
            r.position() == bytes.pos(),
            r.frame_index() == 0,
            r.current() is None,
    {
        GifFrameStreamer { bytes, frame_offset: 0, local_image_descriptor: None, header_info }
    }

    /// Number of frames.
    pub fn num_images(&self) -> (r: usize)
        ensures
            r == self.info().offsets.len(),
    {
        self.header_info.num_images()
    }

    /// Time to wait before the next frame, in milliseconds.
    pub fn delay_ms(&self) -> (r: usize)
        ensures
            r == delay_of(self.info()),
    {
        self.header_info.delay_time()
    }

    /// Canvas width and height.
    pub fn base_size(&self) -> (r: (u32, u32))
        ensures
            r == (self.info().width as u32, self.info().height as u32),
    {
        self.header_info.base_size()
    }

    /// Rewinds to the first frame and the start of the source.
    pub fn reset(&mut self) -> (r: Result<(), ParseError>)
        requires
            old(self).wf(),
        ensures
            r is Ok,
            final(self).wf(),
            final(self).frame_index() == 0,
            final(self).position() == 0,
            final(self).info() == old(self).info(),
            final(self).source() == old(self).source(),
            final(self).current() == old(self).current(),
    {
        self.bytes.seek_to(0)?;
        self.frame_offset = 0;
        Ok(())
    }

    /// Sets up the next frame: seeks to its descriptor and parses it. After the last frame it
    /// wraps to the first; it fails with `BadGifFile` only when the source has no frame.
    pub fn seek_to_next_frame(&mut self) -> (r: Result<(), ParseError>)
        requires
            old(self).wf(),
        ensures
            final(self).wf(),
            final(self).info() == old(self).info(),
            final(self).source() == old(self).source(),
            old(self).info().offsets.len() == 0 ==> r == Err::<(), ParseError>(
                ParseError::BadGifFile,
            ),
            old(self).indexed() && old(self).info().offsets.len() > 0 ==> r is Ok,
            old(self).info().offsets.len() > 0 ==> {
                let k = next_slot(old(self).frame_index(), old(self).info().offsets.len());
                &&& final(self).frame_index() == k + 1
                &&& match frame_setup(old(self).source(), old(self).info().offsets[k as int] as int) {
                    Ok((d, e)) => r is Ok && final(self).current() == Some(d)
                        && final(self).position() == e,
                    Err(e) => r == Err::<(), ParseError>(e),
                }
            },
    {
        let n = self.header_info.num_images();
        if self.frame_offset >= n {
            self.frame_offset = 0;
            if n == 0 {
                return Err(ParseError::BadGifFile);
            }
        }
        let offset = self.header_info.image_offset(self.frame_offset);
        proof {
            if self.indexed() {
                lemma_scan_offsets(self.source(), 0);
                assert(image_at(self.source(), offset as int));
            }
        }
        self.frame_offset = self.frame_offset + 1;
        self.bytes.seek_to(offset)?;
        self.local_image_descriptor = Some(LocalImageDescriptor::parser(&mut self.bytes)?);
        Ok(())
    }

    /// A decoder for the frame most recently set up, with its local color table if it has
    /// one, else the global one.
    pub fn current_frame(&self) -> (r: Result<GifFrame<'_, S>, ParseError>)
        requires
            self.wf(),
        ensures
            self.current() is None ==> r == Err::<GifFrame<'_, S>, ParseError>(
                ParseError::NoImagesLeft,
            ),
            self.current() is Some ==> frame_result(
                r,
                self.current()->Some_0,
                active_table(self.current()->Some_0, self.info()),
                self.source(),
                self.position(),
            ),
    {
        let descriptor = match &self.local_image_descriptor {
            Some(d) => d,
            None => {
                return Err(ParseError::NoImagesLeft);
            },
        };
        let color_table = match descriptor.color_table() {
            Some(t) => t,
            None => match self.header_info.global_table() {
                Some(t) => t,
                None => {
                    return Err(ParseError::BadGifFile);
                },
            },
        };
        GifFrame::new(self.bytes.clone_position(), color_table, descriptor)
    }

    /// Sets up the next frame and returns its decoder.
    pub fn next_frame(&mut self) -> (r: Result<GifFrame<'_, S>, ParseError>)
        requires
            old(self).wf(),
        ensures
            final(self).wf(),
            final(self).info() == old(self).info(),
            final(self).source() == old(self).source(),
            old(self).info().offsets.len() == 0 ==> r == Err::<GifFrame<'_, S>, ParseError>(
                ParseError::BadGifFile,
            ),
            old(self).info().offsets.len() > 0 ==> {
                let k = next_slot(old(self).frame_index(), old(self).info().offsets.len());
                &&& final(self).frame_index() == k + 1
                &&& match frame_setup(old(self).source(), old(self).info().offsets[k as int] as int) {
                    Ok((d, e)) => {
                        &&& final(self).current() == Some(d)
                        &&& final(self).position() == e
                        &&& frame_result(
                            r,
                            d,
                            active_table(d, old(self).info()),
                            old(self).source(),
                            e as nat,
                        )
                    },
                    Err(e) => r == Err::<GifFrame<'_, S>, ParseError>(e),
                }
            },
    {
        self.seek_to_next_frame()?;
        self.current_frame()
    }
}

/// What setting up a decoder for the frame `d`, whose image data starts at `pos` of `s`, with
/// the color table `table`, gives.
pub open spec fn frame_result<'h, S: SeekableIter>(
    r: Result<GifFrame<'h, S>, ParseError>,
    d: DescriptorModel,
    table: Option<Seq<u16>>,
    s: Seq<u8>,
    pos: nat,
) -> bool {
    if table is None {
        r == Err::<GifFrame<'h, S>, ParseError>(ParseError::BadGifFile)
    } else if pos >= s.len() {
        r == Err::<GifFrame<'h, S>, ParseError>(ParseError::UnexpectedEof)
    } else if s[pos as int] > MAX_CODE_SIZE {
        r == Err::<GifFrame<'h, S>, ParseError>(ParseError::BadGifFile)
    } else {
        &&& r is Ok
        &&& r->Ok_0.wf()
        &&& r->Ok_0.table() == table->Some_0
        &&& r->Ok_0.descriptor() == d
        &&& r->Ok_0.source() == s
        &&& r->Ok_0.position() == pos + 1
        &&& r->Ok_0.decode_state() == DecodeState::NewSubBlock
        &&& r->Ok_0.indices() == Seq::<u8>::empty()
        &&& r->Ok_0.emitted() == 0
        &&& r->Ok_0.failure() is None
        &&& r->Ok_0.data_start() == pos + 1
        &&& r->Ok_0.payload() == Seq::<u8>::empty()
        &&& r->Ok_0.code_size() == s[pos as int]
        &&& r->Ok_0.fed() == Seq::<u8>::empty()
        &&& r->Ok_0.intact()
        &&& !r->Ok_0.stalled()
    }
}

/// The frame index after `j` seeks from the first frame, over `n` frames.
pub open spec fn index_after(n: nat, j: nat) -> nat
    decreases j,
{
    if j == 0 {
        0
    } else {
        next_slot(index_after(n, (j - 1) as nat), n) + 1
    }
}

/// From the first frame (after `from_slice`, `new` or `reset`), seek number `j`, counted from
/// 0, sets up frame `j mod n`: frames come in order, and after the last one the next seek
/// sets up the first again without a reset.
pub proof fn lemma_frames_cycle(n: nat, j: nat)
    requires
        n > 0,
    ensures
        next_slot(index_after(n, j), n) == j % n,
        index_after(n, j) == if j == 0 {
            0
        } else {
            ((j - 1) % (n as int) + 1) as nat
        },
    decreases j,
{
    if j > 0 {
        lemma_frames_cycle(n, (j - 1) as nat);
        let a = (j - 1) % (n as int);
        lemma_mod_pos_bound((j - 1) as int, n as int);
        lemma_add_mod_noop((j - 1) as int, 1, n as int);
        if n == 1 {
            lemma_mod_self_0(1);
        } else {
            lemma_small_mod(1, n);
            if a + 1 < n {
                lemma_small_mod((a + 1) as nat, n);
            } else {
                lemma_mod_self_0(n as int);
            }
        }
    }
}

/// Every pixel that a frame has handed out is the entry of its color table at the palette
/// index that the LZW decoder wrote at the same place: pixel `k` is `table[indices[k]]`. Those
/// indices are the start of what the bytes handed to the decoder decode to, so pixel `k` is
/// `table[ix[k]]` where `ix` is that decoding.
pub proof fn lemma_pixels_from_palette<S: SeekableIter>(f: &GifFrame<S>)
    requires
        f.wf(),
    ensures
        f.pixels().len() <= f.indices().len(),
        forall|k: int|
            0 <= k < f.pixels().len() ==> (f.indices()[k] as int) < f.table().len()
                && #[trigger] f.pixels()[k] == f.table()[f.indices()[k] as int],
        lzw_decode(f.code_size(), f.fed()) is Some ==> {
            let ix = lzw_decode(f.code_size(), f.fed())->Some_0;
            forall|k: int|
                0 <= k < f.pixels().len() ==> #[trigger] f.pixels()[k] == f.table()[ix[k] as int]
        },
{
}

/// A frame decoder never reads past the end of its image data: when the chain of sub-blocks
/// from its first length byte is well-formed, the cursor stays at or before the byte that
/// follows the terminator, and stands exactly there once the frame ended without an error.
pub proof fn lemma_no_over_read<S: SeekableIter>(f: &GifFrame<S>)
    requires
        f.wf(),
    ensures
        chain_end(f.source(), f.data_start()) is Ok ==> f.position() <= chain_end(
            f.source(),
            f.data_start(),
        )->Ok_0,
        f.decode_state() == DecodeState::FrameDone && f.failure() is None ==> chain_end(
            f.source(),
            f.data_start(),
        ) == Ok::<int, ParseError>(f.position() as int),
        f.failure() == Some(ParseError::UnexpectedEof) ==> chain_end(
            f.source(),
            f.data_start(),
        ) is Err,
{
}

/// Until a frame is done, its decoder has read whole sub-blocks from the first length byte up
/// to the cursor, with no terminator among them, and their payload, in order, is all that it
/// has gathered for the LZW decoder. While no payload byte was passed over, the bytes that the
/// LZW decoder consumed are the start of that payload.
pub proof fn lemma_reassembly<S: SeekableIter>(f: &GifFrame<S>)
    requires
        f.wf(),
        f.decode_state() != DecodeState::FrameDone,
    ensures
        chain_data(f.source(), f.data_start(), f.position() as int) == Some(f.payload()),
        f.intact() ==> f.fed().is_prefix_of(f.payload()),
{
    if f.intact() {
        let live = f.block_buffer.buf@.subrange(
            f.block_buffer.idx as int,
            f.block_buffer.size as int,
        );
        assert(f.fed() =~= (f.fed() + live).subrange(0, f.fed().len() as int));
    }
}

/// A frame that ended without an error has handed out one pixel for each index that its LZW
/// decoder wrote, each looked up in its color table. So once the decoder has written all that
/// the bytes handed to it decode to, the frame's pixels are exactly that decoding, looked up.
pub proof fn lemma_frame_complete<S: SeekableIter>(f: &GifFrame<S>)
    requires
        f.wf(),
        f.finished(),
        f.failure() is None,
    ensures
        f.pixels().len() == f.indices().len(),
        forall|k: int|
            0 <= k < f.pixels().len() ==> #[trigger] f.pixels()[k] == f.table()[f.indices()[k] as int],
        lzw_decode(f.code_size(), f.fed()) == Some(f.indices()) ==> f.pixels() == f.indices().map_values(
            |i: u8| f.table()[i as int],
        ),
{
    if lzw_decode(f.code_size(), f.fed()) == Some(f.indices()) {
        assert(f.pixels() =~= f.indices().map_values(|i: u8| f.table()[i as int]));
    }
}

/// A frame fails only for a reason that its input or its decoder shows: `UnexpectedEof` when
/// the chain of sub-blocks is broken; `BadGifFile` when the bytes handed to the LZW decoder
/// hold an invalid code, when an index it wrote lies past the color table, or when it made
/// `MAX_STALLS` steps in a row that neither read nor wrote. Until the frame is done, it has not
/// failed.
pub proof fn lemma_failure_causes<S: SeekableIter>(f: &GifFrame<S>)
    requires
        f.wf(),
    ensures
        f.decode_state() != DecodeState::FrameDone ==> f.failure() is None,
        f.failure() is None || f.failure() == Some(ParseError::UnexpectedEof) || f.failure()
            == Some(ParseError::BadGifFile),
        f.failure() == Some(ParseError::UnexpectedEof) ==> chain_end(
            f.source(),
            f.data_start(),
        ) is Err,
        f.failure() == Some(ParseError::BadGifFile) ==> {
            ||| lzw_decode(f.code_size(), f.fed()) is None
            ||| exists|k: int|
                0 <= k < f.indices().len() && (#[trigger] f.indices()[k] as int) >= f.table().len()
            ||| f.stalled()
        },
{
}

} // verus!
