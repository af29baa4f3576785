use vstd::prelude::*;

use crate::collections::{
    color_items, colors_get, colors_len, colors_new, colors_push, offset_items, offsets_get,
    offsets_len, offsets_new, offsets_push, ColorList, OffsetList,
};
use crate::common::{
    extension_of, Block, ExtensionLabel, ParseError, EXTENSION_LABEL, GRAPHICS_LABEL,
    IMAGE_LABEL, TRAILER_LABEL,
};
use crate::iterators::{u16_le, ByteIterator, SeekableIter};

verus! {

// ---------------------------------------------------------------------------------------------
// The container grammar, over the bytes `s` of a source.
// ---------------------------------------------------------------------------------------------

/// The RGB565 packing of an 8-bit-per-channel color: the top 5 bits of red, the top 6 bits of
/// green and the top 5 bits of blue.
pub open spec fn rgb565(r: u8, g: u8, b: u8) -> u16 {
    ((r >> 3u8) as u16) << 11u16 | ((g >> 2u8) as u16) << 5u16 | ((b >> 3u8) as u16)
}

/// A packed descriptor field announces a color table.
pub open spec fn has_table(packed: u8) -> bool {
    packed & 0x80u8 == 0x80u8
}

/// Number of entries of the color table that a packed descriptor field announces.
pub open spec fn table_entries(packed: u8) -> nat {
    (1u16 << (((packed & 7u8) + 1u8) as u16)) as nat
}

/// The color table of `n` RGB triplets that starts at offset `p`.
pub open spec fn table_at(s: Seq<u8>, p: int, n: nat) -> Seq<u16> {
    Seq::new(n, |i: int| rgb565(s[p + 3 * i], s[p + 3 * i + 1], s[p + 3 * i + 2]))
}

/// The six bytes at `b` read `GIF87a` or `GIF89a`.
pub open spec fn magic_ok(s: Seq<u8>, b: int) -> bool {
    &&& s[b] == 0x47u8
    &&& s[b + 1] == 0x49u8
    &&& s[b + 2] == 0x46u8
    &&& s[b + 3] == 0x38u8
    &&& (s[b + 4] == 0x37u8 || s[b + 4] == 0x39u8)
    &&& s[b + 5] == 0x61u8
}

/// What a global color table holds.
pub struct GlobalModel {
    pub background_color: u8,
    pub bits_per_pixel: u8,
    pub table: Seq<u16>,
}

/// What a header holds.
pub struct HeaderModel {
    pub width: u16,
    pub height: u16,
    pub global: Option<GlobalModel>,
}

/// What a local image descriptor holds.
pub struct DescriptorModel {
    pub left: u16,
    pub top: u16,
    pub width: u16,
    pub height: u16,
    pub interlaced: bool,
    pub local: Option<Seq<u16>>,
}

/// What a scanned source holds.
pub struct GifModel {
    pub width: u16,
    pub height: u16,
    pub global: Option<GlobalModel>,
    pub control: Option<GraphicsControl>,
    /// Offset of each image descriptor, just after its `0x2C` label.
    pub offsets: Seq<usize>,
}

/// The header that starts at `b`: magic, canvas size, packed field, background color index,
/// pixel aspect ratio and the global color table if one is announced; with the offset that
/// follows it.
pub open spec fn header_spec(s: Seq<u8>, b: int) -> Result<(HeaderModel, int), ParseError> {
    if b + 6 > s.len() {
        Err(ParseError::UnexpectedEof)
    } else if !magic_ok(s, b) {
        Err(ParseError::BadGifFile)
    } else if b + 13 > s.len() {
        Err(ParseError::UnexpectedEof)
    } else {
        let d = s[b + 10];
        let width = u16_le(s, b + 6);
        let height = u16_le(s, b + 8);
        if has_table(d) {
            let n = table_entries(d);
            if b + 13 + 3 * n > s.len() {
                Err(ParseError::UnexpectedEof)
            } else {
                let g = GlobalModel {
                    background_color: s[b + 11],
                    bits_per_pixel: (((d & 0x70u8) >> 4u8) + 1u8) as u8,
                    table: table_at(s, b + 13, n),
                };
                Ok((HeaderModel { width, height, global: Some(g) }, b + 13 + 3 * n))
            }
        } else {
            Ok((HeaderModel { width, height, global: None }, b + 13))
        }
    }
}

/// The local image descriptor that starts at `q`, with the offset that follows it and its
/// local color table.
pub open spec fn descriptor_spec(s: Seq<u8>, q: int) -> Result<(DescriptorModel, int), ParseError> {
    if q + 9 > s.len() {
        Err(ParseError::UnexpectedEof)
    } else {
        let p = s[q + 8];
        let d = DescriptorModel {
            left: u16_le(s, q),
            top: u16_le(s, q + 2),
            width: u16_le(s, q + 4),
            height: u16_le(s, q + 6),
            interlaced: p & 0x40u8 == 0x40u8,
            local: None,
        };
        if has_table(p) {
            let n = table_entries(p);
            if q + 9 + 3 * n > s.len() {
                Err(ParseError::UnexpectedEof)
            } else {
                Ok((DescriptorModel { local: Some(table_at(s, q + 9, n)), ..d }, q + 9 + 3 * n))
            }
        } else {
            Ok((d, q + 9))
        }
    }
}

/// The end of the chain of sub-blocks whose first length byte is at `p`: each sub-block is a
/// length byte `L` and `L` bytes; a length of 0 ends the chain.
pub open spec fn chain_end(s: Seq<u8>, p: int) -> Result<int, ParseError>
    decreases s.len() - p,
{
    if p < 0 || p >= s.len() {
        Err(ParseError::UnexpectedEof)
    } else if s[p] == 0 {
        Ok(p + 1)
    } else if p + 1 + s[p] > s.len() {
        Err(ParseError::UnexpectedEof)
    } else {
        chain_end(s, p + 1 + s[p])
    }
}

/// The payload of the sub-blocks from the length byte at `p` up to the length byte at `q`,
/// when `q` follows `p` on the chain with no terminator between them.
pub open spec fn chain_data(s: Seq<u8>, p: int, q: int) -> Option<Seq<u8>>
    decreases s.len() - p,
{
    if p == q {
        Some(Seq::empty())
    } else if p < 0 || p >= s.len() || p > q || s[p] == 0 || p + 1 + s[p] > s.len() {
        None
    } else {
        match chain_data(s, p + 1 + s[p], q) {
            Some(rest) => Some(s.subrange(p + 1, p + 1 + s[p]) + rest),
            None => None,
        }
    }
}

/// Reading one more non-terminating sub-block extends the payload by its bytes.
pub proof fn lemma_chain_data_extend(s: Seq<u8>, p: int, q: int)
    requires
        chain_data(s, p, q) is Some,
        0 <= q < s.len(),
        s[q] != 0,
        q + 1 + s[q] <= s.len(),
    ensures
        chain_data(s, p, q + 1 + s[q]) == Some(
            chain_data(s, p, q)->Some_0 + s.subrange(q + 1, q + 1 + s[q]),
        ),
    decreases s.len() - p,
{
    let q2 = q + 1 + s[q];
    let sub = s.subrange(q + 1, q2);
    if p == q {
        assert(chain_data(s, q2, q2) == Some(Seq::<u8>::empty()));
        assert(sub + Seq::<u8>::empty() =~= Seq::<u8>::empty() + sub);
    } else {
        let p2 = p + 1 + s[p];
        lemma_chain_data_extend(s, p2, q);
        let head = s.subrange(p + 1, p2);
        let rest = chain_data(s, p2, q)->Some_0;
        assert(head + (rest + sub) =~= (head + rest) + sub);
    }
}

/// A sub-block on the chain leads to the same end as the start of the chain.
pub proof fn lemma_chain_data_end(s: Seq<u8>, p: int, q: int)
    requires
        chain_data(s, p, q) is Some,
    ensures
        chain_end(s, p) == chain_end(s, q),
    decreases s.len() - p,
{
    if p != q {
        lemma_chain_data_end(s, p + 1 + s[p], q);
    }
}

/// The end of image data at `t`: the LZW minimum code size byte, then a chain of sub-blocks.
pub open spec fn image_data_end(s: Seq<u8>, t: int) -> Result<int, ParseError> {
    if t < 0 || t >= s.len() {
        Err(ParseError::UnexpectedEof)
    } else {
        chain_end(s, t + 1)
    }
}

/// The graphics control extension whose block size byte is at `q`.
pub open spec fn control_at(s: Seq<u8>, q: int) -> GraphicsControl {
    GraphicsControl {
        ctrl: s[q + 1],
        transparent_idx: s[q + 4],
        delay_time: (u16_le(s, q + 2) as u32 * 10) as u32,
    }
}

/// Number of bytes of a graphics control extension after its label.
pub const CONTROL_LEN: usize = 6;

pub proof fn lemma_chain_end_after(s: Seq<u8>, p: int)
    ensures
        chain_end(s, p) is Ok ==> chain_end(s, p)->Ok_0 > p && chain_end(s, p)->Ok_0 <= s.len(),
    decreases s.len() - p,
{
    if 0 <= p < s.len() && s[p] != 0 && p + 1 + s[p] <= s.len() {
        lemma_chain_end_after(s, p + 1 + s[p]);
    }
}

/// The blocks from `p` on, up to and including the trailer: the offsets of the images and the
/// last graphics control extension, appended to `offs` and replacing `gc`.
pub open spec fn scan_blocks(
    s: Seq<u8>,
    p: int,
    offs: Seq<usize>,
    gc: Option<GraphicsControl>,
) -> Result<(Seq<usize>, Option<GraphicsControl>), ParseError>
    decreases s.len() - p,
{
    if p < 0 || p >= s.len() {
        Err(ParseError::UnexpectedEof)
    } else if s[p] == IMAGE_LABEL {
        match descriptor_spec(s, p + 1) {
            Err(e) => Err(e),
            Ok((_, t)) => match image_data_end(s, t) {
                Err(e) => Err(e),
                Ok(e) => {
                    proof {
                        lemma_chain_end_after(s, t + 1);
                    }
                    scan_blocks(s, e, offs.push((p + 1) as usize), gc)
                },
            },
        }
    } else if s[p] == EXTENSION_LABEL {
        if p + 1 >= s.len() {
            Err(ParseError::UnexpectedEof)
        } else if s[p + 1] == GRAPHICS_LABEL {
            if p + 2 + CONTROL_LEN > s.len() {
                Err(ParseError::UnexpectedEof)
            } else {
                scan_blocks(s, p + 2 + CONTROL_LEN, offs, Some(control_at(s, p + 2)))
            }
        } else if extension_of(s[p + 1]) is Some {
            match chain_end(s, p + 2) {
                Err(e) => Err(e),
                Ok(e) => {
                    proof {
                        lemma_chain_end_after(s, p + 2);
                    }
                    scan_blocks(s, e, offs, gc)
                },
            }
        } else {
            Err(ParseError::IncorrectExtension)
        }
    } else if s[p] == TRAILER_LABEL {
        Ok((offs, gc))
    } else {
        Err(ParseError::IncorrectBlockLabel)
    }
}

/// The source whose header starts at `b`, scanned up to its trailer.
pub open spec fn scan_spec(s: Seq<u8>, b: int) -> Result<GifModel, ParseError> {
    match header_spec(s, b) {
        Err(e) => Err(e),
        Ok((h, p)) => match scan_blocks(s, p, Seq::empty(), None) {
            Err(e) => Err(e),
            Ok((offsets, control)) => Ok(
                GifModel { width: h.width, height: h.height, global: h.global, control, offsets },
            ),
        },
    }
}

/// A well-formed descriptor at `o`, just after an image label, followed by well-formed image
/// data.
pub open spec fn image_at(s: Seq<u8>, o: int) -> bool {
    &&& 1 <= o <= s.len()
    &&& s[o - 1] == IMAGE_LABEL
    &&& descriptor_spec(s, o) is Ok
    &&& image_data_end(s, descriptor_spec(s, o)->Ok_0.1) is Ok
}

/// Offsets that each point at an image, in strictly increasing order, none past `p`.
pub open spec fn images_before(s: Seq<u8>, offs: Seq<usize>, p: int) -> bool {
    &&& forall|i: int| 0 <= i < offs.len() ==> image_at(s, #[trigger] offs[i] as int)
    &&& forall|i: int| 0 <= i < offs.len() ==> #[trigger] offs[i] <= p
    &&& forall|i: int, j: int| 0 <= i < j < offs.len() ==> #[trigger] offs[i] < #[trigger] offs[j]
}

proof fn lemma_scan_blocks_images(
    s: Seq<u8>,
    p: int,
    offs: Seq<usize>,
    gc: Option<GraphicsControl>,
)
    requires
        s.len() <= usize::MAX,
        scan_blocks(s, p, offs, gc) is Ok,
        images_before(s, offs, p),
    ensures
        images_before(s, scan_blocks(s, p, offs, gc)->Ok_0.0, s.len() as int),
    decreases s.len() - p,
{
    if s[p] == IMAGE_LABEL {
        let t = descriptor_spec(s, p + 1)->Ok_0.1;
        let e = image_data_end(s, t)->Ok_0;
        lemma_chain_end_after(s, t + 1);
        let offs2 = offs.push((p + 1) as usize);
        assert(image_at(s, p + 1));
        assert(images_before(s, offs2, e)) by {
            assert forall|i: int| 0 <= i < offs2.len() implies image_at(s, #[trigger] offs2[i] as int) by {
                if i < offs.len() {
                    assert(offs2[i] == offs[i]);
                }
            }
        }
        lemma_scan_blocks_images(s, e, offs2, gc);
    } else if s[p] == EXTENSION_LABEL {
        if s[p + 1] == GRAPHICS_LABEL {
            lemma_scan_blocks_images(s, p + 2 + CONTROL_LEN, offs, Some(control_at(s, p + 2)));
        } else {
            lemma_chain_end_after(s, p + 2);
            lemma_scan_blocks_images(s, chain_end(s, p + 2)->Ok_0, offs, gc);
        }
    } else {
        assert(s[p] == TRAILER_LABEL);
    }
}

/// Every offset that a successful scan records is that of an image: it follows an image
/// label, and a well-formed descriptor and well-formed image data start there. The offsets
/// increase strictly.
pub proof fn lemma_scan_offsets(s: Seq<u8>, b: int)
    requires
        s.len() <= usize::MAX,
        scan_spec(s, b) is Ok,
    ensures
        images_before(s, scan_spec(s, b)->Ok_0.offsets, s.len() as int),
{
    let p = header_spec(s, b)->Ok_0.1;
    lemma_scan_blocks_images(s, p, Seq::empty(), None);
}

/// The walk over the blocks from `p` meets an image label before it stops.
pub open spec fn walk_meets_image(s: Seq<u8>, p: int) -> bool
    decreases s.len() - p,
{
    if p < 0 || p >= s.len() {
        false
    } else if s[p] == IMAGE_LABEL {
        true
    } else if s[p] == EXTENSION_LABEL && p + 1 < s.len() {
        if s[p + 1] == GRAPHICS_LABEL {
            p + 2 + CONTROL_LEN <= s.len() && walk_meets_image(s, p + 2 + CONTROL_LEN)
        } else if extension_of(s[p + 1]) is Some {
            match chain_end(s, p + 2) {
                Err(_) => false,
                Ok(e) => {
                    proof {
                        lemma_chain_end_after(s, p + 2);
                    }
                    walk_meets_image(s, e)
                },
            }
        } else {
            false
        }
    } else {
        false
    }
}

proof fn lemma_scan_blocks_count(s: Seq<u8>, p: int, offs: Seq<usize>, gc: Option<GraphicsControl>)
    requires
        scan_blocks(s, p, offs, gc) is Ok,
    ensures
        scan_blocks(s, p, offs, gc)->Ok_0.0.len() >= offs.len(),
        scan_blocks(s, p, offs, gc)->Ok_0.0.len() > offs.len() <==> walk_meets_image(s, p),
    decreases s.len() - p,
{
    if s[p] == IMAGE_LABEL {
        let t = descriptor_spec(s, p + 1)->Ok_0.1;
        let e = image_data_end(s, t)->Ok_0;
        lemma_chain_end_after(s, t + 1);
        lemma_scan_blocks_count(s, e, offs.push((p + 1) as usize), gc);
    } else if s[p] == EXTENSION_LABEL {
        if s[p + 1] == GRAPHICS_LABEL {
            lemma_scan_blocks_count(s, p + 2 + CONTROL_LEN, offs, Some(control_at(s, p + 2)));
        } else {
            lemma_chain_end_after(s, p + 2);
            lemma_scan_blocks_count(s, chain_end(s, p + 2)->Ok_0, offs, gc);
        }
    }
}

/// A successful scan records an image offset exactly when the walk over the blocks, from
/// the end of the header to the trailer, meets an image label.
pub proof fn lemma_scan_finds_images(s: Seq<u8>, b: int)
    requires
        scan_spec(s, b) is Ok,
    ensures
        scan_spec(s, b)->Ok_0.offsets.len() > 0 <==> walk_meets_image(
            s,
            header_spec(s, b)->Ok_0.1,
        ),
{
    lemma_scan_blocks_count(s, header_spec(s, b)->Ok_0.1, Seq::empty(), None);
}

/// A source small enough that the list of its image offsets can always grow.
pub open spec fn source_fits(s: Seq<u8>) -> bool {
    s.len() < isize::MAX / 16
}

// ---------------------------------------------------------------------------------------------
// Records and their parsers.
// ---------------------------------------------------------------------------------------------

/// A palette of RGB565 colors, at most 256 entries.
pub struct ColorTable {
    pub(crate) table: ColorList,
}

impl View for ColorTable {
    type V = Seq<u16>;

    closed spec fn view(&self) -> Seq<u16> {
        color_items(self.table)
    }
}

impl Default for ColorTable {
    fn default() -> (r: Self)
        ensures
            r@ == Seq::<u16>::empty(),
    {
        ColorTable { table: colors_new() }
    }
}

/// The RGB565 packing of one RGB triplet.
pub fn rgb565_from_rgb888(r: u8, g: u8, b: u8) -> (c: u16)
    ensures
        c == rgb565(r, g, b),
{
    ((r >> 3u8) as u16) << 11u16 | ((g >> 2u8) as u16) << 5u16 | ((b >> 3u8) as u16)
}

impl ColorTable {
    /// Reads `len` RGB triplets and packs each as RGB565.
    pub fn new<S: SeekableIter>(len: u16, iter: &mut ByteIterator<S>) -> (r: Result<Self, ParseError>)
        requires
            old(iter).wf(),
        ensures
            final(iter).wf(),
            final(iter).bytes() == old(iter).bytes(),
            old(iter).pos() + 3 * len <= old(iter).bytes().len() ==> {
                &&& r is Ok
                &&& r->Ok_0@ == table_at(old(iter).bytes(), old(iter).pos() as int, len as nat)
                &&& final(iter).pos() == old(iter).pos() + 3 * len
            },
            old(iter).pos() + 3 * len > old(iter).bytes().len() ==> r
                == Err::<ColorTable, ParseError>(ParseError::UnexpectedEof),
    {
        let ghost s = iter.bytes();
        let ghost p0 = iter.pos() as int;
        let mut table = colors_new();
        let mut idx: u16 = 0;
        while idx < len
            invariant
                iter.wf(),
                iter.bytes() == s,
                s == old(iter).bytes(),
                p0 == old(iter).pos(),
                idx <= len,
                iter.pos() == p0 + 3 * idx,
                color_items(table) =~= table_at(s, p0, idx as nat),
            decreases len - idx,
        {
            let r = iter.take_byte()?;
            let g = iter.take_byte()?;
            let b = iter.take_byte()?;
            colors_push(&mut table, rgb565_from_rgb888(r, g, b));
            idx = idx + 1;
            assert(color_items(table) =~= table_at(s, p0, idx as nat));
        }
        Ok(ColorTable { table })
    }

    /// Number of entries.
    pub fn len(&self) -> (r: usize)
        ensures
            r == self@.len(),
    {
        colors_len(&self.table)
    }

    /// The entry at `i`.
    pub fn get(&self, i: usize) -> (r: u16)
        requires
            i < self@.len(),
        ensures
            r == self@[i as int],
    {
        colors_get(&self.table, i)
    }
}

/// The global color table with the fields of the header that describe it.
pub struct GlobalColorTable {
    background_color: u8,
    bits_per_pixel: u8,
    table: ColorTable,
}

impl View for GlobalColorTable {
    type V = GlobalModel;

    closed spec fn view(&self) -> GlobalModel {
        GlobalModel {
            background_color: self.background_color,
            bits_per_pixel: self.bits_per_pixel,
            table: self.table@,
        }
    }
}

/// The logical screen descriptor.
pub struct Header {
    /// Canvas width in pixels.
    pub width: u16,
    /// Canvas height in pixels.
    pub height: u16,
    /// Global color table.
    pub global_table: Option<GlobalColorTable>,
}

impl View for Header {
    type V = HeaderModel;

    open spec fn view(&self) -> HeaderModel {
        HeaderModel {
            width: self.width,
            height: self.height,
            global: match self.global_table {
                Some(g) => Some(g@),
                None => None,
            },
        }
    }
}

/// Number of entries of the color table that the packed field `packed` announces.
fn table_len(packed: u8) -> (n: u16)
    ensures
        n == table_entries(packed),
        2 <= n <= 256,
{
    assert((packed & 7u8) <= 7u8) by (bit_vector);
    let shift: u8 = (packed & 7u8) + 1u8;
    assert(2 <= (1u16 << (((packed & 7u8) + 1u8) as u16)) <= 256) by (bit_vector);
    1u16 << (shift as u16)
}

impl Header {
    /// Reads the header: magic, canvas size, packed field, background color index, pixel
    /// aspect ratio and the global color table if one is announced.
    pub fn parser<S: SeekableIter>(raw_header: &mut ByteIterator<S>) -> (r: Result<Header, ParseError>)
        requires
            old(raw_header).wf(),
        ensures
            final(raw_header).wf(),
            final(raw_header).bytes() == old(raw_header).bytes(),
            match header_spec(old(raw_header).bytes(), old(raw_header).pos() as int) {
                Ok((h, p)) => r is Ok && r->Ok_0@ == h && final(raw_header).pos() == p,
                Err(e) => r == Err::<Header, ParseError>(e),
            },
    {
        let ghost s = raw_header.bytes();
        let ghost b = raw_header.pos() as int;
        let name: [u8; 6] = raw_header.take_arr()?;
        assert(name@[0] == s[b] && name@[1] == s[b + 1] && name@[2] == s[b + 2]);
        assert(name@[3] == s[b + 3] && name@[4] == s[b + 4] && name@[5] == s[b + 5]);
        if !(name[0] == 0x47u8 && name[1] == 0x49u8 && name[2] == 0x46u8 && name[3] == 0x38u8
            && (name[4] == 0x37u8 || name[4] == 0x39u8) && name[5] == 0x61u8) {
            return Err(ParseError::BadGifFile);
        }
        let width = raw_header.take_u16_le()?;
        let height = raw_header.take_u16_le()?;
        let info = raw_header.take_byte()?;
        let background_color = raw_header.take_byte()?;
        let _aspect_ratio = raw_header.take_byte()?;
        let global_table = if info & 0x80u8 == 0x80u8 {
            let num_entries = table_len(info);
            assert(((info & 0x70u8) >> 4u8) <= 7u8) by (bit_vector);
            let bits_per_pixel: u8 = ((info & 0x70u8) >> 4u8) + 1u8;
            let table = ColorTable::new(num_entries, raw_header)?;
            Some(GlobalColorTable { background_color, bits_per_pixel, table })
        } else {
            None
        };
        Ok(Header { width, height, global_table })
    }
}

/// Placement of one frame on the canvas, with its local color table if it has one.
pub struct LocalImageDescriptor {
    left: u16,
    top: u16,
    width: u16,
    height: u16,
    interlaced: bool,
    local_color_table: Option<ColorTable>,
}

impl View for LocalImageDescriptor {
    type V = DescriptorModel;

    closed spec fn view(&self) -> DescriptorModel {
        DescriptorModel {
            left: self.left,
            top: self.top,
            width: self.width,
            height: self.height,
            interlaced: self.interlaced,
            local: match self.local_color_table {
                Some(t) => Some(t@),
                None => None,
            },
        }
    }
}

impl LocalImageDescriptor {
    /// Reads a local image descriptor and its local color table, if it announces one.
    pub fn parser<S: SeekableIter>(raw_header: &mut ByteIterator<S>) -> (r: Result<LocalImageDescriptor, ParseError>)
        requires
            old(raw_header).wf(),
        ensures
            final(raw_header).wf(),
            final(raw_header).bytes() == old(raw_header).bytes(),
            match descriptor_spec(old(raw_header).bytes(), old(raw_header).pos() as int) {
                Ok((d, p)) => r is Ok && r->Ok_0@ == d && final(raw_header).pos() == p,
                Err(e) => r == Err::<LocalImageDescriptor, ParseError>(e),
            },
    {
        let left = raw_header.take_u16_le()?;
        let top = raw_header.take_u16_le()?;
        let width = raw_header.take_u16_le()?;
        let height = raw_header.take_u16_le()?;
        let (interlaced, local_color_table) = Self::maybe_parse_local_color_table(raw_header)?;
        Ok(LocalImageDescriptor { left, top, width, height, interlaced, local_color_table })
    }

    /// Reads the packed field of a descriptor and the local color table it announces.
    fn maybe_parse_local_color_table<S: SeekableIter>(raw_header: &mut ByteIterator<S>) -> (r: Result<
        (bool, Option<ColorTable>),
        ParseError,
    >)
        requires
            old(raw_header).wf(),
        ensures
            final(raw_header).wf(),
            final(raw_header).bytes() == old(raw_header).bytes(),
            ({
                let s = old(raw_header).bytes();
                let q = old(raw_header).pos() as int;
                if q >= s.len() {
                    r == Err::<(bool, Option<ColorTable>), ParseError>(ParseError::UnexpectedEof)
                } else if has_table(s[q]) {
                    let n = table_entries(s[q]);
                    if q + 1 + 3 * n > s.len() {
                        r == Err::<(bool, Option<ColorTable>), ParseError>(
                            ParseError::UnexpectedEof,
                        )
                    } else {
                        &&& r is Ok
                        &&& r->Ok_0.0 == (s[q] & 0x40u8 == 0x40u8)
                        &&& r->Ok_0.1 is Some
                        &&& r->Ok_0.1->Some_0@ == table_at(s, q + 1, n)
                        &&& final(raw_header).pos() == q + 1 + 3 * n
                    }
                } else {
                    &&& r is Ok
                    &&& r->Ok_0.0 == (s[q] & 0x40u8 == 0x40u8)
                    &&& r->Ok_0.1 is None
                    &&& final(raw_header).pos() == q + 1
                }
            }),
    {
        let color_info = raw_header.take_byte()?;
        let interlaced = color_info & 0x40u8 == 0x40u8;
        if color_info & 0x80u8 == 0x80u8 {
            let num_entries = table_len(color_info);
            let table = ColorTable::new(num_entries, raw_header)?;
            Ok((interlaced, Some(table)))
        } else {
            Ok((interlaced, None))
        }
    }

    /// The local color table, if the frame has one.
    pub fn color_table(&self) -> (r: Option<&ColorTable>)
        ensures
            r is Some <==> self@.local is Some,
            r is Some ==> r->Some_0@ == self@.local->Some_0,
    {
        match &self.local_color_table {
            Some(t) => Some(t),
            None => None,
        }
    }

    /// Total number of pixels of the frame.
    pub fn num_pixels(&self) -> (r: usize)
        ensures
            r == self@.width * self@.height,
    {
        assert(self.width * self.height <= 0xffff * 0xffff) by (nonlinear_arith);
        (self.width as u32 * self.height as u32) as usize
    }

    /// Width and height of the frame.
    pub fn size(&self) -> (r: (u32, u32))
        ensures
            r == (self@.width as u32, self@.height as u32),
    {
        (self.width as u32, self.height as u32)
    }

    /// Top-left corner of the frame on the canvas.
    pub fn origin(&self) -> (r: (i32, i32))
        ensures
            r == (self@.left as i32, self@.top as i32),
    {
        (self.left as i32, self.top as i32)
    }

    /// The area of the canvas that the frame covers: its origin and its size.
    pub fn bounding_box(&self) -> (r: ((i32, i32), (u32, u32)))
        ensures
            r == ((self@.left as i32, self@.top as i32), (
                self@.width as u32,
                self@.height as u32,
            )),
    {
        (self.origin(), self.size())
    }
}

/// A graphics control extension: animation timing and transparency.
#[derive(Debug, Copy, Clone, PartialEq, Eq, Structural)]
pub struct GraphicsControl {
    /// Packed flags byte.
    pub ctrl: u8,
    /// Palette index of the transparent color.
    pub transparent_idx: u8,
    /// Delay before the next frame, in milliseconds.
    pub delay_time: u32,
}

impl GraphicsControl {
    /// Reads a graphics control extension after its label: block size, flags, delay in
    /// hundredths of a second, transparent index and block terminator.
    pub fn parse<S: SeekableIter>(raw_header: &mut ByteIterator<S>) -> (r: Result<Self, ParseError>)
        requires
            old(raw_header).wf(),
        ensures
            final(raw_header).wf(),
            final(raw_header).bytes() == old(raw_header).bytes(),
            old(raw_header).pos() + CONTROL_LEN <= old(raw_header).bytes().len() ==> {
                &&& r == Ok::<GraphicsControl, ParseError>(
                    control_at(old(raw_header).bytes(), old(raw_header).pos() as int),
                )
                &&& final(raw_header).pos() == old(raw_header).pos() + CONTROL_LEN
            },
            old(raw_header).pos() + CONTROL_LEN > old(raw_header).bytes().len() ==> r == Err::<
                GraphicsControl,
                ParseError,
            >(ParseError::UnexpectedEof),
    {
        let _len = raw_header.take_byte()?;
        let ctrl = raw_header.take_byte()?;
        let delay = raw_header.take_u16_le()?;
        let transparent_idx = raw_header.take_byte()?;
        let _terminator = raw_header.take_byte()?;
        Ok(GraphicsControl { ctrl, transparent_idx, delay_time: delay as u32 * 10 })
    }

    /// The transparent palette index, when the transparency flag is set.
    pub fn get_transparent_idx(&self) -> (r: Option<u8>)
        ensures
            r == (if self.ctrl & 1u8 == 1u8 {
                Some(self.transparent_idx)
            } else {
                None
            }),
    {
        if self.ctrl & 1u8 == 1u8 {
            Some(self.transparent_idx)
        } else {
            None
        }
    }

    /// The disposal method field, bits 2 to 4 of the flags.
    pub fn disposal_method(&self) -> (r: u8)
        ensures
            r == (self.ctrl >> 2u8) & 7u8,
    {
        (self.ctrl >> 2u8) & 7u8
    }
}

/// Walks the sub-block chain of an extension whose first length byte is next.
fn eat_extension<S: SeekableIter>(_extension: ExtensionLabel, raw_header: &mut ByteIterator<S>) -> (r: Result<
    (),
    ParseError,
>)
    requires
        old(raw_header).wf(),
    ensures
        final(raw_header).wf(),
        final(raw_header).bytes() == old(raw_header).bytes(),
        match chain_end(old(raw_header).bytes(), old(raw_header).pos() as int) {
            Ok(e) => r is Ok && final(raw_header).pos() == e,
            Err(e) => r == Err::<(), ParseError>(e),
        },
{
    skip_sub_blocks(raw_header)
}

/// Walks a chain of sub-blocks up to and including its terminator.
fn skip_sub_blocks<S: SeekableIter>(raw_header: &mut ByteIterator<S>) -> (r: Result<(), ParseError>)
    requires
        old(raw_header).wf(),
    ensures
        final(raw_header).wf(),
        final(raw_header).bytes() == old(raw_header).bytes(),
        match chain_end(old(raw_header).bytes(), old(raw_header).pos() as int) {
            Ok(e) => r is Ok && final(raw_header).pos() == e,
            Err(e) => r == Err::<(), ParseError>(e),
        },
{
    let ghost s = raw_header.bytes();
    let ghost p0 = raw_header.pos() as int;
    loop
        invariant
            raw_header.wf(),
            raw_header.bytes() == s,
            s == old(raw_header).bytes(),
            p0 == old(raw_header).pos(),
            chain_end(s, raw_header.pos() as int) == chain_end(s, p0),
        decreases s.len() - raw_header.pos(),
    {
        let len_byte = raw_header.take_byte()?;
        if len_byte == 0 {
            return Ok(());
        }
        raw_header.seek_by(len_byte as usize)?;
    }
}

/// Walks image data: the LZW minimum code size byte, then its chain of sub-blocks.
fn skip_image_data<S: SeekableIter>(raw_header: &mut ByteIterator<S>) -> (r: Result<(), ParseError>)
    requires
        old(raw_header).wf(),
    ensures
        final(raw_header).wf(),
        final(raw_header).bytes() == old(raw_header).bytes(),
        match image_data_end(old(raw_header).bytes(), old(raw_header).pos() as int) {
            Ok(e) => r is Ok && final(raw_header).pos() == e,
            Err(e) => r == Err::<(), ParseError>(e),
        },
{
    let _code_size = raw_header.take_byte()?;
    skip_sub_blocks(raw_header)
}

/// The structural index of a source: canvas, global color table, the last graphics control
/// extension and the offset of each image descriptor.
pub struct GifInfo {
    header: Header,
    control_info: Option<GraphicsControl>,
    pub(crate) image_block_locations: OffsetList,
}

impl View for GifInfo {
    type V = GifModel;

    closed spec fn view(&self) -> GifModel {
        GifModel {
            width: self.header@.width,
            height: self.header@.height,
            global: self.header@.global,
            control: self.control_info,
            offsets: offset_items(self.image_block_locations),
        }
    }
}

/// The result of a scan, seen through the views.
pub open spec fn info_result(r: Result<GifInfo, ParseError>) -> Result<GifModel, ParseError> {
    match r {
        Ok(i) => Ok(i@),
        Err(e) => Err(e),
    }
}

/// Delay between frames, in milliseconds, that a scanned source asks for: that of its graphics
/// control extension, or 50 without one.
pub open spec fn delay_of(m: GifModel) -> usize {
    match m.control {
        Some(c) => c.delay_time as usize,
        None => 50,
    }
}

impl GifInfo {
    /// Scans a whole source once: the header, then every block up to the trailer.
    pub fn parser<S: SeekableIter>(raw_header: &mut ByteIterator<S>) -> (r: Result<Self, ParseError>)
        requires
            old(raw_header).wf(),
            source_fits(old(raw_header).bytes()),
        ensures
            final(raw_header).wf(),
            final(raw_header).bytes() == old(raw_header).bytes(),
            info_result(r) == scan_spec(old(raw_header).bytes(), old(raw_header).pos() as int),
    {
        let ghost s = raw_header.bytes();
        let header = Header::parser(raw_header)?;
        let ghost p0 = raw_header.pos() as int;
        let mut image_block_locations = offsets_new();
        let mut control_info: Option<GraphicsControl> = None;
        loop
            invariant_except_break
                scan_blocks(
                    s,
                    raw_header.pos() as int,
                    offset_items(image_block_locations),
                    control_info,
                ) == scan_blocks(s, p0, Seq::empty(), None),
            invariant
                raw_header.wf(),
                raw_header.bytes() == s,
                s == old(raw_header).bytes(),
                source_fits(s),
                header_spec(s, old(raw_header).pos() as int) == Ok::<(HeaderModel, int), ParseError>(
                    (header@, p0),
                ),
                offset_items(image_block_locations).len() <= raw_header.pos(),
            ensures
                scan_blocks(s, p0, Seq::empty(), None) == Ok::<
                    (Seq<usize>, Option<GraphicsControl>),
                    ParseError,
                >((offset_items(image_block_locations), control_info)),
            decreases s.len() - raw_header.pos(),
        {
            let ghost p = raw_header.pos() as int;
            let byte = raw_header.take_byte()?;
            let block_id = Block::from_u8(byte)?;
            match block_id {
                Block::Image => {
                    let at = raw_header.get_offset();
                    offsets_push(&mut image_block_locations, at);
                    let _descriptor = LocalImageDescriptor::parser(raw_header)?;
                    skip_image_data(raw_header)?;
                    proof {
                        let t = descriptor_spec(s, p + 1)->Ok_0.1;
                        lemma_chain_end_after(s, t + 1);
                    }
                },
                Block::Trailer => {
                    break ;
                },
                Block::Extension => {
                    let label = raw_header.take_byte()?;
                    let extension = ExtensionLabel::from_u8(label)?;
                    match extension {
                        ExtensionLabel::Graphics => {
                            control_info = Some(GraphicsControl::parse(raw_header)?);
                        },
                        _ => {
                            eat_extension(extension, raw_header)?;
                            proof {
                                lemma_chain_end_after(s, p + 2);
                            }
                        },
                    }
                },
            }
        }
        Ok(GifInfo { header, control_info, image_block_locations })
    }

    /// Delay between frames, in milliseconds.
    pub fn delay_time(&self) -> (r: usize)
        ensures
            r == delay_of(self@),
    {
        match &self.control_info {
            Some(c) => c.delay_time as usize,
            None => 50,
        }
    }

    /// Number of image blocks.
    pub fn num_images(&self) -> (r: usize)
        ensures
            r == self@.offsets.len(),
    {
        offsets_len(&self.image_block_locations)
    }

    /// Offset of the descriptor of image `i`.
    pub fn image_offset(&self, i: usize) -> (r: usize)
        requires
            i < self@.offsets.len(),
        ensures
            r == self@.offsets[i as int],
    {
        offsets_get(&self.image_block_locations, i)
    }

    /// Canvas width and height.
    pub fn base_size(&self) -> (r: (u32, u32))
        ensures
            r == (self@.width as u32, self@.height as u32),
    {
        (self.header.width as u32, self.header.height as u32)
    }

    /// The global color table, if the source has one.
    pub fn global_table(&self) -> (r: Option<&ColorTable>)
        ensures
            r is Some <==> self@.global is Some,
            r is Some ==> r->Some_0@ == self@.global->Some_0.table,
    {
        match &self.header.global_table {
            Some(g) => Some(&g.table),
            None => None,
        }
    }
}

} // verus!
