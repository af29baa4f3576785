use vstd::prelude::*;

use weezl::decode::Decoder;
use weezl::{BitOrder, LzwStatus};

verus! {

/// What one LZW decoding step reported.
#[derive(Debug, Copy, Clone, PartialEq, Eq, Structural)]
pub enum StepStatus {
    /// The step went well; more output may follow.
    Progress,
    /// The decoder needs more input.
    NoProgress,
    /// The end-of-information code was reached.
    Done,
    /// The input held a code that the dictionary does not know.
    InvalidCode,
}

/// The largest LZW minimum code size that the decoder accepts.
pub const MAX_CODE_SIZE: u8 = 12;

// The decoder is held in a struct of this crate whose history is named below: Verus cannot
// record ghost state inside a call that it does not verify.

/// A weezl LZW decoder for GIF data (least significant bit first).
#[verifier::external_body]
pub struct LzwDecoder {
    decoder: Decoder,
}

/// The palette indices that weezl's least-significant-bit-first decoder, made with minimum
/// code size `code_size`, yields from the complete codes of `data` up to the end code; `None`
/// when an invalid code comes first.
pub uninterp spec fn lzw_decode(code_size: u8, data: Seq<u8>) -> Option<Seq<u8>>;

/// The minimum code size that a decoder was made with.
pub uninterp spec fn lzw_code_size(d: LzwDecoder) -> u8;

/// Every byte that a decoder has consumed, in order.
pub uninterp spec fn lzw_fed(d: LzwDecoder) -> Seq<u8>;

/// Every index that a decoder has written, in order.
pub uninterp spec fn lzw_written(d: LzwDecoder) -> Seq<u8>;

/// Relies on weezl's `Decoder::new`: a least-significant-bit-first decoder, the order of GIF
/// data, that has consumed and written nothing. It panics on a code size above 12.
#[verifier::external_body]
pub(crate) fn lzw_decoder(code_size: u8) -> (r: LzwDecoder)
    requires
        code_size <= MAX_CODE_SIZE,
    ensures
        lzw_code_size(r) == code_size,
        lzw_fed(r) == Seq::<u8>::empty(),
        lzw_written(r) == Seq::<u8>::empty(),
{
    LzwDecoder { decoder: Decoder::new(BitOrder::Lsb, code_size) }
}

/// Relies on weezl's `Decoder::decode_bytes`: it consumes a prefix of `inp`, writes a prefix
/// of `out`, and reports both lengths with a status. What it has written is the start of what
/// the bytes consumed so far decode to; all of it once the end code is reached; an invalid
/// code is reported only when those bytes hold one.
#[verifier::external_body]
pub(crate) fn lzw_step(decoder: &mut LzwDecoder, inp: &[u8], out: &mut [u8; 256]) -> (r: (
    usize,
    usize,
    StepStatus,
))
    ensures
        r.0 <= inp@.len(),
        r.1 <= 256,
        lzw_code_size(*final(decoder)) == lzw_code_size(*old(decoder)),
        lzw_fed(*final(decoder)) == lzw_fed(*old(decoder)) + inp@.subrange(0, r.0 as int),
        lzw_written(*final(decoder)) == lzw_written(*old(decoder)) + final(out)@.subrange(
            0,
            r.1 as int,
        ),
        lzw_decode(lzw_code_size(*final(decoder)), lzw_fed(*final(decoder))) is Some
            ==> lzw_written(*final(decoder)).is_prefix_of(
            lzw_decode(lzw_code_size(*final(decoder)), lzw_fed(*final(decoder)))->Some_0,
        ),
        r.2 == StepStatus::Done ==> lzw_decode(
            lzw_code_size(*final(decoder)),
            lzw_fed(*final(decoder)),
        ) == Some(lzw_written(*final(decoder))),
        r.2 == StepStatus::InvalidCode ==> lzw_decode(
            lzw_code_size(*final(decoder)),
            lzw_fed(*final(decoder)),
        ) is None,
{
    let res = decoder.decoder.decode_bytes(inp, out);
    let status = match res.status {
        Ok(LzwStatus::Ok) => StepStatus::Progress,
        Ok(LzwStatus::NoProgress) => StepStatus::NoProgress,
        Ok(LzwStatus::Done) => StepStatus::Done,
        Err(_) => StepStatus::InvalidCode,
    };
    (res.consumed_in, res.consumed_out, status)
}

} // verus!
