use vstd::prelude::*;

use crate::common::ParseError;

verus! {

/// A byte source that can be read forward and repositioned.
pub trait SeekableIter: Sized {
    /// All bytes of the source.
    spec fn source(&self) -> Seq<u8>;

    /// Index of the next byte to be read.
    spec fn position(&self) -> nat;

    /// Reads the next byte, if any is left.
    fn next(&mut self) -> (r: Option<u8>)
        requires
            old(self).position() <= old(self).source().len(),
        ensures
            final(self).source() == old(self).source(),
            old(self).position() < old(self).source().len() ==> {
                &&& r == Some(old(self).source()[old(self).position() as int])
                &&& final(self).position() == old(self).position() + 1
            },
            old(self).position() >= old(self).source().len() ==> {
                &&& r is None
                &&& final(self).position() == old(self).position()
            },
    ;

    /// Goes to the absolute byte `offset`; on failure, reports how far it got.
    fn seek(&mut self, offset: usize) -> (r: Result<(), usize>)
        requires
            old(self).position() <= old(self).source().len(),
        ensures
            final(self).source() == old(self).source(),
            final(self).position() <= final(self).source().len(),
            offset <= old(self).source().len() ==> r is Ok && final(self).position() == offset,
            offset > old(self).source().len() ==> r == Err::<(), usize>(
                old(self).source().len() as usize,
            ) && final(self).position() == old(self).source().len(),
    ;

    /// An independent iterator over the same bytes, at the same position.
    fn clone_position(&self) -> (r: Self)
        ensures
            r.source() == self.source(),
            r.position() == self.position(),
    ;

    /// Moves forward by `len` bytes; on failure, reports how many bytes it passed.
    fn move_by(&mut self, len: usize) -> (r: Result<(), usize>)
        requires
            old(self).position() <= old(self).source().len(),
        ensures
            final(self).source() == old(self).source(),
            final(self).position() <= final(self).source().len(),
            old(self).position() + len <= old(self).source().len() ==> r is Ok
                && final(self).position() == old(self).position() + len,
            old(self).position() + len > old(self).source().len() ==> r == Err::<(), usize>(
                (old(self).source().len() - old(self).position()) as usize,
            ) && final(self).position() == old(self).source().len(),
    ;
}

/// A [`SeekableIter`] over a byte slice held in memory.
#[derive(Clone, Copy)]
pub struct SeekableSliceIter<'a> {
    slice: &'a [u8],
    pos: usize,
}

impl<'a> SeekableSliceIter<'a> {
    pub closed spec fn bytes(&self) -> Seq<u8> {
        self.slice@
    }

    pub closed spec fn at(&self) -> nat {
        self.pos as nat
    }

    /// An iterator at the start of `slice`.
    pub fn new(slice: &'a [u8]) -> (r: Self)
        ensures
            r.bytes() == slice@,
            r.at() == 0,
    {
        SeekableSliceIter { slice, pos: 0 }
    }
}

impl<'a> SeekableIter for SeekableSliceIter<'a> {
    closed spec fn source(&self) -> Seq<u8> {
        self.slice@
    }

    closed spec fn position(&self) -> nat {
        self.pos as nat
    }

    fn next(&mut self) -> (r: Option<u8>) {
        if self.pos < self.slice.len() {
            let b = self.slice[self.pos];
            self.pos = self.pos + 1;
            Some(b)
        } else {
            None
        }
    }

    fn clone_position(&self) -> (r: Self) {
        SeekableSliceIter { slice: self.slice, pos: self.pos }
    }

    fn seek(&mut self, offset: usize) -> (r: Result<(), usize>) {
        self.pos = 0;
        self.move_by(offset)
    }

    fn move_by(&mut self, len: usize) -> (r: Result<(), usize>) {
        let left = self.slice.len() - self.pos;
        if len <= left {
            self.pos = self.pos + len;
            Ok(())
        } else {
            self.pos = self.slice.len();
            Err(left)
        }
    }
}

/// A cursor over a GIF source: a seekable byte source with the absolute offset of its next
/// byte.
pub struct ByteIterator<S: SeekableIter> {
    iterator: S,
    offset: usize,
}

impl<'a> ByteIterator<SeekableSliceIter<'a>> {
    /// A cursor at offset 0 of `iterator`.
    pub fn from_slice(iterator: &'a [u8]) -> (r: ByteIterator<SeekableSliceIter<'a>>)
        ensures
            r.wf(),
            r.bytes() == iterator@,
            r.pos() == 0,
    {
        let len = iterator.len();
        assert(iterator@.len() == len);
        ByteIterator { iterator: SeekableSliceIter::new(iterator), offset: 0 }
    }
}

impl<S: SeekableIter> ByteIterator<S> {
    /// All bytes of the source.
    pub closed spec fn bytes(&self) -> Seq<u8> {
        self.iterator.source()
    }

    /// The absolute offset of the next byte to be read.
    pub closed spec fn pos(&self) -> nat {
        self.iterator.position()
    }

    /// The offset that the cursor keeps is that of its source.
    pub closed spec fn offset_tracked(&self) -> bool {
        self.offset == self.iterator.position()
    }

    /// The offset never passes the end of the source, and is tracked.
    pub open spec fn wf(&self) -> bool {
        &&& self.pos() <= self.bytes().len()
        &&& self.bytes().len() <= usize::MAX
        &&& self.offset_tracked()
    }

    /// A cursor over a byte source that is at its start.
    pub fn new(iterator: S) -> (r: Self)
        requires
            iterator.position() == 0,
            iterator.source().len() <= usize::MAX,
        ensures
            r.wf(),
            r.bytes() == iterator.source(),
            r.pos() == 0,
    {
        ByteIterator { iterator, offset: 0 }
    }

    /// An independent cursor over the same bytes, at the same offset.
    pub fn clone_position(&self) -> (r: Self)
        requires
            self.wf(),
        ensures
            r.wf(),
            r.bytes() == self.bytes(),
            r.pos() == self.pos(),
    {
        ByteIterator { iterator: self.iterator.clone_position(), offset: self.offset }
    }
    /// Reads one byte.
    pub fn take_byte(&mut self) -> (r: Result<u8, ParseError>)
        requires
            old(self).wf(),
        ensures
            final(self).wf(),
            final(self).bytes() == old(self).bytes(),
            old(self).pos() < old(self).bytes().len() ==> {
                &&& r == Ok::<u8, ParseError>(old(self).bytes()[old(self).pos() as int])
                &&& final(self).pos() == old(self).pos() + 1
            },
            old(self).pos() >= old(self).bytes().len() ==> {
                &&& r == Err::<u8, ParseError>(ParseError::UnexpectedEof)
                &&& final(self).pos() == old(self).pos()
            },
    {
        match self.iterator.next() {
            Some(b) => {
                self.offset = self.offset + 1;
                Ok(b)
            },
            None => Err(ParseError::UnexpectedEof),
        }
    }

    /// Reads a little-endian `u16`.
    pub fn take_u16_le(&mut self) -> (r: Result<u16, ParseError>)
        requires
            old(self).wf(),
        ensures
            final(self).wf(),
            final(self).bytes() == old(self).bytes(),
            old(self).pos() + 2 <= old(self).bytes().len() ==> {
                &&& r == Ok::<u16, ParseError>(
                    u16_le(old(self).bytes(), old(self).pos() as int),
                )
                &&& final(self).pos() == old(self).pos() + 2
            },
            old(self).pos() + 2 > old(self).bytes().len() ==> r == Err::<u16, ParseError>(
                ParseError::UnexpectedEof,
            ),
    {
        let lo = self.take_byte()?;
        let hi = self.take_byte()?;
        Ok(lo as u16 + (hi as u16) * 256)
    }

    /// Reads `N` bytes.
    pub fn take_arr<const N: usize>(&mut self) -> (r: Result<[u8; N], ParseError>)
        requires
            old(self).wf(),
        ensures
            final(self).wf(),
            final(self).bytes() == old(self).bytes(),
            old(self).pos() + N <= old(self).bytes().len() ==> {
                &&& r is Ok
                &&& r->Ok_0@ == old(self).bytes().subrange(
                    old(self).pos() as int,
                    old(self).pos() + N,
                )
                &&& final(self).pos() == old(self).pos() + N
            },
            old(self).pos() + N > old(self).bytes().len() ==> r == Err::<[u8; N], ParseError>(
                ParseError::UnexpectedEof,
            ),
    {
        let mut rv: [u8; N] = [0u8; N];
        let start: Ghost<int> = Ghost(self.pos() as int);
        let mut idx: usize = 0;
        while idx < N
            invariant
                self.wf(),
                self.bytes() == old(self).bytes(),
                start@ == old(self).pos(),
                self.pos() == start@ + idx,
                idx <= N,
                forall|k: int| 0 <= k < idx ==> rv@[k] == self.bytes()[start@ + k],
            decreases N - idx,
        {
            let b = self.take_byte()?;
            rv[idx] = b;
            idx = idx + 1;
        }
        assert(rv@ =~= self.bytes().subrange(start@, start@ + N));
        Ok(rv)
    }

    /// The absolute offset of the next byte to be read.
    pub fn get_offset(&self) -> (r: usize)
        requires
            self.wf(),
        ensures
            r == self.pos(),
    {
        self.offset
    }

    /// Moves forward by `len` bytes.
    pub fn seek_by(&mut self, len: usize) -> (r: Result<(), ParseError>)
        requires
            old(self).wf(),
        ensures
            final(self).wf(),
            final(self).bytes() == old(self).bytes(),
            old(self).pos() + len <= old(self).bytes().len() ==> r is Ok && final(self).pos()
                == old(self).pos() + len,
            old(self).pos() + len > old(self).bytes().len() ==> r == Err::<(), ParseError>(
                ParseError::UnexpectedEof,
            ),
    {
        match self.iterator.move_by(len) {
            Ok(()) => {
                self.offset = self.offset + len;
                Ok(())
            },
            Err(passed) => {
                self.offset = self.offset + passed;
                Err(ParseError::UnexpectedEof)
            },
        }
    }

    /// Goes to the absolute offset `offset`, backward or forward.
    pub fn seek_to(&mut self, offset: usize) -> (r: Result<(), ParseError>)
        requires
            old(self).wf(),
        ensures
            final(self).wf(),
            final(self).bytes() == old(self).bytes(),
            offset <= old(self).bytes().len() ==> r is Ok && final(self).pos() == offset,
            offset > old(self).bytes().len() ==> r == Err::<(), ParseError>(
                ParseError::UnexpectedEof,
            ),
    {
        if self.offset > offset {
            match self.iterator.seek(offset) {
                Ok(()) => {
                    self.offset = offset;
                    Ok(())
                },
                Err(passed) => {
                    self.offset = passed;
                    Err(ParseError::SeekFail)
                },
            }
        } else {
            let adv_offset = offset - self.offset;
            match self.iterator.move_by(adv_offset) {
                Ok(()) => {
                    self.offset = offset;
                    Ok(())
                },
                Err(passed) => {
                    self.offset = self.offset + passed;
                    Err(ParseError::UnexpectedEof)
                },
            }
        }
    }
}

/// The little-endian `u16` at offset `p` of `s`.
pub open spec fn u16_le(s: Seq<u8>, p: int) -> u16 {
    (s[p] as int + s[p + 1] as int * 256) as u16
}

} // verus!
