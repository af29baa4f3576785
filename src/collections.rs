use vstd::prelude::*;

use smallvec::SmallVec;

verus! {

// `SmallVec` is held in structs of this crate: Verus cannot declare it directly, since its
// `Array` bound is a trait that Verus does not know.

/// Byte offsets held inline up to 128 and on the heap beyond, in a `SmallVec`.
#[verifier::external_body]
pub struct OffsetList {
    items: SmallVec<[usize; 128]>,
}

/// RGB565 colors held inline up to 256, in a `SmallVec`.
#[verifier::external_body]
pub struct ColorList {
    items: SmallVec<[u16; 256]>,
}

/// What a list of byte offsets holds, in order.
pub uninterp spec fn offset_items(v: OffsetList) -> Seq<usize>;

/// What a list of RGB565 colors holds, in order.
pub uninterp spec fn color_items(v: ColorList) -> Seq<u16>;

/// Relies on `SmallVec::new`: a new vector is empty.
#[verifier::external_body]
pub(crate) fn offsets_new() -> (r: OffsetList)
    ensures
        offset_items(r) == Seq::<usize>::empty(),
{
    OffsetList { items: SmallVec::new() }
}

/// Relies on `SmallVec::push`: the item is appended at the end. The capacity that `push`
/// computes must fit in `isize`, or it panics.
#[verifier::external_body]
pub(crate) fn offsets_push(v: &mut OffsetList, x: usize)
    requires
        offset_items(*old(v)).len() < isize::MAX / 16,
    ensures
        offset_items(*final(v)) == offset_items(*old(v)).push(x),
{
    v.items.push(x)
}

/// Relies on `SmallVec::len`: the number of items.
#[verifier::external_body]
pub(crate) fn offsets_len(v: &OffsetList) -> (r: usize)
    ensures
        r == offset_items(*v).len(),
{
    v.items.len()
}

/// Relies on indexing a `SmallVec`, through its slice: the item at `i`.
#[verifier::external_body]
pub(crate) fn offsets_get(v: &OffsetList, i: usize) -> (r: usize)
    requires
        i < offset_items(*v).len(),
    ensures
        r == offset_items(*v)[i as int],
{
    v.items[i]
}

/// Relies on `SmallVec::new`: a new vector is empty.
#[verifier::external_body]
pub(crate) fn colors_new() -> (r: ColorList)
    ensures
        color_items(r) == Seq::<u16>::empty(),
{
    ColorList { items: SmallVec::new() }
}

/// Relies on `SmallVec::push`: the item is appended at the end. The capacity that `push`
/// computes must fit in `isize`, or it panics.
#[verifier::external_body]
pub(crate) fn colors_push(v: &mut ColorList, x: u16)
    requires
        color_items(*old(v)).len() < isize::MAX / 16,
    ensures
        color_items(*final(v)) == color_items(*old(v)).push(x),
{
    v.items.push(x)
}

/// Relies on `SmallVec::len`: the number of items.
#[verifier::external_body]
pub(crate) fn colors_len(v: &ColorList) -> (r: usize)
    ensures
        r == color_items(*v).len(),
{
    v.items.len()
}

/// Relies on indexing a `SmallVec`, through its slice: the item at `i`.
#[verifier::external_body]
pub(crate) fn colors_get(v: &ColorList, i: usize) -> (r: u16)
    requires
        i < color_items(*v).len(),
    ensures
        r == color_items(*v)[i as int],
{
    v.items[i]
}

} // verus!
