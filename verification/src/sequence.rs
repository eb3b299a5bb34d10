//! Bounds-checked reads of sequences and of views into them.
//!
//! A sequence is a slice: a fixed-length array borrowed whole, or a view over a
//! contiguous run of another sequence. An index is valid when it lies in
//! `0 <= i < len`. The checked reads report an invalid index as `None`; the
//! direct reads leave it out by their preconditions.

use vstd::prelude::*;

verus! {

/// Whether `i` is a valid index into `s`.
pub open spec fn in_bounds<T>(s: Seq<T>, i: int) -> bool {
    0 <= i < s.len()
}

/// The checked read: the element at `i`, present exactly for a valid index.
pub open spec fn get_spec<T>(s: Seq<T>, i: int) -> Option<T> {
    if in_bounds(s, i) {
        Some(s[i])
    } else {
        None
    }
}

/// The direct read: the element at `i`, meaningful for a valid index only.
pub open spec fn index_spec<T>(s: Seq<T>, i: int) -> T
    recommends
        in_bounds(s, i),
{
    s[i]
}

/// Whether `[start, end)` is a range that a view of `s` can be made of.
pub open spec fn range_in_bounds<T>(s: Seq<T>, start: int, end: int) -> bool {
    0 <= start <= end <= s.len()
}

/// The content of the view of `s` over `[start, end)`.
pub open spec fn slice_spec<T>(s: Seq<T>, start: int, end: int) -> Seq<T>
    recommends
        range_in_bounds(s, start, end),
{
    s.subrange(start, end)
}

/// Reads `s` at `i`, or reports that there is no such element.
pub fn get<T>(s: &[T], i: usize) -> (r: Option<&T>)
    ensures
        match r {
            Some(x) => get_spec(s@, i as int) == Some(*x),
            None => get_spec(s@, i as int) is None,
        },
{
    if i < s.len() {
        Some(&s[i])
    } else {
        None
    }
}

/// Reads `s` at a signed position: a negative one names no element, like one
/// past the end.
pub fn get_signed<T>(s: &[T], i: i64) -> (r: Option<&T>)
    ensures
        match r {
            Some(x) => get_spec(s@, i as int) == Some(*x),
            None => get_spec(s@, i as int) is None,
        },
{
    if i < 0 {
        None
    } else if i as u64 >= s.len() as u64 {
        None
    } else {
        Some(&s[i as usize])
    }
}

/// Reads `s` at `i` directly. The index must be valid.
pub fn index<T>(s: &[T], i: usize) -> (r: &T)
    requires
        in_bounds(s@, i as int),
    ensures
        *r == index_spec(s@, i as int),
{
    &s[i]
}

/// The view of `s` over the half-open range `[start, end)`. The range must lie
/// within `s`; an empty range gives an empty view.
pub fn slice<T>(s: &[T], start: usize, end: usize) -> (r: &[T])
    requires
        range_in_bounds(s@, start as int, end as int),
    ensures
        r@ == slice_spec(s@, start as int, end as int),
        r@.len() == end - start,
{
    &s[start..end]
}

/// The checked form of [`slice`]: `None` exactly when the range does not lie
/// within `s`.
pub fn checked_slice<T>(s: &[T], start: usize, end: usize) -> (r: Option<&[T]>)
    ensures
        match r {
            Some(view) => range_in_bounds(s@, start as int, end as int) && view@ == slice_spec(
                s@,
                start as int,
                end as int,
            ),
            None => !range_in_bounds(s@, start as int, end as int),
        },
{
    if start <= end && end <= s.len() {
        Some(slice(s, start, end))
    } else {
        None
    }
}

/// A checked read finds an element exactly at the valid indices, and there it
/// finds what the direct read returns.
pub proof fn lemma_get_agrees_with_index<T>(s: Seq<T>, i: int)
    ensures
        get_spec(s, i) is Some <==> 0 <= i < s.len(),
        0 <= i < s.len() ==> get_spec(s, i) == Some(index_spec(s, i)),
{
}

/// Below zero and from the length on, a checked read finds nothing and the
/// direct read is not permitted.
pub proof fn lemma_get_absent_outside<T>(s: Seq<T>, i: int)
    requires
        i >= s.len() || i < 0,
    ensures
        get_spec(s, i) is None,
        !in_bounds(s, i),
{
}

/// The view over the whole of a sequence has the content of the sequence.
pub proof fn lemma_slice_whole<T>(s: Seq<T>)
    ensures
        range_in_bounds(s, 0, s.len() as int),
        slice_spec(s, 0, s.len() as int) == s,
{
    assert(s.subrange(0, s.len() as int) =~= s);
}

/// A view of a view reads the underlying sequence at the sum of the offsets.
pub proof fn lemma_slice_get<T>(s: Seq<T>, start: int, end: int, i: int)
    requires
        range_in_bounds(s, start, end),
    ensures
        get_spec(slice_spec(s, start, end), i) == if 0 <= i < end - start {
            get_spec(s, start + i)
        } else {
            None
        },
{
}

} // verus!
