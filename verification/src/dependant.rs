use vstd::prelude::*;
use vstd::string::StrSliceExecFns;

use std::collections::{BTreeMap, BTreeSet, HashMap, HashSet};

verus! {

/// A value that uses data provided by an [`Owner`](crate::Owner) and is safe
/// to keep inside the container holding that data.
///
/// A dependant records the places it uses inside the storage target as plain
/// indices ([`ByteSpan`], [`CharSpan`]) instead of references, so the stored
/// value stays meaningful wherever the container moves and needs no lifetime
/// of its own.  A compound type qualifies exactly when every component does;
/// a type offering mutation through a shared reference must not qualify,
/// since it could smuggle a shorter-lived value into the container.
pub trait Dependant: Sized {

}

/// A contiguous region of a byte-slice storage target, held as a pair of
/// indices instead of a reference into the target.
#[derive(Clone, Copy, Debug, PartialEq, Eq, Structural)]
pub struct ByteSpan {
    /// Index of the first byte of the region.
    pub start: usize,
    /// Index one past the last byte of the region.
    pub end: usize,
}

impl ByteSpan {
    /// Whether this span lies inside data of the given contents.
    pub open spec fn wf(&self, data: Seq<u8>) -> bool {
        self.start <= self.end <= data.len()
    }

    /// The bytes this span selects out of the given contents.
    pub open spec fn view_in(&self, data: Seq<u8>) -> Seq<u8> {
        data.subrange(self.start as int, self.end as int)
    }

    /// The span covering `data[start..end]`.
    pub fn slice_of(data: &[u8], start: usize, end: usize) -> (r: ByteSpan)
        requires
            start <= end <= data@.len(),
        ensures
            r == (ByteSpan { start, end }),
            r.wf(data@),
    {
        ByteSpan { start, end }
    }

    /// The span covering `data[start..]`.
    pub fn suffix(data: &[u8], start: usize) -> (r: ByteSpan)
        requires
            start <= data@.len(),
        ensures
            r.start == start,
            r.end == data@.len(),
            r.wf(data@),
            r.view_in(data@) == data@.skip(start as int),
    {
        let r = ByteSpan { start, end: data.len() };
        proof {
            assert(r.view_in(data@) =~= data@.skip(start as int));
        }
        r
    }

    /// The span covering all of `data`.
    pub fn whole(data: &[u8]) -> (r: ByteSpan)
        ensures
            r.start == 0,
            r.end == data@.len(),
            r.wf(data@),
            r.view_in(data@) == data@,
    {
        let r = ByteSpan { start: 0, end: data.len() };
        proof {
            assert(r.view_in(data@) =~= data@);
        }
        r
    }

    /// How many bytes the span selects.
    pub fn len(&self) -> (r: usize)
        requires
            self.start <= self.end,
        ensures
            r == self.end - self.start,
    {
        self.end - self.start
    }

    /// Reads the span back out of the data it was built over.
    pub fn resolve<'a>(&self, data: &'a [u8]) -> (r: &'a [u8])
        requires
            self.wf(data@),
        ensures
            r@ == self.view_in(data@),
    {
        vstd::slice::slice_subrange(data, self.start, self.end)
    }
}

/// A contiguous run of characters of a string storage target, held as a pair
/// of character indices instead of a reference into the target.
#[derive(Clone, Copy, Debug, PartialEq, Eq, Structural)]
pub struct CharSpan {
    /// Index of the first character of the run.
    pub start: usize,
    /// Index one past the last character of the run.
    pub end: usize,
}

impl CharSpan {
    /// Whether this span lies inside data of the given contents.
    pub open spec fn wf(&self, data: Seq<char>) -> bool {
        self.start <= self.end <= data.len()
    }

    /// The characters this span selects out of the given contents.
    pub open spec fn view_in(&self, data: Seq<char>) -> Seq<char> {
        data.subrange(self.start as int, self.end as int)
    }

    /// The span covering the characters of `data` from `start` on.
    pub fn suffix(data: &str, start: usize) -> (r: CharSpan)
        requires
            start <= data@.len(),
        ensures
            r.start == start,
            r.end == data@.len(),
            r.wf(data@),
            r.view_in(data@) == data@.skip(start as int),
    {
        let end = data.unicode_len();
        let r = CharSpan { start, end };
        proof {
            assert(r.view_in(data@) =~= data@.skip(start as int));
        }
        r
    }

    /// Reads the span back out of the data it was built over.
    pub fn resolve<'a>(&self, data: &'a str) -> (r: &'a str)
        requires
            self.wf(data@),
        ensures
            r@ == self.view_in(data@),
    {
        data.substring_char(self.start, self.end)
    }
}

impl Dependant for ByteSpan {

}

impl Dependant for CharSpan {

}

impl Dependant for () {

}

impl Dependant for bool {

}

impl Dependant for char {

}

impl Dependant for u8 {

}

impl Dependant for u16 {

}

impl Dependant for u32 {

}

impl Dependant for u64 {

}

impl Dependant for u128 {

}

impl Dependant for usize {

}

impl Dependant for i8 {

}

impl Dependant for i16 {

}

impl Dependant for i32 {

}

impl Dependant for i64 {

}

impl Dependant for i128 {

}

impl Dependant for isize {

}

impl Dependant for String {

}

impl<T: Dependant> Dependant for Option<T> {

}

impl<T: Dependant, E: Dependant> Dependant for Result<T, E> {

}

impl<T: Dependant> Dependant for Vec<T> {

}

impl<T: Dependant, const N: usize> Dependant for [T; N] {

}

impl<T1: Dependant> Dependant for (T1,) {

}

impl<T1: Dependant, T2: Dependant> Dependant for (T1, T2) {

}

impl<T1: Dependant, T2: Dependant, T3: Dependant> Dependant for (T1, T2, T3) {

}

impl<T1: Dependant, T2: Dependant, T3: Dependant, T4: Dependant> Dependant for (T1, T2, T3, T4) {

}

impl<T: Dependant> Dependant for BTreeSet<T> {

}

impl<K: Dependant, V: Dependant> Dependant for BTreeMap<K, V> {

}

impl<T: Dependant> Dependant for HashSet<T> {

}

impl<K: Dependant, V: Dependant> Dependant for HashMap<K, V> {

}

impl<T1: Dependant, T2: Dependant, T3: Dependant, T4: Dependant, T5: Dependant> Dependant for (
    T1,
    T2,
    T3,
    T4,
    T5,
) {

}

impl<
    T1: Dependant,
    T2: Dependant,
    T3: Dependant,
    T4: Dependant,
    T5: Dependant,
    T6: Dependant,
> Dependant for (T1, T2, T3, T4, T5, T6) {

}

impl<
    T1: Dependant,
    T2: Dependant,
    T3: Dependant,
    T4: Dependant,
    T5: Dependant,
    T6: Dependant,
    T7: Dependant,
> Dependant for (T1, T2, T3, T4, T5, T6, T7) {

}

impl<
    T1: Dependant,
    T2: Dependant,
    T3: Dependant,
    T4: Dependant,
    T5: Dependant,
    T6: Dependant,
    T7: Dependant,
    T8: Dependant,
> Dependant for (T1, T2, T3, T4, T5, T6, T7, T8) {

}

} // verus!
