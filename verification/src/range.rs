//! A range of vectors loaded into memory: the bytes of the vectors with the
//! indices `start..end`, one after the other, all of one size.

use core::marker::PhantomData;
use core::ops::Range;
use vstd::prelude::*;
use vstd::slice::slice_subrange;

verus! {

/// A range of vectors loaded into memory.
pub struct LoadedVectorRange {
    range: Range<usize>,
    vecs: Vec<u8>,
}

pub struct LoadedVectorRangeView {
    pub start: usize,
    pub end: usize,
    pub vecs: Seq<u8>,
}

/// A range of vectors of the type `T` loaded into memory.
pub struct LoadedSizedVectorRange<T: Copy> {
    inner: LoadedVectorRange,
    _x: PhantomData<T>,
}

impl LoadedVectorRangeView {
    /// The number of vectors in the range.
    pub open spec fn len(self) -> int {
        if self.start < self.end {
            self.end - self.start
        } else {
            0
        }
    }

    /// The bytes are whole vectors, as many as the range has indices.
    pub open spec fn wf(self) -> bool {
        self.len() > 0 ==> self.vecs.len() % (self.len() as nat) == 0
    }

    /// The size of one vector, in bytes.
    pub open spec fn vector_size(self) -> int {
        self.vecs.len() as int / self.len()
    }

    /// The bytes of the vector with the index `index`.
    pub open spec fn vector(self, index: int) -> Seq<u8> {
        self.vecs.subrange(
            (index - self.start) * self.vector_size(),
            (index - self.start) * self.vector_size() + self.vector_size(),
        )
    }
}

impl View for LoadedVectorRange {
    type V = LoadedVectorRangeView;

    closed spec fn view(&self) -> LoadedVectorRangeView {
        LoadedVectorRangeView { start: self.range.start, end: self.range.end, vecs: self.vecs@ }
    }
}

impl<T: Copy> View for LoadedSizedVectorRange<T> {
    type V = LoadedVectorRangeView;

    closed spec fn view(&self) -> LoadedVectorRangeView {
        self.inner@
    }
}

/// The vector with the place `corrected` in a range of `len` vectors of
/// `size` bytes each lies within the bytes of the range.
proof fn lemma_vector_bounds(corrected: int, len: int, size: int, total: int)
    by (nonlinear_arith)
    requires
        0 <= corrected < len,
        0 <= size,
        size * len <= total,
    ensures
        0 <= corrected * size,
        corrected * size + size <= total,
{
}

/// The whole part of a division, times the divisor, is no more than what was
/// divided.
proof fn lemma_division_bound(total: int, len: int)
    by (nonlinear_arith)
    requires
        0 <= total,
        0 < len,
    ensures
        0 <= total / len,
        (total / len) * len <= total,
        len * (total / len) <= total,
{
}

impl LoadedVectorRange {
    #[verifier::type_invariant]
    spec fn well_formed(self) -> bool {
        self@.wf()
    }

    /// The range `range` with the bytes `vecs` of its vectors. The range
    /// holds a vector at least, and the bytes divide evenly among its
    /// vectors.
    pub fn new(range: Range<usize>, vecs: Vec<u8>) -> (loaded: Self)
        requires
            range.start < range.end,
            vecs@.len() % ((range.end - range.start) as nat) == 0,
        ensures
            loaded@ == (LoadedVectorRangeView {
                start: range.start,
                end: range.end,
                vecs: vecs@,
            }),
    {
        Self { range, vecs }
    }

    /// The range without a vector.
    pub fn empty() -> (loaded: Self)
        ensures
            loaded@ == (LoadedVectorRangeView { start: 0, end: 0, vecs: Seq::empty() }),
    {
        Self { range: 0..0, vecs: Vec::new() }
    }

    /// The size of one vector, in bytes.
    pub fn vector_size(&self) -> (size: usize)
        requires
            self@.len() > 0,
        ensures
            size == self@.vector_size(),
    {
        self.vecs.len() / self.len()
    }

    /// The number of vectors in the range.
    pub fn len(&self) -> (len: usize)
        ensures
            len == self@.len(),
    {
        if self.range.start < self.range.end {
            self.range.end - self.range.start
        } else {
            0
        }
    }

    pub fn is_empty(&self) -> (empty: bool)
        ensures
            empty == (self@.len() == 0),
    {
        self.len() == 0
    }

    /// The bytes of the vector with the index `index`.
    pub fn vector(&self, index: usize) -> (vector: &[u8])
        requires
            self@.start <= index < self@.end,
        ensures
            vector@ == self@.vector(index as int),
    {
        proof {
            use_type_invariant(self);
        }
        let corrected_index = index - self.range.start;
        let vector_size = self.vector_size();
        let total = self.vecs.len();
        proof {
            lemma_division_bound(self.vecs@.len() as int, self@.len());
            lemma_vector_bounds(
                corrected_index as int,
                self@.len(),
                vector_size as int,
                self.vecs@.len() as int,
            );
        }
        let offset = corrected_index * vector_size;
        slice_subrange(self.vecs.as_slice(), offset, offset + vector_size)
    }

    /// The same range, as a range of vectors of the type `T`, which has the
    /// size of the vectors.
    pub fn into_sized<T: Copy>(self) -> (sized: LoadedSizedVectorRange<T>)
        requires
            self@.len() > 0,
            self@.vector_size() == vstd::layout::size_of::<T>(),
        ensures
            sized@ == self@,
    {
        LoadedSizedVectorRange { inner: self, _x: PhantomData }
    }
}

impl<T: Copy> LoadedSizedVectorRange<T> {
    #[verifier::type_invariant]
    spec fn well_formed(self) -> bool {
        self.inner@.len() > 0 && self.inner@.vector_size() == vstd::layout::size_of::<T>()
    }

    /// The size of one vector, in bytes: the size of `T`.
    pub fn vector_size(&self) -> (size: usize)
        ensures
            size == self@.vector_size(),
            size == vstd::layout::size_of::<T>(),
    {
        proof {
            use_type_invariant(self);
        }
        core::mem::size_of::<T>()
    }

    /// The number of vectors in the range.
    pub fn len(&self) -> (len: usize)
        ensures
            len == self@.len(),
    {
        self.inner.len()
    }

    pub fn is_empty(&self) -> (empty: bool)
        ensures
            empty == (self@.len() == 0),
    {
        self.inner.is_empty()
    }

    /// The same range, as a range of bytes.
    pub fn into_unsized(self) -> (loaded: LoadedVectorRange)
        ensures
            loaded@ == self@,
    {
        self.inner
    }
}

} // verus!
