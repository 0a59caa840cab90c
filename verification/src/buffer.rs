//! Slices of typed buffers: a borrowed buffer plus a byte offset and a
//! byte size, with element-indexed narrowing for buffers of arrays.

use vstd::prelude::*;
use vstd::arithmetic::div_mod::{lemma_fundamental_div_mod, lemma_mod_bound};

use std::marker::PhantomData;
use std::ops::Range;
use std::sync::Arc;

verus! {

/// A buffer whose contents have a statically known type, and which can
/// report its size in bytes.
pub trait TypedBuffer {
    /// The type of the buffer's contents.
    type Content: ?Sized;

    /// The size of the buffer in bytes, usable in specifications.
    spec fn spec_size(&self) -> usize;

    /// The size of the buffer in bytes.
    fn size(&self) -> (r: usize)
        ensures
            r == self.spec_size(),
    ;
}

/// The simplest typed buffer: a byte vector owned in host memory.
pub struct OwnedBuffer {
    data: Vec<u8>,
}

impl OwnedBuffer {
    /// Wraps a byte vector as a buffer.
    pub fn new(data: Vec<u8>) -> (r: OwnedBuffer)
        ensures
            r.spec_size() == data@.len(),
    {
        // Reading the length brings its usize bound into scope for the
        // postcondition.
        let _n = data.len();
        OwnedBuffer { data }
    }
}

impl TypedBuffer for OwnedBuffer {
    type Content = [u8];

    closed spec fn spec_size(&self) -> usize {
        self.data@.len() as usize
    }

    fn size(&self) -> (r: usize) {
        self.data.len()
    }
}

/// A subpart of a buffer: the buffer it borrows, a byte offset into it,
/// and a byte size. Building one performs no operation on the buffer.
pub struct BufferSlice<'a, T: ?Sized, B> {
    marker: PhantomData<T>,
    resource: &'a Arc<B>,
    offset: usize,
    size: usize,
}

impl<'a, T: ?Sized, B> BufferSlice<'a, T, B> {
    /// The buffer this slice borrows, usable in specifications.
    pub closed spec fn spec_buffer(self) -> &'a Arc<B> {
        self.resource
    }

    /// The byte offset of the slice, usable in specifications.
    pub closed spec fn spec_offset(self) -> usize {
        self.offset
    }

    /// The byte size of the slice, usable in specifications.
    pub closed spec fn spec_size(self) -> usize {
        self.size
    }

    /// The slice's byte range does not overflow the address space.
    pub closed spec fn wf(self) -> bool {
        self.offset + self.size <= usize::MAX
    }

    /// Returns the buffer that this slice belongs to.
    pub fn buffer(&self) -> (r: &'a Arc<B>)
        ensures
            r == self.spec_buffer(),
    {
        self.resource
    }

    /// Returns the offset of that slice within the buffer.
    pub fn offset(&self) -> (r: usize)
        ensures
            r == self.spec_offset(),
    {
        self.offset
    }

    /// Returns the size of that slice in bytes.
    pub fn size(&self) -> (r: usize)
        ensures
            r == self.spec_size(),
    {
        self.size
    }
}

impl<'a, T: ?Sized, B> Clone for BufferSlice<'a, T, B> {
    /// A slice is freely copyable; the copy borrows the same buffer.
    fn clone(&self) -> (r: Self)
        ensures
            r == *self,
    {
        BufferSlice {
            marker: PhantomData,
            resource: self.resource,
            offset: self.offset,
            size: self.size,
        }
    }
}

/// With `i <= bytes / sz`, the scaled index `i * sz` stays within `bytes`.
proof fn lemma_scaled_index_bound(i: int, bytes: int, sz: int)
    requires
        sz > 0,
        bytes >= 0,
        0 <= i <= bytes / sz,
    ensures
        i * sz <= bytes,
{
    lemma_fundamental_div_mod(bytes, sz);
    lemma_mod_bound(bytes, sz);
    assert(i * sz <= (bytes / sz) * sz) by (nonlinear_arith)
        requires
            i <= bytes / sz,
            sz > 0,
    ;
}

impl<'a, T, B> BufferSlice<'a, [T], B> {
    /// How many whole elements of `T` the slice's byte size holds.
    pub open spec fn spec_len(self) -> int {
        self.spec_size() as int / core::mem::size_of::<T>() as int
    }

    /// Returns the number of elements in this slice.
    pub fn len(&self) -> (r: usize)
        requires
            core::mem::size_of::<T>() > 0,
        ensures
            r == self.spec_len(),
    {
        self.size / core::mem::size_of::<T>()
    }

    /// Reduces the slice to just one element of the array.
    ///
    /// Returns `None` if out of range.
    pub fn index(self, index: usize) -> (r: Option<BufferSlice<'a, T, B>>)
        requires
            self.wf(),
            core::mem::size_of::<T>() > 0,
        ensures
            match r {
                Some(s) => {
                    &&& index < self.spec_len()
                    &&& s.wf()
                    &&& s.spec_buffer() == self.spec_buffer()
                    &&& s.spec_offset() == self.spec_offset() + index * core::mem::size_of::<T>()
                    &&& s.spec_size() == core::mem::size_of::<T>()
                },
                None => index >= self.spec_len(),
            },
    {
        if index >= self.len() {
            return None;
        }
        let sz = core::mem::size_of::<T>();
        proof {
            lemma_scaled_index_bound(index + 1, self.size as int, sz as int);
            assert((index + 1) * sz == index * sz + sz) by (nonlinear_arith);
        }
        Some(
            BufferSlice {
                marker: PhantomData,
                resource: self.resource,
                offset: self.offset + index * sz,
                size: sz,
            },
        )
    }

    /// Reduces the slice to just a range of the array.
    ///
    /// Returns `None` if out of range.
    pub fn slice(self, range: Range<usize>) -> (r: Option<BufferSlice<'a, [T], B>>)
        requires
            self.wf(),
            core::mem::size_of::<T>() > 0,
            range.start <= range.end,
        ensures
            match r {
                Some(s) => {
                    &&& range.end <= self.spec_len()
                    &&& s.wf()
                    &&& s.spec_buffer() == self.spec_buffer()
                    &&& s.spec_offset() == self.spec_offset() + range.start * core::mem::size_of::<
                        T,
                    >()
                    &&& s.spec_size() == (range.end - range.start) * core::mem::size_of::<T>()
                },
                None => range.end > self.spec_len(),
            },
    {
        if range.end > self.len() {
            return None;
        }
        let sz = core::mem::size_of::<T>();
        proof {
            lemma_scaled_index_bound(range.end as int, self.size as int, sz as int);
            assert(range.start * sz + (range.end - range.start) * sz == range.end * sz)
                by (nonlinear_arith);
            assert(range.start * sz <= range.end * sz) by (nonlinear_arith)
                requires
                    range.start <= range.end,
                    sz > 0,
            ;
        }
        Some(
            BufferSlice {
                marker: PhantomData,
                resource: self.resource,
                offset: self.offset + range.start * sz,
                size: (range.end - range.start) * sz,
            },
        )
    }
}

impl<'a, T: ?Sized + 'static, B: TypedBuffer<Content = T>> From<&'a Arc<B>> for BufferSlice<'a, T, B> {
    /// A slice covering the whole buffer.
    fn from(r: &'a Arc<B>) -> (s: BufferSlice<'a, T, B>) {
        BufferSlice { marker: PhantomData, resource: r, offset: 0, size: r.size() }
    }
}

impl<'a, T: ?Sized + 'static, B: TypedBuffer<Content = T>> vstd::std_specs::convert::FromSpecImpl<&'a Arc<B>> for BufferSlice<'a, T, B> {
    open spec fn obeys_from_spec() -> bool {
        true
    }

    closed spec fn from_spec(r: &'a Arc<B>) -> BufferSlice<'a, T, B> {
        BufferSlice { marker: PhantomData, resource: r, offset: 0, size: (**r).spec_size() }
    }
}

} // verus!
