//! Built-in bindings of the typed-index capabilities onto common sequence
//! containers: growable sequences (`Vec`), fixed-size sequence views (`[T]`),
//! and byte-oriented text buffers (`str`, at byte granularity).
//!
//! Each binding forwards the typed index's raw value into the container's
//! existing native indexing operation, with no additional logic.

use vstd::prelude::*;

use crate::HaveTypedIndex;
use crate::IndexTo;
use crate::TypedIndex;
use crate::TypedIndexMut;
use vstd::string::StringSliceAdditionalSpecFns;

verus! {

impl<T> TypedIndex<usize> for Vec<T> {
    type Output = T;

    open spec fn valid_index(&self, i: usize) -> bool {
        i < self@.len()
    }

    open spec fn at_index(&self, i: usize) -> T {
        self@[i as int]
    }

    fn typed_index(&self, index: IndexTo<T, usize>) -> (r: &T) {
        &self[index.index()]
    }
}

impl<T> TypedIndexMut<usize> for Vec<T> {
    fn typed_index_mut(&mut self, index: IndexTo<T, usize>) -> (r: &mut T) {
        &mut self[index.index()]
    }
}

impl<T> HaveTypedIndex<usize> for Vec<T> {

}

impl<T> TypedIndex<usize> for [T] {
    type Output = T;

    open spec fn valid_index(&self, i: usize) -> bool {
        i < self@.len()
    }

    open spec fn at_index(&self, i: usize) -> T {
        self@[i as int]
    }

    fn typed_index(&self, index: IndexTo<T, usize>) -> (r: &T) {
        &self[index.index()]
    }
}

/// Relies on std's mutable slice indexing, `<usize as SliceIndex<[T]>>::index_mut`:
/// `&mut slice[i]` borrows exactly the element at position `i`, so once the
/// borrow resolves the slice holds the value written through it at `i` and is
/// unchanged elsewhere. Out-of-bounds positions, on which std indexing
/// panics, are excluded by the precondition.
#[verifier::external_body]
fn slice_index_mut<T>(slice: &mut [T], i: usize) -> (r: &mut T)
    requires
        i < old(slice)@.len(),
    ensures
        *r == old(slice)@[i as int],
        final(slice)@ == old(slice)@.update(i as int, *final(r)),
{
    &mut slice[i]
}

impl<T> TypedIndexMut<usize> for [T] {
    fn typed_index_mut(&mut self, index: IndexTo<T, usize>) -> (r: &mut T) {
        slice_index_mut(self, index.index())
    }
}

impl<T> HaveTypedIndex<usize> for [T] {

}

impl TypedIndex<usize> for str {
    type Output = u8;

    open spec fn valid_index(&self, i: usize) -> bool {
        i < self.spec_bytes().len()
    }

    open spec fn at_index(&self, i: usize) -> u8 {
        self.spec_bytes()[i as int]
    }

    fn typed_index(&self, index: IndexTo<u8, usize>) -> (r: &u8) {
        &self.as_bytes()[index.index()]
    }
}

impl HaveTypedIndex<usize> for str {

}

} // verus!
