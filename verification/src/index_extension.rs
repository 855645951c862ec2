//! Reverse-direction access: the index value itself is the receiver.
//!
//! [`IndexLike`] lets an index be applied to a container as
//! `index.get(&collection)` or `index.get_mut(&mut collection)`, simply
//! invoking the container's typed-access operations with the arguments
//! swapped. It is implemented by the typed index itself and, for convenience,
//! by the bare raw index type `usize`, so an untyped raw index can be used in
//! the same calling style.

use vstd::prelude::*;

use crate::IndexTo;
use crate::TypedIndex;
use crate::TypedIndexMut;

verus! {

/// An index value over element type `Elem` and raw index type `Raw` that can
/// be used as the receiver of an access: `index.get(&collection)`.
///
/// Purely a symmetry layer: both methods forward to the container's own
/// typed-access operations and promise exactly what those promise.
pub trait IndexLike<Elem, Raw>: Copy + Sized {
    /// The raw position in the container that this index value stands for.
    spec fn raw_of(self) -> Raw;

    /// Read access to the element of `inside` at this index's position.
    fn get<T>(self, inside: &T) -> (r: &Elem) where T: TypedIndex<Raw, Output = Elem> + ?Sized
        requires
            inside.valid_index(self.raw_of()),
        ensures
            *r == inside.at_index(self.raw_of()),
    ;

    /// Mutable access to the element of `inside` at this index's position.
    fn get_mut<T>(self, inside: &mut T) -> (r: &mut Elem) where
        T: TypedIndexMut<Raw, Output = Elem> + ?Sized,

        requires
            old(inside).valid_index(self.raw_of()),
        ensures
            *r == old(inside).at_index(self.raw_of()),
            final(inside).at_index(self.raw_of()) == *final(r),
            forall|j: Raw| #![trigger final(inside).valid_index(j)]
                (final(inside).valid_index(j) <==> old(inside).valid_index(j)),
            forall|j: Raw|
                #![trigger final(inside).at_index(j)]
                #![trigger old(inside).at_index(j)]
                (old(inside).valid_index(j) && j != self.raw_of() ==> final(inside).at_index(
                    j,
                ) == old(inside).at_index(j)),
    ;
}

impl<Data, Idx: Copy> IndexLike<Data, Idx> for IndexTo<Data, Idx> {
    /// A typed index stands for its raw index value.
    open spec fn raw_of(self) -> Idx {
        self@
    }

    fn get<T>(self, inside: &T) -> (r: &Data) where T: TypedIndex<Idx, Output = Data> + ?Sized {
        inside.typed_index(self)
    }

    fn get_mut<T>(self, inside: &mut T) -> (r: &mut Data) where
        T: TypedIndexMut<Idx, Output = Data> + ?Sized,
     {
        inside.typed_index_mut(self)
    }
}

impl<Elem> IndexLike<Elem, usize> for usize {
    /// A bare raw index stands for itself.
    open spec fn raw_of(self) -> usize {
        self
    }

    fn get<T>(self, inside: &T) -> (r: &Elem) where T: TypedIndex<usize, Output = Elem> + ?Sized {
        inside.typed_index(IndexTo::from_index(self))
    }

    fn get_mut<T>(self, inside: &mut T) -> (r: &mut Elem) where
        T: TypedIndexMut<usize, Output = Elem> + ?Sized,
     {
        inside.typed_index_mut(IndexTo::from_index(self))
    }
}

} // verus!
