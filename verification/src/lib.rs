//! A strongly typed index that knows what it is indexing: `IndexTo<Data, Idx>`.
//!
//! A typed index wraps a raw index value together with a zero-footprint
//! marker for the element type it resolves to, so that an index minted for a
//! sequence of one element type cannot be presented to a container of
//! another. The capability traits [`HaveTypedIndex`], [`TypedIndex`] and
//! [`TypedIndexMut`] wire the wrapper onto containers, and
//! [`IndexLike`](index_extension::IndexLike) lets the index itself be the
//! receiver: `idx.get(&collection)`.
//!
//! Policy: an index's compile-time identity is its element marker and raw
//! index type alone. The owning container's type is deliberately not part of
//! it, so indices minted on structurally identical containers of the same
//! element type are mutually substitutable.

use vstd::prelude::*;

use core::marker::PhantomData;

use vstd::std_specs::cmp::PartialEqSpec;
use vstd::std_specs::cmp::PartialOrdSpec;

mod index_extension;
mod std_impl;

pub use index_extension::IndexLike;

verus! {

/// A strongly typed index that knows what it is indexing.
///
/// Holds exactly one runtime field, the raw index of type `Idx`; the element
/// marker `Data` is erased at runtime and contributes nothing to the value.
#[derive(Debug, Hash, Ord)]
pub struct IndexTo<Data, Idx = usize> {
    index: Idx,
    index_data: PhantomData<Data>,
}

impl<Data, Idx: Copy> Clone for IndexTo<Data, Idx> {
    /// A copy of the typed index, raw value and markers unchanged.
    fn clone(&self) -> (r: Self)
        ensures
            r == *self,
    {
        IndexTo { index: self.index, index_data: PhantomData }
    }
}

impl<Data, Idx: Copy> Copy for IndexTo<Data, Idx> {

}

impl<Data, Idx: PartialEq> PartialEq for IndexTo<Data, Idx> {
    /// Equality of typed indices forwards to equality of their raw values.
    fn eq(&self, other: &Self) -> bool {
        self.index == other.index
    }
}

impl<Data, Idx: PartialEq> vstd::std_specs::cmp::PartialEqSpecImpl for IndexTo<Data, Idx> {
    open spec fn obeys_eq_spec() -> bool {
        <Idx as vstd::std_specs::cmp::PartialEqSpec>::obeys_eq_spec()
    }

    /// `==` on typed indices means exactly `==` on their raw values.
    open spec fn eq_spec(&self, other: &Self) -> bool {
        self@.eq_spec(&other@)
    }
}

impl<Data, Idx: Eq> Eq for IndexTo<Data, Idx> {

}

impl<Data, Idx: PartialOrd> PartialOrd for IndexTo<Data, Idx> {
    /// Ordering of typed indices forwards to ordering of their raw values.
    fn partial_cmp(&self, other: &Self) -> Option<core::cmp::Ordering> {
        self.index.partial_cmp(&other.index)
    }
}

impl<Data, Idx: PartialOrd> vstd::std_specs::cmp::PartialOrdSpecImpl for IndexTo<Data, Idx> {
    open spec fn obeys_partial_cmp_spec() -> bool {
        <Idx as vstd::std_specs::cmp::PartialOrdSpec>::obeys_partial_cmp_spec()
    }

    /// Comparison of typed indices means exactly comparison of their raw values.
    open spec fn partial_cmp_spec(&self, other: &Self) -> Option<core::cmp::Ordering> {
        self@.partial_cmp_spec(&other@)
    }
}

impl<Data, Idx> View for IndexTo<Data, Idx> {
    type V = Idx;

    /// A typed index is modelled by its raw index value alone.
    closed spec fn view(&self) -> Idx {
        self.index
    }
}

impl<Data, Idx> IndexTo<Data, Idx> {
    /// The typed index whose raw value is `index`.
    pub closed spec fn spec_from_index(index: Idx) -> Self {
        IndexTo { index, index_data: PhantomData }
    }

    /// Wrap a raw index value; total, never fails.
    #[verifier::when_used_as_spec(spec_from_index)]
    pub fn from_index(index: Idx) -> (r: Self)
        ensures
            r == Self::spec_from_index(index),
            r@ == index,
    {
        IndexTo { index, index_data: PhantomData }
    }

    /// The stored raw index value, unchanged.
    pub fn index(self) -> (r: Idx) where Idx: Copy
        ensures
            r == self@,
    {
        self.index
    }

    /// Replace the raw index value in place.
    pub fn set_index(&mut self, index: Idx) -> (r: &mut Self)
        ensures
            *r == Self::spec_from_index(index),
            *final(self) == *final(r),
    {
        self.index = index;
        self
    }

    /// The same typed index with its raw value replaced by `index`.
    pub fn with_index(self, index: Idx) -> (r: Self)
        ensures
            r == Self::spec_from_index(index),
            r@ == index,
    {
        let mut this = self;
        this.set_index(index);
        this
    }
}

/// The capability a container implements to say that it can be read through
/// a typed index over raw index type `Idx`.
///
/// The two spec functions give the mathematical model of the container's own
/// native indexing: which raw positions are valid, and which element stands
/// at each valid position. `typed_index` then mirrors native read access, but
/// only accepts an index whose element marker matches this container's
/// `Output`; presenting an index minted for another element type is rejected
/// before the program runs. Out-of-range access is likewise excluded, by the
/// `requires` clause.
pub trait TypedIndex<Idx> {
    /// The element type that indexing yields.
    type Output;

    /// Whether raw position `i` is valid in `self`.
    spec fn valid_index(&self, i: Idx) -> bool;

    /// The element at raw position `i` of `self`.
    spec fn at_index(&self, i: Idx) -> Self::Output;

    /// Performs the read indexing operation with a typed index.
    fn typed_index(&self, index: IndexTo<Self::Output, Idx>) -> (r: &Self::Output)
        requires
            self.valid_index(index@),
        ensures
            *r == self.at_index(index@),
    ;
}

/// The capability a container implements to say that it can be written
/// through a typed index over raw index type `Idx`.
pub trait TypedIndexMut<Idx>: TypedIndex<Idx> {
    /// Performs the mutable indexing operation with a typed index.
    ///
    /// The returned borrow aims at position `index@` alone: once it resolves,
    /// that position holds the value written through it, every other valid
    /// position is unchanged, and the set of valid positions is unchanged.
    fn typed_index_mut(&mut self, index: IndexTo<Self::Output, Idx>) -> (r: &mut Self::Output)
        requires
            old(self).valid_index(index@),
        ensures
            *r == old(self).at_index(index@),
            final(self).at_index(index@) == *final(r),
            forall|j: Idx| #![trigger final(self).valid_index(j)]
                (final(self).valid_index(j) <==> old(self).valid_index(j)),
            forall|j: Idx|
                #![trigger final(self).at_index(j)]
                #![trigger old(self).at_index(j)]
                (old(self).valid_index(j) && j != index@ ==> final(self).at_index(
                    j,
                ) == old(self).at_index(j)),
    ;
}

/// The capability a container implements to say that it can mint a typed
/// index for itself: given a raw index, return an [`IndexTo`] whose element
/// marker is whatever this container's indexing yields.
///
/// Minting is total: the raw value is not checked against the container's
/// length. The default method body is the whole definition, so a container
/// opts in by declaring conformance alone.
pub trait HaveTypedIndex<Idx>: TypedIndex<Idx> {
    /// A strongly typed index for this container, carrying raw value `index`.
    fn index_to(&self, index: Idx) -> (r: IndexTo<Self::Output, Idx>)
        ensures
            r == IndexTo::<Self::Output, Idx>::spec_from_index(index),
            r@ == index,
    {
        IndexTo::from_index(index)
    }
}

/// Round-trip law: a typed index minted from raw value `v` carries exactly `v`.
pub proof fn lemma_from_index_round_trip<Data, Idx>(v: Idx)
    ensures
        IndexTo::<Data, Idx>::spec_from_index(v)@ == v,
{
}

/// Two typed indices over the same markers are equal exactly when their raw
/// values are equal.
pub proof fn lemma_eq_congruent_with_raw<Data, Idx>(a: IndexTo<Data, Idx>, b: IndexTo<Data, Idx>)
    ensures
        (a == b) <==> (a@ == b@),
{
}

/// Minting law: reading a container through the typed index minted for raw
/// value `v` observes the same element as reading directly at raw position
/// `v`.
pub proof fn lemma_minted_index_reads_at_raw<T, Idx>(c: &T, v: Idx) where
    T: TypedIndex<Idx> + ?Sized,

    requires
        c.valid_index(v),
    ensures
        c.at_index(IndexTo::<T::Output, Idx>::spec_from_index(v)@) == c.at_index(v),
{
}

/// Reverse-access symmetry: `idx.get(&c)` reads the container at the same
/// raw position as the container's own read access with `idx`, so both
/// observe the same element.
pub proof fn lemma_reverse_access_symmetry<T, Idx: Copy>(
    c: &T,
    idx: IndexTo<T::Output, Idx>,
) where T: TypedIndex<Idx> + ?Sized
    requires
        c.valid_index(idx@),
    ensures
        c.at_index(idx.raw_of()) == c.at_index(idx@),
{
}

/// Mutation law: a container in the state that a mutate access leaves behind
/// once the value `x` has been written through it, read back with an equal
/// typed index, observes `x`.
pub proof fn lemma_mutate_then_read<T, Idx>(
    pre: &T,
    post: &T,
    idx: IndexTo<T::Output, Idx>,
    idx2: IndexTo<T::Output, Idx>,
    x: T::Output,
) where T: TypedIndexMut<Idx> + ?Sized
    requires
        pre.valid_index(idx@),
        post.at_index(idx@) == x,
        forall|j: Idx| #![trigger post.valid_index(j)]
            (post.valid_index(j) <==> pre.valid_index(j)),
        idx2 == idx,
    ensures
        post.valid_index(idx2@),
        post.at_index(idx2@) == x,
{
}

} // verus!
