//! Generic-programming toolkit for heterogeneous fixed-size tuples.
//!
//! A flat tuple `(A, B, C)` is converted losslessly to the right-nested
//! cons form `(A, (B, (C, EOT)))`; type-level map, filter and value-level
//! reduce operations walk that nested form one element at a time, and the
//! result is converted back to a flat tuple (or folded into an accumulator).
//! Every structural decision is resolved statically through trait
//! resolution: there is no runtime type inspection, and an element type
//! without the needed association is rejected when the program is built.
//!
//! Tuples of up to sixteen elements are supported; a longer tuple has no
//! implementation of the nesting traits, so using one is likewise rejected
//! when the program is built.

use vstd::prelude::*;

mod filter;
mod map;
mod nest;
mod reduce;

pub use filter::{
    lemma_filter_empty, TupleFilter, TupleFilterExclude, TupleFilterIdentity, TupleFilterInclude,
    TupleFiltered, TupleFilteredValue, TupleFilterer,
};
pub use map::TupleMapper;
pub use nest::{NestRoundTrip, NestedArity, TupleNest, TupleUnnest, UnnestRoundTrip, EOT};
pub use reduce::{lemma_reduce_deterministic, TupleReducer, TupleReducerCapable};

verus! {

/// Represents a type mapping operation. The type parameter `P` represents the
/// operation: a zero-data marker naming which per-type association table to
/// consult. An element type without an association under `P` has no `TypeMap`
/// implementation, so requesting the mapping is rejected when the program is
/// built; there is no default association.
pub trait TypeMap<P> {
    type Mapped;
}

impl<P> TypeMap<P> for EOT {
    type Mapped = EOT;
}

impl<PREDICATE, OUTPUT, H: TypeMap<PREDICATE, Mapped = OUTPUT>, T> TypeMap<PREDICATE> for (H, T) where
    T: TypeMap<PREDICATE>,
 {
    type Mapped = (OUTPUT, <T as TypeMap<PREDICATE>>::Mapped);
}

/// A pair of types, used to walk an element-type list and its marker list in
/// lock step during filtering. It is never constructed: it exists only during
/// type resolution.
pub struct TypePair<T1, T2>(T1, T2);

/// Recovers the two components of a [`TypePair`].
pub trait TypePairExtract {
    type T1;

    type T2;
}

impl<T1, T2> TypePairExtract for TypePair<T1, T2> {
    type T1 = T1;

    type T2 = T2;
}

/// Type-level map preserves arity: a nested element-type list and its
/// element-wise image under any predicate have the same length. Discharged
/// by the sentinel (both sides empty) and by every cons cell, so it holds
/// for every supported arity.
pub trait TypeMapArity<P>: TypeMap<P> + NestedArity where Self::Mapped: NestedArity {
    proof fn map_preserves_arity()
        ensures
            <Self::Mapped as NestedArity>::arity() == Self::arity(),
    ;
}

impl<P> TypeMapArity<P> for EOT {
    proof fn map_preserves_arity() {
    }
}

impl<P, O, H: TypeMap<P, Mapped = O>, T> TypeMapArity<P> for (H, T) where
    T: TypeMapArity<P>,
    <T as TypeMap<P>>::Mapped: NestedArity,
 {
    proof fn map_preserves_arity() {
        T::map_preserves_arity();
    }
}

} // verus!
