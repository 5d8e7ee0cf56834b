//! The filter engine: two cooperating recursions over a nested element list
//! and its nested Include/Exclude marker list, one computing the output
//! type, one computing the output value.

use core::marker::PhantomData;

use vstd::prelude::*;

use crate::nest::{NestedArity, TupleNest, TupleUnnest, EOT};
use crate::{TypeMap, TypePair};

verus! {

/// Include this tuple item in the final result.
#[derive(Default)]
pub struct TupleFilterInclude();

/// Exclude this tuple item from the final result.
#[derive(Default)]
pub struct TupleFilterExclude();

/// Type-level filtering: walks a nested element-type list (`Input`) in lock
/// step with its nested Include/Exclude marker list, keeping the head type
/// on Include and dropping it on Exclude; both lists reach the sentinel
/// together, which yields the sentinel. A marker other than the two, or
/// lists of different lengths, leave the trait unimplemented, so the request
/// is rejected when the program is built.
pub trait TupleFiltered {
    type Input;

    type Output;
}

impl<H1, T1, T2> TupleFiltered for TypePair<(H1, T1), (TupleFilterExclude, T2)> where
    TypePair<T1, T2>: TupleFiltered,
 {
    type Input = (H1, T1);

    type Output = <TypePair<T1, T2> as TupleFiltered>::Output;
}

impl<H1, T1, T2> TupleFiltered for TypePair<(H1, T1), (TupleFilterInclude, T2)> where
    TypePair<T1, T2>: TupleFiltered,
 {
    type Input = (H1, T1);

    type Output = (H1, <TypePair<T1, T2> as TupleFiltered>::Output);
}

impl TupleFiltered for TypePair<EOT, EOT> {
    type Output = EOT;

    type Input = EOT;
}

/// Value-level filtering, mirroring [`TupleFiltered`] exactly: on Include
/// the head value is kept and prepended to the filtered tail, on Exclude it
/// is dropped and the filtered tail is returned unchanged, so retained
/// elements keep their relative order. `filter_spec` gives the output value
/// in full and `filter` is pinned to it. `include_count` counts the Include
/// markers in the marker list, and `filter_arity` is the obligation,
/// discharged by every implementation, that the output arity equals that
/// count.
pub trait TupleFilteredValue<I> {
    type Output: NestedArity;

    spec fn include_count() -> nat;

    spec fn filter_spec(input: I) -> Self::Output;

    fn filter(input: I) -> (r: Self::Output)
        ensures
            r == Self::filter_spec(input),
    ;

    proof fn filter_arity()
        ensures
            <Self::Output as NestedArity>::arity() == Self::include_count(),
    ;
}

impl<H1, T1, T2> TupleFilteredValue<(H1, T1)> for TypePair<(H1, T1), (TupleFilterInclude, T2)> where
    TypePair<T1, T2>: TupleFilteredValue<T1>,
 {
    type Output = (H1, <TypePair<T1, T2> as TupleFilteredValue<T1>>::Output);

    open spec fn include_count() -> nat {
        1 + <TypePair<T1, T2> as TupleFilteredValue<T1>>::include_count()
    }

    open spec fn filter_spec(input: (H1, T1)) -> Self::Output {
        (input.0, <TypePair<T1, T2> as TupleFilteredValue<T1>>::filter_spec(input.1))
    }

    fn filter(input: (H1, T1)) -> Self::Output {
        let r = (input.0, <TypePair<T1, T2> as TupleFilteredValue<T1>>::filter(input.1));
        r
    }

    proof fn filter_arity() {
        <TypePair<T1, T2> as TupleFilteredValue<T1>>::filter_arity();
    }
}

impl<H1, T1, T2> TupleFilteredValue<(H1, T1)> for TypePair<(H1, T1), (TupleFilterExclude, T2)> where
    TypePair<T1, T2>: TupleFilteredValue<T1>,
 {
    type Output = <TypePair<T1, T2> as TupleFilteredValue<T1>>::Output;

    open spec fn include_count() -> nat {
        <TypePair<T1, T2> as TupleFilteredValue<T1>>::include_count()
    }

    open spec fn filter_spec(input: (H1, T1)) -> Self::Output {
        <TypePair<T1, T2> as TupleFilteredValue<T1>>::filter_spec(input.1)
    }

    fn filter(input: (H1, T1)) -> Self::Output {
        <TypePair<T1, T2> as TupleFilteredValue<T1>>::filter(input.1)
    }

    proof fn filter_arity() {
        <TypePair<T1, T2> as TupleFilteredValue<T1>>::filter_arity();
    }
}

impl TupleFilteredValue<EOT> for TypePair<EOT, EOT> {
    type Output = EOT;

    open spec fn include_count() -> nat {
        0
    }

    open spec fn filter_spec(input: EOT) -> EOT {
        EOT
    }

    fn filter(_input: EOT) -> EOT {
        EOT
    }

    proof fn filter_arity() {
    }
}

/// Filtering with a marker list made only of Include markers is the
/// identity: the filtered value equals the input unchanged (and the output
/// type is the input type). Discharged by the sentinel and by every
/// all-Include cons cell, so it holds for every supported arity.
pub trait TupleFilterIdentity<I>: TupleFilteredValue<I, Output = I> {
    proof fn filter_identity(input: I)
        ensures
            Self::filter_spec(input) == input,
    ;
}

impl TupleFilterIdentity<EOT> for TypePair<EOT, EOT> {
    proof fn filter_identity(input: EOT) {
    }
}

impl<H1, T1, T2> TupleFilterIdentity<(H1, T1)> for TypePair<(H1, T1), (TupleFilterInclude, T2)> where
    TypePair<T1, T2>: TupleFilterIdentity<T1>,
 {
    proof fn filter_identity(input: (H1, T1)) {
        <TypePair<T1, T2> as TupleFilterIdentity<T1>>::filter_identity(input.1);
    }
}

/// Drives the whole filtering operation for a tuple: nest the input, filter
/// the nested value, unnest the result. `do_filter_spec` composes the spec
/// forms of those three steps, and `do_filter` is pinned to it.
pub trait TupleFilterer<TUPLE> {
    type Output;

    spec fn do_filter_spec(&self, tuple: TUPLE) -> Self::Output;

    fn do_filter(&self, tuple: TUPLE) -> (r: Self::Output)
        ensures
            r == self.do_filter_spec(tuple),
    ;
}

/// Selects the filtering operation for a tuple type and a predicate; both
/// parameters are phantom, so a value of this type carries no data.
pub struct TupleFilter<T, P>(PhantomData<(T, P)>);

impl<T, P> TupleFilter<T, P> {
    /// The one value of this type: it carries no data, and both
    /// constructors return it, so every filter for `T` under `P` behaves
    /// alike.
    pub closed spec fn spec_value() -> Self {
        TupleFilter(PhantomData)
    }

    /// Makes a filter for the tuple type `T` under the predicate `P`.
    pub fn of() -> (r: Self)
        ensures
            r == Self::spec_value(),
    {
        TupleFilter(PhantomData)
    }

    /// Makes a filter for the tuple type of the given reference under the
    /// predicate `P`, letting `T` be read off an existing value.
    pub fn of_ref(_tuple: &T) -> (r: Self)
        ensures
            r == Self::spec_value(),
    {
        TupleFilter(PhantomData)
    }
}

/// This is a helper type that makes this slightly less painful to work with.
type Filterer<TUPLE, PREDICATE> = TypePair<
    <TUPLE as TupleNest>::Nested,
    <<TUPLE as TupleNest>::Nested as TypeMap<PREDICATE>>::Mapped,
>;

impl<TUPLE, PREDICATE> TupleFilterer<TUPLE> for TupleFilter<TUPLE, PREDICATE> where
    TUPLE: TupleNest,
    <TUPLE as TupleNest>::Nested: TypeMap<PREDICATE>,
    Filterer<TUPLE, PREDICATE>: TupleFilteredValue<<TUPLE as TupleNest>::Nested>,
    <Filterer<TUPLE, PREDICATE> as TupleFilteredValue<<TUPLE as TupleNest>::Nested>>::Output: TupleUnnest,
 {
    type Output = <<Filterer<TUPLE, PREDICATE> as TupleFilteredValue<
        <TUPLE as TupleNest>::Nested,
    >>::Output as TupleUnnest>::Unnested;

    open spec fn do_filter_spec(&self, tuple: TUPLE) -> Self::Output {
        <Filterer<TUPLE, PREDICATE> as TupleFilteredValue<<TUPLE as TupleNest>::Nested>>::filter_spec(
            tuple.nest_spec(),
        ).unnest_spec()
    }

    fn do_filter(&self, tuple: TUPLE) -> Self::Output {
        let nested = tuple.nest();
        <Filterer<TUPLE, PREDICATE> as TupleFilteredValue<<TUPLE as TupleNest>::Nested>>::filter(
            nested,
        ).unnest()
    }
}

/// The zero-element tuple filtered by any predicate yields the zero-element
/// tuple: the boundary case of the filtering operation.
pub proof fn lemma_filter_empty<PREDICATE>(filter: TupleFilter<(), PREDICATE>, tuple: ())
    ensures
        filter.do_filter_spec(tuple) == (),
{
}

} // verus!
