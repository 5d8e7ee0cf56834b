//! The reducer: folds a flat heterogeneous tuple into an accumulator of a
//! single fixed type, one element at a time, strictly left to right.

use vstd::prelude::*;

use crate::nest::{TupleNest, EOT};

verus! {

/// Perform a reduce operation given the current accumulator and the input
/// type `F`.
///
/// Implementers register one combine binding per (accumulator type, element
/// type) pair; a tuple containing an element type with no binding for the
/// chosen accumulator type leaves [`TupleReducerCapable`] unimplemented, so
/// the fold is rejected when the program is built. `reduce_one_spec` names
/// the value an implementation's `reduce_one` must return, so a fold over
/// bindings verified against it is pinned down exactly. The default, which
/// promises nothing of the combine's value, is for implementations written
/// outside verified code; a verified implementation gives its own body.
pub trait TupleReducer<I, F> {
    open spec fn reduce_one_spec(collect: I, from: F) -> I {
        arbitrary()
    }

    fn reduce_one(collect: I, from: F) -> (r: I)
        ensures
            r == Self::reduce_one_spec(collect, from),
    ;
}

/// A trait which gives the ability for a reducer to reduce a given tuple.
/// This trait is available for all reducers, for all tuples containing types
/// supported by that reducer.
///
/// `reduce_spec` states the fold in full: the combine bindings applied to
/// the seed strictly left to right, one application per element, every
/// element visited exactly once. `reduce` is pinned to it, so for a fixed
/// tuple value, seed and bindings the accumulator is determined; the
/// zero-element tuple reduces to the untouched seed.
///
/// See [`TupleReducer`] for more information.
pub trait TupleReducerCapable<T, U> {
    spec fn reduce_spec(tuple: U, input: T) -> T;

    fn reduce(tuple: U, input: T) -> (r: T)
        ensures
            r == Self::reduce_spec(tuple, input),
    ;
}

/// Any two results that both meet the contract of
/// [`TupleReducerCapable::reduce`] for the same tuple and seed are equal:
/// the fold has no hidden source of nondeterminism.
pub proof fn lemma_reduce_deterministic<REDUCER, TARGET, TUPLE>(
    tuple: TUPLE,
    input: TARGET,
    r1: TARGET,
    r2: TARGET,
) where REDUCER: TupleReducerCapable<TARGET, TUPLE>
    requires
        r1 == REDUCER::reduce_spec(tuple, input),
        r2 == REDUCER::reduce_spec(tuple, input),
    ensures
        r1 == r2,
{
}

impl<REDUCER, TARGET> TupleReducerCapable<TARGET, ()> for REDUCER {
    open spec fn reduce_spec(tuple: (), input: TARGET) -> TARGET {
        input
    }

    fn reduce(_tuple: (), input: TARGET) -> TARGET {
        input
    }
}

impl<REDUCER, TARGET, A> TupleReducerCapable<TARGET, (A,)> for REDUCER where
    REDUCER: TupleReducer<TARGET, A>,
 {
    open spec fn reduce_spec(tuple: (A,), input: TARGET) -> TARGET {
        <REDUCER as TupleReducer<TARGET, A>>::reduce_one_spec(input, tuple.0)
    }

    fn reduce(tuple: (A,), input: TARGET) -> TARGET {
        let this = tuple.nest();
        let accum = input;
        let accum = <REDUCER as TupleReducer<TARGET, A>>::reduce_one(accum, this.0);
        let this = this.1;
        let _eot: EOT = this;
        accum
    }
}

impl<REDUCER, TARGET, A, B> TupleReducerCapable<TARGET, (A, B)> for REDUCER where
    REDUCER: TupleReducer<TARGET, A>,
    REDUCER: TupleReducer<TARGET, B>,
 {
    open spec fn reduce_spec(tuple: (A, B), input: TARGET) -> TARGET {
        <REDUCER as TupleReducer<TARGET, B>>::reduce_one_spec(<REDUCER as TupleReducer<TARGET, A>>::reduce_one_spec(input, tuple.0), tuple.1)
    }

    fn reduce(tuple: (A, B), input: TARGET) -> TARGET {
        let this = tuple.nest();
        let accum = input;
        let accum = <REDUCER as TupleReducer<TARGET, A>>::reduce_one(accum, this.0);
        let this = this.1;
        let accum = <REDUCER as TupleReducer<TARGET, B>>::reduce_one(accum, this.0);
        let this = this.1;
        let _eot: EOT = this;
        accum
    }
}

impl<REDUCER, TARGET, A, B, C> TupleReducerCapable<TARGET, (A, B, C)> for REDUCER where
    REDUCER: TupleReducer<TARGET, A>,
    REDUCER: TupleReducer<TARGET, B>,
    REDUCER: TupleReducer<TARGET, C>,
 {
    open spec fn reduce_spec(tuple: (A, B, C), input: TARGET) -> TARGET {
        <REDUCER as TupleReducer<TARGET, C>>::reduce_one_spec(<REDUCER as TupleReducer<TARGET, B>>::reduce_one_spec(<REDUCER as TupleReducer<TARGET, A>>::reduce_one_spec(input, tuple.0), tuple.1), tuple.2)
    }

    fn reduce(tuple: (A, B, C), input: TARGET) -> TARGET {
        let this = tuple.nest();
        let accum = input;
        let accum = <REDUCER as TupleReducer<TARGET, A>>::reduce_one(accum, this.0);
        let this = this.1;
        let accum = <REDUCER as TupleReducer<TARGET, B>>::reduce_one(accum, this.0);
        let this = this.1;
        let accum = <REDUCER as TupleReducer<TARGET, C>>::reduce_one(accum, this.0);
        let this = this.1;
        let _eot: EOT = this;
        accum
    }
}

impl<REDUCER, TARGET, A, B, C, D> TupleReducerCapable<TARGET, (A, B, C, D)> for REDUCER where
    REDUCER: TupleReducer<TARGET, A>,
    REDUCER: TupleReducer<TARGET, B>,
    REDUCER: TupleReducer<TARGET, C>,
    REDUCER: TupleReducer<TARGET, D>,
 {
    open spec fn reduce_spec(tuple: (A, B, C, D), input: TARGET) -> TARGET {
        <REDUCER as TupleReducer<TARGET, D>>::reduce_one_spec(<REDUCER as TupleReducer<TARGET, C>>::reduce_one_spec(<REDUCER as TupleReducer<TARGET, B>>::reduce_one_spec(<REDUCER as TupleReducer<TARGET, A>>::reduce_one_spec(input, tuple.0), tuple.1), tuple.2), tuple.3)
    }

    fn reduce(tuple: (A, B, C, D), input: TARGET) -> TARGET {
        let this = tuple.nest();
        let accum = input;
        let accum = <REDUCER as TupleReducer<TARGET, A>>::reduce_one(accum, this.0);
        let this = this.1;
        let accum = <REDUCER as TupleReducer<TARGET, B>>::reduce_one(accum, this.0);
        let this = this.1;
        let accum = <REDUCER as TupleReducer<TARGET, C>>::reduce_one(accum, this.0);
        let this = this.1;
        let accum = <REDUCER as TupleReducer<TARGET, D>>::reduce_one(accum, this.0);
        let this = this.1;
        let _eot: EOT = this;
        accum
    }
}

impl<REDUCER, TARGET, A, B, C, D, E> TupleReducerCapable<TARGET, (A, B, C, D, E)> for REDUCER where
    REDUCER: TupleReducer<TARGET, A>,
    REDUCER: TupleReducer<TARGET, B>,
    REDUCER: TupleReducer<TARGET, C>,
    REDUCER: TupleReducer<TARGET, D>,
    REDUCER: TupleReducer<TARGET, E>,
 {
    open spec fn reduce_spec(tuple: (A, B, C, D, E), input: TARGET) -> TARGET {
        <REDUCER as TupleReducer<TARGET, E>>::reduce_one_spec(<REDUCER as TupleReducer<TARGET, D>>::reduce_one_spec(<REDUCER as TupleReducer<TARGET, C>>::reduce_one_spec(<REDUCER as TupleReducer<TARGET, B>>::reduce_one_spec(<REDUCER as TupleReducer<TARGET, A>>::reduce_one_spec(input, tuple.0), tuple.1), tuple.2), tuple.3), tuple.4)
    }

    fn reduce(tuple: (A, B, C, D, E), input: TARGET) -> TARGET {
        let this = tuple.nest();
        let accum = input;
        let accum = <REDUCER as TupleReducer<TARGET, A>>::reduce_one(accum, this.0);
        let this = this.1;
        let accum = <REDUCER as TupleReducer<TARGET, B>>::reduce_one(accum, this.0);
        let this = this.1;
        let accum = <REDUCER as TupleReducer<TARGET, C>>::reduce_one(accum, this.0);
        let this = this.1;
        let accum = <REDUCER as TupleReducer<TARGET, D>>::reduce_one(accum, this.0);
        let this = this.1;
        let accum = <REDUCER as TupleReducer<TARGET, E>>::reduce_one(accum, this.0);
        let this = this.1;
        let _eot: EOT = this;
        accum
    }
}

impl<REDUCER, TARGET, A, B, C, D, E, F> TupleReducerCapable<TARGET, (A, B, C, D, E, F)> for REDUCER where
    REDUCER: TupleReducer<TARGET, A>,
    REDUCER: TupleReducer<TARGET, B>,
    REDUCER: TupleReducer<TARGET, C>,
    REDUCER: TupleReducer<TARGET, D>,
    REDUCER: TupleReducer<TARGET, E>,
    REDUCER: TupleReducer<TARGET, F>,
 {
    open spec fn reduce_spec(tuple: (A, B, C, D, E, F), input: TARGET) -> TARGET {
        <REDUCER as TupleReducer<TARGET, F>>::reduce_one_spec(<REDUCER as TupleReducer<TARGET, E>>::reduce_one_spec(<REDUCER as TupleReducer<TARGET, D>>::reduce_one_spec(<REDUCER as TupleReducer<TARGET, C>>::reduce_one_spec(<REDUCER as TupleReducer<TARGET, B>>::reduce_one_spec(<REDUCER as TupleReducer<TARGET, A>>::reduce_one_spec(input, tuple.0), tuple.1), tuple.2), tuple.3), tuple.4), tuple.5)
    }

    fn reduce(tuple: (A, B, C, D, E, F), input: TARGET) -> TARGET {
        let this = tuple.nest();
        let accum = input;
        let accum = <REDUCER as TupleReducer<TARGET, A>>::reduce_one(accum, this.0);
        let this = this.1;
        let accum = <REDUCER as TupleReducer<TARGET, B>>::reduce_one(accum, this.0);
        let this = this.1;
        let accum = <REDUCER as TupleReducer<TARGET, C>>::reduce_one(accum, this.0);
        let this = this.1;
        let accum = <REDUCER as TupleReducer<TARGET, D>>::reduce_one(accum, this.0);
        let this = this.1;
        let accum = <REDUCER as TupleReducer<TARGET, E>>::reduce_one(accum, this.0);
        let this = this.1;
        let accum = <REDUCER as TupleReducer<TARGET, F>>::reduce_one(accum, this.0);
        let this = this.1;
        let _eot: EOT = this;
        accum
    }
}

impl<REDUCER, TARGET, A, B, C, D, E, F, G> TupleReducerCapable<TARGET, (A, B, C, D, E, F, G)> for REDUCER where
    REDUCER: TupleReducer<TARGET, A>,
    REDUCER: TupleReducer<TARGET, B>,
    REDUCER: TupleReducer<TARGET, C>,
    REDUCER: TupleReducer<TARGET, D>,
    REDUCER: TupleReducer<TARGET, E>,
    REDUCER: TupleReducer<TARGET, F>,
    REDUCER: TupleReducer<TARGET, G>,
 {
    open spec fn reduce_spec(tuple: (A, B, C, D, E, F, G), input: TARGET) -> TARGET {
        <REDUCER as TupleReducer<TARGET, G>>::reduce_one_spec(<REDUCER as TupleReducer<TARGET, F>>::reduce_one_spec(<REDUCER as TupleReducer<TARGET, E>>::reduce_one_spec(<REDUCER as TupleReducer<TARGET, D>>::reduce_one_spec(<REDUCER as TupleReducer<TARGET, C>>::reduce_one_spec(<REDUCER as TupleReducer<TARGET, B>>::reduce_one_spec(<REDUCER as TupleReducer<TARGET, A>>::reduce_one_spec(input, tuple.0), tuple.1), tuple.2), tuple.3), tuple.4), tuple.5), tuple.6)
    }

    fn reduce(tuple: (A, B, C, D, E, F, G), input: TARGET) -> TARGET {
        let this = tuple.nest();
        let accum = input;
        let accum = <REDUCER as TupleReducer<TARGET, A>>::reduce_one(accum, this.0);
        let this = this.1;
        let accum = <REDUCER as TupleReducer<TARGET, B>>::reduce_one(accum, this.0);
        let this = this.1;
        let accum = <REDUCER as TupleReducer<TARGET, C>>::reduce_one(accum, this.0);
        let this = this.1;
        let accum = <REDUCER as TupleReducer<TARGET, D>>::reduce_one(accum, this.0);
        let this = this.1;
        let accum = <REDUCER as TupleReducer<TARGET, E>>::reduce_one(accum, this.0);
        let this = this.1;
        let accum = <REDUCER as TupleReducer<TARGET, F>>::reduce_one(accum, this.0);
        let this = this.1;
        let accum = <REDUCER as TupleReducer<TARGET, G>>::reduce_one(accum, this.0);
        let this = this.1;
        let _eot: EOT = this;
        accum
    }
}

impl<REDUCER, TARGET, A, B, C, D, E, F, G, H> TupleReducerCapable<TARGET, (A, B, C, D, E, F, G, H)> for REDUCER where
    REDUCER: TupleReducer<TARGET, A>,
    REDUCER: TupleReducer<TARGET, B>,
    REDUCER: TupleReducer<TARGET, C>,
    REDUCER: TupleReducer<TARGET, D>,
    REDUCER: TupleReducer<TARGET, E>,
    REDUCER: TupleReducer<TARGET, F>,
    REDUCER: TupleReducer<TARGET, G>,
    REDUCER: TupleReducer<TARGET, H>,
 {
    open spec fn reduce_spec(tuple: (A, B, C, D, E, F, G, H), input: TARGET) -> TARGET {
        <REDUCER as TupleReducer<TARGET, H>>::reduce_one_spec(<REDUCER as TupleReducer<TARGET, G>>::reduce_one_spec(<REDUCER as TupleReducer<TARGET, F>>::reduce_one_spec(<REDUCER as TupleReducer<TARGET, E>>::reduce_one_spec(<REDUCER as TupleReducer<TARGET, D>>::reduce_one_spec(<REDUCER as TupleReducer<TARGET, C>>::reduce_one_spec(<REDUCER as TupleReducer<TARGET, B>>::reduce_one_spec(<REDUCER as TupleReducer<TARGET, A>>::reduce_one_spec(input, tuple.0), tuple.1), tuple.2), tuple.3), tuple.4), tuple.5), tuple.6), tuple.7)
    }

    fn reduce(tuple: (A, B, C, D, E, F, G, H), input: TARGET) -> TARGET {
        let this = tuple.nest();
        let accum = input;
        let accum = <REDUCER as TupleReducer<TARGET, A>>::reduce_one(accum, this.0);
        let this = this.1;
        let accum = <REDUCER as TupleReducer<TARGET, B>>::reduce_one(accum, this.0);
        let this = this.1;
        let accum = <REDUCER as TupleReducer<TARGET, C>>::reduce_one(accum, this.0);
        let this = this.1;
        let accum = <REDUCER as TupleReducer<TARGET, D>>::reduce_one(accum, this.0);
        let this = this.1;
        let accum = <REDUCER as TupleReducer<TARGET, E>>::reduce_one(accum, this.0);
        let this = this.1;
        let accum = <REDUCER as TupleReducer<TARGET, F>>::reduce_one(accum, this.0);
        let this = this.1;
        let accum = <REDUCER as TupleReducer<TARGET, G>>::reduce_one(accum, this.0);
        let this = this.1;
        let accum = <REDUCER as TupleReducer<TARGET, H>>::reduce_one(accum, this.0);
        let this = this.1;
        let _eot: EOT = this;
        accum
    }
}

impl<REDUCER, TARGET, A, B, C, D, E, F, G, H, I> TupleReducerCapable<TARGET, (A, B, C, D, E, F, G, H, I)> for REDUCER where
    REDUCER: TupleReducer<TARGET, A>,
    REDUCER: TupleReducer<TARGET, B>,
    REDUCER: TupleReducer<TARGET, C>,
    REDUCER: TupleReducer<TARGET, D>,
    REDUCER: TupleReducer<TARGET, E>,
    REDUCER: TupleReducer<TARGET, F>,
    REDUCER: TupleReducer<TARGET, G>,
    REDUCER: TupleReducer<TARGET, H>,
    REDUCER: TupleReducer<TARGET, I>,
 {
    open spec fn reduce_spec(tuple: (A, B, C, D, E, F, G, H, I), input: TARGET) -> TARGET {
        <REDUCER as TupleReducer<TARGET, I>>::reduce_one_spec(<REDUCER as TupleReducer<TARGET, H>>::reduce_one_spec(<REDUCER as TupleReducer<TARGET, G>>::reduce_one_spec(<REDUCER as TupleReducer<TARGET, F>>::reduce_one_spec(<REDUCER as TupleReducer<TARGET, E>>::reduce_one_spec(<REDUCER as TupleReducer<TARGET, D>>::reduce_one_spec(<REDUCER as TupleReducer<TARGET, C>>::reduce_one_spec(<REDUCER as TupleReducer<TARGET, B>>::reduce_one_spec(<REDUCER as TupleReducer<TARGET, A>>::reduce_one_spec(input, tuple.0), tuple.1), tuple.2), tuple.3), tuple.4), tuple.5), tuple.6), tuple.7), tuple.8)
    }

    fn reduce(tuple: (A, B, C, D, E, F, G, H, I), input: TARGET) -> TARGET {
        let this = tuple.nest();
        let accum = input;
        let accum = <REDUCER as TupleReducer<TARGET, A>>::reduce_one(accum, this.0);
        let this = this.1;
        let accum = <REDUCER as TupleReducer<TARGET, B>>::reduce_one(accum, this.0);
        let this = this.1;
        let accum = <REDUCER as TupleReducer<TARGET, C>>::reduce_one(accum, this.0);
        let this = this.1;
        let accum = <REDUCER as TupleReducer<TARGET, D>>::reduce_one(accum, this.0);
        let this = this.1;
        let accum = <REDUCER as TupleReducer<TARGET, E>>::reduce_one(accum, this.0);
        let this = this.1;
        let accum = <REDUCER as TupleReducer<TARGET, F>>::reduce_one(accum, this.0);
        let this = this.1;
        let accum = <REDUCER as TupleReducer<TARGET, G>>::reduce_one(accum, this.0);
        let this = this.1;
        let accum = <REDUCER as TupleReducer<TARGET, H>>::reduce_one(accum, this.0);
        let this = this.1;
        let accum = <REDUCER as TupleReducer<TARGET, I>>::reduce_one(accum, this.0);
        let this = this.1;
        let _eot: EOT = this;
        accum
    }
}

impl<REDUCER, TARGET, A, B, C, D, E, F, G, H, I, J> TupleReducerCapable<TARGET, (A, B, C, D, E, F, G, H, I, J)> for REDUCER where
    REDUCER: TupleReducer<TARGET, A>,
    REDUCER: TupleReducer<TARGET, B>,
    REDUCER: TupleReducer<TARGET, C>,
    REDUCER: TupleReducer<TARGET, D>,
    REDUCER: TupleReducer<TARGET, E>,
    REDUCER: TupleReducer<TARGET, F>,
    REDUCER: TupleReducer<TARGET, G>,
    REDUCER: TupleReducer<TARGET, H>,
    REDUCER: TupleReducer<TARGET, I>,
    REDUCER: TupleReducer<TARGET, J>,
 {
    open spec fn reduce_spec(tuple: (A, B, C, D, E, F, G, H, I, J), input: TARGET) -> TARGET {
        <REDUCER as TupleReducer<TARGET, J>>::reduce_one_spec(<REDUCER as TupleReducer<TARGET, I>>::reduce_one_spec(<REDUCER as TupleReducer<TARGET, H>>::reduce_one_spec(<REDUCER as TupleReducer<TARGET, G>>::reduce_one_spec(<REDUCER as TupleReducer<TARGET, F>>::reduce_one_spec(<REDUCER as TupleReducer<TARGET, E>>::reduce_one_spec(<REDUCER as TupleReducer<TARGET, D>>::reduce_one_spec(<REDUCER as TupleReducer<TARGET, C>>::reduce_one_spec(<REDUCER as TupleReducer<TARGET, B>>::reduce_one_spec(<REDUCER as TupleReducer<TARGET, A>>::reduce_one_spec(input, tuple.0), tuple.1), tuple.2), tuple.3), tuple.4), tuple.5), tuple.6), tuple.7), tuple.8), tuple.9)
    }

    fn reduce(tuple: (A, B, C, D, E, F, G, H, I, J), input: TARGET) -> TARGET {
        let this = tuple.nest();
        let accum = input;
        let accum = <REDUCER as TupleReducer<TARGET, A>>::reduce_one(accum, this.0);
        let this = this.1;
        let accum = <REDUCER as TupleReducer<TARGET, B>>::reduce_one(accum, this.0);
        let this = this.1;
        let accum = <REDUCER as TupleReducer<TARGET, C>>::reduce_one(accum, this.0);
        let this = this.1;
        let accum = <REDUCER as TupleReducer<TARGET, D>>::reduce_one(accum, this.0);
        let this = this.1;
        let accum = <REDUCER as TupleReducer<TARGET, E>>::reduce_one(accum, this.0);
        let this = this.1;
        let accum = <REDUCER as TupleReducer<TARGET, F>>::reduce_one(accum, this.0);
        let this = this.1;
        let accum = <REDUCER as TupleReducer<TARGET, G>>::reduce_one(accum, this.0);
        let this = this.1;
        let accum = <REDUCER as TupleReducer<TARGET, H>>::reduce_one(accum, this.0);
        let this = this.1;
        let accum = <REDUCER as TupleReducer<TARGET, I>>::reduce_one(accum, this.0);
        let this = this.1;
        let accum = <REDUCER as TupleReducer<TARGET, J>>::reduce_one(accum, this.0);
        let this = this.1;
        let _eot: EOT = this;
        accum
    }
}

impl<REDUCER, TARGET, A, B, C, D, E, F, G, H, I, J, K> TupleReducerCapable<TARGET, (A, B, C, D, E, F, G, H, I, J, K)> for REDUCER where
    REDUCER: TupleReducer<TARGET, A>,
    REDUCER: TupleReducer<TARGET, B>,
    REDUCER: TupleReducer<TARGET, C>,
    REDUCER: TupleReducer<TARGET, D>,
    REDUCER: TupleReducer<TARGET, E>,
    REDUCER: TupleReducer<TARGET, F>,
    REDUCER: TupleReducer<TARGET, G>,
    REDUCER: TupleReducer<TARGET, H>,
    REDUCER: TupleReducer<TARGET, I>,
    REDUCER: TupleReducer<TARGET, J>,
    REDUCER: TupleReducer<TARGET, K>,
 {
    open spec fn reduce_spec(tuple: (A, B, C, D, E, F, G, H, I, J, K), input: TARGET) -> TARGET {
        <REDUCER as TupleReducer<TARGET, K>>::reduce_one_spec(<REDUCER as TupleReducer<TARGET, J>>::reduce_one_spec(<REDUCER as TupleReducer<TARGET, I>>::reduce_one_spec(<REDUCER as TupleReducer<TARGET, H>>::reduce_one_spec(<REDUCER as TupleReducer<TARGET, G>>::reduce_one_spec(<REDUCER as TupleReducer<TARGET, F>>::reduce_one_spec(<REDUCER as TupleReducer<TARGET, E>>::reduce_one_spec(<REDUCER as TupleReducer<TARGET, D>>::reduce_one_spec(<REDUCER as TupleReducer<TARGET, C>>::reduce_one_spec(<REDUCER as TupleReducer<TARGET, B>>::reduce_one_spec(<REDUCER as TupleReducer<TARGET, A>>::reduce_one_spec(input, tuple.0), tuple.1), tuple.2), tuple.3), tuple.4), tuple.5), tuple.6), tuple.7), tuple.8), tuple.9), tuple.10)
    }

    fn reduce(tuple: (A, B, C, D, E, F, G, H, I, J, K), input: TARGET) -> TARGET {
        let this = tuple.nest();
        let accum = input;
        let accum = <REDUCER as TupleReducer<TARGET, A>>::reduce_one(accum, this.0);
        let this = this.1;
        let accum = <REDUCER as TupleReducer<TARGET, B>>::reduce_one(accum, this.0);
        let this = this.1;
        let accum = <REDUCER as TupleReducer<TARGET, C>>::reduce_one(accum, this.0);
        let this = this.1;
        let accum = <REDUCER as TupleReducer<TARGET, D>>::reduce_one(accum, this.0);
        let this = this.1;
        let accum = <REDUCER as TupleReducer<TARGET, E>>::reduce_one(accum, this.0);
        let this = this.1;
        let accum = <REDUCER as TupleReducer<TARGET, F>>::reduce_one(accum, this.0);
        let this = this.1;
        let accum = <REDUCER as TupleReducer<TARGET, G>>::reduce_one(accum, this.0);
        let this = this.1;
        let accum = <REDUCER as TupleReducer<TARGET, H>>::reduce_one(accum, this.0);
        let this = this.1;
        let accum = <REDUCER as TupleReducer<TARGET, I>>::reduce_one(accum, this.0);
        let this = this.1;
        let accum = <REDUCER as TupleReducer<TARGET, J>>::reduce_one(accum, this.0);
        let this = this.1;
        let accum = <REDUCER as TupleReducer<TARGET, K>>::reduce_one(accum, this.0);
        let this = this.1;
        let _eot: EOT = this;
        accum
    }
}

impl<REDUCER, TARGET, A, B, C, D, E, F, G, H, I, J, K, L> TupleReducerCapable<TARGET, (A, B, C, D, E, F, G, H, I, J, K, L)> for REDUCER where
    REDUCER: TupleReducer<TARGET, A>,
    REDUCER: TupleReducer<TARGET, B>,
    REDUCER: TupleReducer<TARGET, C>,
    REDUCER: TupleReducer<TARGET, D>,
    REDUCER: TupleReducer<TARGET, E>,
    REDUCER: TupleReducer<TARGET, F>,
    REDUCER: TupleReducer<TARGET, G>,
    REDUCER: TupleReducer<TARGET, H>,
    REDUCER: TupleReducer<TARGET, I>,
    REDUCER: TupleReducer<TARGET, J>,
    REDUCER: TupleReducer<TARGET, K>,
    REDUCER: TupleReducer<TARGET, L>,
 {
    open spec fn reduce_spec(tuple: (A, B, C, D, E, F, G, H, I, J, K, L), input: TARGET) -> TARGET {
        <REDUCER as TupleReducer<TARGET, L>>::reduce_one_spec(<REDUCER as TupleReducer<TARGET, K>>::reduce_one_spec(<REDUCER as TupleReducer<TARGET, J>>::reduce_one_spec(<REDUCER as TupleReducer<TARGET, I>>::reduce_one_spec(<REDUCER as TupleReducer<TARGET, H>>::reduce_one_spec(<REDUCER as TupleReducer<TARGET, G>>::reduce_one_spec(<REDUCER as TupleReducer<TARGET, F>>::reduce_one_spec(<REDUCER as TupleReducer<TARGET, E>>::reduce_one_spec(<REDUCER as TupleReducer<TARGET, D>>::reduce_one_spec(<REDUCER as TupleReducer<TARGET, C>>::reduce_one_spec(<REDUCER as TupleReducer<TARGET, B>>::reduce_one_spec(<REDUCER as TupleReducer<TARGET, A>>::reduce_one_spec(input, tuple.0), tuple.1), tuple.2), tuple.3), tuple.4), tuple.5), tuple.6), tuple.7), tuple.8), tuple.9), tuple.10), tuple.11)
    }

    fn reduce(tuple: (A, B, C, D, E, F, G, H, I, J, K, L), input: TARGET) -> TARGET {
        let this = tuple.nest();
        let accum = input;
        let accum = <REDUCER as TupleReducer<TARGET, A>>::reduce_one(accum, this.0);
        let this = this.1;
        let accum = <REDUCER as TupleReducer<TARGET, B>>::reduce_one(accum, this.0);
        let this = this.1;
        let accum = <REDUCER as TupleReducer<TARGET, C>>::reduce_one(accum, this.0);
        let this = this.1;
        let accum = <REDUCER as TupleReducer<TARGET, D>>::reduce_one(accum, this.0);
        let this = this.1;
        let accum = <REDUCER as TupleReducer<TARGET, E>>::reduce_one(accum, this.0);
        let this = this.1;
        let accum = <REDUCER as TupleReducer<TARGET, F>>::reduce_one(accum, this.0);
        let this = this.1;
        let accum = <REDUCER as TupleReducer<TARGET, G>>::reduce_one(accum, this.0);
        let this = this.1;
        let accum = <REDUCER as TupleReducer<TARGET, H>>::reduce_one(accum, this.0);
        let this = this.1;
        let accum = <REDUCER as TupleReducer<TARGET, I>>::reduce_one(accum, this.0);
        let this = this.1;
        let accum = <REDUCER as TupleReducer<TARGET, J>>::reduce_one(accum, this.0);
        let this = this.1;
        let accum = <REDUCER as TupleReducer<TARGET, K>>::reduce_one(accum, this.0);
        let this = this.1;
        let accum = <REDUCER as TupleReducer<TARGET, L>>::reduce_one(accum, this.0);
        let this = this.1;
        let _eot: EOT = this;
        accum
    }
}

impl<REDUCER, TARGET, A, B, C, D, E, F, G, H, I, J, K, L, M> TupleReducerCapable<TARGET, (A, B, C, D, E, F, G, H, I, J, K, L, M)> for REDUCER where
    REDUCER: TupleReducer<TARGET, A>,
    REDUCER: TupleReducer<TARGET, B>,
    REDUCER: TupleReducer<TARGET, C>,
    REDUCER: TupleReducer<TARGET, D>,
    REDUCER: TupleReducer<TARGET, E>,
    REDUCER: TupleReducer<TARGET, F>,
    REDUCER: TupleReducer<TARGET, G>,
    REDUCER: TupleReducer<TARGET, H>,
    REDUCER: TupleReducer<TARGET, I>,
    REDUCER: TupleReducer<TARGET, J>,
    REDUCER: TupleReducer<TARGET, K>,
    REDUCER: TupleReducer<TARGET, L>,
    REDUCER: TupleReducer<TARGET, M>,
 {
    open spec fn reduce_spec(tuple: (A, B, C, D, E, F, G, H, I, J, K, L, M), input: TARGET) -> TARGET {
        <REDUCER as TupleReducer<TARGET, M>>::reduce_one_spec(<REDUCER as TupleReducer<TARGET, L>>::reduce_one_spec(<REDUCER as TupleReducer<TARGET, K>>::reduce_one_spec(<REDUCER as TupleReducer<TARGET, J>>::reduce_one_spec(<REDUCER as TupleReducer<TARGET, I>>::reduce_one_spec(<REDUCER as TupleReducer<TARGET, H>>::reduce_one_spec(<REDUCER as TupleReducer<TARGET, G>>::reduce_one_spec(<REDUCER as TupleReducer<TARGET, F>>::reduce_one_spec(<REDUCER as TupleReducer<TARGET, E>>::reduce_one_spec(<REDUCER as TupleReducer<TARGET, D>>::reduce_one_spec(<REDUCER as TupleReducer<TARGET, C>>::reduce_one_spec(<REDUCER as TupleReducer<TARGET, B>>::reduce_one_spec(<REDUCER as TupleReducer<TARGET, A>>::reduce_one_spec(input, tuple.0), tuple.1), tuple.2), tuple.3), tuple.4), tuple.5), tuple.6), tuple.7), tuple.8), tuple.9), tuple.10), tuple.11), tuple.12)
    }

    fn reduce(tuple: (A, B, C, D, E, F, G, H, I, J, K, L, M), input: TARGET) -> TARGET {
        let this = tuple.nest();
        let accum = input;
        let accum = <REDUCER as TupleReducer<TARGET, A>>::reduce_one(accum, this.0);
        let this = this.1;
        let accum = <REDUCER as TupleReducer<TARGET, B>>::reduce_one(accum, this.0);
        let this = this.1;
        let accum = <REDUCER as TupleReducer<TARGET, C>>::reduce_one(accum, this.0);
        let this = this.1;
        let accum = <REDUCER as TupleReducer<TARGET, D>>::reduce_one(accum, this.0);
        let this = this.1;
        let accum = <REDUCER as TupleReducer<TARGET, E>>::reduce_one(accum, this.0);
        let this = this.1;
        let accum = <REDUCER as TupleReducer<TARGET, F>>::reduce_one(accum, this.0);
        let this = this.1;
        let accum = <REDUCER as TupleReducer<TARGET, G>>::reduce_one(accum, this.0);
        let this = this.1;
        let accum = <REDUCER as TupleReducer<TARGET, H>>::reduce_one(accum, this.0);
        let this = this.1;
        let accum = <REDUCER as TupleReducer<TARGET, I>>::reduce_one(accum, this.0);
        let this = this.1;
        let accum = <REDUCER as TupleReducer<TARGET, J>>::reduce_one(accum, this.0);
        let this = this.1;
        let accum = <REDUCER as TupleReducer<TARGET, K>>::reduce_one(accum, this.0);
        let this = this.1;
        let accum = <REDUCER as TupleReducer<TARGET, L>>::reduce_one(accum, this.0);
        let this = this.1;
        let accum = <REDUCER as TupleReducer<TARGET, M>>::reduce_one(accum, this.0);
        let this = this.1;
        let _eot: EOT = this;
        accum
    }
}

impl<REDUCER, TARGET, A, B, C, D, E, F, G, H, I, J, K, L, M, N> TupleReducerCapable<TARGET, (A, B, C, D, E, F, G, H, I, J, K, L, M, N)> for REDUCER where
    REDUCER: TupleReducer<TARGET, A>,
    REDUCER: TupleReducer<TARGET, B>,
    REDUCER: TupleReducer<TARGET, C>,
    REDUCER: TupleReducer<TARGET, D>,
    REDUCER: TupleReducer<TARGET, E>,
    REDUCER: TupleReducer<TARGET, F>,
    REDUCER: TupleReducer<TARGET, G>,
    REDUCER: TupleReducer<TARGET, H>,
    REDUCER: TupleReducer<TARGET, I>,
    REDUCER: TupleReducer<TARGET, J>,
    REDUCER: TupleReducer<TARGET, K>,
    REDUCER: TupleReducer<TARGET, L>,
    REDUCER: TupleReducer<TARGET, M>,
    REDUCER: TupleReducer<TARGET, N>,
 {
    open spec fn reduce_spec(tuple: (A, B, C, D, E, F, G, H, I, J, K, L, M, N), input: TARGET) -> TARGET {
        <REDUCER as TupleReducer<TARGET, N>>::reduce_one_spec(<REDUCER as TupleReducer<TARGET, M>>::reduce_one_spec(<REDUCER as TupleReducer<TARGET, L>>::reduce_one_spec(<REDUCER as TupleReducer<TARGET, K>>::reduce_one_spec(<REDUCER as TupleReducer<TARGET, J>>::reduce_one_spec(<REDUCER as TupleReducer<TARGET, I>>::reduce_one_spec(<REDUCER as TupleReducer<TARGET, H>>::reduce_one_spec(<REDUCER as TupleReducer<TARGET, G>>::reduce_one_spec(<REDUCER as TupleReducer<TARGET, F>>::reduce_one_spec(<REDUCER as TupleReducer<TARGET, E>>::reduce_one_spec(<REDUCER as TupleReducer<TARGET, D>>::reduce_one_spec(<REDUCER as TupleReducer<TARGET, C>>::reduce_one_spec(<REDUCER as TupleReducer<TARGET, B>>::reduce_one_spec(<REDUCER as TupleReducer<TARGET, A>>::reduce_one_spec(input, tuple.0), tuple.1), tuple.2), tuple.3), tuple.4), tuple.5), tuple.6), tuple.7), tuple.8), tuple.9), tuple.10), tuple.11), tuple.12), tuple.13)
    }

    fn reduce(tuple: (A, B, C, D, E, F, G, H, I, J, K, L, M, N), input: TARGET) -> TARGET {
        let this = tuple.nest();
        let accum = input;
        let accum = <REDUCER as TupleReducer<TARGET, A>>::reduce_one(accum, this.0);
        let this = this.1;
        let accum = <REDUCER as TupleReducer<TARGET, B>>::reduce_one(accum, this.0);
        let this = this.1;
        let accum = <REDUCER as TupleReducer<TARGET, C>>::reduce_one(accum, this.0);
        let this = this.1;
        let accum = <REDUCER as TupleReducer<TARGET, D>>::reduce_one(accum, this.0);
        let this = this.1;
        let accum = <REDUCER as TupleReducer<TARGET, E>>::reduce_one(accum, this.0);
        let this = this.1;
        let accum = <REDUCER as TupleReducer<TARGET, F>>::reduce_one(accum, this.0);
        let this = this.1;
        let accum = <REDUCER as TupleReducer<TARGET, G>>::reduce_one(accum, this.0);
        let this = this.1;
        let accum = <REDUCER as TupleReducer<TARGET, H>>::reduce_one(accum, this.0);
        let this = this.1;
        let accum = <REDUCER as TupleReducer<TARGET, I>>::reduce_one(accum, this.0);
        let this = this.1;
        let accum = <REDUCER as TupleReducer<TARGET, J>>::reduce_one(accum, this.0);
        let this = this.1;
        let accum = <REDUCER as TupleReducer<TARGET, K>>::reduce_one(accum, this.0);
        let this = this.1;
        let accum = <REDUCER as TupleReducer<TARGET, L>>::reduce_one(accum, this.0);
        let this = this.1;
        let accum = <REDUCER as TupleReducer<TARGET, M>>::reduce_one(accum, this.0);
        let this = this.1;
        let accum = <REDUCER as TupleReducer<TARGET, N>>::reduce_one(accum, this.0);
        let this = this.1;
        let _eot: EOT = this;
        accum
    }
}

impl<REDUCER, TARGET, A, B, C, D, E, F, G, H, I, J, K, L, M, N, O> TupleReducerCapable<TARGET, (A, B, C, D, E, F, G, H, I, J, K, L, M, N, O)> for REDUCER where
    REDUCER: TupleReducer<TARGET, A>,
    REDUCER: TupleReducer<TARGET, B>,
    REDUCER: TupleReducer<TARGET, C>,
    REDUCER: TupleReducer<TARGET, D>,
    REDUCER: TupleReducer<TARGET, E>,
    REDUCER: TupleReducer<TARGET, F>,
    REDUCER: TupleReducer<TARGET, G>,
    REDUCER: TupleReducer<TARGET, H>,
    REDUCER: TupleReducer<TARGET, I>,
    REDUCER: TupleReducer<TARGET, J>,
    REDUCER: TupleReducer<TARGET, K>,
    REDUCER: TupleReducer<TARGET, L>,
    REDUCER: TupleReducer<TARGET, M>,
    REDUCER: TupleReducer<TARGET, N>,
    REDUCER: TupleReducer<TARGET, O>,
 {
    open spec fn reduce_spec(tuple: (A, B, C, D, E, F, G, H, I, J, K, L, M, N, O), input: TARGET) -> TARGET {
        <REDUCER as TupleReducer<TARGET, O>>::reduce_one_spec(<REDUCER as TupleReducer<TARGET, N>>::reduce_one_spec(<REDUCER as TupleReducer<TARGET, M>>::reduce_one_spec(<REDUCER as TupleReducer<TARGET, L>>::reduce_one_spec(<REDUCER as TupleReducer<TARGET, K>>::reduce_one_spec(<REDUCER as TupleReducer<TARGET, J>>::reduce_one_spec(<REDUCER as TupleReducer<TARGET, I>>::reduce_one_spec(<REDUCER as TupleReducer<TARGET, H>>::reduce_one_spec(<REDUCER as TupleReducer<TARGET, G>>::reduce_one_spec(<REDUCER as TupleReducer<TARGET, F>>::reduce_one_spec(<REDUCER as TupleReducer<TARGET, E>>::reduce_one_spec(<REDUCER as TupleReducer<TARGET, D>>::reduce_one_spec(<REDUCER as TupleReducer<TARGET, C>>::reduce_one_spec(<REDUCER as TupleReducer<TARGET, B>>::reduce_one_spec(<REDUCER as TupleReducer<TARGET, A>>::reduce_one_spec(input, tuple.0), tuple.1), tuple.2), tuple.3), tuple.4), tuple.5), tuple.6), tuple.7), tuple.8), tuple.9), tuple.10), tuple.11), tuple.12), tuple.13), tuple.14)
    }

    fn reduce(tuple: (A, B, C, D, E, F, G, H, I, J, K, L, M, N, O), input: TARGET) -> TARGET {
        let this = tuple.nest();
        let accum = input;
        let accum = <REDUCER as TupleReducer<TARGET, A>>::reduce_one(accum, this.0);
        let this = this.1;
        let accum = <REDUCER as TupleReducer<TARGET, B>>::reduce_one(accum, this.0);
        let this = this.1;
        let accum = <REDUCER as TupleReducer<TARGET, C>>::reduce_one(accum, this.0);
        let this = this.1;
        let accum = <REDUCER as TupleReducer<TARGET, D>>::reduce_one(accum, this.0);
        let this = this.1;
        let accum = <REDUCER as TupleReducer<TARGET, E>>::reduce_one(accum, this.0);
        let this = this.1;
        let accum = <REDUCER as TupleReducer<TARGET, F>>::reduce_one(accum, this.0);
        let this = this.1;
        let accum = <REDUCER as TupleReducer<TARGET, G>>::reduce_one(accum, this.0);
        let this = this.1;
        let accum = <REDUCER as TupleReducer<TARGET, H>>::reduce_one(accum, this.0);
        let this = this.1;
        let accum = <REDUCER as TupleReducer<TARGET, I>>::reduce_one(accum, this.0);
        let this = this.1;
        let accum = <REDUCER as TupleReducer<TARGET, J>>::reduce_one(accum, this.0);
        let this = this.1;
        let accum = <REDUCER as TupleReducer<TARGET, K>>::reduce_one(accum, this.0);
        let this = this.1;
        let accum = <REDUCER as TupleReducer<TARGET, L>>::reduce_one(accum, this.0);
        let this = this.1;
        let accum = <REDUCER as TupleReducer<TARGET, M>>::reduce_one(accum, this.0);
        let this = this.1;
        let accum = <REDUCER as TupleReducer<TARGET, N>>::reduce_one(accum, this.0);
        let this = this.1;
        let accum = <REDUCER as TupleReducer<TARGET, O>>::reduce_one(accum, this.0);
        let this = this.1;
        let _eot: EOT = this;
        accum
    }
}

impl<REDUCER, TARGET, A, B, C, D, E, F, G, H, I, J, K, L, M, N, O, P> TupleReducerCapable<TARGET, (A, B, C, D, E, F, G, H, I, J, K, L, M, N, O, P)> for REDUCER where
    REDUCER: TupleReducer<TARGET, A>,
    REDUCER: TupleReducer<TARGET, B>,
    REDUCER: TupleReducer<TARGET, C>,
    REDUCER: TupleReducer<TARGET, D>,
    REDUCER: TupleReducer<TARGET, E>,
    REDUCER: TupleReducer<TARGET, F>,
    REDUCER: TupleReducer<TARGET, G>,
    REDUCER: TupleReducer<TARGET, H>,
    REDUCER: TupleReducer<TARGET, I>,
    REDUCER: TupleReducer<TARGET, J>,
    REDUCER: TupleReducer<TARGET, K>,
    REDUCER: TupleReducer<TARGET, L>,
    REDUCER: TupleReducer<TARGET, M>,
    REDUCER: TupleReducer<TARGET, N>,
    REDUCER: TupleReducer<TARGET, O>,
    REDUCER: TupleReducer<TARGET, P>,
 {
    open spec fn reduce_spec(tuple: (A, B, C, D, E, F, G, H, I, J, K, L, M, N, O, P), input: TARGET) -> TARGET {
        <REDUCER as TupleReducer<TARGET, P>>::reduce_one_spec(<REDUCER as TupleReducer<TARGET, O>>::reduce_one_spec(<REDUCER as TupleReducer<TARGET, N>>::reduce_one_spec(<REDUCER as TupleReducer<TARGET, M>>::reduce_one_spec(<REDUCER as TupleReducer<TARGET, L>>::reduce_one_spec(<REDUCER as TupleReducer<TARGET, K>>::reduce_one_spec(<REDUCER as TupleReducer<TARGET, J>>::reduce_one_spec(<REDUCER as TupleReducer<TARGET, I>>::reduce_one_spec(<REDUCER as TupleReducer<TARGET, H>>::reduce_one_spec(<REDUCER as TupleReducer<TARGET, G>>::reduce_one_spec(<REDUCER as TupleReducer<TARGET, F>>::reduce_one_spec(<REDUCER as TupleReducer<TARGET, E>>::reduce_one_spec(<REDUCER as TupleReducer<TARGET, D>>::reduce_one_spec(<REDUCER as TupleReducer<TARGET, C>>::reduce_one_spec(<REDUCER as TupleReducer<TARGET, B>>::reduce_one_spec(<REDUCER as TupleReducer<TARGET, A>>::reduce_one_spec(input, tuple.0), tuple.1), tuple.2), tuple.3), tuple.4), tuple.5), tuple.6), tuple.7), tuple.8), tuple.9), tuple.10), tuple.11), tuple.12), tuple.13), tuple.14), tuple.15)
    }

    fn reduce(tuple: (A, B, C, D, E, F, G, H, I, J, K, L, M, N, O, P), input: TARGET) -> TARGET {
        let this = tuple.nest();
        let accum = input;
        let accum = <REDUCER as TupleReducer<TARGET, A>>::reduce_one(accum, this.0);
        let this = this.1;
        let accum = <REDUCER as TupleReducer<TARGET, B>>::reduce_one(accum, this.0);
        let this = this.1;
        let accum = <REDUCER as TupleReducer<TARGET, C>>::reduce_one(accum, this.0);
        let this = this.1;
        let accum = <REDUCER as TupleReducer<TARGET, D>>::reduce_one(accum, this.0);
        let this = this.1;
        let accum = <REDUCER as TupleReducer<TARGET, E>>::reduce_one(accum, this.0);
        let this = this.1;
        let accum = <REDUCER as TupleReducer<TARGET, F>>::reduce_one(accum, this.0);
        let this = this.1;
        let accum = <REDUCER as TupleReducer<TARGET, G>>::reduce_one(accum, this.0);
        let this = this.1;
        let accum = <REDUCER as TupleReducer<TARGET, H>>::reduce_one(accum, this.0);
        let this = this.1;
        let accum = <REDUCER as TupleReducer<TARGET, I>>::reduce_one(accum, this.0);
        let this = this.1;
        let accum = <REDUCER as TupleReducer<TARGET, J>>::reduce_one(accum, this.0);
        let this = this.1;
        let accum = <REDUCER as TupleReducer<TARGET, K>>::reduce_one(accum, this.0);
        let this = this.1;
        let accum = <REDUCER as TupleReducer<TARGET, L>>::reduce_one(accum, this.0);
        let this = this.1;
        let accum = <REDUCER as TupleReducer<TARGET, M>>::reduce_one(accum, this.0);
        let this = this.1;
        let accum = <REDUCER as TupleReducer<TARGET, N>>::reduce_one(accum, this.0);
        let this = this.1;
        let accum = <REDUCER as TupleReducer<TARGET, O>>::reduce_one(accum, this.0);
        let this = this.1;
        let accum = <REDUCER as TupleReducer<TARGET, P>>::reduce_one(accum, this.0);
        let this = this.1;
        let _eot: EOT = this;
        accum
    }
}

} // verus!
