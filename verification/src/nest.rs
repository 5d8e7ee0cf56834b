//! The nesting isomorphism between flat tuples and the right-nested cons
//! form, together with the structural accessors that downstream recursive
//! algorithms build on.

use vstd::prelude::*;

verus! {

/// A marker struct (_end of tuple_) for the end of a nested tuple list. As a
/// marker, `EOT` is both a value and a type.
#[derive(Debug, Default)]
pub struct EOT;

/// The arity (element count) of a right-nested tuple form: `EOT` has arity
/// zero, and each cons cell `(head, tail)` adds one to the arity of its tail.
pub trait NestedArity {
    spec fn arity() -> nat;
}

impl NestedArity for EOT {
    open spec fn arity() -> nat {
        0
    }
}

impl<H, T: NestedArity> NestedArity for (H, T) {
    open spec fn arity() -> nat {
        1 + T::arity()
    }
}

/// Perform a nesting operation on a tuple. Given a tuple of type `(A, B, C)`,
/// returns `(A, (B, (C, EOT)))`; the empty tuple nests to the bare `EOT`.
///
/// `nest_spec` gives the nested value in full, and `nest` is pinned to it,
/// so the operation is a total, pure relabeling of the value.
pub trait TupleNest: Sized {
    type Nested;

    spec fn nest_spec(self) -> Self::Nested;

    fn nest(self) -> (r: Self::Nested)
        ensures
            r == self.nest_spec(),
    ;
}

/// Perform an unnesting operation on a tuple. Given a tuple of type
/// `(A, (B, (C, EOT)))`, returns `(A, B, C)`.
///
/// The structural accessors `head`, `tail` and `split` expose the first
/// element and the nested remainder, and `from` rebuilds a nested value from
/// the two; each executable method is pinned to its spec-level counterpart.
pub trait TupleUnnest: Sized {
    type Unnested;
    type Head;
    type Tail;

    spec fn unnest_spec(self) -> Self::Unnested;

    spec fn head_spec(self) -> Self::Head;

    spec fn tail_spec(self) -> Self::Tail;

    spec fn from_spec(head: Self::Head, tail: Self::Tail) -> Self;

    fn unnest(self) -> (r: Self::Unnested)
        ensures
            r == self.unnest_spec(),
    ;

    fn from(head: Self::Head, tail: Self::Tail) -> (r: Self)
        ensures
            r == Self::from_spec(head, tail),
    ;

    fn split(self) -> (r: (Self::Head, Self::Tail))
        ensures
            r.0 == self.head_spec(),
            r.1 == self.tail_spec(),
    ;

    fn head(self) -> (r: Self::Head)
        ensures
            r == self.head_spec(),
    {
        self.split().0
    }

    fn tail(self) -> (r: Self::Tail)
        ensures
            r == self.tail_spec(),
    {
        self.split().1
    }
}

/// The nesting round trip: unnesting a nested tuple returns the original
/// flat tuple unchanged, for every supported arity including zero. Every
/// tuple form that can be nested discharges this obligation.
pub trait NestRoundTrip: TupleNest where Self::Nested: TupleUnnest<Unnested = Self> {
    proof fn nest_round_trip(self)
        ensures
            self.nest_spec().unnest_spec() == self,
    ;
}

/// The unnesting round trip: re-nesting an unnested value returns it
/// unchanged, for every supported arity including zero. Every nested form
/// discharges this obligation.
pub trait UnnestRoundTrip: TupleUnnest where Self::Unnested: TupleNest<Nested = Self> {
    proof fn unnest_round_trip(self)
        ensures
            self.unnest_spec().nest_spec() == self,
    ;
}

impl TupleUnnest for EOT {
    type Unnested = ();
    type Head = EOT;
    type Tail = EOT;

    open spec fn unnest_spec(self) -> () {
        ()
    }

    open spec fn head_spec(self) -> EOT {
        EOT
    }

    open spec fn tail_spec(self) -> EOT {
        EOT
    }

    open spec fn from_spec(head: EOT, tail: EOT) -> EOT {
        EOT
    }

    fn unnest(self) -> () {
    }

    fn from(head: EOT, tail: EOT) -> EOT {
        EOT
    }

    fn split(self) -> (EOT, EOT) {
        (EOT, EOT)
    }
}

impl TupleNest for () {
    type Nested = EOT;

    open spec fn nest_spec(self) -> EOT {
        EOT
    }

    fn nest(self) -> EOT {
        EOT
    }
}

impl NestRoundTrip for () {
    proof fn nest_round_trip(self) {
    }
}

impl UnnestRoundTrip for EOT {
    proof fn unnest_round_trip(self) {
    }
}

impl<A> TupleNest for (A,) {
    type Nested = (A, EOT);

    open spec fn nest_spec(self) -> (A, EOT) {
        (self.0, EOT)
    }

    fn nest(self) -> (A, EOT) {
        (self.0, EOT)
    }
}

impl<A> TupleUnnest for (A, EOT) {
    type Unnested = (A,);
    type Head = A;
    type Tail = EOT;

    open spec fn unnest_spec(self) -> (A,) {
        (self.0,)
    }

    open spec fn head_spec(self) -> A {
        self.0
    }

    open spec fn tail_spec(self) -> EOT {
        self.1
    }

    open spec fn from_spec(head: A, tail: EOT) -> (A, EOT) {
        (head, tail)
    }

    fn unnest(self) -> (A,) {
        (self.0,)
    }

    fn from(head: A, tail: EOT) -> (A, EOT) {
        (head, tail)
    }

    fn split(self) -> (A, EOT) {
        let ghost s = self;
        let r = (self.0, self.1);
        proof {
            assert(r.1 == s.tail_spec());
        }
        r
    }
}

impl<A> NestRoundTrip for (A,) {
    proof fn nest_round_trip(self) {
    }
}

impl<A> UnnestRoundTrip for (A, EOT) {
    proof fn unnest_round_trip(self) {
    }
}

impl<A, B> TupleNest for (A, B) {
    type Nested = (A, (B, EOT));

    open spec fn nest_spec(self) -> (A, (B, EOT)) {
        (self.0, (self.1, EOT))
    }

    fn nest(self) -> (A, (B, EOT)) {
        (self.0, (self.1, EOT))
    }
}

impl<A, B> TupleUnnest for (A, (B, EOT)) {
    type Unnested = (A, B);
    type Head = A;
    type Tail = (B, EOT);

    open spec fn unnest_spec(self) -> (A, B) {
        (self.0, self.1.0)
    }

    open spec fn head_spec(self) -> A {
        self.0
    }

    open spec fn tail_spec(self) -> (B, EOT) {
        self.1
    }

    open spec fn from_spec(head: A, tail: (B, EOT)) -> (A, (B, EOT)) {
        (head, tail)
    }

    fn unnest(self) -> (A, B) {
        (self.0, self.1.0)
    }

    fn from(head: A, tail: (B, EOT)) -> (A, (B, EOT)) {
        (head, tail)
    }

    fn split(self) -> (A, (B, EOT)) {
        let ghost s = self;
        let r = (self.0, self.1);
        proof {
            assert(r.1 == s.tail_spec());
        }
        r
    }
}

impl<A, B> NestRoundTrip for (A, B) {
    proof fn nest_round_trip(self) {
    }
}

impl<A, B> UnnestRoundTrip for (A, (B, EOT)) {
    proof fn unnest_round_trip(self) {
    }
}

impl<A, B, C> TupleNest for (A, B, C) {
    type Nested = (A, (B, (C, EOT)));

    open spec fn nest_spec(self) -> (A, (B, (C, EOT))) {
        (self.0, (self.1, (self.2, EOT)))
    }

    fn nest(self) -> (A, (B, (C, EOT))) {
        (self.0, (self.1, (self.2, EOT)))
    }
}

impl<A, B, C> TupleUnnest for (A, (B, (C, EOT))) {
    type Unnested = (A, B, C);
    type Head = A;
    type Tail = (B, (C, EOT));

    open spec fn unnest_spec(self) -> (A, B, C) {
        (self.0, self.1.0, self.1.1.0)
    }

    open spec fn head_spec(self) -> A {
        self.0
    }

    open spec fn tail_spec(self) -> (B, (C, EOT)) {
        self.1
    }

    open spec fn from_spec(head: A, tail: (B, (C, EOT))) -> (A, (B, (C, EOT))) {
        (head, tail)
    }

    fn unnest(self) -> (A, B, C) {
        (self.0, self.1.0, self.1.1.0)
    }

    fn from(head: A, tail: (B, (C, EOT))) -> (A, (B, (C, EOT))) {
        (head, tail)
    }

    fn split(self) -> (A, (B, (C, EOT))) {
        let ghost s = self;
        let r = (self.0, self.1);
        proof {
            assert(r.1 == s.tail_spec());
        }
        r
    }
}

impl<A, B, C> NestRoundTrip for (A, B, C) {
    proof fn nest_round_trip(self) {
    }
}

impl<A, B, C> UnnestRoundTrip for (A, (B, (C, EOT))) {
    proof fn unnest_round_trip(self) {
    }
}

impl<A, B, C, D> TupleNest for (A, B, C, D) {
    type Nested = (A, (B, (C, (D, EOT))));

    open spec fn nest_spec(self) -> (A, (B, (C, (D, EOT)))) {
        (self.0, (self.1, (self.2, (self.3, EOT))))
    }

    fn nest(self) -> (A, (B, (C, (D, EOT)))) {
        (self.0, (self.1, (self.2, (self.3, EOT))))
    }
}

impl<A, B, C, D> TupleUnnest for (A, (B, (C, (D, EOT)))) {
    type Unnested = (A, B, C, D);
    type Head = A;
    type Tail = (B, (C, (D, EOT)));

    open spec fn unnest_spec(self) -> (A, B, C, D) {
        (self.0, self.1.0, self.1.1.0, self.1.1.1.0)
    }

    open spec fn head_spec(self) -> A {
        self.0
    }

    open spec fn tail_spec(self) -> (B, (C, (D, EOT))) {
        self.1
    }

    open spec fn from_spec(head: A, tail: (B, (C, (D, EOT)))) -> (A, (B, (C, (D, EOT)))) {
        (head, tail)
    }

    fn unnest(self) -> (A, B, C, D) {
        (self.0, self.1.0, self.1.1.0, self.1.1.1.0)
    }

    fn from(head: A, tail: (B, (C, (D, EOT)))) -> (A, (B, (C, (D, EOT)))) {
        (head, tail)
    }

    fn split(self) -> (A, (B, (C, (D, EOT)))) {
        let ghost s = self;
        let r = (self.0, self.1);
        proof {
            assert(r.1 == s.tail_spec());
        }
        r
    }
}

impl<A, B, C, D> NestRoundTrip for (A, B, C, D) {
    proof fn nest_round_trip(self) {
    }
}

impl<A, B, C, D> UnnestRoundTrip for (A, (B, (C, (D, EOT)))) {
    proof fn unnest_round_trip(self) {
    }
}

impl<A, B, C, D, E> TupleNest for (A, B, C, D, E) {
    type Nested = (A, (B, (C, (D, (E, EOT)))));

    open spec fn nest_spec(self) -> (A, (B, (C, (D, (E, EOT))))) {
        (self.0, (self.1, (self.2, (self.3, (self.4, EOT)))))
    }

    fn nest(self) -> (A, (B, (C, (D, (E, EOT))))) {
        (self.0, (self.1, (self.2, (self.3, (self.4, EOT)))))
    }
}

impl<A, B, C, D, E> TupleUnnest for (A, (B, (C, (D, (E, EOT))))) {
    type Unnested = (A, B, C, D, E);
    type Head = A;
    type Tail = (B, (C, (D, (E, EOT))));

    open spec fn unnest_spec(self) -> (A, B, C, D, E) {
        (self.0, self.1.0, self.1.1.0, self.1.1.1.0, self.1.1.1.1.0)
    }

    open spec fn head_spec(self) -> A {
        self.0
    }

    open spec fn tail_spec(self) -> (B, (C, (D, (E, EOT)))) {
        self.1
    }

    open spec fn from_spec(head: A, tail: (B, (C, (D, (E, EOT))))) -> (A, (B, (C, (D, (E, EOT))))) {
        (head, tail)
    }

    fn unnest(self) -> (A, B, C, D, E) {
        (self.0, self.1.0, self.1.1.0, self.1.1.1.0, self.1.1.1.1.0)
    }

    fn from(head: A, tail: (B, (C, (D, (E, EOT))))) -> (A, (B, (C, (D, (E, EOT))))) {
        (head, tail)
    }

    fn split(self) -> (A, (B, (C, (D, (E, EOT))))) {
        let ghost s = self;
        let r = (self.0, self.1);
        proof {
            assert(r.1 == s.tail_spec());
        }
        r
    }
}

impl<A, B, C, D, E> NestRoundTrip for (A, B, C, D, E) {
    proof fn nest_round_trip(self) {
    }
}

impl<A, B, C, D, E> UnnestRoundTrip for (A, (B, (C, (D, (E, EOT))))) {
    proof fn unnest_round_trip(self) {
    }
}

impl<A, B, C, D, E, F> TupleNest for (A, B, C, D, E, F) {
    type Nested = (A, (B, (C, (D, (E, (F, EOT))))));

    open spec fn nest_spec(self) -> (A, (B, (C, (D, (E, (F, EOT)))))) {
        (self.0, (self.1, (self.2, (self.3, (self.4, (self.5, EOT))))))
    }

    fn nest(self) -> (A, (B, (C, (D, (E, (F, EOT)))))) {
        (self.0, (self.1, (self.2, (self.3, (self.4, (self.5, EOT))))))
    }
}

impl<A, B, C, D, E, F> TupleUnnest for (A, (B, (C, (D, (E, (F, EOT)))))) {
    type Unnested = (A, B, C, D, E, F);
    type Head = A;
    type Tail = (B, (C, (D, (E, (F, EOT)))));

    open spec fn unnest_spec(self) -> (A, B, C, D, E, F) {
        (self.0, self.1.0, self.1.1.0, self.1.1.1.0, self.1.1.1.1.0, self.1.1.1.1.1.0)
    }

    open spec fn head_spec(self) -> A {
        self.0
    }

    open spec fn tail_spec(self) -> (B, (C, (D, (E, (F, EOT))))) {
        self.1
    }

    open spec fn from_spec(head: A, tail: (B, (C, (D, (E, (F, EOT)))))) -> (A, (B, (C, (D, (E, (F, EOT)))))) {
        (head, tail)
    }

    fn unnest(self) -> (A, B, C, D, E, F) {
        (self.0, self.1.0, self.1.1.0, self.1.1.1.0, self.1.1.1.1.0, self.1.1.1.1.1.0)
    }

    fn from(head: A, tail: (B, (C, (D, (E, (F, EOT)))))) -> (A, (B, (C, (D, (E, (F, EOT)))))) {
        (head, tail)
    }

    fn split(self) -> (A, (B, (C, (D, (E, (F, EOT)))))) {
        let ghost s = self;
        let r = (self.0, self.1);
        proof {
            assert(r.1 == s.tail_spec());
        }
        r
    }
}

impl<A, B, C, D, E, F> NestRoundTrip for (A, B, C, D, E, F) {
    proof fn nest_round_trip(self) {
    }
}

impl<A, B, C, D, E, F> UnnestRoundTrip for (A, (B, (C, (D, (E, (F, EOT)))))) {
    proof fn unnest_round_trip(self) {
    }
}

impl<A, B, C, D, E, F, G> TupleNest for (A, B, C, D, E, F, G) {
    type Nested = (A, (B, (C, (D, (E, (F, (G, EOT)))))));

    open spec fn nest_spec(self) -> (A, (B, (C, (D, (E, (F, (G, EOT))))))) {
        (self.0, (self.1, (self.2, (self.3, (self.4, (self.5, (self.6, EOT)))))))
    }

    fn nest(self) -> (A, (B, (C, (D, (E, (F, (G, EOT))))))) {
        (self.0, (self.1, (self.2, (self.3, (self.4, (self.5, (self.6, EOT)))))))
    }
}

impl<A, B, C, D, E, F, G> TupleUnnest for (A, (B, (C, (D, (E, (F, (G, EOT))))))) {
    type Unnested = (A, B, C, D, E, F, G);
    type Head = A;
    type Tail = (B, (C, (D, (E, (F, (G, EOT))))));

    open spec fn unnest_spec(self) -> (A, B, C, D, E, F, G) {
        (self.0, self.1.0, self.1.1.0, self.1.1.1.0, self.1.1.1.1.0, self.1.1.1.1.1.0, self.1.1.1.1.1.1.0)
    }

    open spec fn head_spec(self) -> A {
        self.0
    }

    open spec fn tail_spec(self) -> (B, (C, (D, (E, (F, (G, EOT)))))) {
        self.1
    }

    open spec fn from_spec(head: A, tail: (B, (C, (D, (E, (F, (G, EOT))))))) -> (A, (B, (C, (D, (E, (F, (G, EOT))))))) {
        (head, tail)
    }

    fn unnest(self) -> (A, B, C, D, E, F, G) {
        (self.0, self.1.0, self.1.1.0, self.1.1.1.0, self.1.1.1.1.0, self.1.1.1.1.1.0, self.1.1.1.1.1.1.0)
    }

    fn from(head: A, tail: (B, (C, (D, (E, (F, (G, EOT))))))) -> (A, (B, (C, (D, (E, (F, (G, EOT))))))) {
        (head, tail)
    }

    fn split(self) -> (A, (B, (C, (D, (E, (F, (G, EOT))))))) {
        let ghost s = self;
        let r = (self.0, self.1);
        proof {
            assert(r.1 == s.tail_spec());
        }
        r
    }
}

impl<A, B, C, D, E, F, G> NestRoundTrip for (A, B, C, D, E, F, G) {
    proof fn nest_round_trip(self) {
    }
}

impl<A, B, C, D, E, F, G> UnnestRoundTrip for (A, (B, (C, (D, (E, (F, (G, EOT))))))) {
    proof fn unnest_round_trip(self) {
    }
}

impl<A, B, C, D, E, F, G, H> TupleNest for (A, B, C, D, E, F, G, H) {
    type Nested = (A, (B, (C, (D, (E, (F, (G, (H, EOT))))))));

    open spec fn nest_spec(self) -> (A, (B, (C, (D, (E, (F, (G, (H, EOT)))))))) {
        (self.0, (self.1, (self.2, (self.3, (self.4, (self.5, (self.6, (self.7, EOT))))))))
    }

    fn nest(self) -> (A, (B, (C, (D, (E, (F, (G, (H, EOT)))))))) {
        (self.0, (self.1, (self.2, (self.3, (self.4, (self.5, (self.6, (self.7, EOT))))))))
    }
}

impl<A, B, C, D, E, F, G, H> TupleUnnest for (A, (B, (C, (D, (E, (F, (G, (H, EOT)))))))) {
    type Unnested = (A, B, C, D, E, F, G, H);
    type Head = A;
    type Tail = (B, (C, (D, (E, (F, (G, (H, EOT)))))));

    open spec fn unnest_spec(self) -> (A, B, C, D, E, F, G, H) {
        (self.0, self.1.0, self.1.1.0, self.1.1.1.0, self.1.1.1.1.0, self.1.1.1.1.1.0, self.1.1.1.1.1.1.0, self.1.1.1.1.1.1.1.0)
    }

    open spec fn head_spec(self) -> A {
        self.0
    }

    open spec fn tail_spec(self) -> (B, (C, (D, (E, (F, (G, (H, EOT))))))) {
        self.1
    }

    open spec fn from_spec(head: A, tail: (B, (C, (D, (E, (F, (G, (H, EOT)))))))) -> (A, (B, (C, (D, (E, (F, (G, (H, EOT)))))))) {
        (head, tail)
    }

    fn unnest(self) -> (A, B, C, D, E, F, G, H) {
        (self.0, self.1.0, self.1.1.0, self.1.1.1.0, self.1.1.1.1.0, self.1.1.1.1.1.0, self.1.1.1.1.1.1.0, self.1.1.1.1.1.1.1.0)
    }

    fn from(head: A, tail: (B, (C, (D, (E, (F, (G, (H, EOT)))))))) -> (A, (B, (C, (D, (E, (F, (G, (H, EOT)))))))) {
        (head, tail)
    }

    fn split(self) -> (A, (B, (C, (D, (E, (F, (G, (H, EOT)))))))) {
        let ghost s = self;
        let r = (self.0, self.1);
        proof {
            assert(r.1 == s.tail_spec());
        }
        r
    }
}

impl<A, B, C, D, E, F, G, H> NestRoundTrip for (A, B, C, D, E, F, G, H) {
    proof fn nest_round_trip(self) {
    }
}

impl<A, B, C, D, E, F, G, H> UnnestRoundTrip for (A, (B, (C, (D, (E, (F, (G, (H, EOT)))))))) {
    proof fn unnest_round_trip(self) {
    }
}

impl<A, B, C, D, E, F, G, H, I> TupleNest for (A, B, C, D, E, F, G, H, I) {
    type Nested = (A, (B, (C, (D, (E, (F, (G, (H, (I, EOT)))))))));

    open spec fn nest_spec(self) -> (A, (B, (C, (D, (E, (F, (G, (H, (I, EOT))))))))) {
        (self.0, (self.1, (self.2, (self.3, (self.4, (self.5, (self.6, (self.7, (self.8, EOT)))))))))
    }

    fn nest(self) -> (A, (B, (C, (D, (E, (F, (G, (H, (I, EOT))))))))) {
        (self.0, (self.1, (self.2, (self.3, (self.4, (self.5, (self.6, (self.7, (self.8, EOT)))))))))
    }
}

impl<A, B, C, D, E, F, G, H, I> TupleUnnest for (A, (B, (C, (D, (E, (F, (G, (H, (I, EOT))))))))) {
    type Unnested = (A, B, C, D, E, F, G, H, I);
    type Head = A;
    type Tail = (B, (C, (D, (E, (F, (G, (H, (I, EOT))))))));

    open spec fn unnest_spec(self) -> (A, B, C, D, E, F, G, H, I) {
        (self.0, self.1.0, self.1.1.0, self.1.1.1.0, self.1.1.1.1.0, self.1.1.1.1.1.0, self.1.1.1.1.1.1.0, self.1.1.1.1.1.1.1.0, self.1.1.1.1.1.1.1.1.0)
    }

    open spec fn head_spec(self) -> A {
        self.0
    }

    open spec fn tail_spec(self) -> (B, (C, (D, (E, (F, (G, (H, (I, EOT)))))))) {
        self.1
    }

    open spec fn from_spec(head: A, tail: (B, (C, (D, (E, (F, (G, (H, (I, EOT))))))))) -> (A, (B, (C, (D, (E, (F, (G, (H, (I, EOT))))))))) {
        (head, tail)
    }

    fn unnest(self) -> (A, B, C, D, E, F, G, H, I) {
        (self.0, self.1.0, self.1.1.0, self.1.1.1.0, self.1.1.1.1.0, self.1.1.1.1.1.0, self.1.1.1.1.1.1.0, self.1.1.1.1.1.1.1.0, self.1.1.1.1.1.1.1.1.0)
    }

    fn from(head: A, tail: (B, (C, (D, (E, (F, (G, (H, (I, EOT))))))))) -> (A, (B, (C, (D, (E, (F, (G, (H, (I, EOT))))))))) {
        (head, tail)
    }

    fn split(self) -> (A, (B, (C, (D, (E, (F, (G, (H, (I, EOT))))))))) {
        let ghost s = self;
        let r = (self.0, self.1);
        proof {
            assert(r.1 == s.tail_spec());
        }
        r
    }
}

impl<A, B, C, D, E, F, G, H, I> NestRoundTrip for (A, B, C, D, E, F, G, H, I) {
    proof fn nest_round_trip(self) {
    }
}

impl<A, B, C, D, E, F, G, H, I> UnnestRoundTrip for (A, (B, (C, (D, (E, (F, (G, (H, (I, EOT))))))))) {
    proof fn unnest_round_trip(self) {
    }
}

impl<A, B, C, D, E, F, G, H, I, J> TupleNest for (A, B, C, D, E, F, G, H, I, J) {
    type Nested = (A, (B, (C, (D, (E, (F, (G, (H, (I, (J, EOT))))))))));

    open spec fn nest_spec(self) -> (A, (B, (C, (D, (E, (F, (G, (H, (I, (J, EOT)))))))))) {
        (self.0, (self.1, (self.2, (self.3, (self.4, (self.5, (self.6, (self.7, (self.8, (self.9, EOT))))))))))
    }

    fn nest(self) -> (A, (B, (C, (D, (E, (F, (G, (H, (I, (J, EOT)))))))))) {
        (self.0, (self.1, (self.2, (self.3, (self.4, (self.5, (self.6, (self.7, (self.8, (self.9, EOT))))))))))
    }
}

impl<A, B, C, D, E, F, G, H, I, J> TupleUnnest for (A, (B, (C, (D, (E, (F, (G, (H, (I, (J, EOT)))))))))) {
    type Unnested = (A, B, C, D, E, F, G, H, I, J);
    type Head = A;
    type Tail = (B, (C, (D, (E, (F, (G, (H, (I, (J, EOT)))))))));

    open spec fn unnest_spec(self) -> (A, B, C, D, E, F, G, H, I, J) {
        (self.0, self.1.0, self.1.1.0, self.1.1.1.0, self.1.1.1.1.0, self.1.1.1.1.1.0, self.1.1.1.1.1.1.0, self.1.1.1.1.1.1.1.0, self.1.1.1.1.1.1.1.1.0, self.1.1.1.1.1.1.1.1.1.0)
    }

    open spec fn head_spec(self) -> A {
        self.0
    }

    open spec fn tail_spec(self) -> (B, (C, (D, (E, (F, (G, (H, (I, (J, EOT))))))))) {
        self.1
    }

    open spec fn from_spec(head: A, tail: (B, (C, (D, (E, (F, (G, (H, (I, (J, EOT)))))))))) -> (A, (B, (C, (D, (E, (F, (G, (H, (I, (J, EOT)))))))))) {
        (head, tail)
    }

    fn unnest(self) -> (A, B, C, D, E, F, G, H, I, J) {
        (self.0, self.1.0, self.1.1.0, self.1.1.1.0, self.1.1.1.1.0, self.1.1.1.1.1.0, self.1.1.1.1.1.1.0, self.1.1.1.1.1.1.1.0, self.1.1.1.1.1.1.1.1.0, self.1.1.1.1.1.1.1.1.1.0)
    }

    fn from(head: A, tail: (B, (C, (D, (E, (F, (G, (H, (I, (J, EOT)))))))))) -> (A, (B, (C, (D, (E, (F, (G, (H, (I, (J, EOT)))))))))) {
        (head, tail)
    }

    fn split(self) -> (A, (B, (C, (D, (E, (F, (G, (H, (I, (J, EOT)))))))))) {
        let ghost s = self;
        let r = (self.0, self.1);
        proof {
            assert(r.1 == s.tail_spec());
        }
        r
    }
}

impl<A, B, C, D, E, F, G, H, I, J> NestRoundTrip for (A, B, C, D, E, F, G, H, I, J) {
    proof fn nest_round_trip(self) {
    }
}

impl<A, B, C, D, E, F, G, H, I, J> UnnestRoundTrip for (A, (B, (C, (D, (E, (F, (G, (H, (I, (J, EOT)))))))))) {
    proof fn unnest_round_trip(self) {
    }
}

impl<A, B, C, D, E, F, G, H, I, J, K> TupleNest for (A, B, C, D, E, F, G, H, I, J, K) {
    type Nested = (A, (B, (C, (D, (E, (F, (G, (H, (I, (J, (K, EOT)))))))))));

    open spec fn nest_spec(self) -> (A, (B, (C, (D, (E, (F, (G, (H, (I, (J, (K, EOT))))))))))) {
        (self.0, (self.1, (self.2, (self.3, (self.4, (self.5, (self.6, (self.7, (self.8, (self.9, (self.10, EOT)))))))))))
    }

    fn nest(self) -> (A, (B, (C, (D, (E, (F, (G, (H, (I, (J, (K, EOT))))))))))) {
        (self.0, (self.1, (self.2, (self.3, (self.4, (self.5, (self.6, (self.7, (self.8, (self.9, (self.10, EOT)))))))))))
    }
}

impl<A, B, C, D, E, F, G, H, I, J, K> TupleUnnest for (A, (B, (C, (D, (E, (F, (G, (H, (I, (J, (K, EOT))))))))))) {
    type Unnested = (A, B, C, D, E, F, G, H, I, J, K);
    type Head = A;
    type Tail = (B, (C, (D, (E, (F, (G, (H, (I, (J, (K, EOT))))))))));

    open spec fn unnest_spec(self) -> (A, B, C, D, E, F, G, H, I, J, K) {
        (self.0, self.1.0, self.1.1.0, self.1.1.1.0, self.1.1.1.1.0, self.1.1.1.1.1.0, self.1.1.1.1.1.1.0, self.1.1.1.1.1.1.1.0, self.1.1.1.1.1.1.1.1.0, self.1.1.1.1.1.1.1.1.1.0, self.1.1.1.1.1.1.1.1.1.1.0)
    }

    open spec fn head_spec(self) -> A {
        self.0
    }

    open spec fn tail_spec(self) -> (B, (C, (D, (E, (F, (G, (H, (I, (J, (K, EOT)))))))))) {
        self.1
    }

    open spec fn from_spec(head: A, tail: (B, (C, (D, (E, (F, (G, (H, (I, (J, (K, EOT))))))))))) -> (A, (B, (C, (D, (E, (F, (G, (H, (I, (J, (K, EOT))))))))))) {
        (head, tail)
    }

    fn unnest(self) -> (A, B, C, D, E, F, G, H, I, J, K) {
        (self.0, self.1.0, self.1.1.0, self.1.1.1.0, self.1.1.1.1.0, self.1.1.1.1.1.0, self.1.1.1.1.1.1.0, self.1.1.1.1.1.1.1.0, self.1.1.1.1.1.1.1.1.0, self.1.1.1.1.1.1.1.1.1.0, self.1.1.1.1.1.1.1.1.1.1.0)
    }

    fn from(head: A, tail: (B, (C, (D, (E, (F, (G, (H, (I, (J, (K, EOT))))))))))) -> (A, (B, (C, (D, (E, (F, (G, (H, (I, (J, (K, EOT))))))))))) {
        (head, tail)
    }

    fn split(self) -> (A, (B, (C, (D, (E, (F, (G, (H, (I, (J, (K, EOT))))))))))) {
        let ghost s = self;
        let r = (self.0, self.1);
        proof {
            assert(r.1 == s.tail_spec());
        }
        r
    }
}

impl<A, B, C, D, E, F, G, H, I, J, K> NestRoundTrip for (A, B, C, D, E, F, G, H, I, J, K) {
    proof fn nest_round_trip(self) {
    }
}

impl<A, B, C, D, E, F, G, H, I, J, K> UnnestRoundTrip for (A, (B, (C, (D, (E, (F, (G, (H, (I, (J, (K, EOT))))))))))) {
    proof fn unnest_round_trip(self) {
    }
}

impl<A, B, C, D, E, F, G, H, I, J, K, L> TupleNest for (A, B, C, D, E, F, G, H, I, J, K, L) {
    type Nested = (A, (B, (C, (D, (E, (F, (G, (H, (I, (J, (K, (L, EOT))))))))))));

    open spec fn nest_spec(self) -> (A, (B, (C, (D, (E, (F, (G, (H, (I, (J, (K, (L, EOT)))))))))))) {
        (self.0, (self.1, (self.2, (self.3, (self.4, (self.5, (self.6, (self.7, (self.8, (self.9, (self.10, (self.11, EOT))))))))))))
    }

    fn nest(self) -> (A, (B, (C, (D, (E, (F, (G, (H, (I, (J, (K, (L, EOT)))))))))))) {
        (self.0, (self.1, (self.2, (self.3, (self.4, (self.5, (self.6, (self.7, (self.8, (self.9, (self.10, (self.11, EOT))))))))))))
    }
}

impl<A, B, C, D, E, F, G, H, I, J, K, L> TupleUnnest for (A, (B, (C, (D, (E, (F, (G, (H, (I, (J, (K, (L, EOT)))))))))))) {
    type Unnested = (A, B, C, D, E, F, G, H, I, J, K, L);
    type Head = A;
    type Tail = (B, (C, (D, (E, (F, (G, (H, (I, (J, (K, (L, EOT)))))))))));

    open spec fn unnest_spec(self) -> (A, B, C, D, E, F, G, H, I, J, K, L) {
        (self.0, self.1.0, self.1.1.0, self.1.1.1.0, self.1.1.1.1.0, self.1.1.1.1.1.0, self.1.1.1.1.1.1.0, self.1.1.1.1.1.1.1.0, self.1.1.1.1.1.1.1.1.0, self.1.1.1.1.1.1.1.1.1.0, self.1.1.1.1.1.1.1.1.1.1.0, self.1.1.1.1.1.1.1.1.1.1.1.0)
    }

    open spec fn head_spec(self) -> A {
        self.0
    }

    open spec fn tail_spec(self) -> (B, (C, (D, (E, (F, (G, (H, (I, (J, (K, (L, EOT))))))))))) {
        self.1
    }

    open spec fn from_spec(head: A, tail: (B, (C, (D, (E, (F, (G, (H, (I, (J, (K, (L, EOT)))))))))))) -> (A, (B, (C, (D, (E, (F, (G, (H, (I, (J, (K, (L, EOT)))))))))))) {
        (head, tail)
    }

    fn unnest(self) -> (A, B, C, D, E, F, G, H, I, J, K, L) {
        (self.0, self.1.0, self.1.1.0, self.1.1.1.0, self.1.1.1.1.0, self.1.1.1.1.1.0, self.1.1.1.1.1.1.0, self.1.1.1.1.1.1.1.0, self.1.1.1.1.1.1.1.1.0, self.1.1.1.1.1.1.1.1.1.0, self.1.1.1.1.1.1.1.1.1.1.0, self.1.1.1.1.1.1.1.1.1.1.1.0)
    }

    fn from(head: A, tail: (B, (C, (D, (E, (F, (G, (H, (I, (J, (K, (L, EOT)))))))))))) -> (A, (B, (C, (D, (E, (F, (G, (H, (I, (J, (K, (L, EOT)))))))))))) {
        (head, tail)
    }

    fn split(self) -> (A, (B, (C, (D, (E, (F, (G, (H, (I, (J, (K, (L, EOT)))))))))))) {
        let ghost s = self;
        let r = (self.0, self.1);
        proof {
            assert(r.1 == s.tail_spec());
        }
        r
    }
}

impl<A, B, C, D, E, F, G, H, I, J, K, L> NestRoundTrip for (A, B, C, D, E, F, G, H, I, J, K, L) {
    proof fn nest_round_trip(self) {
    }
}

impl<A, B, C, D, E, F, G, H, I, J, K, L> UnnestRoundTrip for (A, (B, (C, (D, (E, (F, (G, (H, (I, (J, (K, (L, EOT)))))))))))) {
    proof fn unnest_round_trip(self) {
    }
}

impl<A, B, C, D, E, F, G, H, I, J, K, L, M> TupleNest for (A, B, C, D, E, F, G, H, I, J, K, L, M) {
    type Nested = (A, (B, (C, (D, (E, (F, (G, (H, (I, (J, (K, (L, (M, EOT)))))))))))));

    open spec fn nest_spec(self) -> (A, (B, (C, (D, (E, (F, (G, (H, (I, (J, (K, (L, (M, EOT))))))))))))) {
        (self.0, (self.1, (self.2, (self.3, (self.4, (self.5, (self.6, (self.7, (self.8, (self.9, (self.10, (self.11, (self.12, EOT)))))))))))))
    }

    fn nest(self) -> (A, (B, (C, (D, (E, (F, (G, (H, (I, (J, (K, (L, (M, EOT))))))))))))) {
        (self.0, (self.1, (self.2, (self.3, (self.4, (self.5, (self.6, (self.7, (self.8, (self.9, (self.10, (self.11, (self.12, EOT)))))))))))))
    }
}

impl<A, B, C, D, E, F, G, H, I, J, K, L, M> TupleUnnest for (A, (B, (C, (D, (E, (F, (G, (H, (I, (J, (K, (L, (M, EOT))))))))))))) {
    type Unnested = (A, B, C, D, E, F, G, H, I, J, K, L, M);
    type Head = A;
    type Tail = (B, (C, (D, (E, (F, (G, (H, (I, (J, (K, (L, (M, EOT))))))))))));

    open spec fn unnest_spec(self) -> (A, B, C, D, E, F, G, H, I, J, K, L, M) {
        (self.0, self.1.0, self.1.1.0, self.1.1.1.0, self.1.1.1.1.0, self.1.1.1.1.1.0, self.1.1.1.1.1.1.0, self.1.1.1.1.1.1.1.0, self.1.1.1.1.1.1.1.1.0, self.1.1.1.1.1.1.1.1.1.0, self.1.1.1.1.1.1.1.1.1.1.0, self.1.1.1.1.1.1.1.1.1.1.1.0, self.1.1.1.1.1.1.1.1.1.1.1.1.0)
    }

    open spec fn head_spec(self) -> A {
        self.0
    }

    open spec fn tail_spec(self) -> (B, (C, (D, (E, (F, (G, (H, (I, (J, (K, (L, (M, EOT)))))))))))) {
        self.1
    }

    open spec fn from_spec(head: A, tail: (B, (C, (D, (E, (F, (G, (H, (I, (J, (K, (L, (M, EOT))))))))))))) -> (A, (B, (C, (D, (E, (F, (G, (H, (I, (J, (K, (L, (M, EOT))))))))))))) {
        (head, tail)
    }

    fn unnest(self) -> (A, B, C, D, E, F, G, H, I, J, K, L, M) {
        (self.0, self.1.0, self.1.1.0, self.1.1.1.0, self.1.1.1.1.0, self.1.1.1.1.1.0, self.1.1.1.1.1.1.0, self.1.1.1.1.1.1.1.0, self.1.1.1.1.1.1.1.1.0, self.1.1.1.1.1.1.1.1.1.0, self.1.1.1.1.1.1.1.1.1.1.0, self.1.1.1.1.1.1.1.1.1.1.1.0, self.1.1.1.1.1.1.1.1.1.1.1.1.0)
    }

    fn from(head: A, tail: (B, (C, (D, (E, (F, (G, (H, (I, (J, (K, (L, (M, EOT))))))))))))) -> (A, (B, (C, (D, (E, (F, (G, (H, (I, (J, (K, (L, (M, EOT))))))))))))) {
        (head, tail)
    }

    fn split(self) -> (A, (B, (C, (D, (E, (F, (G, (H, (I, (J, (K, (L, (M, EOT))))))))))))) {
        let ghost s = self;
        let r = (self.0, self.1);
        proof {
            assert(r.1 == s.tail_spec());
        }
        r
    }
}

impl<A, B, C, D, E, F, G, H, I, J, K, L, M> NestRoundTrip for (A, B, C, D, E, F, G, H, I, J, K, L, M) {
    proof fn nest_round_trip(self) {
    }
}

impl<A, B, C, D, E, F, G, H, I, J, K, L, M> UnnestRoundTrip for (A, (B, (C, (D, (E, (F, (G, (H, (I, (J, (K, (L, (M, EOT))))))))))))) {
    proof fn unnest_round_trip(self) {
    }
}

impl<A, B, C, D, E, F, G, H, I, J, K, L, M, N> TupleNest for (A, B, C, D, E, F, G, H, I, J, K, L, M, N) {
    type Nested = (A, (B, (C, (D, (E, (F, (G, (H, (I, (J, (K, (L, (M, (N, EOT))))))))))))));

    open spec fn nest_spec(self) -> (A, (B, (C, (D, (E, (F, (G, (H, (I, (J, (K, (L, (M, (N, EOT)))))))))))))) {
        (self.0, (self.1, (self.2, (self.3, (self.4, (self.5, (self.6, (self.7, (self.8, (self.9, (self.10, (self.11, (self.12, (self.13, EOT))))))))))))))
    }

    fn nest(self) -> (A, (B, (C, (D, (E, (F, (G, (H, (I, (J, (K, (L, (M, (N, EOT)))))))))))))) {
        (self.0, (self.1, (self.2, (self.3, (self.4, (self.5, (self.6, (self.7, (self.8, (self.9, (self.10, (self.11, (self.12, (self.13, EOT))))))))))))))
    }
}

impl<A, B, C, D, E, F, G, H, I, J, K, L, M, N> TupleUnnest for (A, (B, (C, (D, (E, (F, (G, (H, (I, (J, (K, (L, (M, (N, EOT)))))))))))))) {
    type Unnested = (A, B, C, D, E, F, G, H, I, J, K, L, M, N);
    type Head = A;
    type Tail = (B, (C, (D, (E, (F, (G, (H, (I, (J, (K, (L, (M, (N, EOT)))))))))))));

    open spec fn unnest_spec(self) -> (A, B, C, D, E, F, G, H, I, J, K, L, M, N) {
        (self.0, self.1.0, self.1.1.0, self.1.1.1.0, self.1.1.1.1.0, self.1.1.1.1.1.0, self.1.1.1.1.1.1.0, self.1.1.1.1.1.1.1.0, self.1.1.1.1.1.1.1.1.0, self.1.1.1.1.1.1.1.1.1.0, self.1.1.1.1.1.1.1.1.1.1.0, self.1.1.1.1.1.1.1.1.1.1.1.0, self.1.1.1.1.1.1.1.1.1.1.1.1.0, self.1.1.1.1.1.1.1.1.1.1.1.1.1.0)
    }

    open spec fn head_spec(self) -> A {
        self.0
    }

    open spec fn tail_spec(self) -> (B, (C, (D, (E, (F, (G, (H, (I, (J, (K, (L, (M, (N, EOT))))))))))))) {
        self.1
    }

    open spec fn from_spec(head: A, tail: (B, (C, (D, (E, (F, (G, (H, (I, (J, (K, (L, (M, (N, EOT)))))))))))))) -> (A, (B, (C, (D, (E, (F, (G, (H, (I, (J, (K, (L, (M, (N, EOT)))))))))))))) {
        (head, tail)
    }

    fn unnest(self) -> (A, B, C, D, E, F, G, H, I, J, K, L, M, N) {
        (self.0, self.1.0, self.1.1.0, self.1.1.1.0, self.1.1.1.1.0, self.1.1.1.1.1.0, self.1.1.1.1.1.1.0, self.1.1.1.1.1.1.1.0, self.1.1.1.1.1.1.1.1.0, self.1.1.1.1.1.1.1.1.1.0, self.1.1.1.1.1.1.1.1.1.1.0, self.1.1.1.1.1.1.1.1.1.1.1.0, self.1.1.1.1.1.1.1.1.1.1.1.1.0, self.1.1.1.1.1.1.1.1.1.1.1.1.1.0)
    }

    fn from(head: A, tail: (B, (C, (D, (E, (F, (G, (H, (I, (J, (K, (L, (M, (N, EOT)))))))))))))) -> (A, (B, (C, (D, (E, (F, (G, (H, (I, (J, (K, (L, (M, (N, EOT)))))))))))))) {
        (head, tail)
    }

    fn split(self) -> (A, (B, (C, (D, (E, (F, (G, (H, (I, (J, (K, (L, (M, (N, EOT)))))))))))))) {
        let ghost s = self;
        let r = (self.0, self.1);
        proof {
            assert(r.1 == s.tail_spec());
        }
        r
    }
}

impl<A, B, C, D, E, F, G, H, I, J, K, L, M, N> NestRoundTrip for (A, B, C, D, E, F, G, H, I, J, K, L, M, N) {
    proof fn nest_round_trip(self) {
    }
}

impl<A, B, C, D, E, F, G, H, I, J, K, L, M, N> UnnestRoundTrip for (A, (B, (C, (D, (E, (F, (G, (H, (I, (J, (K, (L, (M, (N, EOT)))))))))))))) {
    proof fn unnest_round_trip(self) {
    }
}

impl<A, B, C, D, E, F, G, H, I, J, K, L, M, N, O> TupleNest for (A, B, C, D, E, F, G, H, I, J, K, L, M, N, O) {
    type Nested = (A, (B, (C, (D, (E, (F, (G, (H, (I, (J, (K, (L, (M, (N, (O, EOT)))))))))))))));

    open spec fn nest_spec(self) -> (A, (B, (C, (D, (E, (F, (G, (H, (I, (J, (K, (L, (M, (N, (O, EOT))))))))))))))) {
        (self.0, (self.1, (self.2, (self.3, (self.4, (self.5, (self.6, (self.7, (self.8, (self.9, (self.10, (self.11, (self.12, (self.13, (self.14, EOT)))))))))))))))
    }

    fn nest(self) -> (A, (B, (C, (D, (E, (F, (G, (H, (I, (J, (K, (L, (M, (N, (O, EOT))))))))))))))) {
        (self.0, (self.1, (self.2, (self.3, (self.4, (self.5, (self.6, (self.7, (self.8, (self.9, (self.10, (self.11, (self.12, (self.13, (self.14, EOT)))))))))))))))
    }
}

impl<A, B, C, D, E, F, G, H, I, J, K, L, M, N, O> TupleUnnest for (A, (B, (C, (D, (E, (F, (G, (H, (I, (J, (K, (L, (M, (N, (O, EOT))))))))))))))) {
    type Unnested = (A, B, C, D, E, F, G, H, I, J, K, L, M, N, O);
    type Head = A;
    type Tail = (B, (C, (D, (E, (F, (G, (H, (I, (J, (K, (L, (M, (N, (O, EOT))))))))))))));

    open spec fn unnest_spec(self) -> (A, B, C, D, E, F, G, H, I, J, K, L, M, N, O) {
        (self.0, self.1.0, self.1.1.0, self.1.1.1.0, self.1.1.1.1.0, self.1.1.1.1.1.0, self.1.1.1.1.1.1.0, self.1.1.1.1.1.1.1.0, self.1.1.1.1.1.1.1.1.0, self.1.1.1.1.1.1.1.1.1.0, self.1.1.1.1.1.1.1.1.1.1.0, self.1.1.1.1.1.1.1.1.1.1.1.0, self.1.1.1.1.1.1.1.1.1.1.1.1.0, self.1.1.1.1.1.1.1.1.1.1.1.1.1.0, self.1.1.1.1.1.1.1.1.1.1.1.1.1.1.0)
    }

    open spec fn head_spec(self) -> A {
        self.0
    }

    open spec fn tail_spec(self) -> (B, (C, (D, (E, (F, (G, (H, (I, (J, (K, (L, (M, (N, (O, EOT)))))))))))))) {
        self.1
    }

    open spec fn from_spec(head: A, tail: (B, (C, (D, (E, (F, (G, (H, (I, (J, (K, (L, (M, (N, (O, EOT))))))))))))))) -> (A, (B, (C, (D, (E, (F, (G, (H, (I, (J, (K, (L, (M, (N, (O, EOT))))))))))))))) {
        (head, tail)
    }

    fn unnest(self) -> (A, B, C, D, E, F, G, H, I, J, K, L, M, N, O) {
        (self.0, self.1.0, self.1.1.0, self.1.1.1.0, self.1.1.1.1.0, self.1.1.1.1.1.0, self.1.1.1.1.1.1.0, self.1.1.1.1.1.1.1.0, self.1.1.1.1.1.1.1.1.0, self.1.1.1.1.1.1.1.1.1.0, self.1.1.1.1.1.1.1.1.1.1.0, self.1.1.1.1.1.1.1.1.1.1.1.0, self.1.1.1.1.1.1.1.1.1.1.1.1.0, self.1.1.1.1.1.1.1.1.1.1.1.1.1.0, self.1.1.1.1.1.1.1.1.1.1.1.1.1.1.0)
    }

    fn from(head: A, tail: (B, (C, (D, (E, (F, (G, (H, (I, (J, (K, (L, (M, (N, (O, EOT))))))))))))))) -> (A, (B, (C, (D, (E, (F, (G, (H, (I, (J, (K, (L, (M, (N, (O, EOT))))))))))))))) {
        (head, tail)
    }

    fn split(self) -> (A, (B, (C, (D, (E, (F, (G, (H, (I, (J, (K, (L, (M, (N, (O, EOT))))))))))))))) {
        let ghost s = self;
        let r = (self.0, self.1);
        proof {
            assert(r.1 == s.tail_spec());
        }
        r
    }
}

impl<A, B, C, D, E, F, G, H, I, J, K, L, M, N, O> NestRoundTrip for (A, B, C, D, E, F, G, H, I, J, K, L, M, N, O) {
    proof fn nest_round_trip(self) {
    }
}

impl<A, B, C, D, E, F, G, H, I, J, K, L, M, N, O> UnnestRoundTrip for (A, (B, (C, (D, (E, (F, (G, (H, (I, (J, (K, (L, (M, (N, (O, EOT))))))))))))))) {
    proof fn unnest_round_trip(self) {
    }
}

impl<A, B, C, D, E, F, G, H, I, J, K, L, M, N, O, P> TupleNest for (A, B, C, D, E, F, G, H, I, J, K, L, M, N, O, P) {
    type Nested = (A, (B, (C, (D, (E, (F, (G, (H, (I, (J, (K, (L, (M, (N, (O, (P, EOT))))))))))))))));

    open spec fn nest_spec(self) -> (A, (B, (C, (D, (E, (F, (G, (H, (I, (J, (K, (L, (M, (N, (O, (P, EOT)))))))))))))))) {
        (self.0, (self.1, (self.2, (self.3, (self.4, (self.5, (self.6, (self.7, (self.8, (self.9, (self.10, (self.11, (self.12, (self.13, (self.14, (self.15, EOT))))))))))))))))
    }

    fn nest(self) -> (A, (B, (C, (D, (E, (F, (G, (H, (I, (J, (K, (L, (M, (N, (O, (P, EOT)))))))))))))))) {
        (self.0, (self.1, (self.2, (self.3, (self.4, (self.5, (self.6, (self.7, (self.8, (self.9, (self.10, (self.11, (self.12, (self.13, (self.14, (self.15, EOT))))))))))))))))
    }
}

impl<A, B, C, D, E, F, G, H, I, J, K, L, M, N, O, P> TupleUnnest for (A, (B, (C, (D, (E, (F, (G, (H, (I, (J, (K, (L, (M, (N, (O, (P, EOT)))))))))))))))) {
    type Unnested = (A, B, C, D, E, F, G, H, I, J, K, L, M, N, O, P);
    type Head = A;
    type Tail = (B, (C, (D, (E, (F, (G, (H, (I, (J, (K, (L, (M, (N, (O, (P, EOT)))))))))))))));

    open spec fn unnest_spec(self) -> (A, B, C, D, E, F, G, H, I, J, K, L, M, N, O, P) {
        (self.0, self.1.0, self.1.1.0, self.1.1.1.0, self.1.1.1.1.0, self.1.1.1.1.1.0, self.1.1.1.1.1.1.0, self.1.1.1.1.1.1.1.0, self.1.1.1.1.1.1.1.1.0, self.1.1.1.1.1.1.1.1.1.0, self.1.1.1.1.1.1.1.1.1.1.0, self.1.1.1.1.1.1.1.1.1.1.1.0, self.1.1.1.1.1.1.1.1.1.1.1.1.0, self.1.1.1.1.1.1.1.1.1.1.1.1.1.0, self.1.1.1.1.1.1.1.1.1.1.1.1.1.1.0, self.1.1.1.1.1.1.1.1.1.1.1.1.1.1.1.0)
    }

    open spec fn head_spec(self) -> A {
        self.0
    }

    open spec fn tail_spec(self) -> (B, (C, (D, (E, (F, (G, (H, (I, (J, (K, (L, (M, (N, (O, (P, EOT))))))))))))))) {
        self.1
    }

    open spec fn from_spec(head: A, tail: (B, (C, (D, (E, (F, (G, (H, (I, (J, (K, (L, (M, (N, (O, (P, EOT)))))))))))))))) -> (A, (B, (C, (D, (E, (F, (G, (H, (I, (J, (K, (L, (M, (N, (O, (P, EOT)))))))))))))))) {
        (head, tail)
    }

    fn unnest(self) -> (A, B, C, D, E, F, G, H, I, J, K, L, M, N, O, P) {
        (self.0, self.1.0, self.1.1.0, self.1.1.1.0, self.1.1.1.1.0, self.1.1.1.1.1.0, self.1.1.1.1.1.1.0, self.1.1.1.1.1.1.1.0, self.1.1.1.1.1.1.1.1.0, self.1.1.1.1.1.1.1.1.1.0, self.1.1.1.1.1.1.1.1.1.1.0, self.1.1.1.1.1.1.1.1.1.1.1.0, self.1.1.1.1.1.1.1.1.1.1.1.1.0, self.1.1.1.1.1.1.1.1.1.1.1.1.1.0, self.1.1.1.1.1.1.1.1.1.1.1.1.1.1.0, self.1.1.1.1.1.1.1.1.1.1.1.1.1.1.1.0)
    }

    fn from(head: A, tail: (B, (C, (D, (E, (F, (G, (H, (I, (J, (K, (L, (M, (N, (O, (P, EOT)))))))))))))))) -> (A, (B, (C, (D, (E, (F, (G, (H, (I, (J, (K, (L, (M, (N, (O, (P, EOT)))))))))))))))) {
        (head, tail)
    }

    fn split(self) -> (A, (B, (C, (D, (E, (F, (G, (H, (I, (J, (K, (L, (M, (N, (O, (P, EOT)))))))))))))))) {
        let ghost s = self;
        let r = (self.0, self.1);
        proof {
            assert(r.1 == s.tail_spec());
        }
        r
    }
}

impl<A, B, C, D, E, F, G, H, I, J, K, L, M, N, O, P> NestRoundTrip for (A, B, C, D, E, F, G, H, I, J, K, L, M, N, O, P) {
    proof fn nest_round_trip(self) {
    }
}

impl<A, B, C, D, E, F, G, H, I, J, K, L, M, N, O, P> UnnestRoundTrip for (A, (B, (C, (D, (E, (F, (G, (H, (I, (J, (K, (L, (M, (N, (O, (P, EOT)))))))))))))))) {
    proof fn unnest_round_trip(self) {
    }
}

} // verus!
