//! The mapper facade: nest, map each element type, unnest.

use vstd::prelude::*;

use crate::nest::{TupleNest, TupleUnnest};
use crate::TypeMap;

verus! {

/// Perform a mapping operation on a tuple type using the given predicate
/// type (a [`TypeMap`] that returns a mapped type): the composition
/// nest, element-wise [`TypeMap`], unnest yields the transformed flat tuple
/// type. This is a type-only operation resolved entirely during trait
/// resolution; no value form exists, because a predicate associates types,
/// not values.
pub trait TupleMapper {
    type Output;
}

impl<TUPLE, PREDICATE> TupleMapper for (TUPLE, PREDICATE) where
    TUPLE: TupleNest,
    <TUPLE as TupleNest>::Nested: TypeMap<PREDICATE>,
    <<TUPLE as TupleNest>::Nested as TypeMap<PREDICATE>>::Mapped: TupleUnnest,
 {
    type Output = <<<TUPLE as TupleNest>::Nested as TypeMap<PREDICATE>>::Mapped as TupleUnnest>::Unnested;
}

} // verus!
