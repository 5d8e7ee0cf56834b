use tuplemagic::{
    TupleFilter, TupleFilterExclude, TupleFilterInclude, TupleFiltered, TupleFilterer, TupleMapper,
    TupleNest, TupleReducer, TupleReducerCapable, TupleUnnest, TypeMap, TypePair, TypePairExtract,
};

struct P {}

impl TypeMap<P> for u8 {
    type Mapped = TupleFilterInclude;
}

impl TypeMap<P> for Vec<u8> {
    type Mapped = TupleFilterInclude;
}

impl TypeMap<P> for u16 {
    type Mapped = TupleFilterExclude;
}

impl TypeMap<P> for u32 {
    type Mapped = TupleFilterExclude;
}

impl<T> TypeMap<P> for Option<T> {
    type Mapped = TupleFilterExclude;
}

struct RemoveOption {}

impl<T> TypeMap<RemoveOption> for Option<T> {
    type Mapped = T;
}

struct TupleReducerSum {}

impl TupleReducer<usize, u8> for TupleReducerSum {
    fn reduce_one(collect: usize, from: u8) -> usize {
        collect + from as usize
    }
}

impl TupleReducer<usize, u16> for TupleReducerSum {
    fn reduce_one(collect: usize, from: u16) -> usize {
        collect + from as usize
    }
}

impl TupleReducer<usize, u32> for TupleReducerSum {
    fn reduce_one(collect: usize, from: u32) -> usize {
        collect + from as usize
    }
}

impl<T> TupleReducer<usize, Option<T>> for TupleReducerSum {
    fn reduce_one(collect: usize, from: Option<T>) -> usize {
        collect + from.is_some() as usize
    }
}

impl<T> TupleReducer<usize, Vec<T>> for TupleReducerSum {
    fn reduce_one(collect: usize, from: Vec<T>) -> usize {
        collect + from.len()
    }
}

#[test]
fn filter_type() {
    // This tuple includes a large number of types
    type T = (u8, u8, u16, u32, u16, u8, Option<()>, Vec<u8>);
    type U = <<TypePair<
        <T as TupleNest>::Nested,
        <<T as TupleNest>::Nested as TypeMap<P>>::Mapped,
    > as TupleFiltered>::Output as TupleUnnest>::Unnested;
    let u: U = (1, 2, 3, vec![4]);
    let v: (u8, u8, u8, Vec<u8>) = u;
    assert_eq!(v, (1, 2, 3, vec![4]));
}

#[test]
fn filter_value() {
    // This tuple includes a large number of types
    type T = (u8, u8, u16, u32, u16, u8, Option<()>, Vec<u8>);
    let x: T = (0, 1, 2, 3, 4, 5, None, vec![]);
    let y = TupleFilter::<_, P>::of_ref(&x).do_filter(x);
    assert_eq!(y, (0, 1, 5, vec![]));
    let tuple = (1_u8, 2_u8, 3_u16);
    let y = TupleFilter::<_, P>::of_ref(&tuple).do_filter(tuple);
    assert_eq!(y, (1, 2));
}

#[test]
fn filter_value_retains_order() {
    let x = (0u8, 1u8, 2u16, 3u32, 4u16, 5u8, None::<()>, vec![1u8]);
    let y = TupleFilter::<_, P>::of_ref(&x).do_filter(x);
    assert_eq!(y, (0u8, 1u8, 5u8, vec![1u8]));
}

#[test]
fn filter_all_included_is_identity() {
    let x = (0u8, 1u8, 2u16, 5u8, vec![3u8]);
    let once = TupleFilter::<_, P>::of_ref(&x).do_filter(x);
    assert_eq!(once, (0u8, 1u8, 5u8, vec![3u8]));
    let again = TupleFilter::<_, P>::of_ref(&once).do_filter(once.clone());
    assert_eq!(again, once);
}

#[test]
fn filter_empty() {
    let y = TupleFilter::<(), P>::of().do_filter(());
    assert_eq!(y, ());
}

#[test]
fn type_pair_extract() {
    type Pair = TypePair<u8, u16>;
    let a: <Pair as TypePairExtract>::T1 = 1u8;
    let b: <Pair as TypePairExtract>::T2 = 2u16;
    assert_eq!((a, b), (1u8, 2u16));
}

#[test]
fn map_type() {
    type T = (Option<u8>, Option<u16>, Option<()>);
    type U = <(T, RemoveOption) as TupleMapper>::Output;
    let u: U = (1, 2, ());
    let v: (u8, u16, ()) = u;
    assert_eq!(v, (1, 2, ()));
}

#[test]
fn map_type_empty() {
    type U = <((), RemoveOption) as TupleMapper>::Output;
    let u: U = ();
    assert_eq!(u, ());
}

#[test]
fn reduce_value() {
    type T = (u8, u8, u16, u32, u16, u8, Option<()>, Vec<u8>);

    let t: T = (1, 10, 100, 1000, 1, 1, Some(()), vec![1]);
    let out = TupleReducerSum::reduce(t, 0);
    assert_eq!(out, 1115);
}

struct Appender {}

impl TupleReducer<String, u8> for Appender {
    fn reduce_one(collect: String, from: u8) -> String {
        format!("{collect}{from},")
    }
}

impl TupleReducer<String, u16> for Appender {
    fn reduce_one(collect: String, from: u16) -> String {
        format!("{collect}[{from}],")
    }
}

#[test]
fn reduce_order_is_left_to_right() {
    let out = Appender::reduce((1u8, 2u16, 3u8), String::from("seed:"));
    assert_eq!(out, "seed:1,[2],3,");
}

#[test]
fn reduce_empty_returns_seed() {
    let out: usize = TupleReducerSum::reduce((), 7);
    assert_eq!(out, 7);
}
