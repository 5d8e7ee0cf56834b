use tuplemagic::{TupleNest, TupleUnnest};

#[test]
fn nest_shape() {
    let a: (u8, u8, u8) = (1, 2, 3);
    let b = a.nest();
    assert_eq!(&format!("{b:?}"), "(1, (2, (3, EOT)))");
    let c = ().nest();
    assert_eq!(&format!("{c:?}"), "EOT");
}

#[test]
fn nest_unnest_round_trip() {
    assert_eq!(().nest().unnest(), ());
    assert_eq!((5u8,).nest().unnest(), (5u8,));
    assert_eq!((1u8, 2u16).nest().unnest(), (1u8, 2u16));
    assert_eq!((1, 2, 3).nest().unnest(), (1, 2, 3));
    let mixed = (1u8, 2u16, 3u32, String::from("four"), Some(5u8), vec![6u8], 7i64, ());
    assert_eq!(mixed.clone().nest().unnest(), mixed);
    let twelve = (1, 2, 3, 4, 5, 6, 7, 8, 9, 10, 11, 12);
    assert_eq!(twelve.nest().unnest(), twelve);
}

#[test]
fn nest_unnest_round_trip_widest() {
    let wide = (1u8, 2, 3, 4, 5, 6, 7, 8, 9, 10, 11, 12, 13, 14, 15, 16u8);
    let back = wide.nest().unnest();
    assert_eq!(back.0, wide.0);
    assert_eq!(back.5, wide.5);
    assert_eq!(back.11, wide.11);
    assert_eq!(back.15, wide.15);
}

#[test]
fn unnest_nest_round_trip() {
    let nested = (1u8, (2u16, (3u32, tuplemagic::EOT)));
    let flat = nested.unnest();
    assert_eq!(flat, (1u8, 2u16, 3u32));
    assert_eq!(&format!("{:?}", flat.nest()), "(1, (2, (3, EOT)))");
}

#[test]
fn structural_accessors() {
    let nested = (1u8, 2u16, 3u32).nest();
    assert_eq!(nested.head(), 1u8);
    let nested = (1u8, 2u16, 3u32).nest();
    assert_eq!(nested.tail().unnest(), (2u16, 3u32));
    let nested = (1u8, 2u16, 3u32).nest();
    let (head, tail) = nested.split();
    assert_eq!(head, 1u8);
    let rebuilt = <(u8, (u16, (u32, tuplemagic::EOT))) as TupleUnnest>::from(head, tail);
    assert_eq!(rebuilt.unnest(), (1u8, 2u16, 3u32));
}
