use doppleganger::convert::{Doppleganger, Primitive, KeyMap};

#[derive(Debug, PartialEq, Clone, Copy)]
struct Marker(u8);

impl Primitive for Marker {}

#[test]
fn primitives_mirror_to_themselves() {
    assert_eq!(<u64 as Doppleganger>::mirror(42u64), 42u64);
    assert_eq!(<bool as Doppleganger>::mirror(true), true);
    assert_eq!(
        <String as Doppleganger>::mirror("bob".to_string()),
        "bob".to_string()
    );
    assert_eq!(<Marker as Doppleganger>::mirror(Marker(7)), Marker(7));
}

#[test]
fn sequences_mirror_preserving_order_and_length() {
    let v = vec![3u64, 1, 4, 1, 5];
    let out = <Vec<u64> as Doppleganger>::mirror(v.clone());
    assert_eq!(out, v);

    let nested = vec![vec![1u32, 2], vec![], vec![3]];
    let out = <Vec<Vec<u32>> as Doppleganger>::mirror(nested.clone());
    assert_eq!(out, nested);
}

#[test]
fn optional_and_fallible_values_mirror_inside() {
    assert_eq!(<Option<u64> as Doppleganger>::mirror(Some(9)), Some(9));
    assert_eq!(<Option<u64> as Doppleganger>::mirror(None), None);

    let ok: Result<u64, String> = Ok(5);
    assert_eq!(<Result<u64, String> as Doppleganger>::mirror(ok), Ok(5));
    let err: Result<u64, String> = Err("boom".to_string());
    assert_eq!(
        <Result<u64, String> as Doppleganger>::mirror(err),
        Err("boom".to_string())
    );
}

#[test]
fn key_maps_mirror_entrywise() {
    let mut m: KeyMap<u64, String> = KeyMap::new();
    assert_eq!(m.len(), 0);
    m.entries.push((1, "one".to_string()));
    m.entries.push((2, "two".to_string()));
    let out = <KeyMap<u64, String> as Doppleganger>::mirror(m);
    assert_eq!(out.len(), 2);
    assert_eq!(out.entries[0], (1, "one".to_string()));
    assert_eq!(out.entries[1], (2, "two".to_string()));
}

#[test]
fn uuid_values_pass_through_as_primitives() {
    let u = uuid::Uuid::from_u128(0x1234_5678_9abc_def0_1234_5678_9abc_def0);
    let out = <uuid::Uuid as Doppleganger>::mirror(u);
    assert_eq!(out, u);
}
