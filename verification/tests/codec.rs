use typed_sled::kv::{round_trip, KV};

#[test]
fn u64_round_trip_zero() {
    let v: u64 = 0;
    assert_eq!(round_trip(&v), 0);
}

#[test]
fn u64_round_trip_max() {
    let v: u64 = u64::MAX;
    assert_eq!(round_trip(&v), u64::MAX);
}

#[test]
fn u64_serializes_little_endian() {
    let v: u64 = 0x0102030405060708;
    let bytes = v.serialize();
    assert_eq!(bytes, vec![8, 7, 6, 5, 4, 3, 2, 1]);
    assert_eq!(u64::deserialize(&bytes), v);
}

#[test]
fn u64_deserialize_wrong_length_is_total() {
    assert_eq!(u64::deserialize(&[]), 0);
    assert_eq!(u64::deserialize(&[1, 2, 3]), 0);
}

#[test]
fn string_round_trip_ascii() {
    let s = String::from("hello");
    assert_eq!(round_trip(&s), "hello");
}

#[test]
fn string_round_trip_multibyte() {
    let s = String::from("caf\u{e9} \u{1F600} \u{4e2d}\u{6587}");
    assert_eq!(round_trip(&s), s);
}

#[test]
fn string_round_trip_empty() {
    let s = String::new();
    assert_eq!(round_trip(&s), "");
}

#[test]
fn string_serializes_as_utf8_bytes() {
    let s = String::from("caf\u{e9}");
    let bytes = s.serialize();
    assert_eq!(bytes, vec![0x63, 0x61, 0x66, 0xc3, 0xa9]);
    assert_eq!(String::deserialize(&bytes), s);
}

#[test]
fn string_deserialize_invalid_utf8_is_total() {
    assert_eq!(String::deserialize(&[0xff, 0xfe]), "");
}

#[test]
fn bytes_round_trip() {
    let v: Vec<u8> = vec![0, 1, 255, 42];
    assert_eq!(round_trip(&v), v);
    let empty: Vec<u8> = Vec::new();
    assert_eq!(round_trip(&empty), empty);
}
