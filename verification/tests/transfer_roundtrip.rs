//! Round-trip and length-validation behavior of the opaque transfer layer.

use lv2_worker::transfer::{decode_view, Plain};

#[test]
fn round_trip_u64() {
    let value: u64 = 0x0102030405060708;
    let view = value.into_view();
    assert_eq!(view, vec![8, 7, 6, 5, 4, 3, 2, 1]);
    let decoded: u64 = <u64 as Plain>::from_view(view.as_slice());
    assert_eq!(decoded, value);
}

#[test]
fn round_trip_u32() {
    let value: u32 = 258;
    let view = value.into_view();
    assert_eq!(view, vec![2, 1, 0, 0]);
    let decoded = decode_view::<u32>(view.as_slice());
    assert_eq!(decoded, Some(value));
}

#[test]
fn round_trip_u8() {
    let value: u8 = 0x7f;
    let view = value.into_view();
    assert_eq!(view, vec![0x7f]);
    let decoded = decode_view::<u8>(view.as_slice());
    assert_eq!(decoded, Some(value));
}

#[test]
fn representation_sizes() {
    assert_eq!(<u64 as Plain>::repr_len(), 8);
    assert_eq!(<u32 as Plain>::repr_len(), 4);
    assert_eq!(<u8 as Plain>::repr_len(), 1);
}

#[test]
fn size_mismatch_is_refused() {
    // A declared length different from the representation size is rejected
    // before any value is constructed.
    assert_eq!(decode_view::<u32>(&[1, 2, 3]), None);
    assert_eq!(decode_view::<u32>(&[1, 2, 3, 4, 5]), None);
    assert_eq!(decode_view::<u64>(&[]), None);
    assert_eq!(decode_view::<u8>(&[1, 2]), None);
}

#[test]
fn every_same_length_view_decodes() {
    // Decoding never fails for well-formed same-length input.
    assert_eq!(decode_view::<u64>(&[0xff; 8]), Some(u64::MAX));
    assert_eq!(decode_view::<u32>(&[0, 0, 0, 0]), Some(0));
}
