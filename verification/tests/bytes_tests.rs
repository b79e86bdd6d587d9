use ironbridge::bytes::{i8_conv, u8_conv};

#[test]
fn unsigned_to_signed_reinterprets_bit_patterns() {
    assert_eq!(u8_conv(&[0u8]), vec![0i8]);
    assert_eq!(u8_conv(&[127u8]), vec![127i8]);
    assert_eq!(u8_conv(&[128u8]), vec![-128i8]);
    assert_eq!(u8_conv(&[255u8]), vec![-1i8]);
}

#[test]
fn signed_to_unsigned_reinterprets_bit_patterns() {
    assert_eq!(i8_conv(&[0i8]), vec![0u8]);
    assert_eq!(i8_conv(&[127i8]), vec![127u8]);
    assert_eq!(i8_conv(&[-128i8]), vec![128u8]);
    assert_eq!(i8_conv(&[-1i8]), vec![255u8]);
}

#[test]
fn every_byte_value_round_trips() {
    let all: Vec<u8> = (0u8..=255).collect();
    let signed = u8_conv(&all);
    let back = i8_conv(&signed);
    assert_eq!(back, all);
}

#[test]
fn every_signed_value_round_trips() {
    let all: Vec<i8> = (-128i8..=127).collect();
    let unsigned = i8_conv(&all);
    let back = u8_conv(&unsigned);
    assert_eq!(back, all);
}

#[test]
fn conversion_matches_native_cast() {
    for b in 0u8..=255 {
        assert_eq!(u8_conv(&[b])[0], b as i8);
    }
}

#[test]
fn empty_buffer_converts_to_empty() {
    assert!(u8_conv(&[]).is_empty());
    assert!(i8_conv(&[]).is_empty());
}

#[test]
fn sample_buffer_preserves_length_and_values() {
    let data: Vec<u8> = vec![3, 200, 77, 255, 0, 128];
    let signed = u8_conv(&data);
    assert_eq!(signed.len(), data.len());
    for (s, u) in signed.iter().zip(data.iter()) {
        assert_eq!(*s as u8, *u);
    }
}
