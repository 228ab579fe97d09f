use apfloat_fuzz::bits::{bits32_from_le_bytes, bits64_from_le_bytes, is_nan32, is_nan64};
use apfloat_fuzz::codec::{decode32, decode64, decode_input, DecodedReq};
use apfloat_fuzz::req::FuzzReq;

fn buf32(op: u8, operands: &[f32]) -> Vec<u8> {
    let mut v = vec![op];
    for x in operands {
        v.extend_from_slice(&x.to_le_bytes());
    }
    v
}

fn buf64(op: u8, operands: &[f64]) -> Vec<u8> {
    let mut v = vec![op];
    for x in operands {
        v.extend_from_slice(&x.to_le_bytes());
    }
    v
}

#[test]
fn decode_add_one_one() {
    let data = buf32(1, &[1.0, 1.0]);
    assert_eq!(
        decode32(&data),
        Some(FuzzReq::Add(1.0f32.to_bits(), 1.0f32.to_bits()))
    );
}

#[test]
fn decode_all_operators_32() {
    let one = 1.0f32.to_bits();
    let two = 2.0f32.to_bits();
    assert_eq!(decode32(&buf32(0, &[1.0])), Some(FuzzReq::Neg(one)));
    assert_eq!(decode32(&buf32(1, &[1.0, 2.0])), Some(FuzzReq::Add(one, two)));
    assert_eq!(decode32(&buf32(2, &[1.0, 2.0])), Some(FuzzReq::Sub(one, two)));
    assert_eq!(decode32(&buf32(3, &[1.0, 2.0])), Some(FuzzReq::Mul(one, two)));
    assert_eq!(decode32(&buf32(4, &[1.0, 2.0])), Some(FuzzReq::Div(one, two)));
    assert_eq!(decode32(&buf32(5, &[1.0, 2.0])), Some(FuzzReq::Rem(one, two)));
    assert_eq!(
        decode32(&buf32(6, &[1.0, 2.0, 1.0])),
        Some(FuzzReq::MulAdd(one, two, one))
    );
}

#[test]
fn decode_empty_buffer() {
    assert_eq!(decode32(&[]), None);
    assert_eq!(decode64(&[]), None);
}

#[test]
fn decode_missing_operand() {
    // A two-operand operator with only one operand present.
    assert_eq!(decode32(&buf32(1, &[1.0])), None);
    assert_eq!(decode64(&buf64(6, &[2.0, 3.0])), None);
}

#[test]
fn decode_extra_operand() {
    // A one-operand operator followed by two whole operands.
    assert_eq!(decode32(&buf32(0, &[1.0, 2.0])), None);
    assert_eq!(decode64(&buf64(1, &[1.0, 2.0, 3.0])), None);
}

#[test]
fn decode_bad_tag() {
    assert_eq!(decode32(&buf32(7, &[1.0, 1.0])), None);
    assert_eq!(decode32(&buf32(255, &[1.0, 1.0])), None);
    assert_eq!(decode64(&buf64(7, &[1.0, 1.0])), None);
}

#[test]
fn decode_partial_trailing_operand() {
    let mut data = buf32(1, &[1.0]);
    data.push(0x3f);
    assert_eq!(decode32(&data), None);
    let mut data = buf64(0, &[1.0]);
    data.pop();
    assert_eq!(decode64(&data), None);
}

#[test]
fn decode_operand_bytes_little_endian() {
    let data: Vec<u8> = vec![0, 0x78, 0x56, 0x34, 0x12];
    assert_eq!(decode32(&data), Some(FuzzReq::Neg(0x12345678)));
    let data: Vec<u8> = vec![0, 0x11, 0x22, 0x33, 0x44, 0x55, 0x66, 0x77, 0x88];
    assert_eq!(decode64(&data), Some(FuzzReq::Neg(0x8877665544332211)));
}

#[test]
fn decode_mul_add_64() {
    let data = buf64(6, &[2.0, 3.0, 1.0]);
    assert_eq!(
        decode64(&data),
        Some(FuzzReq::MulAdd(
            2.0f64.to_bits(),
            3.0f64.to_bits(),
            1.0f64.to_bits()
        ))
    );
}

#[test]
fn decode_input_dispatches_on_first_byte() {
    let mut data = vec![32u8];
    data.extend_from_slice(&buf32(1, &[1.0, 1.0]));
    assert_eq!(
        decode_input(&data),
        Some(DecodedReq::Req32(FuzzReq::Add(
            1.0f32.to_bits(),
            1.0f32.to_bits()
        )))
    );

    let mut data = vec![64u8];
    data.extend_from_slice(&buf64(0, &[1.5]));
    assert_eq!(
        decode_input(&data),
        Some(DecodedReq::Req64(FuzzReq::Neg(1.5f64.to_bits())))
    );
}

#[test]
fn decode_input_rejects_other_selectors() {
    let mut data = vec![33u8];
    data.extend_from_slice(&buf32(1, &[1.0, 1.0]));
    assert_eq!(decode_input(&data), None);
    assert_eq!(decode_input(&[]), None);
    assert_eq!(decode_input(&[0]), None);
}

#[test]
fn decode_input_one_operand_for_binary_op() {
    // The scenario [32, 1, <4 bytes>]: a two-operand operator with one
    // operand is discarded, never evaluated.
    let mut data = vec![32u8];
    data.extend_from_slice(&buf32(1, &[1.0]));
    assert_eq!(decode_input(&data), None);
}

#[test]
fn decode_input_tag_out_of_range() {
    // The scenario [32, 7, ...]: tag 7 lies outside the operator set.
    let mut data = vec![32u8];
    data.extend_from_slice(&buf32(7, &[1.0]));
    assert_eq!(decode_input(&data), None);
}

#[test]
fn bits_from_le_bytes_exact() {
    let bytes: Vec<u8> = vec![0x78, 0x56, 0x34, 0x12, 0x11, 0x22, 0x33, 0x44];
    assert_eq!(bits32_from_le_bytes(&bytes, 0), 0x12345678);
    assert_eq!(bits32_from_le_bytes(&bytes, 4), 0x44332211);
    assert_eq!(bits64_from_le_bytes(&bytes, 0), 0x4433221112345678);
}

#[test]
fn from_op_covers_the_operator_set() {
    assert_eq!(FuzzReq::from_op(0), Some(FuzzReq::Neg(())));
    assert_eq!(FuzzReq::from_op(1), Some(FuzzReq::Add((), ())));
    assert_eq!(FuzzReq::from_op(2), Some(FuzzReq::Sub((), ())));
    assert_eq!(FuzzReq::from_op(3), Some(FuzzReq::Mul((), ())));
    assert_eq!(FuzzReq::from_op(4), Some(FuzzReq::Div((), ())));
    assert_eq!(FuzzReq::from_op(5), Some(FuzzReq::Rem((), ())));
    assert_eq!(FuzzReq::from_op(6), Some(FuzzReq::MulAdd((), (), ())));
    assert_eq!(FuzzReq::from_op(7), None);
    assert_eq!(FuzzReq::from_op(255), None);
}

#[test]
fn arity_per_operator() {
    assert_eq!(FuzzReq::Neg(0u32).arity(), 1);
    assert_eq!(FuzzReq::Add(0u32, 0u32).arity(), 2);
    assert_eq!(FuzzReq::MulAdd(0u32, 0u32, 0u32).arity(), 3);
}

#[test]
fn map_keeps_operator_and_maps_operands() {
    let req = FuzzReq::Add(1u32, 2u32);
    assert_eq!(req.map(|x| x as u64 + 1), FuzzReq::Add(2u64, 3u64));
    let req = FuzzReq::MulAdd(1u32, 2u32, 3u32);
    assert_eq!(req.map(|x| x * 10), FuzzReq::MulAdd(10u32, 20u32, 30u32));
    let req = FuzzReq::Neg(7u32);
    assert_eq!(req.map(f32::from_bits).map(f32::to_bits), FuzzReq::Neg(7u32));
}

#[test]
fn nan_bit_patterns() {
    assert!(is_nan32(0x7fc00000));
    assert!(is_nan32(0x7fc00001));
    assert!(is_nan32(0xffc00000));
    assert!(is_nan32(0x7f800001));
    assert!(!is_nan32(0x7f800000));
    assert!(!is_nan32(0xff800000));
    assert!(!is_nan32(0x3f800000));
    assert!(!is_nan32(0));
    assert!(is_nan64(0x7ff8000000000000));
    assert!(is_nan64(0xfff8000000000001));
    assert!(!is_nan64(0x7ff0000000000000));
    assert!(!is_nan64(0x3ff0000000000000));
    assert_eq!(is_nan32(f32::NAN.to_bits()), true);
    assert_eq!(is_nan64(f64::NAN.to_bits()), true);
    assert_eq!(is_nan32((0.0f32 / 0.0f32).to_bits()), true);
}
