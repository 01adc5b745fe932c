use idx_array::{F32Bits, F64Bits, IdxArray};

fn rank1_header(tag: u8, axis: u32) -> Vec<u8> {
    let mut v = vec![0u8, 0u8, tag, 0x01];
    v.extend_from_slice(&axis.to_be_bytes());
    v
}

#[test]
fn rank1_ubyte_decodes() {
    let mut buf = rank1_header(0x08, 3);
    buf.extend_from_slice(&[5, 0, 9]);
    let arr = IdxArray::<u8, 1>::parse(&buf).expect("valid rank-1 unsigned-byte input");
    let (dims, data) = arr.dims_data();
    assert_eq!(dims, vec![3]);
    assert_eq!(data, vec![5, 0, 9]);
}

#[test]
fn rank1_ubyte_into_sequence() {
    let mut buf = rank1_header(0x08, 3);
    buf.extend_from_slice(&[5, 0, 9]);
    let arr = IdxArray::<u8, 1>::parse(&buf).expect("valid rank-1 unsigned-byte input");
    assert_eq!(arr.into_sequence(), vec![5, 0, 9]);
}

#[test]
fn wrong_rank_byte_fails() {
    // Same bytes as the valid rank-1 case, but the rank byte claims two axes.
    let buf = vec![0u8, 0, 0x08, 0x02, 0, 0, 0, 3, 5, 0, 9];
    assert!(IdxArray::<u8, 1>::parse(&buf).is_err());
}

#[test]
fn rank_mismatch_against_requested_rank_fails() {
    // A valid rank-1 buffer does not decode as a rank-2 array.
    let mut buf = rank1_header(0x08, 3);
    buf.extend_from_slice(&[5, 0, 9]);
    assert!(IdxArray::<u8, 2>::parse(&buf).is_err());
}

#[test]
fn bad_signature_fails() {
    let mut buf = rank1_header(0x08, 1);
    buf[0] = 1;
    buf.push(7);
    assert!(IdxArray::<u8, 1>::parse(&buf).is_err());
    let mut buf2 = rank1_header(0x08, 1);
    buf2[1] = 0xFF;
    buf2.push(7);
    assert!(IdxArray::<u8, 1>::parse(&buf2).is_err());
}

#[test]
fn tag_mismatch_fails() {
    // The buffer carries the signed-byte tag; decoding as unsigned bytes fails,
    // and with the matching element type the same bytes decode.
    let mut buf = rank1_header(0x09, 2);
    buf.extend_from_slice(&[0xFF, 0x7F]);
    assert!(IdxArray::<u8, 1>::parse(&buf).is_err());
    assert!(IdxArray::<i8, 1>::parse(&buf).is_ok());
}

#[test]
fn empty_and_short_inputs_fail() {
    assert!(IdxArray::<u8, 1>::parse(&[]).is_err());
    assert!(IdxArray::<u8, 1>::parse(&[0, 0, 0x08]).is_err());
    // Header truncated inside the axis size.
    assert!(IdxArray::<u8, 1>::parse(&[0, 0, 0x08, 0x01, 0, 0]).is_err());
}

#[test]
fn truncated_data_fails() {
    let mut buf = rank1_header(0x08, 3);
    buf.extend_from_slice(&[5, 0, 9]);
    for cut in 0..buf.len() {
        assert!(IdxArray::<u8, 1>::parse(&buf[..cut]).is_err());
    }
}

#[test]
fn trailing_byte_fails() {
    let mut buf = rank1_header(0x08, 3);
    buf.extend_from_slice(&[5, 0, 9]);
    buf.push(0);
    assert!(IdxArray::<u8, 1>::parse(&buf).is_err());
}

#[test]
fn axis_product_overflow_fails() {
    // 0x80000000 * 0x80000000 * 4 == 2^64: a wrapping product would be zero
    // and an empty data section would then wrongly pass the end-of-input
    // check, so this must fail instead.
    let mut buf = vec![0u8, 0, 0x08, 0x03];
    buf.extend_from_slice(&0x8000_0000u32.to_be_bytes());
    buf.extend_from_slice(&0x8000_0000u32.to_be_bytes());
    buf.extend_from_slice(&4u32.to_be_bytes());
    assert!(IdxArray::<u8, 3>::parse(&buf).is_err());
}

#[test]
fn zero_axis_decodes_empty() {
    let buf = rank1_header(0x08, 0);
    let arr = IdxArray::<u8, 1>::parse(&buf).expect("zero-length axis is a valid shape");
    let (dims, data) = arr.dims_data();
    assert_eq!(dims, vec![0]);
    assert_eq!(data, Vec::<u8>::new());
}

#[test]
fn rank0_has_one_element() {
    // Rank zero means an empty product of axes, which is one element.
    let buf = vec![0u8, 0, 0x08, 0x00, 42];
    let arr = IdxArray::<u8, 0>::parse(&buf).expect("rank-0 scalar input");
    let (dims, data) = arr.dims_data();
    assert_eq!(dims, Vec::<u32>::new());
    assert_eq!(data, vec![42]);
}

#[test]
fn signed_byte_decodes() {
    let mut buf = rank1_header(0x09, 2);
    buf.extend_from_slice(&[0xFF, 0x7F]);
    let arr = IdxArray::<i8, 1>::parse(&buf).expect("valid signed-byte input");
    assert_eq!(arr.into_sequence(), vec![-1i8, 127]);
}

#[test]
fn signed_short_decodes_big_endian() {
    let mut buf = rank1_header(0x0B, 2);
    buf.extend_from_slice(&[0xFF, 0xFE, 0x12, 0x34]);
    let arr = IdxArray::<i16, 1>::parse(&buf).expect("valid 16-bit input");
    assert_eq!(arr.into_sequence(), vec![-2i16, 0x1234]);
}

#[test]
fn signed_int_decodes_big_endian() {
    let mut buf = rank1_header(0x0C, 2);
    buf.extend_from_slice(&[0x80, 0, 0, 1]);
    buf.extend_from_slice(&[0, 0, 2, 0]);
    let arr = IdxArray::<i32, 1>::parse(&buf).expect("valid 32-bit input");
    assert_eq!(arr.into_sequence(), vec![-2147483647i32, 512]);
}

#[test]
fn float_bits_decode() {
    let mut buf = rank1_header(0x0D, 2);
    buf.extend_from_slice(&1.0f32.to_be_bytes());
    buf.extend_from_slice(&(-0.5f32).to_be_bytes());
    let arr = IdxArray::<F32Bits, 1>::parse(&buf).expect("valid 32-bit float input");
    let values: Vec<f32> = arr.into_sequence().iter().map(|e| f32::from_bits(e.bits)).collect();
    assert_eq!(values, vec![1.0f32, -0.5]);
}

#[test]
fn double_bits_decode() {
    let mut buf = rank1_header(0x0E, 2);
    buf.extend_from_slice(&(-2.5f64).to_be_bytes());
    buf.extend_from_slice(&12345.0625f64.to_be_bytes());
    let arr = IdxArray::<F64Bits, 1>::parse(&buf).expect("valid 64-bit float input");
    let values: Vec<f64> = arr.into_sequence().iter().map(|e| f64::from_bits(e.bits)).collect();
    assert_eq!(values, vec![-2.5f64, 12345.0625]);
}

#[test]
fn short_element_run_fails() {
    // Two 16-bit elements declared, three bytes of data present.
    let mut buf = rank1_header(0x0B, 2);
    buf.extend_from_slice(&[0xFF, 0xFE, 0x12]);
    assert!(IdxArray::<i16, 1>::parse(&buf).is_err());
}

#[test]
fn rank2_decodes_in_row_order() {
    let mut buf = vec![0u8, 0, 0x08, 0x02];
    buf.extend_from_slice(&2u32.to_be_bytes());
    buf.extend_from_slice(&3u32.to_be_bytes());
    buf.extend_from_slice(&[1, 2, 3, 4, 5, 6]);
    let arr = IdxArray::<u8, 2>::parse(&buf).expect("valid rank-2 input");
    let (dims, data) = arr.dims_data();
    assert_eq!(dims, vec![2, 3]);
    assert_eq!(data, vec![1, 2, 3, 4, 5, 6]);
}
