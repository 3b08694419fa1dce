use polyfuse::wire::{
    get_i32, get_i64, get_u16, get_u32, get_u64, put_bytes, put_i32, put_i64, put_u16, put_u32,
    put_u64, put_zeros, to_i32, to_i64, to_u32, to_u64,
};

#[test]
fn u16_is_read_least_significant_byte_first() {
    assert_eq!(get_u16(&[0x34, 0x12], 0), 0x1234);
    assert_eq!(get_u16(&[0xff, 0x34, 0x12], 1), 0x1234);
    assert_eq!(get_u16(&[0xff, 0xff], 0), u16::MAX);
}

#[test]
fn u32_is_read_least_significant_byte_first() {
    assert_eq!(get_u32(&[0x78, 0x56, 0x34, 0x12], 0), 0x1234_5678);
    assert_eq!(get_u32(&[0, 0, 0x0f, 0x27, 0, 0], 2), 9999);
    assert_eq!(get_u32(&[0xff; 4], 0), u32::MAX);
}

#[test]
fn u64_is_read_least_significant_byte_first() {
    let bytes = [0xef, 0xcd, 0xab, 0x89, 0x67, 0x45, 0x23, 0x01];
    assert_eq!(get_u64(&bytes, 0), 0x0123_4567_89ab_cdef);
    assert_eq!(get_u64(&[0xff; 8], 0), u64::MAX);
}

#[test]
fn signed_numbers_are_twos_complement() {
    assert_eq!(get_i32(&[0xff, 0xff, 0xff, 0xff], 0), -1);
    assert_eq!(get_i32(&[0xda, 0xff, 0xff, 0xff], 0), -38);
    assert_eq!(get_i32(&[0x00, 0x00, 0x00, 0x80], 0), i32::MIN);
    assert_eq!(get_i32(&[0xff, 0xff, 0xff, 0x7f], 0), i32::MAX);
    assert_eq!(get_i64(&[0xff; 8], 0), -1);
    assert_eq!(get_i64(&[0, 0, 0, 0, 0, 0, 0, 0x80], 0), i64::MIN);
}

#[test]
fn signed_and_unsigned_readings_agree_with_the_language() {
    for v in [0u32, 1, 0x7fff_ffff, 0x8000_0000, 0x8000_0001, u32::MAX] {
        assert_eq!(to_i32(v), v as i32);
        assert_eq!(to_u32(v as i32), v);
    }
    for v in [0u64, 1, 0x7fff_ffff_ffff_ffff, 0x8000_0000_0000_0000, u64::MAX] {
        assert_eq!(to_i64(v), v as i64);
        assert_eq!(to_u64(v as i64), v);
    }
}

#[test]
fn numbers_are_written_least_significant_byte_first() {
    let mut out = vec![0xaa];
    put_u16(&mut out, 0x1234);
    put_u32(&mut out, 0x1234_5678);
    put_u64(&mut out, 0x0123_4567_89ab_cdef);
    put_i32(&mut out, -38);
    put_i64(&mut out, -2);
    assert_eq!(
        out,
        vec![
            0xaa, 0x34, 0x12, 0x78, 0x56, 0x34, 0x12, 0xef, 0xcd, 0xab, 0x89, 0x67, 0x45, 0x23,
            0x01, 0xda, 0xff, 0xff, 0xff, 0xfe, 0xff, 0xff, 0xff, 0xff, 0xff, 0xff, 0xff,
        ]
    );
}

#[test]
fn written_numbers_agree_with_the_language() {
    for v in [0u64, 1, 255, 256, 65535, 65536, 0xdead_beef, 0x0123_4567_89ab_cdef, u64::MAX] {
        let mut out = Vec::new();
        put_u64(&mut out, v);
        assert_eq!(out, v.to_le_bytes().to_vec());
        assert_eq!(get_u64(&out, 0), v);
        let mut out = Vec::new();
        put_u32(&mut out, v as u32);
        assert_eq!(out, (v as u32).to_le_bytes().to_vec());
        assert_eq!(get_u32(&out, 0), v as u32);
        let mut out = Vec::new();
        put_u16(&mut out, v as u16);
        assert_eq!(out, (v as u16).to_le_bytes().to_vec());
        assert_eq!(get_u16(&out, 0), v as u16);
    }
}

#[test]
fn zeros_and_bytes_are_appended() {
    let mut out = vec![1u8];
    put_zeros(&mut out, 3);
    put_bytes(&mut out, &[7, 8]);
    put_zeros(&mut out, 0);
    assert_eq!(out, vec![1, 0, 0, 0, 7, 8]);
}
