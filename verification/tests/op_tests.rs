use ssc::op::{const_time_is_zero, const_time_mem_diff, secure_zero};

#[test]
fn secure_zero_wipes_bytes() {
    let mut v: Vec<u8> = vec![1, 2, 3, 255];
    secure_zero(&mut v[..]);
    assert_eq!(v, vec![0, 0, 0, 0]);
    assert!(const_time_is_zero(&v[..]));
}

#[test]
fn secure_zero_wipes_wide_and_signed() {
    let mut a: Vec<u32> = vec![0xdead_beef, 7];
    secure_zero(&mut a[..]);
    assert_eq!(a, vec![0, 0]);
    let mut b: Vec<i64> = vec![-1, i64::MIN, 5];
    secure_zero(&mut b[..]);
    assert_eq!(b, vec![0, 0, 0]);
    let mut c: Vec<u8> = vec![];
    secure_zero(&mut c[..]);
    assert!(c.is_empty());
}

#[test]
fn is_zero_cases() {
    let empty: [u8; 0] = [];
    assert!(const_time_is_zero(&empty[..]));
    assert!(const_time_is_zero(&[0u64, 0, 0][..]));
    assert!(!const_time_is_zero(&[0u64, 0, 1][..]));
    assert!(!const_time_is_zero(&[0x8000_0000_0000_0000_0000_0000_0000_0000u128][..]));
    assert!(!const_time_is_zero(&[1usize][..]));
    assert!(const_time_is_zero(&[0u16; 9][..]));
}

#[test]
fn mem_diff_length_mismatch_is_err() {
    assert_eq!(const_time_mem_diff(&[1u8, 2][..], &[1u8][..]), Err(()));
    assert_eq!(const_time_mem_diff(&[0u32][..], &[][..]), Err(()));
}

#[test]
fn mem_diff_counts_bytes() {
    assert_eq!(const_time_mem_diff(&[1u8, 2, 3][..], &[1u8, 2, 3][..]), Ok(0));
    assert_eq!(const_time_mem_diff(&[0x12u8, 0x34][..], &[0x12u8, 0x35][..]), Ok(1));
    assert_eq!(const_time_mem_diff(&[0x1234u16][..], &[0x1334u16][..]), Ok(1));
    assert_eq!(const_time_mem_diff(&[0x0102_0304u32][..], &[0x0403_0201u32][..]), Ok(4));
    assert_eq!(const_time_mem_diff(&[0u64, u64::MAX][..], &[0u64, 0xff][..]), Ok(7));
    assert_eq!(const_time_mem_diff(&[0u128][..], &[u128::MAX][..]), Ok(16));
    assert_eq!(const_time_mem_diff(&[1usize][..], &[0usize][..]), Ok(1));
    let e: [u16; 0] = [];
    assert_eq!(const_time_mem_diff(&e[..], &e[..]), Ok(0));
}

#[test]
fn mem_diff_zero_iff_equal() {
    let a = [5u32, 6, 7];
    let b = [5u32, 6, 7];
    let c = [5u32, 6, 8];
    assert_eq!(const_time_mem_diff(&a[..], &b[..]), Ok(0));
    assert_ne!(const_time_mem_diff(&a[..], &c[..]), Ok(0));
}

#[test]
fn mem_diff_symmetric() {
    let a = [0x1111_2222u32, 0];
    let b = [0x1111_3333u32, 0xffff];
    assert_eq!(
        const_time_mem_diff(&a[..], &b[..]),
        const_time_mem_diff(&b[..], &a[..])
    );
    assert_eq!(const_time_mem_diff(&a[..], &b[..]), Ok(4));
}

#[test]
fn mem_diff_bounded_by_size() {
    let a = [0u16; 5];
    let b = [0xffffu16; 5];
    assert_eq!(const_time_mem_diff(&a[..], &b[..]), Ok(10));
}

#[test]
fn is_zero_agrees_with_diff_from_zeros() {
    let s = [0u64, 3, 0];
    let z = [0u64; 3];
    let diff_zero = const_time_mem_diff(&s[..], &z[..]) == Ok(0);
    assert_eq!(const_time_is_zero(&s[..]), diff_zero);
    let mut w = s;
    secure_zero(&mut w[..]);
    assert!(const_time_is_zero(&w[..]));
    assert_eq!(const_time_mem_diff(&w[..], &z[..]), Ok(0));
}

#[test]
fn mem_diff_counts_every_byte_value() {
    for x in 0u8..=255 {
        let expected = if x == 0x5a { 0 } else { 1 };
        assert_eq!(const_time_mem_diff(&[x][..], &[0x5au8][..]), Ok(expected));
    }
}
