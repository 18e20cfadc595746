use brisc::bits::{bits, sign_extend, twiddle};

#[test]
fn test_bits_simple() {
    let value = 0b1010;
    let result = bits(value, 0, 4);
    assert_eq!(result, value);

    let value = 0b1010;
    let result = bits(value, 1, 3);
    assert_eq!(result, 1);
}

#[test]
fn test_twiddle_simple() {
    let value = 0b1010;
    let result = twiddle(value, &[(0, 4)]);
    assert_eq!(result, value);

    let value = 0b1100;
    let result = twiddle(value, &[(3, 4), (1, 2), (2, 3), (0, 1)]);
    assert_eq!(result, 0b1010);
}

fn check_sign_extension(data: u64, index: u64) {
    if (data >> index) & 1 == 1 {
        let ones = u64::MAX << index;
        let mask = !ones;
        assert_eq!(sign_extend(data, index), (data & mask) | ones);
    } else {
        let mask = !(u64::MAX << index);
        assert_eq!(sign_extend(data, index), data & mask);
    }
}

#[test]
fn test_sign_extension_u64_simple() {
    check_sign_extension(0b1111, 3);
    check_sign_extension(0b1010, 3);
    check_sign_extension(0b1010, 2);
    check_sign_extension(0b1010, 1);
    check_sign_extension(0b1010, 0);
    check_sign_extension(u64::MAX, 63);
    check_sign_extension(0, 63);
}

#[test]
fn sign_extend_exact_values() {
    assert_eq!(sign_extend(0x800, 11), 0xFFFF_FFFF_FFFF_F800);
    assert_eq!(sign_extend(0x7FF, 11), 0x7FF);
    assert_eq!(sign_extend(0xFFFF_FFFF_FFFF_F7FF, 11), 0x7FF);
    assert_eq!(sign_extend(0x8000_0000, 31), 0xFFFF_FFFF_8000_0000);
    assert_eq!(sign_extend(1, 0), u64::MAX);
    assert_eq!(sign_extend(2, 0), 0);
}

#[test]
fn sign_extend_copies_the_sign_bit_upward() {
    for index in 0..64u64 {
        for &value in &[0u64, 1, 0x5555_5555_5555_5555, 0xAAAA_AAAA_AAAA_AAAA, u64::MAX] {
            let masked = if index == 63 { value } else { value & ((1u64 << (index + 1)) - 1) };
            let extended = sign_extend(masked, index);
            let sign = (masked >> index) & 1;
            for j in 0..64u64 {
                let expected = if j <= index { (masked >> j) & 1 } else { sign };
                assert_eq!((extended >> j) & 1, expected);
            }
        }
    }
}

#[test]
fn bits_of_a_whole_word_prefix() {
    assert_eq!(bits(u64::MAX, 0, 63), u64::MAX >> 1);
    assert_eq!(bits(u64::MAX, 63, 64), 1);
    assert_eq!(bits(0xDEAD_BEEF, 16, 32), 0xDEAD);
    assert_eq!(bits(0xDEAD_BEEF, 5, 5), 0);
}

#[test]
fn twiddle_of_no_range_is_zero() {
    assert_eq!(twiddle(0xFFFF, &[]), 0);
    assert_eq!(twiddle(0b110100, &[(4, 6), (2, 3)]), 0b111);
}
