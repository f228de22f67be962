use chip8::{get_hex_digit, get_hex_digit_u8, get_hex_digit_usize, Address, Byte, Digits};

#[test]
fn byte_add_without_overflow() {
    assert_eq!(Byte(100).add(Byte(155)), Ok(Byte(255)));
    assert_eq!(Byte(0).add(Byte(0)), Ok(Byte(0)));
}

#[test]
fn byte_add_with_overflow_wraps() {
    assert_eq!(Byte(200).add(Byte(100)), Err(Byte(44)));
    assert_eq!(Byte(255).add(Byte(1)), Err(Byte(0)));
    assert_eq!(Byte(255).add(Byte(255)), Err(Byte(254)));
}

#[test]
fn byte_sub_without_underflow() {
    assert_eq!(Byte(10).sub(Byte(10)), Ok(Byte(0)));
    assert_eq!(Byte(200).sub(Byte(55)), Ok(Byte(145)));
}

#[test]
fn byte_sub_with_underflow_wraps() {
    assert_eq!(Byte(5).sub(Byte(10)), Err(Byte(251)));
    assert_eq!(Byte(0).sub(Byte(255)), Err(Byte(1)));
}

#[test]
fn byte_checked_ops_match_wrapping_for_all_pairs() {
    for a in 0..=255u8 {
        for b in 0..=255u8 {
            match Byte(a).add(Byte(b)) {
                Ok(r) => assert!((a as u16 + b as u16) <= 255 && r.0 == a + b),
                Err(r) => assert!((a as u16 + b as u16) > 255 && r.0 == a.wrapping_add(b)),
            }
            match Byte(a).sub(Byte(b)) {
                Ok(r) => assert!(a >= b && r.0 == a - b),
                Err(r) => assert!(a < b && r.0 == a.wrapping_sub(b)),
            }
        }
    }
}

#[test]
fn byte_conversions() {
    assert_eq!(Byte(0xAB).as_u8(), 0xAB);
    assert_eq!(Byte(0xAB).as_usize(), 0xAB);
}

#[test]
fn address_is_masked_to_twelve_bits() {
    assert_eq!(Address::new(0xFFFF).as_u16(), 0xFFF);
    assert_eq!(Address::new(0x1234).as_u16(), 0x234);
    assert_eq!(Address::new(0x0ABC).as_usize(), 0xABC);
    assert_eq!(Address::mask(0xABCD), 0xBCD);
}

#[test]
fn address_in_range_for_every_input() {
    for v in 0..=u16::MAX {
        let a = Address::new(v);
        assert!(a.as_u16() <= 0xFFF);
        assert_eq!(a.as_u16(), v % 4096);
    }
}

#[test]
fn address_add_wraps_around_memory() {
    assert_eq!(Address::new(0xFFF).add(2).as_u16(), 0x001);
    assert_eq!(Address::new(0x200).add(0x10).as_u16(), 0x210);
    assert_eq!(Address::new(0x100).add(0xFFFF).as_u16(), 0x0FF);
}

#[test]
fn hex_digit_fields() {
    assert_eq!(get_hex_digit(0xABCD, 0, 1), 0xA);
    assert_eq!(get_hex_digit(0xABCD, 1, 1), 0xB);
    assert_eq!(get_hex_digit(0xABCD, 3, 1), 0xD);
    assert_eq!(get_hex_digit(0xABCD, 2, 2), 0xCD);
    assert_eq!(get_hex_digit(0xABCD, 1, 3), 0xBCD);
    assert_eq!(get_hex_digit_usize(0x6A05, 1, 1), 10);
    assert_eq!(get_hex_digit_u8(0x6A05, 2, 2), 0x05);
    assert_eq!(get_hex_digit_u8(0xABCD, 0, 3), 0xBC);
}

#[test]
fn digit_glyphs() {
    assert_eq!(Digits::from_usize(0).sprite(), [0xF0, 0x90, 0x90, 0x90, 0xF0]);
    assert_eq!(Digits::from_usize(10).sprite(), [0xF0, 0x90, 0xF0, 0x90, 0x90]);
    assert_eq!(Digits::from_usize(15).sprite(), [0xF0, 0x80, 0xF0, 0x80, 0x80]);
}
