use neskimo::utils::arithmetic::{add_relative, concat_bytes, is_negative};
use neskimo::utils::paging::{page, page_cross, PageCross};
use neskimo::utils::text::{hex_digit, push_hex_u16, push_hex_u8, push_padded, push_str};

#[test]
fn concat_bytes_joins_high_and_low() {
    assert_eq!(concat_bytes(0xde, 0xad), 0xdead);
    assert_eq!(concat_bytes(0x00, 0xff), 0x00ff);
    assert_eq!(concat_bytes(0xff, 0x00), 0xff00);
}

#[test]
fn is_negative_reads_bit_seven() {
    assert!(is_negative(0x80));
    assert!(is_negative(0xff));
    assert!(!is_negative(0x7f));
    assert!(!is_negative(0x00));
}

#[test]
fn add_relative_moves_both_ways_and_wraps() {
    assert_eq!(add_relative(0x1000, -1), 0x0fff);
    assert_eq!(add_relative(0x10f0, 0x20), 0x1110);
    assert_eq!(add_relative(0xffff, 1), 0x0000);
    assert_eq!(add_relative(0x0000, -1), 0xffff);
    assert_eq!(add_relative(0x1234, -128), 0x11b4);
    assert_eq!(add_relative(0x1234, 127), 0x12b3);
}

#[test]
fn add_relative_then_negation_gives_back_the_address() {
    for base in [0x0000u16, 0x0001, 0x00ff, 0x1234, 0x8000, 0xfffe, 0xffff] {
        for d in [-127i8, -5, -1, 0, 1, 5, 127] {
            assert_eq!(add_relative(add_relative(base, d), -d), base);
        }
    }
}

#[test]
fn page_is_the_upper_byte() {
    assert_eq!(page(0xf0cc), 0xf0);
    assert_eq!(page(0x00ff), 0x00);
    assert_eq!(page(0x0100), 0x01);
}

#[test]
fn page_cross_directions() {
    assert_eq!(page_cross(0x10ff, 0x1100), PageCross::Forwards);
    assert_eq!(page_cross(0x1100, 0x10ff), PageCross::Backwards);
    assert_eq!(page_cross(0x1200, 0x12ff), PageCross::Same);
    assert_eq!(PageCross::Forwards.name(), "Forwards");
    assert_eq!(PageCross::Backwards.name(), "Backwards");
    assert_eq!(PageCross::Same.name(), "Same");
}

#[test]
fn page_cross_is_symmetric() {
    let addresses = [0x0000u16, 0x00ff, 0x0100, 0x12ab, 0x1300, 0xffff];
    for a in addresses {
        for b in addresses {
            let forwards = page_cross(a, b) == PageCross::Forwards;
            let backwards = page_cross(b, a) == PageCross::Backwards;
            assert_eq!(forwards, backwards);
            assert_eq!(page_cross(a, b) == PageCross::Same, page_cross(b, a) == PageCross::Same);
        }
    }
}

#[test]
fn hex_digits() {
    assert_eq!(hex_digit(0, true), '0');
    assert_eq!(hex_digit(9, false), '9');
    assert_eq!(hex_digit(10, true), 'A');
    assert_eq!(hex_digit(15, false), 'f');
}

#[test]
fn hex_formatting_matches_std() {
    for v in [0x00u8, 0x0a, 0x7f, 0xa0, 0xff] {
        let mut s = String::new();
        push_hex_u8(&mut s, v, true);
        assert_eq!(s, format!("{:02X}", v));
        let mut t = String::new();
        push_hex_u8(&mut t, v, false);
        assert_eq!(t, format!("{:02x}", v));
    }
    for v in [0x0000u16, 0x00ff, 0xbeef, 0xc5f5] {
        let mut s = String::new();
        push_hex_u16(&mut s, v, true);
        assert_eq!(s, format!("{:04X}", v));
    }
}

#[test]
fn padding_and_appending() {
    let mut s = String::from("x");
    push_padded(&mut s, &String::from("ab"), 4);
    assert_eq!(s, "xab  ");
    let mut t = String::new();
    push_padded(&mut t, &String::from("abcdef"), 3);
    assert_eq!(t, "abcdef");
    let mut u = String::from("A:");
    push_str(&mut u, "00 X:");
    assert_eq!(u, "A:00 X:");
}
