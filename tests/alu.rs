use grok80::alu::{add, and, daa, dec, from_byte, inc, or, parity_even, sub, to_byte, xor, Flags};

fn f(s: bool, z: bool, ac: bool, p: bool, cy: bool) -> Flags {
    Flags { s, z, ac, p, cy }
}

#[test]
fn add_edge_cases() {
    assert_eq!(add(0xFF, 0x01, false), (0x00, f(false, true, true, true, true)));
    assert_eq!(add(0x0F, 0x01, false), (0x10, f(false, false, true, false, false)));
    assert_eq!(add(0x7F, 0x00, true), (0x80, f(true, false, true, false, false)));
    assert_eq!(add(0x12, 0x34, false), (0x46, f(false, false, false, false, false)));
}

#[test]
fn add_flags_match_their_definitions() {
    for a in 0..=255u8 {
        for b in 0..=255u8 {
            let (res, fl) = add(a, b, false);
            assert_eq!(res, a.wrapping_add(b));
            assert_eq!(fl.ac, (a & 0xF) + (b & 0xF) > 0xF);
            assert_eq!(fl.cy, a as u16 + b as u16 > 0xFF);
            assert_eq!(fl.z, res == 0);
            assert_eq!(fl.s, res & 0x80 != 0);
            assert_eq!(fl.p, res.count_ones() % 2 == 0);
        }
    }
}

#[test]
fn sub_edge_cases() {
    assert_eq!(sub(0x00, 0x01, false), (0xFF, f(true, false, false, true, true)));
    assert_eq!(sub(0x10, 0x01, false), (0x0F, f(false, false, false, true, false)));
    assert_eq!(sub(0x05, 0x05, false), (0x00, f(false, true, true, true, false)));
    assert_eq!(sub(0x05, 0x04, true), (0x00, f(false, true, true, true, false)));
}

#[test]
fn logic_and_counting() {
    assert_eq!(and(0x0F, 0xF0), (0x00, f(false, true, true, true, false)));
    assert_eq!(and(0x07, 0x03), (0x03, f(false, false, false, true, false)));
    assert_eq!(or(0x80, 0x01), (0x81, f(true, false, false, true, false)));
    assert_eq!(xor(0xFF, 0xFF), (0x00, f(false, true, false, true, false)));
    assert_eq!(inc(0xFF, true), (0x00, f(false, true, true, true, true)));
    assert_eq!(inc(0x0E, false), (0x0F, f(false, false, false, true, false)));
    assert_eq!(dec(0x00, false), (0xFF, f(true, false, false, true, false)));
    assert_eq!(dec(0x10, true), (0x0F, f(false, false, false, true, true)));
}

#[test]
fn daa_cases() {
    assert_eq!(daa(0x9A, f(false, false, false, false, false)), (0x00, f(false, true, true, true, true)));
    assert_eq!(daa(0x3C, f(false, false, false, false, false)), (0x42, f(false, false, true, true, false)));
    assert_eq!(daa(0x00, f(false, false, true, false, true)).0, 0x66);
}

#[test]
fn parity() {
    assert!(parity_even(0x00));
    assert!(!parity_even(0x01));
    assert!(parity_even(0x03));
    assert!(parity_even(0xFF));
    assert!(!parity_even(0x80));
}

#[test]
fn flag_byte_layout() {
    for bits in 0..32u8 {
        let fl = f(bits & 16 != 0, bits & 8 != 0, bits & 4 != 0, bits & 2 != 0, bits & 1 != 0);
        let b = to_byte(fl);
        assert_eq!(b & 0x02, 0x02);
        assert_eq!(b & 0x28, 0);
        assert_eq!(from_byte(b), fl);
    }
    assert_eq!(to_byte(f(true, true, true, true, true)), 0xD7);
    assert_eq!(to_byte(f(false, false, false, false, false)), 0x02);
}
