//! Status flags of the 8080 family and the pure operations that compute them.
//!
//! Every operation takes its input bytes (and, where it matters, the prior
//! flags) and returns the result byte together with the new flags. Nothing
//! here touches processor state.
use vstd::prelude::*;

verus! {

/// The five status flags of the 8080 and 8085.
#[derive(Clone, Copy, Debug, PartialEq, Eq, Structural, Default)]
pub struct Flags {
    /// Sign: bit 7 of the result.
    pub s: bool,
    /// Zero: the result is 0.
    pub z: bool,
    /// Auxiliary carry out of bit 3.
    pub ac: bool,
    /// Parity: the result has an even number of one bits.
    pub p: bool,
    /// Carry out of (or borrow into) bit 7.
    pub cy: bool,
}

/// Bit masks of the flags inside the flag byte `S Z 0 AC 0 P 1 CY`.
pub const FLAG_S: u8 = 0x80;
pub const FLAG_Z: u8 = 0x40;
pub const FLAG_AC: u8 = 0x10;
pub const FLAG_P: u8 = 0x04;
pub const FLAG_CY: u8 = 0x01;
/// Bit 1 of the flag byte always reads as 1.
pub const FLAG_FIXED_ONE: u8 = 0x02;

/// Even parity: the exclusive or of all eight bits is 0, that is the number
/// of one bits is even.
pub open spec fn even_parity(v: u8) -> bool {
    ((v ^ (v >> 1u8) ^ (v >> 2u8) ^ (v >> 3u8) ^ (v >> 4u8) ^ (v >> 5u8) ^ (v >> 6u8) ^ (v >> 7u8))
        & 1) == 0
}

pub open spec fn b2i(b: bool) -> int {
    if b {
        1
    } else {
        0
    }
}

/// Sign, zero and parity of `res`, with the given auxiliary carry and carry.
pub open spec fn szp(res: u8, ac: bool, cy: bool) -> Flags {
    Flags { s: res >= 128, z: res == 0, ac, p: even_parity(res), cy }
}

/// The canonical flag byte `S Z 0 AC 0 P 1 CY`, most significant bit first.
pub open spec fn flags_byte(f: Flags) -> u8 {
    ((if f.s { 0x80int } else { 0 }) + (if f.z { 0x40int } else { 0 }) + (if f.ac {
        0x10int
    } else {
        0
    }) + (if f.p { 0x04int } else { 0 }) + 0x02 + (if f.cy { 0x01int } else { 0 })) as u8
}

/// The flags that a flag byte holds; bits 1, 3 and 5 are ignored.
pub open spec fn flags_of_byte(b: u8) -> Flags {
    Flags {
        s: b & FLAG_S != 0,
        z: b & FLAG_Z != 0,
        ac: b & FLAG_AC != 0,
        p: b & FLAG_P != 0,
        cy: b & FLAG_CY != 0,
    }
}

/// Addition of `a`, `b` and the incoming carry.
pub open spec fn add_spec(a: u8, b: u8, cin: bool) -> (u8, Flags) {
    let sum = a + b + b2i(cin);
    let res = (sum % 256) as u8;
    (res, szp(res, a % 16 + b % 16 + b2i(cin) > 15, sum > 255))
}

/// Subtraction of `b` and the incoming borrow from `a`. The auxiliary carry is
/// that of adding the two's complement, so it is set when the low nibble does
/// not borrow; the carry is set when the whole byte borrows.
pub open spec fn sub_spec(a: u8, b: u8, bin: bool) -> (u8, Flags) {
    let diff = a - b - b2i(bin);
    let res = (if diff < 0 {
        diff + 256
    } else {
        diff
    }) as u8;
    (res, szp(res, a % 16 >= b % 16 + b2i(bin), diff < 0))
}

/// Logical and; the auxiliary carry is the or of bit 3 of both operands.
pub open spec fn and_spec(a: u8, b: u8) -> (u8, Flags) {
    let res = a & b;
    (res, szp(res, ((a | b) >> 3u8) & 1 == 1, false))
}

/// Flags after a logical or / exclusive or whose result is `res`.
pub open spec fn logic_spec(res: u8) -> Flags {
    szp(res, false, false)
}

/// Increment; the carry is left as it was.
pub open spec fn inc_spec(a: u8, cy: bool) -> (u8, Flags) {
    let res = ((a + 1) % 256) as u8;
    (res, szp(res, a % 16 == 15, cy))
}

/// Decrement; the carry is left as it was.
pub open spec fn dec_spec(a: u8, cy: bool) -> (u8, Flags) {
    let res = (if a == 0 {
        255
    } else {
        a - 1
    }) as u8;
    (res, szp(res, a % 16 != 0, cy))
}

/// Decimal adjust of the accumulator.
pub open spec fn daa_spec(a: u8, f: Flags) -> (u8, Flags) {
    let hi = a / 16;
    let lo = a % 16;
    let low_adj: int = if f.ac || lo > 9 {
        6
    } else {
        0
    };
    let cy = f.cy || hi > 9 || (hi >= 9 && lo > 9);
    let adj = low_adj + if cy {
        0x60int
    } else {
        0
    };
    let res = ((a + adj) % 256) as u8;
    (res, szp(res, lo + low_adj > 15, cy))
}

proof fn lemma_parity_fold(v: u8)
    by (bit_vector)
    ensures
        ({
            let x = v ^ (v >> 4u8);
            let y = x ^ (x >> 2u8);
            let z = y ^ (y >> 1u8);
            (z & 1 == 0) == (((v ^ (v >> 1u8) ^ (v >> 2u8) ^ (v >> 3u8) ^ (v >> 4u8) ^ (v >> 5u8)
                ^ (v >> 6u8) ^ (v >> 7u8)) & 1) == 0)
        }),
{
}

/// Even parity of `v`, by folding the byte onto itself.
pub fn parity_even(v: u8) -> (r: bool)
    ensures
        r == even_parity(v),
{
    proof {
        lemma_parity_fold(v);
    }
    let x = v ^ (v >> 4u8);
    let y = x ^ (x >> 2u8);
    let z = y ^ (y >> 1u8);
    z & 1 == 0
}

proof fn lemma_sign_bit(res: u8)
    by (bit_vector)
    ensures
        (res & 0x80 != 0) == (res >= 128),
{
}

/// Sign, zero and parity of `res`, with the given auxiliary carry and carry.
pub fn flags_for(res: u8, ac: bool, cy: bool) -> (r: Flags)
    ensures
        r == szp(res, ac, cy),
{
    proof {
        lemma_sign_bit(res);
    }
    Flags { s: res & 0x80 != 0, z: res == 0, ac, p: parity_even(res), cy }
}

/// `ADD` / `ADC`: sum of `a`, `b` and the incoming carry.
pub fn add(a: u8, b: u8, cin: bool) -> (r: (u8, Flags))
    ensures
        r == add_spec(a, b, cin),
{
    let c: u16 = if cin {
        1
    } else {
        0
    };
    let sum: u16 = a as u16 + b as u16 + c;
    let res = (sum % 256) as u8;
    let ac = (a % 16) as u16 + (b % 16) as u16 + c > 15;
    (res, flags_for(res, ac, sum > 255))
}

/// `SUB` / `SBB` / `CMP`: difference of `a` and `b` and the incoming borrow.
pub fn sub(a: u8, b: u8, bin: bool) -> (r: (u8, Flags))
    ensures
        r == sub_spec(a, b, bin),
{
    let c: u16 = if bin {
        1
    } else {
        0
    };
    let subtrahend: u16 = b as u16 + c;
    let borrow = (a as u16) < subtrahend;
    let res: u8 = if borrow {
        (a as u16 + 256 - subtrahend) as u8
    } else {
        (a as u16 - subtrahend) as u8
    };
    let ac = (a % 16) as u16 >= (b % 16) as u16 + c;
    (res, flags_for(res, ac, borrow))
}

/// `ANA`: logical and.
pub fn and(a: u8, b: u8) -> (r: (u8, Flags))
    ensures
        r == and_spec(a, b),
{
    let res = a & b;
    (res, flags_for(res, ((a | b) >> 3u8) & 1 == 1, false))
}

/// `ORA`: logical or.
pub fn or(a: u8, b: u8) -> (r: (u8, Flags))
    ensures
        r == ((a | b), logic_spec(a | b)),
{
    let res = a | b;
    (res, flags_for(res, false, false))
}

/// `XRA`: exclusive or.
pub fn xor(a: u8, b: u8) -> (r: (u8, Flags))
    ensures
        r == ((a ^ b), logic_spec(a ^ b)),
{
    let res = a ^ b;
    (res, flags_for(res, false, false))
}

/// `INR`: increment, keeping the carry `cy`.
pub fn inc(a: u8, cy: bool) -> (r: (u8, Flags))
    ensures
        r == inc_spec(a, cy),
{
    let res = if a == 255 {
        0
    } else {
        a + 1
    };
    (res, flags_for(res, a % 16 == 15, cy))
}

/// `DCR`: decrement, keeping the carry `cy`.
pub fn dec(a: u8, cy: bool) -> (r: (u8, Flags))
    ensures
        r == dec_spec(a, cy),
{
    let res = if a == 0 {
        255
    } else {
        a - 1
    };
    (res, flags_for(res, a % 16 != 0, cy))
}

/// `DAA`: decimal adjust of `a` under the flags `f`.
pub fn daa(a: u8, f: Flags) -> (r: (u8, Flags))
    ensures
        r == daa_spec(a, f),
{
    let hi = a / 16;
    let lo = a % 16;
    let mut adj: u16 = 0;
    if f.ac || lo > 9 {
        adj = 6;
    }
    let low_adj = adj;
    let cy = f.cy || hi > 9 || (hi >= 9 && lo > 9);
    if cy {
        adj = adj + 0x60;
    }
    let res = ((a as u16 + adj) % 256) as u8;
    (res, flags_for(res, lo as u16 + low_adj > 15, cy))
}

/// The canonical flag byte of `f`.
pub fn to_byte(f: Flags) -> (r: u8)
    ensures
        r == flags_byte(f),
{
    let mut r: u8 = FLAG_FIXED_ONE;
    if f.s {
        r = r + FLAG_S;
    }
    if f.z {
        r = r + FLAG_Z;
    }
    if f.ac {
        r = r + FLAG_AC;
    }
    if f.p {
        r = r + FLAG_P;
    }
    if f.cy {
        r = r + FLAG_CY;
    }
    r
}

/// The flags that the flag byte `b` holds.
pub fn from_byte(b: u8) -> (r: Flags)
    ensures
        r == flags_of_byte(b),
{
    Flags {
        s: b & FLAG_S != 0,
        z: b & FLAG_Z != 0,
        ac: b & FLAG_AC != 0,
        p: b & FLAG_P != 0,
        cy: b & FLAG_CY != 0,
    }
}

} // verus!
