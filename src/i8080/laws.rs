//! Laws of the 8080 / 8085 cores, stated over the model that `tick` follows.
use vstd::prelude::*;
use crate::alu::{add_spec, flags_byte, flags_of_byte, Flags};
use crate::i8080::cpu::run_spec;
use crate::i8080::model::{
    advance_spec, bus_cycle_spec, cond, word, cycles_spec, dec16, fx, fy, fz, inc16, is_ccc, is_jcc,
    is_pop, is_push, is_rcc, is_rst, lemma_cycles_flags, lemma_m_cycle_frame, len_spec,
    next_mcycle, mk_call_spec, mk_direct_spec, mk_high_spec, mk_jump_spec, mk_low_spec,
    mk_misc_spec, mk_pop_spec, mk_push_spec, IffState, Variant, OP_CALL, OP_IN, OP_JMP, OP_OUT, OP_PCHL, OP_RET,
    takes_interrupt, BusCycle, Core, Registers, OP_XTHL,
};

verus! {

/// The state after one M-cycle that received the byte `v`.
pub open spec fn adv(s: Core, v: u8) -> Core {
    advance_spec(s, v).0
}

/// `s` is between two instructions and fetches the next one from memory.
pub open spec fn fetches(s: Core) -> bool {
    s.mcycle == 0 && !takes_interrupt(s) && !s.halt
}

/// Number of one bits of `v`.
pub open spec fn popcount(v: u8) -> u8 {
    ((v & 1) + ((v >> 1u8) & 1) + ((v >> 2u8) & 1) + ((v >> 3u8) & 1) + ((v >> 4u8) & 1) + ((v
        >> 5u8) & 1) + ((v >> 6u8) & 1) + ((v >> 7u8) & 1)) as u8
}

proof fn lemma_flag_byte_bits(s: bool, z: bool, ac: bool, p: bool, cy: bool)
    by (bit_vector)
    ensures
        ({
            let b = ((if s { 0x80u8 } else { 0u8 }) | (if z { 0x40u8 } else { 0u8 }) | (if ac {
                0x10u8
            } else {
                0u8
            }) | (if p { 0x04u8 } else { 0u8 }) | 0x02u8 | (if cy { 0x01u8 } else { 0u8 }));
            &&& b & 0x02 == 0x02
            &&& b & 0x28 == 0
            &&& (b & 0x80 != 0) == s
            &&& (b & 0x40 != 0) == z
            &&& (b & 0x10 != 0) == ac
            &&& (b & 0x04 != 0) == p
            &&& (b & 0x01 != 0) == cy
        }),
{
}

proof fn lemma_flag_byte_sum(f: Flags)
    ensures
        flags_byte(f) == ((if f.s { 0x80u8 } else { 0u8 }) | (if f.z { 0x40u8 } else { 0u8 }) | (
        if f.ac {
            0x10u8
        } else {
            0u8
        }) | (if f.p { 0x04u8 } else { 0u8 }) | 0x02u8 | (if f.cy { 0x01u8 } else { 0u8 })),
{
    let (s, z, ac, p, cy) = (f.s, f.z, f.ac, f.p, f.cy);
    assert(((if s { 0x80u8 } else { 0u8 }) | (if z { 0x40u8 } else { 0u8 }) | (if ac {
        0x10u8
    } else {
        0u8
    }) | (if p { 0x04u8 } else { 0u8 }) | 0x02u8 | (if cy { 0x01u8 } else { 0u8 })) == ((if s {
        0x80int
    } else {
        0
    }) + (if z { 0x40int } else { 0 }) + (if ac { 0x10int } else { 0 }) + (if p {
        0x04int
    } else {
        0
    }) + 0x02 + (if cy { 0x01int } else { 0 })) as u8) by (bit_vector);
}

/// The flag byte is canonical: bit 1 is 1, bits 3 and 5 are 0, whatever the
/// flags.
pub proof fn lemma_flag_byte_canonical(f: Flags)
    ensures
        flags_byte(f) & 0x02 == 0x02,
        flags_byte(f) & 0x28 == 0,
{
    lemma_flag_byte_sum(f);
    lemma_flag_byte_bits(f.s, f.z, f.ac, f.p, f.cy);
}

/// Reading back a flag byte gives the flags that made it.
pub proof fn lemma_flag_byte_round_trip(f: Flags)
    ensures
        flags_of_byte(flags_byte(f)) == f,
{
    lemma_flag_byte_sum(f);
    lemma_flag_byte_bits(f.s, f.z, f.ac, f.p, f.cy);
}

/// The canonical byte of flags read from any byte `v` keeps bits 7, 6, 4, 2
/// and 0 of `v`, sets bit 1 and clears bits 3 and 5.
pub proof fn lemma_flag_byte_of_read(v: u8)
    ensures
        flags_byte(flags_of_byte(v)) == (v & 0xD5) | 0x02,
{
    let f = flags_of_byte(v);
    lemma_flag_byte_sum(f);
    assert(((if v & 0x80 != 0 { 0x80u8 } else { 0u8 }) | (if v & 0x40 != 0 { 0x40u8 } else {
        0u8
    }) | (if v & 0x10 != 0 { 0x10u8 } else { 0u8 }) | (if v & 0x04 != 0 { 0x04u8 } else {
        0u8
    }) | 0x02u8 | (if v & 0x01 != 0 { 0x01u8 } else { 0u8 })) == (v & 0xD5) | 0x02)
        by (bit_vector);
}

proof fn lemma_parity_popcount(v: u8)
    by (bit_vector)
    ensures
        ((v ^ (v >> 1u8) ^ (v >> 2u8) ^ (v >> 3u8) ^ (v >> 4u8) ^ (v >> 5u8) ^ (v >> 6u8) ^ (v
            >> 7u8)) & 1 == 0) == ((((v & 1) + ((v >> 1u8) & 1) + ((v >> 2u8) & 1) + ((v >> 3u8)
            & 1) + ((v >> 4u8) & 1) + ((v >> 5u8) & 1) + ((v >> 6u8) & 1) + ((v >> 7u8) & 1))
            as u8) & 1 == 0),
{
}

proof fn lemma_low_nibble(a: u8, b: u8)
    by (bit_vector)
    ensures
        a & 0xF == a % 16,
        b & 0xF == b % 16,
        (a & 0x80 != 0) == (a >= 128),
{
}

/// Flags of `ADD`: auxiliary carry iff the low nibbles overflow, carry iff the
/// sum exceeds a byte, zero iff the result byte is 0, sign iff its bit 7 is
/// set, parity iff it has an even number of one bits.
pub proof fn lemma_add_flags(a: u8, b: u8)
    ensures
        ({
            let (res, f) = add_spec(a, b, false);
            &&& res == ((a + b) % 256) as u8
            &&& f.ac == ((a & 0xF) + (b & 0xF) > 0xF)
            &&& f.cy == (a + b > 0xFF)
            &&& f.z == (res == 0)
            &&& f.s == (res & 0x80 != 0)
            &&& f.p == (popcount(res) & 1 == 0)
        }),
{
    let res = add_spec(a, b, false).0;
    lemma_low_nibble(a, b);
    lemma_low_nibble(res, res);
    lemma_parity_popcount(res);
}

/// `PUSH rp` lowers SP by two.
pub proof fn lemma_push_sp(s: Core, op: u8, v1: u8, v2: u8)
    requires
        fetches(s),
        is_push(op),
    ensures
        adv(adv(adv(s, op), v1), v2).mcycle == 0,
        adv(adv(adv(s, op), v1), v2).reg.sp == dec16(dec16(s.reg.sp)),
{
    reveal(advance_spec);
    let s1 = adv(s, op);
    assert(s1.ir == op && s1.mcycle == 1 && s1.reg.sp == s.reg.sp);
    let s2 = adv(s1, v1);
    assert(s2.ir == op && s2.mcycle == 2 && s2.reg.sp == dec16(s.reg.sp));
}

/// `POP rp` raises SP by two.
pub proof fn lemma_pop_sp(s: Core, op: u8, v1: u8, v2: u8)
    requires
        fetches(s),
        is_pop(op),
    ensures
        adv(adv(adv(s, op), v1), v2).mcycle == 0,
        adv(adv(adv(s, op), v1), v2).reg.sp == inc16(inc16(s.reg.sp)),
{
    reveal(advance_spec);
    let s1 = adv(s, op);
    assert(s1.ir == op && s1.mcycle == 1 && s1.reg.sp == s.reg.sp);
    let s2 = adv(s1, v1);
    assert(s2.ir == op && s2.mcycle == 2 && s2.reg.sp == inc16(s.reg.sp));
}

/// `XTHL` reads the bytes at SP and SP+1, writes L and H there, loads L and H
/// with what it read, and leaves SP as it was.
pub proof fn lemma_xthl(s: Core, v1: u8, v2: u8, v3: u8, v4: u8)
    requires
        fetches(s),
    ensures
        ({
            let s1 = adv(s, OP_XTHL);
            let s2 = adv(s1, v1);
            let s3 = adv(s2, v2);
            let s4 = adv(s3, v3);
            let s5 = adv(s4, v4);
            &&& bus_cycle_spec(s1) == BusCycle::MemRead(s.reg.sp)
            &&& bus_cycle_spec(s2) == BusCycle::MemRead(inc16(s.reg.sp))
            &&& bus_cycle_spec(s3) == BusCycle::MemWrite(s.reg.sp, s.reg.l)
            &&& bus_cycle_spec(s4) == BusCycle::MemWrite(inc16(s.reg.sp), s.reg.h)
            &&& s5.mcycle == 0
            &&& s5.reg == (Registers { l: v1, h: v2, pc: inc16(s.reg.pc), ..s.reg })
        }),
{
    reveal(advance_spec);
}

/// `PUSH B` writes B at SP-1 and C at SP-2, lowers SP by two and changes
/// no other register (`PUSH D` and `PUSH H` take the same path of the model
/// with their own pair).
#[verifier::rlimit(60)]
pub proof fn lemma_push_b(s: Core, v1: u8, v2: u8)
    requires
        fetches(s),
    ensures
        bus_cycle_spec(adv(s, 0xC5)) == BusCycle::MemWrite(dec16(s.reg.sp), s.reg.b),
        bus_cycle_spec(adv(adv(s, 0xC5), v1)) == BusCycle::MemWrite(
            dec16(dec16(s.reg.sp)),
            s.reg.c,
        ),
        adv(adv(adv(s, 0xC5), v1), v2).mcycle == 0,
        adv(adv(adv(s, 0xC5), v1), v2).reg == (Registers {
            sp: dec16(dec16(s.reg.sp)),
            pc: inc16(s.reg.pc),
            ..s.reg
        }),
{
    reveal(advance_spec);
    let s1 = adv(s, 0xC5);
    assert(s1.ir == 0xC5 && s1.mcycle == 1 && s1.reg == Registers { pc: inc16(s.reg.pc), ..s.reg });
    let s2 = adv(s1, v1);
    assert(s2.ir == 0xC5 && s2.mcycle == 2);
}

/// `POP B` reads C at SP and B at SP+1, raises SP by two and changes no
/// other register.
#[verifier::rlimit(60)]
pub proof fn lemma_pop_b(s: Core, v1: u8, v2: u8)
    requires
        fetches(s),
    ensures
        bus_cycle_spec(adv(s, 0xC1)) == BusCycle::MemRead(s.reg.sp),
        bus_cycle_spec(adv(adv(s, 0xC1), v1)) == BusCycle::MemRead(inc16(s.reg.sp)),
        adv(adv(adv(s, 0xC1), v1), v2).mcycle == 0,
        adv(adv(adv(s, 0xC1), v1), v2).reg == (Registers {
            sp: inc16(inc16(s.reg.sp)),
            pc: inc16(s.reg.pc),
            c: v1,
            b: v2,
            ..s.reg
        }),
{
    reveal(advance_spec);
    let s1 = adv(s, 0xC1);
    assert(s1.ir == 0xC1 && s1.mcycle == 1 && s1.reg == Registers { pc: inc16(s.reg.pc), ..s.reg });
    let s2 = adv(s1, v1);
    assert(s2.ir == 0xC1 && s2.mcycle == 2);
}

/// A conditional jump on the 8080 reads both operand bytes, then loads PC
/// with them when its condition holds and otherwise leaves PC past them; no
/// other register changes and nothing is written.
#[verifier::rlimit(60)]
pub proof fn lemma_jcc_8080(s: Core, op: u8, lo: u8, hi: u8)
    requires
        fetches(s),
        s.variant == Variant::I8080,
        is_jcc(op),
    ensures
        ({
            let s1 = adv(s, op);
            let s2 = adv(s1, lo);
            let s3 = adv(s2, hi);
            &&& bus_cycle_spec(s1) == BusCycle::MemRead(inc16(s.reg.pc))
            &&& bus_cycle_spec(s2) == BusCycle::MemRead(inc16(inc16(s.reg.pc)))
            &&& s3.mcycle == 0
            &&& s3.reg == (Registers {
                pc: if cond(s.reg.flags, fy(op)) {
                    word(hi, lo)
                } else {
                    inc16(inc16(inc16(s.reg.pc)))
                },
                ..s.reg
            })
        }),
{
    reveal(advance_spec);
    let s1 = adv(s, op);
    assert(s1.ir == op && s1.mcycle == 1 && s1.reg == Registers { pc: inc16(s.reg.pc), ..s.reg });
    let s2 = adv(s1, lo);
    assert(s2.ir == op && s2.mcycle == 2 && s2.z == lo && s2.reg == Registers {
        pc: inc16(inc16(s.reg.pc)),
        ..s.reg
    });
}

/// A conditional call whose condition fails reads its operand bytes (the
/// 8080 both, the 8085 only the first), writes nothing, leaves SP and every
/// other register, and moves PC past the instruction.
#[verifier::rlimit(60)]
pub proof fn lemma_ccc_not_taken(s: Core, op: u8, lo: u8, hi: u8)
    requires
        fetches(s),
        is_ccc(op),
        !cond(s.reg.flags, fy(op)),
    ensures
        ({
            let s1 = adv(s, op);
            let s2 = adv(s1, lo);
            let s3 = adv(s2, hi);
            let end = if s.variant == Variant::I8080 {
                s3
            } else {
                s2
            };
            &&& bus_cycle_spec(s1) == BusCycle::MemRead(inc16(s.reg.pc))
            &&& s.variant == Variant::I8080 ==> bus_cycle_spec(s2) == BusCycle::MemRead(
                inc16(inc16(s.reg.pc)),
            )
            &&& end.mcycle == 0
            &&& end.reg == (Registers { pc: inc16(inc16(inc16(s.reg.pc))), ..s.reg })
        }),
{
    reveal(advance_spec);
    let s1 = adv(s, op);
    assert(s1.ir == op && s1.mcycle == 1 && s1.reg == Registers { pc: inc16(s.reg.pc), ..s.reg });
    let s2 = adv(s1, lo);
    if s.variant == Variant::I8080 {
        assert(s2.ir == op && s2.mcycle == 2 && s2.reg == Registers {
            pc: inc16(inc16(s.reg.pc)),
            ..s.reg
        });
    }
}

/// `PUSH PSW` writes A at SP-1 and the flag byte at SP-2.
#[verifier::rlimit(60)]
pub proof fn lemma_push_psw(s: Core, v1: u8, v2: u8)
    requires
        fetches(s),
    ensures
        bus_cycle_spec(adv(s, 0xF5)) == BusCycle::MemWrite(dec16(s.reg.sp), s.reg.a),
        bus_cycle_spec(adv(adv(s, 0xF5), v1)) == BusCycle::MemWrite(
            dec16(dec16(s.reg.sp)),
            flags_byte(s.reg.flags),
        ),
        adv(adv(adv(s, 0xF5), v1), v2) == (Core {
            reg: Registers {
                sp: dec16(dec16(s.reg.sp)),
                pc: inc16(s.reg.pc),
                ..s.reg
            },
            ir: 0xF5,
            iff: adv(s, 0xF5).iff,
            ..s
        }),
{
    reveal(advance_spec);
    let s1 = adv(s, 0xF5);
    assert(s1.ir == 0xF5 && s1.mcycle == 1 && s1.reg == Registers { pc: inc16(s.reg.pc), ..s.reg });
    let s2 = adv(s1, v1);
    assert(s2.ir == 0xF5 && s2.mcycle == 2);
}

/// `POP PSW` reads the flag byte at SP and A at SP+1.
#[verifier::rlimit(60)]
pub proof fn lemma_pop_psw(s: Core, v1: u8, v2: u8)
    requires
        fetches(s),
    ensures
        bus_cycle_spec(adv(s, 0xF1)) == BusCycle::MemRead(s.reg.sp),
        bus_cycle_spec(adv(adv(s, 0xF1), v1)) == BusCycle::MemRead(inc16(s.reg.sp)),
        adv(adv(adv(s, 0xF1), v1), v2).mcycle == 0,
        adv(adv(adv(s, 0xF1), v1), v2).reg == (Registers {
            sp: inc16(inc16(s.reg.sp)),
            pc: inc16(s.reg.pc),
            a: v2,
            flags: flags_of_byte(v1),
            ..s.reg
        }),
{
    reveal(advance_spec);
    let s1 = adv(s, 0xF1);
    assert(s1.ir == 0xF1 && s1.mcycle == 1 && s1.reg == Registers { pc: inc16(s.reg.pc), ..s.reg });
    let s2 = adv(s1, v1);
    assert(s2.ir == 0xF1 && s2.mcycle == 2);
}

proof fn lemma_inc_dec(x: u16)
    ensures
        inc16(dec16(x)) == x,
{
}

/// `PUSH PSW` then `POP PSW` leaves A and the flags as they were, when the
/// bytes that `POP` reads back are those that `PUSH` wrote.
pub proof fn lemma_psw_round_trip(s: Core, v1: u8, v2: u8)
    requires
        fetches(s),
    ensures
        ({
            let after_push = adv(adv(adv(s, 0xF5), v1), v2);
            let after_pop = adv(adv(adv(after_push, 0xF1), flags_byte(s.reg.flags)), s.reg.a);
            fetches(after_push) ==> {
                &&& after_pop.reg.a == s.reg.a
                &&& after_pop.reg.flags == s.reg.flags
                &&& after_pop.reg.sp == s.reg.sp
            }
        }),
{
    let f = s.reg.flags;
    let sp = s.reg.sp;
    lemma_push_psw(s, v1, v2);
    let after_push = adv(adv(adv(s, 0xF5), v1), v2);
    assert(after_push.reg.sp == dec16(dec16(sp)));
    if fetches(after_push) {
        lemma_pop_psw(after_push, flags_byte(f), s.reg.a);
        let after_pop = adv(adv(adv(after_push, 0xF1), flags_byte(f)), s.reg.a);
        assert(after_pop.reg.sp == inc16(inc16(dec16(dec16(sp)))));
        lemma_inc_dec(dec16(sp));
        lemma_inc_dec(sp);
        lemma_flag_byte_round_trip(f);
    }
}

/// The instruction `op` takes a branch: it loads PC from elsewhere than its
/// own bytes.
pub open spec fn jumps(op: u8, f: Flags) -> bool {
    op == OP_JMP || op == OP_CALL || op == OP_RET || is_rst(op) || op == OP_PCHL || ((is_rcc(op)
        || is_jcc(op) || is_ccc(op)) && cond(f, fy(op)))
}

/// Bytes of the instruction that M-cycle `k >= 1` of `op` consumes, when no
/// branch is taken.
pub open spec fn pc_delta(op: u8, k: int, f: Flags, v: Variant) -> int {
    let x = fx(op);
    let y = fy(op);
    let z = fz(op);
    if x == 0 {
        if (z == 1 && y % 2 == 0 && k <= 2) || (z == 2 && y >= 4 && k <= 2) || (z == 6 && k
            == 1) {
            1
        } else {
            0
        }
    } else if x == 3 {
        if (z == 6 || op == OP_IN || op == OP_OUT) && k == 1 {
            1
        } else if (is_jcc(op) || is_ccc(op)) && k == 1 {
            if v == Variant::I8085 && !cond(f, y) {
                2
            } else {
                1
            }
        } else if (is_jcc(op) || is_ccc(op)) && k == 2 {
            1
        } else {
            0
        }
    } else {
        0
    }
}

/// Bytes consumed by M-cycles 1 to `k - 1` of `op`.
pub open spec fn consumed(op: u8, k: int, f: Flags, v: Variant) -> int {
    (if k > 1 {
        pc_delta(op, 1, f, v)
    } else {
        0
    }) + (if k > 2 {
        pc_delta(op, 2, f, v)
    } else {
        0
    }) + (if k > 3 {
        pc_delta(op, 3, f, v)
    } else {
        0
    }) + (if k > 4 {
        pc_delta(op, 4, f, v)
    } else {
        0
    })
}

proof fn lemma_consumed_total(op: u8, f: Flags, v: Variant)
    requires
        !jumps(op, f),
    ensures
        1 + consumed(op, cycles_spec(op, f, v) as int, f, v) == len_spec(op),
        1 <= cycles_spec(op, f, v) <= 5,
{
}

/// The M1 of an instruction fetched from memory: PC moves past the opcode
/// unless the instruction branches there, and the opcode, variant and flags
/// that the following M-cycles depend on are in place.
pub proof fn lemma_pc_m1(s: Core, op: u8)
    requires
        fetches(s),
    ensures
        !jumps(op, s.reg.flags) ==> adv(s, op).reg.pc == inc16(s.reg.pc),
        adv(s, op).ir == op,
        adv(s, op).variant == s.variant,
        adv(s, op).mcycle == next_mcycle(op, 0, s.reg.flags, s.variant),
        (is_rcc(op) || is_jcc(op) || is_ccc(op)) ==> adv(s, op).reg.flags == s.reg.flags,
{
    reveal(advance_spec);
    lemma_m_cycle_frame(
        Core {
            reg: Registers { pc: inc16(s.reg.pc), ..s.reg },
            iff: if s.iff == IffState::EnablePending {
                IffState::Enabled
            } else {
                s.iff
            },
            ir: op,
            ..s
        },
        op,
        0,
        op,
    );
}

proof fn lemma_pc_mk_low(t: Core, op: u8, k: u8, v: u8)
    requires
        fx(op) == 0,
        1 <= k < cycles_spec(op, t.reg.flags, t.variant),
    ensures
        mk_low_spec(t, op, k, v).reg.pc == (t.reg.pc + pc_delta(op, k as int, t.reg.flags, t.variant))
            % 65536,
{
    if fz(op) == 2 {
        assert(mk_direct_spec(t, fy(op), k, v).reg.pc == (t.reg.pc + pc_delta(
            op,
            k as int,
            t.reg.flags,
            t.variant,
        )) % 65536);
    }
}

proof fn lemma_pc_mk_high(t: Core, op: u8, k: u8, v: u8)
    requires
        fx(op) == 3,
        1 <= k < cycles_spec(op, t.reg.flags, t.variant),
        !jumps(op, t.reg.flags),
    ensures
        mk_high_spec(t, op, k, v).reg.pc == (t.reg.pc + pc_delta(op, k as int, t.reg.flags, t.variant))
            % 65536,
{
    let z = fz(op);
    let expected = (t.reg.pc + pc_delta(op, k as int, t.reg.flags, t.variant)) % 65536;
    if z == 0 || op == OP_RET || is_pop(op) {
        assert(mk_pop_spec(t, op, k, v).reg.pc == expected);
    } else if z == 2 || op == OP_JMP {
        assert(inc16(inc16(t.reg.pc)) == (t.reg.pc + 2) % 65536);
        assert(mk_jump_spec(t, op, k, v).reg.pc == expected);
    } else if op == OP_OUT || op == OP_IN || op == OP_XTHL || z == 6 {
        assert(mk_misc_spec(t, op, k, v).reg.pc == expected);
    } else if z == 4 || op == OP_CALL {
        assert(inc16(inc16(t.reg.pc)) == (t.reg.pc + 2) % 65536);
        assert(mk_call_spec(t, op, k, v).reg.pc == expected);
    } else {
        assert(mk_push_spec(t, op, k).reg.pc == expected);
    }
}

/// A later M-cycle: PC moves past the operand bytes it reads, unless the
/// instruction branches, and the opcode, variant and flags stay.
pub proof fn lemma_pc_mk(t: Core, v: u8)
    requires
        1 <= t.mcycle < cycles_spec(t.ir, t.reg.flags, t.variant),
    ensures
        !jumps(t.ir, t.reg.flags) ==> adv(t, v).reg.pc == (t.reg.pc + pc_delta(
            t.ir,
            t.mcycle as int,
            t.reg.flags,
            t.variant,
        )) % 65536,
        adv(t, v).ir == t.ir,
        adv(t, v).variant == t.variant,
        adv(t, v).mcycle == next_mcycle(t.ir, t.mcycle, t.reg.flags, t.variant),
        (is_rcc(t.ir) || is_jcc(t.ir) || is_ccc(t.ir)) ==> adv(t, v).reg.flags == t.reg.flags,
{
    reveal(advance_spec);
    lemma_m_cycle_frame(t, t.ir, t.mcycle, v);
    if fx(t.ir) == 0 {
        lemma_pc_mk_low(t, t.ir, t.mcycle, v);
    } else if fx(t.ir) == 3 && !jumps(t.ir, t.reg.flags) {
        lemma_pc_mk_high(t, t.ir, t.mcycle, v);
    }
}

proof fn lemma_run_prefix(s: Core, vs: Seq<u8>, k: int)
    requires
        0 <= k < vs.len(),
    ensures
        run_spec(s, vs.take(k + 1)) == adv(run_spec(s, vs.take(k)), vs[k]),
{
    assert(vs.take(k + 1).drop_last() =~= vs.take(k));
    assert(vs.take(k + 1).last() == vs[k]);
}

proof fn lemma_pc_run(s: Core, vs: Seq<u8>, k: int)
    requires
        fetches(s),
        1 <= k <= vs.len(),
        vs.len() == cycles_spec(vs[0], s.reg.flags, s.variant),
        !jumps(vs[0], s.reg.flags),
    ensures
        ({
            let t = run_spec(s, vs.take(k));
            &&& t.reg.pc == (s.reg.pc + 1 + consumed(vs[0], k, s.reg.flags, s.variant)) % 65536
            &&& t.ir == vs[0]
            &&& t.variant == s.variant
            &&& t.mcycle == (if k < vs.len() {
                k
            } else {
                0
            })
            &&& (is_rcc(vs[0]) || is_jcc(vs[0]) || is_ccc(vs[0])) ==> t.reg.flags == s.reg.flags
        }),
    decreases k,
{
    let op = vs[0];
    let f = s.reg.flags;
    lemma_consumed_total(op, f, s.variant);
    if k == 1 {
        lemma_run_prefix(s, vs, 0);
        assert(vs.take(0) =~= Seq::<u8>::empty());
        lemma_pc_m1(s, op);
    } else {
        lemma_pc_run(s, vs, k - 1);
        lemma_run_prefix(s, vs, k - 1);
        let t = run_spec(s, vs.take(k - 1));
        if !(is_rcc(op) || is_jcc(op) || is_ccc(op)) {
            lemma_cycles_flags(op, f, t.reg.flags, s.variant);
        }
        assert(!jumps(op, t.reg.flags));
        lemma_pc_mk(t, vs[k - 1]);
        let p = s.reg.pc + 1 + consumed(op, k - 1, f, s.variant);
        let d = pc_delta(op, k - 1, f, s.variant);
        assert((p % 65536 + d) % 65536 == (p + d) % 65536) by {
            vstd::arithmetic::div_mod::lemma_add_mod_noop(p, d, 65536);
            vstd::arithmetic::div_mod::lemma_mod_twice(d, 65536);
        }
    }
}

/// When an instruction takes no branch, its M-cycles advance PC by exactly
/// its encoded length, wrapping on 16 bits, and end at an instruction
/// boundary. `vs` are the bytes that its M-cycles read, the opcode first.
pub proof fn lemma_pc_advance(s: Core, vs: Seq<u8>)
    requires
        fetches(s),
        vs.len() == cycles_spec(vs[0], s.reg.flags, s.variant),
        !jumps(vs[0], s.reg.flags),
    ensures
        run_spec(s, vs).reg.pc == (s.reg.pc + len_spec(vs[0])) % 65536,
        run_spec(s, vs).mcycle == 0,
{
    lemma_consumed_total(vs[0], s.reg.flags, s.variant);
    lemma_pc_run(s, vs, vs.len() as int);
    assert(vs.take(vs.len() as int) =~= vs);
}

} // verus!
