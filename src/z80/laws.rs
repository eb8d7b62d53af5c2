//! Laws of the Z80 core, stated over the model that `tick` follows.
use vstd::prelude::*;
use crate::bus::Pins;
use crate::z80::model::{
    execute_spec, fetch_t4, operand_read, is_ld_r_n, is_ld_r_r, is_ld_r_rpi, is_ld_rpi_r, Interrupts, OP_DI,
    OP_EI, OP_EXX, OP_LD_HLI_N, OP_NOP, duration, inc16, supported, tick_spec, word, z80_wf, Unsupported, Z80State, OP_CB_RES_0_B,
    OP_IN_A_N, OP_LD_A_NNI, OP_LD_NNI_A, OP_OUT_N_A, OP_PREFIX_CB,
};

verus! {

/// The state after one T-state with the pins `p`.
pub open spec fn step_t(s: Z80State, p: Pins) -> Z80State {
    tick_spec(s, p).0
}

proof fn lemma_high_low(a: u8, m: u8)
    by (bit_vector)
    ensures
        ((a as u16) << 8u16) | (m as u16) == (a as u16) * 256 + (m as u16),
{
}

/// After `IN A,(n)` or `OUT (n),A`, WZ holds A (as it was before the
/// instruction) in its high byte and `n + 1` in its low byte. The four
/// T-states after the operand read are run with any pins but `WAIT`.
pub proof fn lemma_io_wz(s: Z80State, pins8: Pins, pins9: Pins, pins10: Pins, pins11: Pins)
    requires
        s.reg.ir == OP_IN_A_N || s.reg.ir == OP_OUT_N_A,
        s.tcycle == 7,
        s.reg.tmp[0] < 0xFF,
        !pins8.wait && !pins9.wait && !pins10.wait && !pins11.wait,
    ensures
        ({
            let s11 = step_t(step_t(step_t(step_t(s, pins8), pins9), pins10), pins11);
            &&& s11.tcycle == 0
            &&& s11.reg.wz == ((s.reg.a as u16) << 8u16) | ((s.reg.tmp[0] + 1) as u16)
        }),
{
    let n = s.reg.tmp[0];
    lemma_high_low(s.reg.a, (n + 1) as u8);
    assert(word(s.reg.a, (n + 1) as u8) == (s.reg.a as u16) * 256 + ((n + 1) as u16));
}

/// With port number 0xFF, `IN A,(n)` leaves WZ = A:n + 1 on 16 bits, and
/// `OUT (n),A` leaves A in the high byte of WZ and 0 in the low one.
pub proof fn lemma_io_wz_port_ff(s: Z80State, pins8: Pins, pins9: Pins, pins10: Pins, pins11: Pins)
    requires
        s.reg.ir == OP_IN_A_N || s.reg.ir == OP_OUT_N_A,
        s.tcycle == 7,
        s.reg.tmp[0] == 0xFF,
        !pins8.wait && !pins9.wait && !pins10.wait && !pins11.wait,
    ensures
        ({
            let s11 = step_t(step_t(step_t(step_t(s, pins8), pins9), pins10), pins11);
            &&& s11.tcycle == 0
            &&& s.reg.ir == OP_IN_A_N ==> s11.reg.wz == inc16(word(s.reg.a, 0xFF))
            &&& s.reg.ir == OP_OUT_N_A ==> s11.reg.wz == word(s.reg.a, 0)
        }),
{
}

/// `LD A,(nn)` leaves WZ = nn + 1; `LD (nn),A` leaves A in the high byte of
/// WZ and the low byte of nn + 1 in the low one. `tmp` holds nn, low byte
/// first, after the operand reads; the last three T-states are run with any
/// pins but `WAIT`.
pub proof fn lemma_direct_wz(s: Z80State, pins11: Pins, pins12: Pins, pins13: Pins)
    requires
        s.reg.ir == OP_LD_A_NNI || s.reg.ir == OP_LD_NNI_A,
        s.tcycle == 10,
        !pins11.wait && !pins12.wait && !pins13.wait,
    ensures
        ({
            let nn = word(s.reg.tmp[1], s.reg.tmp[0]);
            let s13 = step_t(step_t(step_t(s, pins11), pins12), pins13);
            &&& s13.tcycle == 0
            &&& s.reg.ir == OP_LD_A_NNI ==> s13.reg.wz == inc16(nn)
            &&& s.reg.ir == OP_LD_NNI_A ==> s13.reg.wz == word(s.reg.a, ((nn + 1) % 256) as u8)
        }),
{
}

/// One T-state of the instruction body keeps F and F', and counts the
/// T-states of a supported opcode up to its duration.
#[verifier::rlimit(100)]
proof fn lemma_execute_frame(s: Z80State, p: Pins, op: u8)
    ensures
        execute_spec(s, p, op).0.reg.f == s.reg.f,
        execute_spec(s, p, op).0.reg.f_ == s.reg.f_,
        !p.wait && supported(op) && op != OP_PREFIX_CB && 4 <= s.tcycle <= duration(op) ==> execute_spec(
            s,
            p,
            op,
        ).0.tcycle == if s.tcycle == duration(op) {
            0
        } else {
            s.tcycle
        },
{
    if is_ld_r_r(op) || op == OP_EXX || op == OP_EI || op == OP_DI || op == OP_NOP {
    } else if is_ld_r_n(op) {
    } else if is_ld_r_rpi(op) {
    } else if is_ld_rpi_r(op) {
    } else if op == OP_LD_HLI_N {
    } else if op == OP_LD_A_NNI || op == OP_LD_NNI_A {
    } else if op == OP_IN_A_N || op == OP_OUT_N_A {
    }
}

/// One T-state of the instruction body moves PC by the bytes it consumes.
#[verifier::rlimit(100)]
proof fn lemma_execute_pc(s: Z80State, p: Pins, op: u8)
    requires
        supported(op),
        op != OP_PREFIX_CB,
        4 <= s.tcycle,
    ensures
        execute_spec(s, p, op).0.reg.pc == (s.reg.pc + pc_delta(op, s.tcycle)) % 65536,
        execute_spec(s, p, op).0.reg.ir == s.reg.ir,
{
    if is_ld_r_r(op) || op == OP_EXX || op == OP_EI || op == OP_DI || op == OP_NOP {
    } else if is_ld_r_n(op) {
    } else if is_ld_r_rpi(op) {
    } else if is_ld_rpi_r(op) {
    } else if op == OP_LD_HLI_N {
    } else if op == OP_LD_A_NNI || op == OP_LD_NNI_A {
        if s.tcycle == 8 {
            assert(operand_read(s, p, 5, 0).is_none());
        }
    } else {
    }
}

/// No T-state of any instruction changes F or F'.
pub proof fn lemma_flags_untouched(s: Z80State, p: Pins)
    ensures
        step_t(s, p).reg.f == s.reg.f,
        step_t(s, p).reg.f_ == s.reg.f_,
{
    if !(s.tcycle == 0 && p.nmi) && !(s.tcycle == 0 && !s.int.ei && s.int.iff1 && p.int_req) {
        let s0 = if s.tcycle == 0 {
            Z80State { int: Interrupts { ei: false, ..s.int }, ..s }
        } else {
            s
        };
        let s1 = Z80State { tcycle: (s0.tcycle + 1) as u64, ..s0 };
        let s2 = if s1.tcycle == 4 {
            fetch_t4(s1)
        } else {
            s1
        };
        lemma_execute_frame(s2, p, s1.reg.ir);
    }
}

/// Bytes of the instruction `op` that T-state `t` consumes: the opcode at
/// T1, the second opcode byte of the `CB` prefix at T5, and each operand.
pub open spec fn pc_delta(op: u8, t: u64) -> int {
    if t == 1 {
        1
    } else if op == OP_PREFIX_CB && t == 5 {
        1
    } else if (is_ld_r_n(op) || op == OP_LD_HLI_N || op == OP_IN_A_N || op == OP_OUT_N_A) && t
        == 5 {
        1
    } else if (op == OP_LD_A_NNI || op == OP_LD_NNI_A) && (t == 5 || t == 8) {
        1
    } else {
        0
    }
}

/// Encoded length of a supported opcode.
pub open spec fn len_z80(op: u8) -> int {
    if op == OP_LD_A_NNI || op == OP_LD_NNI_A {
        3
    } else if is_ld_r_n(op) || op == OP_LD_HLI_N || op == OP_IN_A_N || op == OP_OUT_N_A || op
        == OP_PREFIX_CB {
        2
    } else {
        1
    }
}

/// Bytes consumed by T-states 1 to `k` of `op`.
pub open spec fn consumed(op: u8, k: u64) -> int
    decreases k,
{
    if k == 0 {
        0
    } else {
        consumed(op, (k - 1) as u64) + pc_delta(op, k)
    }
}

/// Over the `duration` T-states of a supported instruction, the bytes that
/// the T-states consume add up to the instruction's encoded length; with
/// [`lemma_pc_tstate`] PC thus advances by that length.
pub proof fn lemma_consumed_total(op: u8)
    requires
        supported(op),
    ensures
        consumed(op, duration(op)) == len_z80(op),
{
    reveal_with_fuel(consumed, 14);
}

/// One T-state without `WAIT` and with no interrupt accepted: PC moves by
/// the bytes that this T-state consumes. T3 of the fetch loads the opcode
/// from the data lines, T7 of a `CB` prefix the second opcode byte; later
/// T-states keep the opcode.
#[verifier::rlimit(100)]
pub proof fn lemma_pc_tstate(s: Z80State, p: Pins)
    requires
        z80_wf(s),
        !p.wait,
        s.tcycle == 0 ==> !p.nmi && !(!s.int.ei && s.int.iff1 && p.int_req),
        s.tcycle == 3 ==> supported(s.reg.ir),
        s.reg.ir == OP_PREFIX_CB && s.tcycle == 7 ==> s.reg.ir_pre == OP_CB_RES_0_B,
    ensures
        step_t(s, p).reg.pc == (s.reg.pc + pc_delta(
            if s.tcycle >= 3 {
                s.reg.ir
            } else {
                0
            },
            (s.tcycle + 1) as u64,
        )) % 65536,
        s.tcycle == 2 ==> step_t(s, p).reg.ir == p.data,
        s.tcycle >= 3 ==> step_t(s, p).reg.ir == s.reg.ir,
        s.reg.ir == OP_PREFIX_CB && s.tcycle == 6 ==> step_t(s, p).reg.ir_pre == p.data,
{
    lemma_tstate_count(s, p);
    if s.tcycle >= 3 {
        let s1 = Z80State { tcycle: (s.tcycle + 1) as u64, ..s };
        let s2 = if s1.tcycle == 4 {
            fetch_t4(s1)
        } else {
            s1
        };
        if s.reg.ir != OP_PREFIX_CB {
            lemma_execute_frame(s2, p, s.reg.ir);
            lemma_execute_pc(s2, p, s.reg.ir);
        }
    }
}

/// Accepting an interrupt at T-state 0: an NMI copies IFF1 into IFF2 and
/// clears IFF1; otherwise a maskable request, when IFF1 is set and the last
/// instruction was not `EI`, clears both. The post-`EI` flag is cleared
/// either way, and the core then stops, as the service has no handler.
pub proof fn lemma_interrupt_acceptance(s: Z80State, p: Pins)
    requires
        s.tcycle == 0,
    ensures
        !step_t(s, p).int.ei,
        p.nmi ==> {
            &&& step_t(s, p).int.iff2 == s.int.iff1
            &&& !step_t(s, p).int.iff1
            &&& tick_spec(s, p).2 == Err::<(), Unsupported>(Unsupported::Nmi)
        },
        !p.nmi && !s.int.ei && s.int.iff1 && p.int_req ==> {
            &&& !step_t(s, p).int.iff1
            &&& !step_t(s, p).int.iff2
            &&& tick_spec(s, p).2 == Err::<(), Unsupported>(Unsupported::Interrupt)
        },
        !p.nmi && !(!s.int.ei && s.int.iff1 && p.int_req) ==> {
            &&& step_t(s, p).int.iff1 == s.int.iff1
            &&& step_t(s, p).int.iff2 == s.int.iff2
            &&& tick_spec(s, p).2 == Ok::<(), Unsupported>(())
        },
{
}

/// Without `WAIT`, every T-state of a supported instruction counts one up,
/// and the instruction ends after exactly `duration` T-states: the counter
/// returns to 0 at its last one. The fetch (T-states 1 to 3) counts up too
/// when no interrupt is accepted.
pub proof fn lemma_tstate_count(s: Z80State, p: Pins)
    requires
        z80_wf(s),
        !p.wait,
        s.tcycle == 0 ==> !p.nmi && !(!s.int.ei && s.int.iff1 && p.int_req),
        s.tcycle == 3 ==> supported(s.reg.ir),
        s.reg.ir == OP_PREFIX_CB && s.tcycle == 7 ==> s.reg.ir_pre == OP_CB_RES_0_B,
    ensures
        s.tcycle < 3 ==> step_t(s, p).tcycle == s.tcycle + 1,
        s.tcycle >= 3 ==> step_t(s, p).tcycle == if s.tcycle + 1 == duration(s.reg.ir) {
            0
        } else {
            s.tcycle + 1
        },
{
    if s.tcycle >= 3 {
        let s1 = Z80State { tcycle: (s.tcycle + 1) as u64, ..s };
        let s2 = if s1.tcycle == 4 {
            fetch_t4(s1)
        } else {
            s1
        };
        if s.reg.ir != OP_PREFIX_CB {
            lemma_execute_frame(s2, p, s.reg.ir);
        }
    }
}

} // verus!
