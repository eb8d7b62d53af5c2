//! The state of an 8080 / 8085 core and the meaning of each M-cycle.
//!
//! An instruction runs as a sequence of M-cycles. M-cycle 0 (M1) fetches the
//! opcode, or takes it from the interrupt slot, and performs any work that
//! needs no bus. Each later M-cycle performs at most one bus transaction,
//! given by [`bus_cycle_spec`], and then the state change given by
//! [`advance_spec`], which receives the byte that a read returned.
use vstd::prelude::*;
use crate::alu::{
    add_spec, and_spec, daa_spec, dec_spec, flags_byte, flags_of_byte, inc_spec, logic_spec, sub_spec,
    Flags,
};

verus! {

/// The member of the 8080 family being modelled.
#[derive(Clone, Copy, Debug, PartialEq, Eq, Structural)]
pub enum Variant {
    I8080,
    I8085,
}

/// State of the interrupt enable.
#[derive(Clone, Copy, Debug, PartialEq, Eq, Structural)]
pub enum IffState {
    Disabled,
    /// `EI` ran; interrupts are enabled after the next instruction is fetched.
    EnablePending,
    Enabled,
}

/// The programmer-visible registers.
#[derive(Clone, Copy, Debug, PartialEq, Eq, Structural)]
pub struct Registers {
    pub a: u8,
    pub b: u8,
    pub c: u8,
    pub d: u8,
    pub e: u8,
    pub h: u8,
    pub l: u8,
    pub sp: u16,
    pub pc: u16,
    pub flags: Flags,
}

/// The bus transaction of one M-cycle.
#[derive(Clone, Copy, Debug, PartialEq, Eq, Structural)]
pub enum BusCycle {
    Idle,
    MemRead(u16),
    MemWrite(u16, u8),
    PortRead(u8),
    PortWrite(u8, u8),
}

/// The whole state of a core.
#[derive(Clone, Copy, Debug)]
pub struct Core {
    pub reg: Registers,
    /// High byte of the hidden scratch pair `W,Z`.
    pub w: u8,
    /// Low byte of the hidden scratch pair `W,Z`.
    pub z: u8,
    pub iff: IffState,
    /// Opcode presented by an interrupt, run in place of the next fetch.
    pub pending: Option<u8>,
    pub halt: bool,
    /// Opcode of the instruction in progress.
    pub ir: u8,
    /// Index of the next M-cycle of `ir`; 0 at an instruction boundary.
    pub mcycle: u8,
    pub variant: Variant,
}

// ----- registers -----

/// Every register 0 and every flag clear.
pub open spec fn zero_registers() -> Registers {
    Registers {
        a: 0,
        b: 0,
        c: 0,
        d: 0,
        e: 0,
        h: 0,
        l: 0,
        sp: 0,
        pc: 0,
        flags: Flags { s: false, z: false, ac: false, p: false, cy: false },
    }
}

pub open spec fn word(hi: u8, lo: u8) -> u16 {
    (hi * 256 + lo) as u16
}

pub open spec fn hi_byte(x: u16) -> u8 {
    (x / 256) as u8
}

pub open spec fn lo_byte(x: u16) -> u8 {
    (x % 256) as u8
}

pub open spec fn inc16(x: u16) -> u16 {
    ((x + 1) % 65536) as u16
}

pub open spec fn dec16(x: u16) -> u16 {
    ((x + 65535) % 65536) as u16
}

/// Register by its 3-bit code: B C D E H L (6: none) A.
pub open spec fn get8(r: Registers, code: u8) -> u8 {
    if code == 0 {
        r.b
    } else if code == 1 {
        r.c
    } else if code == 2 {
        r.d
    } else if code == 3 {
        r.e
    } else if code == 4 {
        r.h
    } else if code == 5 {
        r.l
    } else {
        r.a
    }
}

pub open spec fn set8(r: Registers, code: u8, v: u8) -> Registers {
    if code == 0 {
        Registers { b: v, ..r }
    } else if code == 1 {
        Registers { c: v, ..r }
    } else if code == 2 {
        Registers { d: v, ..r }
    } else if code == 3 {
        Registers { e: v, ..r }
    } else if code == 4 {
        Registers { h: v, ..r }
    } else if code == 5 {
        Registers { l: v, ..r }
    } else if code == 7 {
        Registers { a: v, ..r }
    } else {
        r
    }
}

pub open spec fn hl(r: Registers) -> u16 {
    word(r.h, r.l)
}

/// Register pair by its 2-bit code: BC DE HL SP.
pub open spec fn get16(r: Registers, rp: u8) -> u16 {
    if rp == 0 {
        word(r.b, r.c)
    } else if rp == 1 {
        word(r.d, r.e)
    } else if rp == 2 {
        word(r.h, r.l)
    } else {
        r.sp
    }
}

pub open spec fn set16(r: Registers, rp: u8, v: u16) -> Registers {
    if rp == 0 {
        Registers { b: hi_byte(v), c: lo_byte(v), ..r }
    } else if rp == 1 {
        Registers { d: hi_byte(v), e: lo_byte(v), ..r }
    } else if rp == 2 {
        Registers { h: hi_byte(v), l: lo_byte(v), ..r }
    } else {
        Registers { sp: v, ..r }
    }
}

/// Branch condition by its 3-bit code: NZ Z NC C PO PE P M.
pub open spec fn cond(f: Flags, c: u8) -> bool {
    let flag = if c / 2 == 0 {
        f.z
    } else if c / 2 == 1 {
        f.cy
    } else if c / 2 == 2 {
        f.p
    } else {
        f.s
    };
    flag == (c % 2 == 1)
}

/// Accumulator operation by its 3-bit code: ADD ADC SUB SBB ANA XRA ORA CMP.
pub open spec fn alu_spec(op: u8, a: u8, b: u8, f: Flags) -> (u8, Flags) {
    if op == 0 {
        add_spec(a, b, false)
    } else if op == 1 {
        add_spec(a, b, f.cy)
    } else if op == 2 {
        sub_spec(a, b, false)
    } else if op == 3 {
        sub_spec(a, b, f.cy)
    } else if op == 4 {
        and_spec(a, b)
    } else if op == 5 {
        (a ^ b, logic_spec(a ^ b))
    } else if op == 6 {
        (a | b, logic_spec(a | b))
    } else {
        (a, sub_spec(a, b, false).1)
    }
}

pub open spec fn rlc_spec(a: u8) -> u8 {
    ((a << 1u8) | (a >> 7u8)) as u8
}

pub open spec fn rrc_spec(a: u8) -> u8 {
    ((a >> 1u8) | (a << 7u8)) as u8
}

pub open spec fn ral_spec(a: u8, cy: bool) -> u8 {
    ((a << 1u8) | (if cy { 1u8 } else { 0u8 })) as u8
}

pub open spec fn rar_spec(a: u8, cy: bool) -> u8 {
    ((a >> 1u8) | (if cy { 0x80u8 } else { 0u8 })) as u8
}

// ----- opcode fields -----

pub open spec fn fx(op: u8) -> u8 {
    op / 64
}

pub open spec fn fy(op: u8) -> u8 {
    op / 8 % 8
}

pub open spec fn fz(op: u8) -> u8 {
    op % 8
}

/// `MOV d,s` with neither operand in memory.
pub open spec fn is_mov_rr(op: u8) -> bool {
    fx(op) == 1 && fy(op) != 6 && fz(op) != 6
}

/// `INX rp` / `DCX rp`.
pub open spec fn is_inx_dcx(op: u8) -> bool {
    fx(op) == 0 && fz(op) == 3
}

/// Conditional return.
pub open spec fn is_rcc(op: u8) -> bool {
    fx(op) == 3 && fz(op) == 0
}

/// Conditional jump.
pub open spec fn is_jcc(op: u8) -> bool {
    fx(op) == 3 && fz(op) == 2
}

/// Conditional call.
pub open spec fn is_ccc(op: u8) -> bool {
    fx(op) == 3 && fz(op) == 4
}

/// `PUSH rp`.
pub open spec fn is_push(op: u8) -> bool {
    fx(op) == 3 && fz(op) == 5 && fy(op) % 2 == 0
}

/// `POP rp`.
pub open spec fn is_pop(op: u8) -> bool {
    fx(op) == 3 && fz(op) == 1 && fy(op) % 2 == 0
}

/// `RST n`.
pub open spec fn is_rst(op: u8) -> bool {
    fx(op) == 3 && fz(op) == 7
}

pub const OP_HLT: u8 = 0x76;
pub const OP_JMP: u8 = 0xC3;
pub const OP_OUT: u8 = 0xD3;
pub const OP_IN: u8 = 0xDB;
pub const OP_XTHL: u8 = 0xE3;
pub const OP_XCHG: u8 = 0xEB;
pub const OP_DI: u8 = 0xF3;
pub const OP_EI: u8 = 0xFB;
pub const OP_RET: u8 = 0xC9;
pub const OP_PCHL: u8 = 0xE9;
pub const OP_SPHL: u8 = 0xF9;
pub const OP_CALL: u8 = 0xCD;

/// Encoded length in bytes of each opcode.
pub open spec fn len_spec(op: u8) -> u8 {
    if op == OP_JMP || op == OP_CALL || is_jcc(op) || is_ccc(op) {
        3
    } else if fx(op) == 0 && (fz(op) == 1 && fy(op) % 2 == 0) {
        3
    } else if fx(op) == 0 && fz(op) == 2 && fy(op) >= 4 {
        3
    } else if (fx(op) == 0 && fz(op) == 6) || (fx(op) == 3 && fz(op) == 6) || op == OP_IN || op
        == OP_OUT {
        2
    } else {
        1
    }
}

/// Number of M-cycles that `op` runs, with the flags `f` in force.
pub open spec fn cycles_spec(op: u8, f: Flags, v: Variant) -> u8 {
    let x = fx(op);
    let y = fy(op);
    let z = fz(op);
    if x == 1 {
        if op == OP_HLT {
            1
        } else if y == 6 || z == 6 {
            2
        } else {
            1
        }
    } else if x == 2 {
        if z == 6 {
            2
        } else {
            1
        }
    } else if x == 0 {
        if z == 1 {
            3
        } else if z == 2 {
            if y < 4 {
                2
            } else if y == 4 || y == 5 {
                5
            } else {
                4
            }
        } else if z == 4 || z == 5 {
            if y == 6 {
                3
            } else {
                1
            }
        } else if z == 6 {
            if y == 6 {
                3
            } else {
                2
            }
        } else {
            1
        }
    } else {
        if z == 0 {
            if cond(f, y) {
                3
            } else {
                1
            }
        } else if z == 1 {
            if y % 2 == 0 || op == OP_RET {
                3
            } else {
                1
            }
        } else if z == 2 {
            if v == Variant::I8080 || cond(f, y) {
                3
            } else {
                2
            }
        } else if z == 3 {
            if op == OP_JMP || op == OP_OUT || op == OP_IN {
                3
            } else if op == OP_XTHL {
                5
            } else {
                1
            }
        } else if z == 4 {
            if cond(f, y) {
                5
            } else if v == Variant::I8080 {
                3
            } else {
                2
            }
        } else if z == 5 {
            if y % 2 == 0 {
                3
            } else if op == OP_CALL {
                5
            } else {
                1
            }
        } else if z == 6 {
            2
        } else {
            3
        }
    }
}

/// T-cycles of M-cycle `k` of `op`.
pub open spec fn tcycles_spec(op: u8, k: u8, v: Variant) -> u64 {
    if k == 0 {
        if op == OP_HLT {
            if v == Variant::I8080 {
                7
            } else {
                5
            }
        } else if is_inx_dcx(op) || is_rcc(op) || op == OP_PCHL || op == OP_SPHL {
            if v == Variant::I8080 {
                5
            } else {
                6
            }
        } else if v == Variant::I8080 && (is_mov_rr(op) || (fx(op) == 0 && (fz(op) == 4 || fz(
            op,
        ) == 5) && fy(op) != 6)) {
            5
        } else {
            4
        }
    } else if v == Variant::I8080 {
        if (is_ccc(op) || is_push(op) || is_rst(op)) && k == 2 {
            4
        } else if op == OP_CALL && k == 4 {
            4
        } else if op == OP_XTHL && k >= 3 {
            4
        } else {
            3
        }
    } else {
        if is_ccc(op) && k == 1 {
            5
        } else if is_push(op) && k == 1 {
            4
        } else if is_push(op) && k == 2 {
            5
        } else if is_rst(op) {
            4
        } else if op == OP_CALL && k >= 3 {
            4
        } else {
            3
        }
    }
}

// ----- M-cycles -----

/// An interrupt is taken at the next instruction boundary.
pub open spec fn takes_interrupt(s: Core) -> bool {
    s.iff == IffState::Enabled && s.pending.is_some()
}

/// The core is halted and nothing will wake it.
pub open spec fn stalled(s: Core) -> bool {
    s.mcycle == 0 && !takes_interrupt(s) && s.halt
}

pub open spec fn wz(s: Core) -> u16 {
    word(s.w, s.z)
}

/// Register code of the high byte of a pushed or popped pair.
pub open spec fn stack_hi(rp: u8) -> u8 {
    if rp == 3 {
        7
    } else {
        (2 * rp) as u8
    }
}

/// The byte that `PUSH` writes second (low byte of the pair, or the flag byte).
pub open spec fn stack_lo_value(r: Registers, rp: u8) -> u8 {
    if rp == 3 {
        flags_byte(r.flags)
    } else {
        get8(r, (2 * rp + 1) as u8)
    }
}

/// The bus transaction of the next M-cycle.
pub open spec fn bus_cycle_spec(s: Core) -> BusCycle {
    let op = s.ir;
    let k = s.mcycle;
    let r = s.reg;
    let x = fx(op);
    let y = fy(op);
    let z = fz(op);
    if k == 0 {
        if takes_interrupt(s) || s.halt {
            BusCycle::Idle
        } else {
            BusCycle::MemRead(r.pc)
        }
    } else if x == 1 {
        if y == 6 {
            BusCycle::MemWrite(hl(r), get8(r, z))
        } else {
            BusCycle::MemRead(hl(r))
        }
    } else if x == 2 {
        BusCycle::MemRead(hl(r))
    } else if x == 0 {
        if (z == 1 && y % 2 == 0) || (z == 6 && (y != 6 || k == 1)) {
            BusCycle::MemRead(r.pc)
        } else if z == 2 {
            if y < 4 {
                if y % 2 == 0 {
                    BusCycle::MemWrite(get16(r, y / 2), r.a)
                } else {
                    BusCycle::MemRead(get16(r, y / 2))
                }
            } else if k <= 2 {
                BusCycle::MemRead(r.pc)
            } else if y == 4 {
                if k == 3 {
                    BusCycle::MemWrite(wz(s), r.l)
                } else {
                    BusCycle::MemWrite(inc16(wz(s)), r.h)
                }
            } else if y == 5 {
                if k == 3 {
                    BusCycle::MemRead(wz(s))
                } else {
                    BusCycle::MemRead(inc16(wz(s)))
                }
            } else if y == 6 {
                BusCycle::MemWrite(wz(s), r.a)
            } else {
                BusCycle::MemRead(wz(s))
            }
        } else if z == 4 || z == 5 {
            if k == 1 {
                BusCycle::MemRead(hl(r))
            } else {
                BusCycle::MemWrite(hl(r), s.z)
            }
        } else if z == 6 {
            BusCycle::MemWrite(hl(r), s.z)
        } else {
            BusCycle::Idle
        }
    } else {
        if z == 0 || op == OP_RET || is_pop(op) {
            BusCycle::MemRead(r.sp)
        } else if z == 2 || z == 6 || op == OP_JMP {
            BusCycle::MemRead(r.pc)
        } else if op == OP_OUT || op == OP_IN {
            if k == 1 {
                BusCycle::MemRead(r.pc)
            } else if op == OP_OUT {
                BusCycle::PortWrite(s.z, r.a)
            } else {
                BusCycle::PortRead(s.z)
            }
        } else if op == OP_XTHL {
            if k == 1 {
                BusCycle::MemRead(r.sp)
            } else if k == 2 {
                BusCycle::MemRead(inc16(r.sp))
            } else if k == 3 {
                BusCycle::MemWrite(r.sp, r.l)
            } else {
                BusCycle::MemWrite(inc16(r.sp), r.h)
            }
        } else if z == 4 || op == OP_CALL {
            if k <= 2 {
                BusCycle::MemRead(r.pc)
            } else if k == 3 {
                BusCycle::MemWrite(dec16(r.sp), hi_byte(r.pc))
            } else {
                BusCycle::MemWrite(dec16(r.sp), lo_byte(r.pc))
            }
        } else if is_push(op) {
            if k == 1 {
                BusCycle::MemWrite(dec16(r.sp), get8(r, stack_hi(y / 2)))
            } else {
                BusCycle::MemWrite(dec16(r.sp), stack_lo_value(r, y / 2))
            }
        } else if is_rst(op) {
            if k == 1 {
                BusCycle::MemWrite(dec16(r.sp), hi_byte(r.pc))
            } else {
                BusCycle::MemWrite(dec16(r.sp), lo_byte(r.pc))
            }
        } else {
            BusCycle::Idle
        }
    }
}

/// `s` with the program counter advanced past one operand byte `v`, which
/// goes to `Z` (first operand) or `W` (second operand).
pub open spec fn fetch_operand(s: Core, k: u8, v: u8) -> Core {
    let s2 = Core { reg: Registers { pc: inc16(s.reg.pc), ..s.reg }, ..s };
    if k == 1 {
        Core { z: v, ..s2 }
    } else {
        Core { w: v, ..s2 }
    }
}

pub open spec fn with_reg(s: Core, r: Registers) -> Core {
    Core { reg: r, ..s }
}

/// M1 of `op`: the work that needs no bus.
pub open spec fn m1_spec(s: Core, op: u8) -> Core {
    let r = s.reg;
    let x = fx(op);
    let y = fy(op);
    let z = fz(op);
    if x == 1 {
        if op == OP_HLT {
            Core { halt: true, ..s }
        } else if y != 6 && z != 6 {
            with_reg(s, set8(r, y, get8(r, z)))
        } else {
            s
        }
    } else if x == 2 {
        if z != 6 {
            let res = alu_spec(y, r.a, get8(r, z), r.flags);
            with_reg(s, Registers { a: res.0, flags: res.1, ..r })
        } else {
            s
        }
    } else if x == 0 {
        m1_low_spec(s, op)
    } else {
        m1_high_spec(s, op)
    }
}

/// M1 of an opcode in 0x00..0x3F.
pub open spec fn m1_low_spec(s: Core, op: u8) -> Core {
    let r = s.reg;
    let y = fy(op);
    let z = fz(op);
    if z == 3 {
        if y % 2 == 0 {
            with_reg(s, set16(r, y / 2, inc16(get16(r, y / 2))))
        } else {
            with_reg(s, set16(r, y / 2, dec16(get16(r, y / 2))))
        }
    } else if (z == 4 || z == 5) && y != 6 {
        let res = if z == 4 {
            inc_spec(get8(r, y), r.flags.cy)
        } else {
            dec_spec(get8(r, y), r.flags.cy)
        };
        with_reg(s, Registers { flags: res.1, ..set8(r, y, res.0) })
    } else if z == 7 {
        with_reg(s, accumulator_spec(r, y))
    } else {
        s
    }
}

/// The rotates, `DAA`, `CMA`, `STC` and `CMC`, by their 3-bit code.
pub open spec fn accumulator_spec(r: Registers, y: u8) -> Registers {
    let a = r.a;
    let f = r.flags;
    if y == 0 {
        Registers { a: rlc_spec(a), flags: Flags { cy: a >= 128, ..f }, ..r }
    } else if y == 1 {
        Registers { a: rrc_spec(a), flags: Flags { cy: a % 2 == 1, ..f }, ..r }
    } else if y == 2 {
        Registers { a: ral_spec(a, f.cy), flags: Flags { cy: a >= 128, ..f }, ..r }
    } else if y == 3 {
        Registers { a: rar_spec(a, f.cy), flags: Flags { cy: a % 2 == 1, ..f }, ..r }
    } else if y == 4 {
        Registers { a: daa_spec(a, f).0, flags: daa_spec(a, f).1, ..r }
    } else if y == 5 {
        Registers { a: !a, ..r }
    } else if y == 6 {
        Registers { flags: Flags { cy: true, ..f }, ..r }
    } else {
        Registers { flags: Flags { cy: !f.cy, ..f }, ..r }
    }
}

/// M1 of an opcode in 0xC0..0xFF.
pub open spec fn m1_high_spec(s: Core, op: u8) -> Core {
    let r = s.reg;
    if op == OP_XCHG {
        with_reg(s, Registers { d: r.h, e: r.l, h: r.d, l: r.e, ..r })
    } else if op == OP_DI {
        Core { iff: IffState::Disabled, ..s }
    } else if op == OP_EI {
        Core { iff: IffState::EnablePending, ..s }
    } else if op == OP_PCHL {
        with_reg(s, Registers { pc: hl(r), ..r })
    } else if op == OP_SPHL {
        with_reg(s, Registers { sp: hl(r), ..r })
    } else {
        s
    }
}

/// M-cycle `k >= 1` of `op`, where `v` is the byte that its read returned.
pub open spec fn mk_spec(s: Core, op: u8, k: u8, v: u8) -> Core {
    let r = s.reg;
    let x = fx(op);
    let y = fy(op);
    if x == 1 {
        if y == 6 {
            s
        } else {
            with_reg(s, set8(r, y, v))
        }
    } else if x == 2 {
        let res = alu_spec(y, r.a, v, r.flags);
        with_reg(s, Registers { a: res.0, flags: res.1, ..r })
    } else if x == 0 {
        mk_low_spec(s, op, k, v)
    } else {
        mk_high_spec(s, op, k, v)
    }
}

/// M-cycle `k >= 1` of an opcode in 0x00..0x3F.
pub open spec fn mk_low_spec(s: Core, op: u8, k: u8, v: u8) -> Core {
    let r = s.reg;
    let y = fy(op);
    let z = fz(op);
    if z == 1 {
        if y % 2 == 0 {
            let s2 = fetch_operand(s, k, v);
            if k == 1 {
                s2
            } else {
                with_reg(s2, set16(s2.reg, y / 2, wz(s2)))
            }
        } else if k == 1 {
            let sum = hl(r) + get16(r, y / 2);
            with_reg(
                s,
                Registers {
                    flags: Flags { cy: sum > 0xFFFF, ..r.flags },
                    ..set16(r, 2, (sum % 65536) as u16)
                },
            )
        } else {
            s
        }
    } else if z == 2 {
        mk_direct_spec(s, y, k, v)
    } else if z == 4 || z == 5 {
        if k == 1 {
            let res = if z == 4 {
                inc_spec(v, r.flags.cy)
            } else {
                dec_spec(v, r.flags.cy)
            };
            Core { z: res.0, reg: Registers { flags: res.1, ..r }, ..s }
        } else {
            s
        }
    } else if z == 6 {
        if y == 6 {
            if k == 1 {
                fetch_operand(s, k, v)
            } else {
                s
            }
        } else {
            with_reg(s, Registers { pc: inc16(r.pc), ..set8(r, y, v) })
        }
    } else {
        s
    }
}

/// `STAX`, `LDAX`, `SHLD`, `LHLD`, `STA` and `LDA`, by their 3-bit code.
pub open spec fn mk_direct_spec(s: Core, y: u8, k: u8, v: u8) -> Core {
    let r = s.reg;
    if y < 4 {
        if y % 2 == 0 {
            s
        } else {
            with_reg(s, Registers { a: v, ..r })
        }
    } else if k <= 2 {
        fetch_operand(s, k, v)
    } else if y == 5 {
        if k == 3 {
            with_reg(s, Registers { l: v, ..r })
        } else {
            with_reg(s, Registers { h: v, ..r })
        }
    } else if y == 7 {
        with_reg(s, Registers { a: v, ..r })
    } else {
        s
    }
}

/// M-cycle `k >= 1` of an opcode in 0xC0..0xFF.
pub open spec fn mk_high_spec(s: Core, op: u8, k: u8, v: u8) -> Core {
    let z = fz(op);
    if z == 0 || op == OP_RET || is_pop(op) {
        mk_pop_spec(s, op, k, v)
    } else if z == 2 || op == OP_JMP {
        mk_jump_spec(s, op, k, v)
    } else if op == OP_OUT || op == OP_IN || op == OP_XTHL || z == 6 {
        mk_misc_spec(s, op, k, v)
    } else if z == 4 || op == OP_CALL {
        mk_call_spec(s, op, k, v)
    } else {
        mk_push_spec(s, op, k)
    }
}

/// Returns and `POP`.
pub open spec fn mk_pop_spec(s: Core, op: u8, k: u8, v: u8) -> Core {
    let r = s.reg;
    let y = fy(op);
    let r2 = Registers { sp: inc16(r.sp), ..r };
    if is_pop(op) {
        if k == 1 {
            if y / 2 == 3 {
                with_reg(s, Registers { flags: flags_of_byte(v), ..r2 })
            } else {
                with_reg(s, set8(r2, (y + 1) as u8, v))
            }
        } else {
            with_reg(s, set8(r2, stack_hi(y / 2), v))
        }
    } else if k == 1 {
        Core { z: v, reg: r2, ..s }
    } else {
        Core { w: v, reg: Registers { pc: word(v, s.z), ..r2 }, ..s }
    }
}

/// `JMP` and the conditional jumps.
pub open spec fn mk_jump_spec(s: Core, op: u8, k: u8, v: u8) -> Core {
    let f = s.reg.flags;
    let y = fy(op);
    let s2 = fetch_operand(s, k, v);
    if k == 1 {
        if op != OP_JMP && s.variant == Variant::I8085 && !cond(f, y) {
            with_reg(s2, Registers { pc: inc16(s2.reg.pc), ..s2.reg })
        } else {
            s2
        }
    } else if op == OP_JMP || cond(f, y) {
        with_reg(s2, Registers { pc: wz(s2), ..s2.reg })
    } else {
        s2
    }
}

/// `IN`, `OUT`, `XTHL` and the immediate accumulator operations.
pub open spec fn mk_misc_spec(s: Core, op: u8, k: u8, v: u8) -> Core {
    let r = s.reg;
    if op == OP_OUT || op == OP_IN {
        if k == 1 {
            fetch_operand(s, k, v)
        } else if op == OP_IN {
            with_reg(s, Registers { a: v, ..r })
        } else {
            s
        }
    } else if op == OP_XTHL {
        if k == 1 {
            Core { z: v, ..s }
        } else if k == 2 {
            Core { w: v, ..s }
        } else if k == 3 {
            s
        } else {
            with_reg(s, Registers { h: s.w, l: s.z, ..r })
        }
    } else {
        let s2 = fetch_operand(s, k, v);
        let res = alu_spec(fy(op), r.a, v, r.flags);
        with_reg(s2, Registers { a: res.0, flags: res.1, ..s2.reg })
    }
}

/// `CALL` and the conditional calls.
pub open spec fn mk_call_spec(s: Core, op: u8, k: u8, v: u8) -> Core {
    let r = s.reg;
    let r2 = Registers { sp: dec16(r.sp), ..r };
    if k <= 2 {
        let s2 = fetch_operand(s, k, v);
        if k == 1 && op != OP_CALL && s.variant == Variant::I8085 && !cond(r.flags, fy(op)) {
            with_reg(s2, Registers { pc: inc16(s2.reg.pc), ..s2.reg })
        } else {
            s2
        }
    } else if k == 3 {
        with_reg(s, r2)
    } else {
        with_reg(s, Registers { pc: wz(s), ..r2 })
    }
}

/// `PUSH` and `RST`, whose later M-cycles only write.
pub open spec fn mk_push_spec(s: Core, op: u8, k: u8) -> Core {
    let r = s.reg;
    let r2 = Registers { sp: dec16(r.sp), ..r };
    if is_push(op) {
        with_reg(s, r2)
    } else if is_rst(op) {
        if k == 1 {
            with_reg(s, r2)
        } else {
            with_reg(s, Registers { pc: (fy(op) * 8) as u16, ..r2 })
        }
    } else {
        s
    }
}

/// The next M-cycle index after M-cycle `k` of `op` ran, with the flags `f`
/// in force when it started.
pub open spec fn next_mcycle(op: u8, k: u8, f: Flags, v: Variant) -> u8 {
    if k + 1 < cycles_spec(op, f, v) {
        (k + 1) as u8
    } else {
        0
    }
}

#[verifier::opaque]
/// One M-cycle: the new state, and the T-cycles it took (`None` when the core
/// is halted with nothing to wake it, in which case nothing changes). `v` is
/// the byte that the M-cycle's read returned; it is ignored by M-cycles that
/// do not read.
pub open spec fn advance_spec(s: Core, v: u8) -> (Core, Option<u64>) {
    if s.mcycle == 0 {
        if stalled(s) {
            (s, None)
        } else {
            let (s1, op) = if takes_interrupt(s) {
                (
                    Core { pending: None, iff: IffState::Disabled, halt: false, ..s },
                    s.pending.unwrap(),
                )
            } else {
                (
                    Core {
                        reg: Registers { pc: inc16(s.reg.pc), ..s.reg },
                        iff: if s.iff == IffState::EnablePending {
                            IffState::Enabled
                        } else {
                            s.iff
                        },
                        ..s
                    },
                    v,
                )
            };
            let s2 = m1_spec(Core { ir: op, ..s1 }, op);
            (
                Core { mcycle: next_mcycle(op, 0, s1.reg.flags, s.variant), ..s2 },
                Some(tcycles_spec(op, 0, s.variant)),
            )
        }
    } else {
        let s2 = mk_spec(s, s.ir, s.mcycle, v);
        (
            Core { mcycle: next_mcycle(s.ir, s.mcycle, s.reg.flags, s.variant), ..s2 },
            Some(tcycles_spec(s.ir, s.mcycle, s.variant)),
        )
    }
}

/// A core in its power-on state: every register 0, interrupts disabled, not
/// halted, at an instruction boundary.
pub open spec fn new_core(variant: Variant) -> Core {
    Core {
        reg: zero_registers(),
        w: 0,
        z: 0,
        iff: IffState::Disabled,
        pending: None,
        halt: false,
        ir: 0,
        mcycle: 0,
        variant,
    }
}

/// Well-formed state: the next M-cycle exists.
pub open spec fn core_wf(s: Core) -> bool {
    s.mcycle == 0 || s.mcycle < cycles_spec(s.ir, s.reg.flags, s.variant)
}

} // verus!

verus! {

/// Only the conditional returns, jumps and calls take a number of M-cycles
/// that depends on the flags.
pub proof fn lemma_cycles_flags(op: u8, f1: Flags, f2: Flags, v: Variant)
    requires
        !is_rcc(op) && !is_jcc(op) && !is_ccc(op),
    ensures
        cycles_spec(op, f1, v) == cycles_spec(op, f2, v),
{
}

/// An M-cycle keeps the opcode, the variant and the M-cycle index; those of
/// the conditional returns, jumps and calls keep the flags.
pub proof fn lemma_m_cycle_frame(s: Core, op: u8, k: u8, v: u8)
    ensures
        m1_spec(s, op).ir == s.ir && m1_spec(s, op).variant == s.variant && m1_spec(s, op).mcycle
            == s.mcycle,
        mk_spec(s, op, k, v).ir == s.ir && mk_spec(s, op, k, v).variant == s.variant && mk_spec(
            s,
            op,
            k,
            v,
        ).mcycle == s.mcycle,
        (is_rcc(op) || is_jcc(op) || is_ccc(op)) ==> m1_spec(s, op).reg.flags == s.reg.flags
            && mk_spec(s, op, k, v).reg.flags == s.reg.flags,
{
}

/// What the driver needs of one M-cycle: it keeps the state well formed,
/// counts the M-cycles of an instruction up from 1, and takes at most 7
/// T-cycles, or `None` exactly when the core is stalled.
pub proof fn lemma_advance(s: Core, v: u8)
    requires
        core_wf(s),
    ensures
        core_wf(advance_spec(s, v).0),
        advance_spec(s, v).0.mcycle == 0 || (advance_spec(s, v).0.mcycle == s.mcycle + 1
            && advance_spec(s, v).0.mcycle < 5),
        advance_spec(s, v).1.is_none() <==> stalled(s),
        stalled(s) ==> advance_spec(s, v).0 == s,
        advance_spec(s, v).1.is_some() ==> advance_spec(s, v).1.unwrap() <= 7,
{
    reveal(advance_spec);
    let op = if s.mcycle == 0 {
        if takes_interrupt(s) {
            s.pending.unwrap()
        } else {
            v
        }
    } else {
        s.ir
    };
    let f1 = Flags { s: false, z: false, ac: false, p: false, cy: false };
    if !is_rcc(op) && !is_jcc(op) && !is_ccc(op) {
        lemma_cycles_flags(op, s.reg.flags, advance_spec(s, v).0.reg.flags, s.variant);
    }
    if s.mcycle == 0 {
        if !stalled(s) {
            let s1 = if takes_interrupt(s) {
                Core { pending: None, iff: IffState::Disabled, halt: false, ..s }
            } else {
                Core {
                    reg: Registers { pc: inc16(s.reg.pc), ..s.reg },
                    iff: if s.iff == IffState::EnablePending {
                        IffState::Enabled
                    } else {
                        s.iff
                    },
                    ..s
                }
            };
            lemma_m_cycle_frame(Core { ir: op, ..s1 }, op, 0, v);
        }
    } else {
        lemma_m_cycle_frame(s, op, s.mcycle, v);
    }
}

} // verus!
