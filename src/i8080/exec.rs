//! Executable M-cycles of the 8080 / 8085, each proved to follow the model.
use vstd::prelude::*;
use crate::alu;
use crate::alu::Flags;
use crate::i8080::model::{
    new_core, Variant, IffState, Registers, BusCycle, Core, zero_registers, word, inc16, dec16, get8, set8, hl, get16, set16, cond, alu_spec, is_ccc, is_push, is_pop, is_rst, OP_HLT, OP_JMP, OP_OUT, OP_IN, OP_XTHL, OP_XCHG, OP_DI, OP_EI, OP_RET, OP_PCHL, OP_SPHL, OP_CALL, cycles_spec, tcycles_spec, wz, bus_cycle_spec, fetch_operand, m1_spec, m1_low_spec, accumulator_spec, m1_high_spec, mk_spec, mk_low_spec, mk_direct_spec, mk_high_spec, mk_pop_spec, mk_jump_spec, mk_misc_spec, mk_call_spec, mk_push_spec, advance_spec,
};

verus! {

pub fn word_of(hi: u8, lo: u8) -> (r: u16)
    ensures
        r == word(hi, lo),
{
    hi as u16 * 256 + lo as u16
}

pub fn inc_word(x: u16) -> (r: u16)
    ensures
        r == inc16(x),
{
    if x == 0xFFFF {
        0
    } else {
        x + 1
    }
}

pub fn dec_word(x: u16) -> (r: u16)
    ensures
        r == dec16(x),
{
    if x == 0 {
        0xFFFF
    } else {
        x - 1
    }
}

/// Branch condition by its 3-bit code: NZ Z NC C PO PE P M.
pub fn test_cond(f: Flags, c: u8) -> (r: bool)
    ensures
        r == cond(f, c),
{
    let flag = if c / 2 == 0 {
        f.z
    } else if c / 2 == 1 {
        f.cy
    } else if c / 2 == 2 {
        f.p
    } else {
        f.s
    };
    flag == (c % 2 == 1)
}

/// Accumulator operation by its 3-bit code: ADD ADC SUB SBB ANA XRA ORA CMP.
pub fn alu_op(op: u8, a: u8, b: u8, f: Flags) -> (r: (u8, Flags))
    ensures
        r == alu_spec(op, a, b, f),
{
    if op == 0 {
        alu::add(a, b, false)
    } else if op == 1 {
        alu::add(a, b, f.cy)
    } else if op == 2 {
        alu::sub(a, b, false)
    } else if op == 3 {
        alu::sub(a, b, f.cy)
    } else if op == 4 {
        alu::and(a, b)
    } else if op == 5 {
        alu::xor(a, b)
    } else if op == 6 {
        alu::or(a, b)
    } else {
        (a, alu::sub(a, b, false).1)
    }
}

/// Number of M-cycles that `op` runs, with the flags `f` in force.
pub fn cycles_of(op: u8, f: Flags, v: Variant) -> (r: u8)
    ensures
        r == cycles_spec(op, f, v),
        1 <= r <= 5,
{
    let x = op / 64;
    let y = op / 8 % 8;
    let z = op % 8;
    if x == 1 {
        if op == OP_HLT {
            1
        } else if y == 6 || z == 6 {
            2
        } else {
            1
        }
    } else if x == 2 {
        if z == 6 {
            2
        } else {
            1
        }
    } else if x == 0 {
        if z == 1 {
            3
        } else if z == 2 {
            if y < 4 {
                2
            } else if y == 4 || y == 5 {
                5
            } else {
                4
            }
        } else if z == 4 || z == 5 {
            if y == 6 {
                3
            } else {
                1
            }
        } else if z == 6 {
            if y == 6 {
                3
            } else {
                2
            }
        } else {
            1
        }
    } else {
        if z == 0 {
            if test_cond(f, y) {
                3
            } else {
                1
            }
        } else if z == 1 {
            if y % 2 == 0 || op == OP_RET {
                3
            } else {
                1
            }
        } else if z == 2 {
            if v == Variant::I8080 || test_cond(f, y) {
                3
            } else {
                2
            }
        } else if z == 3 {
            if op == OP_JMP || op == OP_OUT || op == OP_IN {
                3
            } else if op == OP_XTHL {
                5
            } else {
                1
            }
        } else if z == 4 {
            if test_cond(f, y) {
                5
            } else if v == Variant::I8080 {
                3
            } else {
                2
            }
        } else if z == 5 {
            if y % 2 == 0 {
                3
            } else if op == OP_CALL {
                5
            } else {
                1
            }
        } else if z == 6 {
            2
        } else {
            3
        }
    }
}

/// T-cycles of M-cycle `k` of `op`.
pub fn tcycles_of(op: u8, k: u8, v: Variant) -> (r: u64)
    ensures
        r == tcycles_spec(op, k, v),
{
    let x = op / 64;
    let y = op / 8 % 8;
    let z = op % 8;
    let is_ccc = x == 3 && z == 4;
    let is_push = x == 3 && z == 5 && y % 2 == 0;
    let is_rst = x == 3 && z == 7;
    if k == 0 {
        if op == OP_HLT {
            if v == Variant::I8080 {
                7
            } else {
                5
            }
        } else if (x == 0 && z == 3) || (x == 3 && z == 0) || op == OP_PCHL || op == OP_SPHL {
            if v == Variant::I8080 {
                5
            } else {
                6
            }
        } else if v == Variant::I8080 && ((x == 1 && y != 6 && z != 6) || (x == 0 && (z == 4 || z
            == 5) && y != 6)) {
            5
        } else {
            4
        }
    } else if v == Variant::I8080 {
        if (is_ccc || is_push || is_rst) && k == 2 {
            4
        } else if op == OP_CALL && k == 4 {
            4
        } else if op == OP_XTHL && k >= 3 {
            4
        } else {
            3
        }
    } else {
        if is_ccc && k == 1 {
            5
        } else if is_push && k == 1 {
            4
        } else if is_push && k == 2 {
            5
        } else if is_rst {
            4
        } else if op == OP_CALL && k >= 3 {
            4
        } else {
            3
        }
    }
}

/// The rotates, `DAA`, `CMA`, `STC` and `CMC`, by their 3-bit code.
pub fn accumulator(r: Registers, y: u8) -> (out: Registers)
    ensures
        out == accumulator_spec(r, y),
{
    let a = r.a;
    let f = r.flags;
    let mut out = r;
    if y == 0 {
        out.a = (a << 1u8) | (a >> 7u8);
        out.flags.cy = a >= 128;
    } else if y == 1 {
        out.a = (a >> 1u8) | (a << 7u8);
        out.flags.cy = a % 2 == 1;
    } else if y == 2 {
        out.a = (a << 1u8) | (if f.cy {
            1u8
        } else {
            0u8
        });
        out.flags.cy = a >= 128;
    } else if y == 3 {
        out.a = (a >> 1u8) | (if f.cy {
            0x80u8
        } else {
            0u8
        });
        out.flags.cy = a % 2 == 1;
    } else if y == 4 {
        let res = alu::daa(a, f);
        out.a = res.0;
        out.flags = res.1;
    } else if y == 5 {
        out.a = !a;
    } else if y == 6 {
        out.flags.cy = true;
    } else {
        out.flags.cy = !f.cy;
    }
    out
}

impl Registers {
    /// All registers 0 and every flag clear.
    pub fn zeroed() -> (r: Registers)
        ensures
            r == zero_registers(),
    {
        Registers {
            a: 0,
            b: 0,
            c: 0,
            d: 0,
            e: 0,
            h: 0,
            l: 0,
            sp: 0,
            pc: 0,
            flags: Flags { s: false, z: false, ac: false, p: false, cy: false },
        }
    }

    /// Register by its 3-bit code: B C D E H L (6: none) A.
    pub fn get(&self, code: u8) -> (r: u8)
        ensures
            r == get8(*self, code),
    {
        if code == 0 {
            self.b
        } else if code == 1 {
            self.c
        } else if code == 2 {
            self.d
        } else if code == 3 {
            self.e
        } else if code == 4 {
            self.h
        } else if code == 5 {
            self.l
        } else {
            self.a
        }
    }

    /// Sets the register with 3-bit code `code`; code 6 names none.
    pub fn set(&mut self, code: u8, v: u8)
        ensures
            *final(self) == set8(*old(self), code, v),
    {
        if code == 0 {
            self.b = v;
        } else if code == 1 {
            self.c = v;
        } else if code == 2 {
            self.d = v;
        } else if code == 3 {
            self.e = v;
        } else if code == 4 {
            self.h = v;
        } else if code == 5 {
            self.l = v;
        } else if code == 7 {
            self.a = v;
        }
    }

    /// Register pair by its 2-bit code: BC DE HL SP.
    pub fn get_pair(&self, rp: u8) -> (r: u16)
        ensures
            r == get16(*self, rp),
    {
        if rp == 0 {
            word_of(self.b, self.c)
        } else if rp == 1 {
            word_of(self.d, self.e)
        } else if rp == 2 {
            word_of(self.h, self.l)
        } else {
            self.sp
        }
    }

    /// Sets the register pair with 2-bit code `rp`.
    pub fn set_pair(&mut self, rp: u8, v: u16)
        ensures
            *final(self) == set16(*old(self), rp, v),
    {
        let hi = (v / 256) as u8;
        let lo = (v % 256) as u8;
        if rp == 0 {
            self.b = hi;
            self.c = lo;
        } else if rp == 1 {
            self.d = hi;
            self.e = lo;
        } else if rp == 2 {
            self.h = hi;
            self.l = lo;
        } else {
            self.sp = v;
        }
    }
}

impl Core {
    /// A core in its reset state: every register 0, interrupts disabled,
    /// not halted, at an instruction boundary.
    pub fn new(variant: Variant) -> (r: Core)
        ensures
            r == new_core(variant),
    {
        Core {
            reg: Registers::zeroed(),
            w: 0,
            z: 0,
            iff: IffState::Disabled,
            pending: None,
            halt: false,
            ir: 0,
            mcycle: 0,
            variant,
        }
    }

    /// The bus transaction of the next M-cycle.
    pub fn bus_cycle(&self) -> (r: BusCycle)
        ensures
            r == bus_cycle_spec(*self),
    {
        let op = self.ir;
        let k = self.mcycle;
        let r = &self.reg;
        let x = op / 64;
        let y = op / 8 % 8;
        let z = op % 8;
        let hl = r.get_pair(2);
        let wz = word_of(self.w, self.z);
        if k == 0 {
            if (self.iff == IffState::Enabled && self.pending.is_some()) || self.halt {
                BusCycle::Idle
            } else {
                BusCycle::MemRead(r.pc)
            }
        } else if x == 1 {
            if y == 6 {
                BusCycle::MemWrite(hl, r.get(z))
            } else {
                BusCycle::MemRead(hl)
            }
        } else if x == 2 {
            BusCycle::MemRead(hl)
        } else if x == 0 {
            if (z == 1 && y % 2 == 0) || (z == 6 && (y != 6 || k == 1)) {
                BusCycle::MemRead(r.pc)
            } else if z == 2 {
                if y < 4 {
                    if y % 2 == 0 {
                        BusCycle::MemWrite(r.get_pair(y / 2), r.a)
                    } else {
                        BusCycle::MemRead(r.get_pair(y / 2))
                    }
                } else if k <= 2 {
                    BusCycle::MemRead(r.pc)
                } else if y == 4 {
                    if k == 3 {
                        BusCycle::MemWrite(wz, r.l)
                    } else {
                        BusCycle::MemWrite(inc_word(wz), r.h)
                    }
                } else if y == 5 {
                    if k == 3 {
                        BusCycle::MemRead(wz)
                    } else {
                        BusCycle::MemRead(inc_word(wz))
                    }
                } else if y == 6 {
                    BusCycle::MemWrite(wz, r.a)
                } else {
                    BusCycle::MemRead(wz)
                }
            } else if z == 4 || z == 5 {
                if k == 1 {
                    BusCycle::MemRead(hl)
                } else {
                    BusCycle::MemWrite(hl, self.z)
                }
            } else if z == 6 {
                BusCycle::MemWrite(hl, self.z)
            } else {
                BusCycle::Idle
            }
        } else {
            let is_pop = z == 1 && y % 2 == 0;
            let is_push = z == 5 && y % 2 == 0;
            if z == 0 || op == OP_RET || is_pop {
                BusCycle::MemRead(r.sp)
            } else if z == 2 || z == 6 || op == OP_JMP {
                BusCycle::MemRead(r.pc)
            } else if op == OP_OUT || op == OP_IN {
                if k == 1 {
                    BusCycle::MemRead(r.pc)
                } else if op == OP_OUT {
                    BusCycle::PortWrite(self.z, r.a)
                } else {
                    BusCycle::PortRead(self.z)
                }
            } else if op == OP_XTHL {
                if k == 1 {
                    BusCycle::MemRead(r.sp)
                } else if k == 2 {
                    BusCycle::MemRead(inc_word(r.sp))
                } else if k == 3 {
                    BusCycle::MemWrite(r.sp, r.l)
                } else {
                    BusCycle::MemWrite(inc_word(r.sp), r.h)
                }
            } else if z == 4 || op == OP_CALL {
                if k <= 2 {
                    BusCycle::MemRead(r.pc)
                } else if k == 3 {
                    BusCycle::MemWrite(dec_word(r.sp), (r.pc / 256) as u8)
                } else {
                    BusCycle::MemWrite(dec_word(r.sp), (r.pc % 256) as u8)
                }
            } else if is_push {
                let rp = y / 2;
                if k == 1 {
                    let hi = if rp == 3 {
                        r.a
                    } else {
                        r.get(2 * rp)
                    };
                    BusCycle::MemWrite(dec_word(r.sp), hi)
                } else {
                    let lo = if rp == 3 {
                        alu::to_byte(r.flags)
                    } else {
                        r.get(2 * rp + 1)
                    };
                    BusCycle::MemWrite(dec_word(r.sp), lo)
                }
            } else if z == 7 {
                if k == 1 {
                    BusCycle::MemWrite(dec_word(r.sp), (r.pc / 256) as u8)
                } else {
                    BusCycle::MemWrite(dec_word(r.sp), (r.pc % 256) as u8)
                }
            } else {
                BusCycle::Idle
            }
        }
    }

    /// Takes operand byte `v` into `Z` (`k == 1`) or `W` and advances the PC.
    fn fetch_operand(&mut self, k: u8, v: u8)
        ensures
            *final(self) == fetch_operand(*old(self), k, v),
    {
        self.reg.pc = inc_word(self.reg.pc);
        if k == 1 {
            self.z = v;
        } else {
            self.w = v;
        }
    }

    /// M1 of `op`: the work that needs no bus.
    fn m1(&mut self, op: u8)
        ensures
            *final(self) == m1_spec(*old(self), op),
    {
        let x = op / 64;
        let y = op / 8 % 8;
        let z = op % 8;
        if x == 1 {
            if op == OP_HLT {
                self.halt = true;
            } else if y != 6 && z != 6 {
                let v = self.reg.get(z);
                self.reg.set(y, v);
            }
        } else if x == 2 {
            if z != 6 {
                let res = alu_op(y, self.reg.a, self.reg.get(z), self.reg.flags);
                self.reg.a = res.0;
                self.reg.flags = res.1;
            }
        } else if x == 0 {
            self.m1_low(op);
        } else {
            self.m1_high(op);
        }
    }

    /// M1 of an opcode in 0x00..0x3F.
    fn m1_low(&mut self, op: u8)
        requires
            op < 64,
        ensures
            *final(self) == m1_low_spec(*old(self), op),
    {
        let y = op / 8 % 8;
        let z = op % 8;
        if z == 3 {
            let rp = y / 2;
            let v = self.reg.get_pair(rp);
            if y % 2 == 0 {
                self.reg.set_pair(rp, inc_word(v));
            } else {
                self.reg.set_pair(rp, dec_word(v));
            }
        } else if (z == 4 || z == 5) && y != 6 {
            let cy = self.reg.flags.cy;
            let res = if z == 4 {
                alu::inc(self.reg.get(y), cy)
            } else {
                alu::dec(self.reg.get(y), cy)
            };
            self.reg.set(y, res.0);
            self.reg.flags = res.1;
        } else if z == 7 {
            self.reg = accumulator(self.reg, y);
        }
    }

    /// M1 of an opcode in 0xC0..0xFF.
    fn m1_high(&mut self, op: u8)
        ensures
            *final(self) == m1_high_spec(*old(self), op),
    {
        if op == OP_XCHG {
            let (d, e) = (self.reg.d, self.reg.e);
            self.reg.d = self.reg.h;
            self.reg.e = self.reg.l;
            self.reg.h = d;
            self.reg.l = e;
        } else if op == OP_DI {
            self.iff = IffState::Disabled;
        } else if op == OP_EI {
            self.iff = IffState::EnablePending;
        } else if op == OP_PCHL {
            self.reg.pc = self.reg.get_pair(2);
        } else if op == OP_SPHL {
            self.reg.sp = self.reg.get_pair(2);
        }
    }

    /// M-cycle `k >= 1` of `op`, where `v` is the byte that its read returned.
    fn mk(&mut self, op: u8, k: u8, v: u8)
        ensures
            *final(self) == mk_spec(*old(self), op, k, v),
    {
        let x = op / 64;
        let y = op / 8 % 8;
        if x == 1 {
            if y != 6 {
                self.reg.set(y, v);
            }
        } else if x == 2 {
            let res = alu_op(y, self.reg.a, v, self.reg.flags);
            self.reg.a = res.0;
            self.reg.flags = res.1;
        } else if x == 0 {
            self.mk_low(op, k, v);
        } else {
            self.mk_high(op, k, v);
        }
    }

    /// M-cycle `k >= 1` of an opcode in 0x00..0x3F.
    fn mk_low(&mut self, op: u8, k: u8, v: u8)
        requires
            op < 64,
        ensures
            *final(self) == mk_low_spec(*old(self), op, k, v),
    {
        let y = op / 8 % 8;
        let z = op % 8;
        if z == 1 {
            if y % 2 == 0 {
                self.fetch_operand(k, v);
                if k != 1 {
                    let wz = word_of(self.w, self.z);
                    self.reg.set_pair(y / 2, wz);
                }
            } else if k == 1 {
                let sum: u32 = self.reg.get_pair(2) as u32 + self.reg.get_pair(y / 2) as u32;
                self.reg.set_pair(2, (sum % 65536) as u16);
                self.reg.flags.cy = sum > 0xFFFF;
            }
        } else if z == 2 {
            self.mk_direct(y, k, v);
        } else if z == 4 || z == 5 {
            if k == 1 {
                let cy = self.reg.flags.cy;
                let res = if z == 4 {
                    alu::inc(v, cy)
                } else {
                    alu::dec(v, cy)
                };
                self.z = res.0;
                self.reg.flags = res.1;
            }
        } else if z == 6 {
            if y == 6 {
                if k == 1 {
                    self.fetch_operand(k, v);
                }
            } else {
                self.reg.set(y, v);
                self.reg.pc = inc_word(self.reg.pc);
            }
        }
    }

    /// `STAX`, `LDAX`, `SHLD`, `LHLD`, `STA` and `LDA`, by their 3-bit code.
    fn mk_direct(&mut self, y: u8, k: u8, v: u8)
        ensures
            *final(self) == mk_direct_spec(*old(self), y, k, v),
    {
        if y < 4 {
            if y % 2 == 1 {
                self.reg.a = v;
            }
        } else if k <= 2 {
            self.fetch_operand(k, v);
        } else if y == 5 {
            if k == 3 {
                self.reg.l = v;
            } else {
                self.reg.h = v;
            }
        } else if y == 7 {
            self.reg.a = v;
        }
    }

    /// M-cycle `k >= 1` of an opcode in 0xC0..0xFF.
    fn mk_high(&mut self, op: u8, k: u8, v: u8)
        ensures
            *final(self) == mk_high_spec(*old(self), op, k, v),
    {
        let z = op % 8;
        let y = op / 8 % 8;
        let is_pop = op >= 192 && z == 1 && y % 2 == 0;
        if z == 0 || op == OP_RET || is_pop {
            self.mk_pop(op, k, v);
        } else if z == 2 || op == OP_JMP {
            self.mk_jump(op, k, v);
        } else if op == OP_OUT || op == OP_IN || op == OP_XTHL || z == 6 {
            self.mk_misc(op, k, v);
        } else if z == 4 || op == OP_CALL {
            self.mk_call(op, k, v);
        } else {
            self.mk_push(op, k);
        }
    }

    /// Returns and `POP`.
    fn mk_pop(&mut self, op: u8, k: u8, v: u8)
        ensures
            *final(self) == mk_pop_spec(*old(self), op, k, v),
    {
        let y = op / 8 % 8;
        self.reg.sp = inc_word(self.reg.sp);
        if op >= 192 && op % 8 == 1 && y % 2 == 0 {
            let rp = y / 2;
            if k == 1 {
                if rp == 3 {
                    self.reg.flags = alu::from_byte(v);
                } else {
                    self.reg.set(y + 1, v);
                }
            } else if rp == 3 {
                self.reg.a = v;
            } else {
                self.reg.set(y, v);
            }
        } else if k == 1 {
            self.z = v;
        } else {
            self.w = v;
            self.reg.pc = word_of(v, self.z);
        }
    }

    /// `JMP` and the conditional jumps.
    fn mk_jump(&mut self, op: u8, k: u8, v: u8)
        ensures
            *final(self) == mk_jump_spec(*old(self), op, k, v),
    {
        let f = self.reg.flags;
        let y = op / 8 % 8;
        self.fetch_operand(k, v);
        if k == 1 {
            if op != OP_JMP && self.variant == Variant::I8085 && !test_cond(f, y) {
                self.reg.pc = inc_word(self.reg.pc);
            }
        } else if op == OP_JMP || test_cond(f, y) {
            self.reg.pc = word_of(self.w, self.z);
        }
    }

    /// `IN`, `OUT`, `XTHL` and the immediate accumulator operations.
    fn mk_misc(&mut self, op: u8, k: u8, v: u8)
        ensures
            *final(self) == mk_misc_spec(*old(self), op, k, v),
    {
        if op == OP_OUT || op == OP_IN {
            if k == 1 {
                self.fetch_operand(k, v);
            } else if op == OP_IN {
                self.reg.a = v;
            }
        } else if op == OP_XTHL {
            if k == 1 {
                self.z = v;
            } else if k == 2 {
                self.w = v;
            } else if k != 3 {
                self.reg.h = self.w;
                self.reg.l = self.z;
            }
        } else {
            let res = alu_op(op / 8 % 8, self.reg.a, v, self.reg.flags);
            self.fetch_operand(k, v);
            self.reg.a = res.0;
            self.reg.flags = res.1;
        }
    }

    /// `CALL` and the conditional calls.
    fn mk_call(&mut self, op: u8, k: u8, v: u8)
        ensures
            *final(self) == mk_call_spec(*old(self), op, k, v),
    {
        let f = self.reg.flags;
        if k <= 2 {
            self.fetch_operand(k, v);
            if k == 1 && op != OP_CALL && self.variant == Variant::I8085 && !test_cond(
                f,
                op / 8 % 8,
            ) {
                self.reg.pc = inc_word(self.reg.pc);
            }
        } else if k == 3 {
            self.reg.sp = dec_word(self.reg.sp);
        } else {
            self.reg.sp = dec_word(self.reg.sp);
            self.reg.pc = word_of(self.w, self.z);
        }
    }

    /// `PUSH` and `RST`, whose later M-cycles only write.
    fn mk_push(&mut self, op: u8, k: u8)
        ensures
            *final(self) == mk_push_spec(*old(self), op, k),
    {
        let y = op / 8 % 8;
        let z = op % 8;
        if op >= 192 && z == 5 && y % 2 == 0 {
            self.reg.sp = dec_word(self.reg.sp);
        } else if op >= 192 && z == 7 {
            self.reg.sp = dec_word(self.reg.sp);
            if k != 1 {
                self.reg.pc = y as u16 * 8;
            }
        }
    }

    /// Runs one M-cycle; `v` is the byte that its read returned.
    pub fn advance(&mut self, v: u8) -> (r: Option<u64>)
        ensures
            (*final(self), r) == advance_spec(*old(self), v),
    {
        proof {
            reveal(advance_spec);
        }
        let variant = self.variant;
        if self.mcycle == 0 {
            let take = self.iff == IffState::Enabled && self.pending.is_some();
            if !take && self.halt {
                return None;
            }
            let op = if take {
                let op = match self.pending {
                    Some(p) => p,
                    None => 0,
                };
                self.pending = None;
                self.iff = IffState::Disabled;
                self.halt = false;
                op
            } else {
                self.reg.pc = inc_word(self.reg.pc);
                if self.iff == IffState::EnablePending {
                    self.iff = IffState::Enabled;
                }
                v
            };
            let f = self.reg.flags;
            self.ir = op;
            self.m1(op);
            self.mcycle = if 1 < cycles_of(op, f, variant) {
                1
            } else {
                0
            };
            Some(tcycles_of(op, 0, variant))
        } else {
            let op = self.ir;
            let k = self.mcycle;
            let f = self.reg.flags;
            self.mk(op, k, v);
            self.mcycle = if (k as u16) + 1 < cycles_of(op, f, variant) as u16 {
                k + 1
            } else {
                0
            };
            Some(tcycles_of(op, k, variant))
        }
    }
}

} // verus!
