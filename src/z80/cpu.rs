//! The Z80 core, stepped one T-state at a time over a pin-level bus.
use vstd::prelude::*;
use std::marker::PhantomData;
use crate::bus::{BusHandlerZ80, Pins};
use crate::z80::opcode::{opcode_byte, Opcode};
use crate::z80::model::{
    check_wait, end, execute_spec, fetch_t1, fetch_t4, get_pair_spec, get_spec, inc16,
    is_ld_r_n, is_ld_r_r, is_ld_r_rpi, is_ld_rpi_r, operand_read, prefix_cb_spec,
    read_t2, read_t3, reg_of_code, set_spec, supported, tick_spec, word,
    write_t2, write_t3, z80_wf, IdxReg, Interrupts, Reg, RegPair, Registers, Unsupported,
    Z80State, OP_CB_RES_0_B, OP_DI, OP_EI, OP_EXX, OP_IN_A_N, OP_LD_A_NNI, OP_LD_HLI_N,
    OP_LD_NNI_A, OP_NOP, OP_OUT_N_A, OP_PREFIX_CB,
};

verus! {

type TCycles = u64;

pub fn word_of(hi: u8, lo: u8) -> (r: u16)
    ensures
        r == word(hi, lo),
{
    hi as u16 * 256 + lo as u16
}

pub fn inc_word(x: u16) -> (r: u16)
    ensures
        r == inc16(x),
{
    if x == 0xFFFF {
        0
    } else {
        x + 1
    }
}

/// Register by its 3-bit opcode code: B C D E H L (6: none) A.
pub fn reg_of(code: u8) -> (r: Reg)
    ensures
        r == reg_of_code(code),
{
    if code == 0 {
        Reg::B
    } else if code == 1 {
        Reg::C
    } else if code == 2 {
        Reg::D
    } else if code == 3 {
        Reg::E
    } else if code == 4 {
        Reg::H
    } else if code == 5 {
        Reg::L
    } else {
        Reg::A
    }
}

impl Registers {
    /// Every register 0.
    pub fn zeroed() -> (r: Registers)
        ensures
            r == zero_registers(),
    {
        Registers {
            pc: 0,
            sp: 0,
            a: 0,
            a_: 0,
            f: 0,
            f_: 0,
            b: 0,
            c: 0,
            d: 0,
            e: 0,
            h: 0,
            l: 0,
            b_: 0,
            c_: 0,
            d_: 0,
            e_: 0,
            h_: 0,
            l_: 0,
            ix: 0,
            iy: 0,
            i: 0,
            r: 0,
            wz: 0,
            ir: 0,
            ir_pre: 0,
            tmp: [0, 0],
        }
    }

    pub fn get(&self, reg: Reg) -> (r: u8)
        ensures
            r == get_spec(*self, reg),
    {
        match reg {
            Reg::A => self.a,
            Reg::F => self.f,
            Reg::B => self.b,
            Reg::C => self.c,
            Reg::D => self.d,
            Reg::E => self.e,
            Reg::H => self.h,
            Reg::L => self.l,
        }
    }

    pub fn get_pair(&self, reg_pair: RegPair) -> (r: u16)
        ensures
            r == get_pair_spec(*self, reg_pair),
    {
        match reg_pair {
            RegPair::AF => word_of(self.a, self.f),
            RegPair::BC => word_of(self.b, self.c),
            RegPair::DE => word_of(self.d, self.e),
            RegPair::HL => word_of(self.h, self.l),
            RegPair::SP => self.sp,
        }
    }

    pub fn set(&mut self, reg: Reg, val: u8)
        ensures
            *final(self) == set_spec(*old(self), reg, val),
    {
        match reg {
            Reg::A => self.a = val,
            Reg::F => self.f = val,
            Reg::B => self.b = val,
            Reg::C => self.c = val,
            Reg::D => self.d = val,
            Reg::E => self.e = val,
            Reg::H => self.h = val,
            Reg::L => self.l = val,
        }
    }

    /// Sets a register pair, high byte first.
    pub fn set_pair(&mut self, reg_pair: RegPair, val: u16)
        ensures
            *final(self) == set_pair_spec(*old(self), reg_pair, val),
            get_pair_spec(*final(self), reg_pair) == val,
    {
        let hi = (val / 256) as u8;
        let lo = (val % 256) as u8;
        match reg_pair {
            RegPair::AF => {
                self.a = hi;
                self.f = lo;
            },
            RegPair::BC => {
                self.b = hi;
                self.c = lo;
            },
            RegPair::DE => {
                self.d = hi;
                self.e = lo;
            },
            RegPair::HL => {
                self.h = hi;
                self.l = lo;
            },
            RegPair::SP => self.sp = val,
        }
    }

    /// Swaps a register with its alternate.
    pub fn exchange(&mut self, reg: Reg)
        ensures
            *final(self) == exchange_spec(*old(self), reg),
    {
        match reg {
            Reg::A => {
                let t = self.a;
                self.a = self.a_;
                self.a_ = t;
            },
            Reg::F => {
                let t = self.f;
                self.f = self.f_;
                self.f_ = t;
            },
            Reg::B => {
                let t = self.b;
                self.b = self.b_;
                self.b_ = t;
            },
            Reg::C => {
                let t = self.c;
                self.c = self.c_;
                self.c_ = t;
            },
            Reg::D => {
                let t = self.d;
                self.d = self.d_;
                self.d_ = t;
            },
            Reg::E => {
                let t = self.e;
                self.e = self.e_;
                self.e_ = t;
            },
            Reg::H => {
                let t = self.h;
                self.h = self.h_;
                self.h_ = t;
            },
            Reg::L => {
                let t = self.l;
                self.l = self.l_;
                self.l_ = t;
            },
        }
    }

    pub fn get_idx(&self, reg: IdxReg) -> (r: u16)
        ensures
            r == (match reg {
                IdxReg::IX => self.ix,
                IdxReg::IY => self.iy,
            }),
    {
        match reg {
            IdxReg::IX => self.ix,
            IdxReg::IY => self.iy,
        }
    }

    pub fn set_idx(&mut self, reg: IdxReg, val: u16)
        ensures
            *final(self) == (match reg {
                IdxReg::IX => Registers { ix: val, ..*old(self) },
                IdxReg::IY => Registers { iy: val, ..*old(self) },
            }),
    {
        match reg {
            IdxReg::IX => self.ix = val,
            IdxReg::IY => self.iy = val,
        }
    }
}

/// Every register 0.
pub open spec fn zero_registers() -> Registers {
    Registers {
        pc: 0,
        sp: 0,
        a: 0,
        a_: 0,
        f: 0,
        f_: 0,
        b: 0,
        c: 0,
        d: 0,
        e: 0,
        h: 0,
        l: 0,
        b_: 0,
        c_: 0,
        d_: 0,
        e_: 0,
        h_: 0,
        l_: 0,
        ix: 0,
        iy: 0,
        i: 0,
        r: 0,
        wz: 0,
        ir: 0,
        ir_pre: 0,
        tmp: [0, 0],
    }
}

/// `r` with a register and its alternate swapped.
pub open spec fn exchange_spec(r: Registers, reg: Reg) -> Registers {
    match reg {
        Reg::A => Registers { a: r.a_, a_: r.a, ..r },
        Reg::F => Registers { f: r.f_, f_: r.f, ..r },
        Reg::B => Registers { b: r.b_, b_: r.b, ..r },
        Reg::C => Registers { c: r.c_, c_: r.c, ..r },
        Reg::D => Registers { d: r.d_, d_: r.d, ..r },
        Reg::E => Registers { e: r.e_, e_: r.e, ..r },
        Reg::H => Registers { h: r.h_, h_: r.h, ..r },
        Reg::L => Registers { l: r.l_, l_: r.l, ..r },
    }
}

/// `r` with a register pair set, high byte first.
pub open spec fn set_pair_spec(r: Registers, rp: RegPair, v: u16) -> Registers {
    let hi = (v / 256) as u8;
    let lo = (v % 256) as u8;
    match rp {
        RegPair::AF => Registers { a: hi, f: lo, ..r },
        RegPair::BC => Registers { b: hi, c: lo, ..r },
        RegPair::DE => Registers { d: hi, e: lo, ..r },
        RegPair::HL => Registers { h: hi, l: lo, ..r },
        RegPair::SP => Registers { sp: v, ..r },
    }
}

/// A Z80 processor, driven over a bus of type `B`.
pub struct Cpu<B: BusHandlerZ80> {
    reg: Registers,
    int: Interrupts,
    tcycle: TCycles,
    bus: PhantomData<B>,
}

impl<B: BusHandlerZ80> Cpu<B> {
    /// The state of the core.
    pub closed spec fn state(&self) -> Z80State {
        Z80State { reg: self.reg, int: self.int, tcycle: self.tcycle }
    }

    /// The invariant that `tick` keeps.
    pub open spec fn wf(&self) -> bool {
        z80_wf(self.state())
    }

    /// A core with every register 0, interrupts disabled, in mode 0, between
    /// two instructions.
    pub fn new() -> (r: Self)
        ensures
            r.wf(),
            r.state() == (Z80State {
                reg: zero_registers(),
                int: Interrupts { ei: false, iff1: false, iff2: false, im: 0 },
                tcycle: 0,
            }),
    {
        Cpu {
            reg: Registers::zeroed(),
            int: Interrupts { ei: false, iff1: false, iff2: false, im: 0 },
            tcycle: 0,
            bus: PhantomData,
        }
    }

    /// Advances the core one T-state. Returns what stopped it when it meets
    /// what it has no handler for. An accepted interrupt first sets the
    /// flip-flops as acceptance does (NMI: IFF2 takes IFF1, IFF1 is cleared;
    /// maskable: both cleared); otherwise nothing changes.
    #[verifier::rlimit(100)]
    pub fn tick(&mut self, bus: &mut B) -> (r: Result<(), Unsupported>)
        requires
            old(self).wf(),
        ensures
            final(self).wf(),
            (final(self).state(), final(bus).pins(), r) == tick_spec(
                old(self).state(),
                old(bus).pins(),
            ),
    {
        if self.tcycle == 0 {
            if bus.nmi() {
                self.int.iff2 = self.int.iff1;
                self.int.iff1 = false;
                self.int.ei = false;
                return Err(Unsupported::Nmi);
            } else if !self.int.ei && self.int.iff1 && bus.int_req() {
                self.int.iff1 = false;
                self.int.iff2 = false;
                self.int.ei = false;
                return Err(Unsupported::Interrupt);
            }
            self.int.ei = false;
        }
        self.tcycle = self.tcycle + 1;
        let t = self.tcycle;
        let op = self.reg.ir;
        if t == 1 {
            self.fetch_t1(bus);
        } else if t == 2 {
            self.read_t2(bus);
        } else if t == 3 {
            self.reg.ir = self.fetch_t3(bus);
        } else if t == 4 && !is_supported(op) {
            self.tcycle = 3;
            return Err(Unsupported::Opcode(op));
        } else if op == OP_PREFIX_CB && t == 8 && self.reg.ir_pre != OP_CB_RES_0_B {
            self.tcycle = 7;
            return Err(Unsupported::PrefixCb(self.reg.ir_pre));
        } else {
            if t == 4 {
                self.fetch_t4();
            }
            if op == OP_PREFIX_CB {
                self.execute_prefix_cb(bus);
            } else {
                self.execute(bus, op);
            }
        }
        Ok(())
    }

    fn check_wait(&mut self, bus: &B)
        requires
            old(self).tcycle >= 1,
        ensures
            final(self).state() == check_wait(old(self).state(), bus.pins()),
    {
        if bus.wait() {
            self.tcycle = self.tcycle - 1;
        }
    }

    fn fetch_t1(&mut self, bus: &mut B)
        ensures
            (final(self).state(), final(bus).pins()) == fetch_t1(
                old(self).state(),
                old(bus).pins(),
            ),
    {
        bus.set_addr(self.reg.pc);
        bus.set_m1(true);
        bus.set_rfsh(false);
        self.reg.pc = inc_word(self.reg.pc);
    }

    fn read_t2(&mut self, bus: &mut B)
        ensures
            final(bus).pins() == read_t2(old(bus).pins()),
            final(self).state() == old(self).state(),
    {
        bus.set_mreq(true);
        bus.set_rd(true);
    }

    /// Opcode fetch T3; returns the opcode on the data lines.
    fn fetch_t3(&mut self, bus: &mut B) -> (d: u8)
        requires
            old(self).tcycle >= 1,
        ensures
            d == old(bus).pins().data,
            final(self).state() == check_wait(old(self).state(), old(bus).pins()),
            final(bus).pins() == (Pins {
                mreq: false,
                rd: false,
                m1: false,
                addr: word(old(self).reg.i, old(self).reg.r),
                rfsh: true,
                ..old(bus).pins()
            }),
    {
        bus.set_mreq(false);
        bus.set_rd(false);
        self.check_wait(bus);
        bus.set_m1(false);
        let addr = word_of(self.reg.i, self.reg.r);
        bus.set_addr(addr);
        bus.set_rfsh(true);
        bus.data()
    }

    fn fetch_t4(&mut self)
        ensures
            final(self).state() == fetch_t4(old(self).state()),
    {
        // Only the lower 7 bits of R count; bit 7 is kept.
        let r = self.reg.r;
        self.reg.r = (r / 128) * 128 + (r % 128 + 1) % 128;
    }

    /// Memory read T3; returns the byte on the data lines.
    fn read_t3(&mut self, bus: &mut B) -> (d: u8)
        requires
            old(self).tcycle >= 1,
        ensures
            d == old(bus).pins().data,
            (final(self).state(), final(bus).pins()) == read_t3(
                old(self).state(),
                old(bus).pins(),
            ),
    {
        bus.set_mreq(false);
        bus.set_rd(false);
        self.check_wait(bus);
        bus.data()
    }

    fn write_t2(&mut self, bus: &mut B, data: u8)
        ensures
            final(bus).pins() == write_t2(old(bus).pins(), data),
            final(self).state() == old(self).state(),
    {
        bus.set_data(data);
        bus.set_mreq(true);
        bus.set_wr(true);
    }

    fn write_t3(&mut self, bus: &mut B)
        requires
            old(self).tcycle >= 1,
        ensures
            (final(self).state(), final(bus).pins()) == write_t3(
                old(self).state(),
                old(bus).pins(),
            ),
    {
        bus.set_mreq(false);
        bus.set_wr(false);
        self.check_wait(bus);
    }

    fn end_instruction(&mut self)
        ensures
            final(self).state() == end(old(self).state()),
    {
        self.tcycle = 0;
    }

    /// Reads an operand byte from PC into `tmp[i]` over T-states `t0` to
    /// `t0 + 2`; returns whether the current T-state was one of them.
    fn operand_read(&mut self, bus: &mut B, t0: u64, i: usize) -> (done: bool)
        requires
            1 <= t0 <= 8,
            i < 2,
        ensures
            match operand_read(old(self).state(), old(bus).pins(), t0 as u64, i as int) {
                Some(x) => done && (final(self).state(), final(bus).pins()) == x,
                None => !done && final(self).state() == old(self).state() && final(bus).pins()
                    == old(bus).pins(),
            },
    {
        let t = self.tcycle;
        if t == t0 {
            bus.set_addr(self.reg.pc);
            self.reg.pc = inc_word(self.reg.pc);
            true
        } else if t == t0 + 1 {
            self.read_t2(bus);
            true
        } else if t == t0 + 2 {
            let d = self.read_t3(bus);
            if i == 0 {
                self.reg.tmp = [d, self.reg.tmp[1]];
            } else {
                self.reg.tmp = [self.reg.tmp[0], d];
            }
            true
        } else {
            false
        }
    }

    /// T-state 4 and later of the `CB` prefix.
    fn execute_prefix_cb(&mut self, bus: &mut B)
        requires
            old(self).tcycle >= 4,
        ensures
            (final(self).state(), final(bus).pins()) == prefix_cb_spec(
                old(self).state(),
                old(bus).pins(),
            ),
    {
        let t = self.tcycle;
        if t == 4 {
        } else if t == 5 {
            self.fetch_t1(bus);
        } else if t == 6 {
            self.read_t2(bus);
        } else if t == 7 {
            self.reg.ir_pre = self.fetch_t3(bus);
        } else {
            if t == 8 {
                self.fetch_t4();
            }
            // RES 0,B
            self.reg.b = self.reg.b & 0xFE;
            self.end_instruction();
        }
    }

    /// T-state 4 and later of a supported opcode other than the `CB` prefix.
    fn execute(&mut self, bus: &mut B, op: u8)
        requires
            old(self).tcycle >= 4,
            old(self).tcycle <= 13,
        ensures
            (final(self).state(), final(bus).pins()) == execute_spec(
                old(self).state(),
                old(bus).pins(),
                op,
            ),
    {
        let t = self.tcycle;
        if 0x40 <= op && op < 0x80 && op != 0x76 && op % 8 != 6 && op / 8 % 8 != 6 {
            let v = self.reg.get(reg_of(op % 8));
            self.reg.set(reg_of(op / 8 % 8), v);
            self.end_instruction();
        } else if op == OP_EXX {
            self.reg.exchange(Reg::B);
            self.reg.exchange(Reg::C);
            self.reg.exchange(Reg::D);
            self.reg.exchange(Reg::E);
            self.reg.exchange(Reg::H);
            self.reg.exchange(Reg::L);
            self.end_instruction();
        } else if op == OP_EI {
            self.int.ei = true;
            self.int.iff1 = true;
            self.int.iff2 = true;
            self.end_instruction();
        } else if op == OP_DI {
            self.int.iff1 = false;
            self.int.iff2 = false;
            self.end_instruction();
        } else if op == OP_NOP {
            self.end_instruction();
        } else if op < 0x40 && op % 8 == 6 && op / 8 != 6 {
            self.ld_r_n(bus, op);
        } else if (0x40 <= op && op < 0x80 && op % 8 == 6 && op != 0x76) || op == 0x0A || op
            == 0x1A {
            self.ld_r_rpi(bus, op);
        } else if (0x70 <= op && op < 0x78 && op != 0x76) || op == 0x02 || op == 0x12 {
            self.ld_rpi_r(bus, op);
        } else if op == OP_LD_HLI_N {
            self.ld_hli_n(bus);
        } else if op == OP_LD_A_NNI || op == OP_LD_NNI_A {
            self.ld_nni(bus, op);
        } else if op == OP_IN_A_N || op == OP_OUT_N_A {
            self.in_out(bus, op);
        }
    }

    /// `LD r,n`.
    fn ld_r_n(&mut self, bus: &mut B, op: u8)
        requires
            old(self).tcycle >= 4,
            is_ld_r_n(op),
        ensures
            (final(self).state(), final(bus).pins()) == execute_spec(
                old(self).state(),
                old(bus).pins(),
                op,
            ),
    {
        if self.tcycle == 7 {
            let data = self.read_t3(bus);
            self.reg.set(reg_of(op / 8 % 8), data);
            self.end_instruction();
        } else {
            self.operand_read(bus, 5, 0);
        }
    }

    /// `LD r,(HL)`, `LD A,(BC)`, `LD A,(DE)`.
    fn ld_r_rpi(&mut self, bus: &mut B, op: u8)
        requires
            old(self).tcycle >= 4,
            is_ld_r_rpi(op),
            !is_ld_r_r(op) && !is_ld_r_n(op),
        ensures
            (final(self).state(), final(bus).pins()) == execute_spec(
                old(self).state(),
                old(bus).pins(),
                op,
            ),
    {
        let t = self.tcycle;
        let src = if op < 0x10 {
            RegPair::BC
        } else if op < 0x20 {
            RegPair::DE
        } else {
            RegPair::HL
        };
        let dst = if op < 0x20 {
            Reg::A
        } else if op >= 0x70 {
            reg_of(op % 8)
        } else {
            reg_of(op / 8 % 8)
        };
        if t == 5 {
            let addr = self.reg.get_pair(src);
            bus.set_addr(addr);
        } else if t == 6 {
            self.read_t2(bus);
        } else if t == 7 {
            let addr = self.reg.get_pair(src);
            let data = self.read_t3(bus);
            self.reg.set(dst, data);
            // `LD A,(BC)` and `LD A,(DE)` leave the next address in WZ.
            if op < 0x20 {
                self.reg.wz = inc_word(addr);
            }
            self.end_instruction();
        }
    }

    /// `LD (HL),r`, `LD (BC),A`, `LD (DE),A`.
    fn ld_rpi_r(&mut self, bus: &mut B, op: u8)
        requires
            old(self).tcycle >= 4,
            is_ld_rpi_r(op),
            !is_ld_r_r(op) && !is_ld_r_n(op) && !is_ld_r_rpi(op),
        ensures
            (final(self).state(), final(bus).pins()) == execute_spec(
                old(self).state(),
                old(bus).pins(),
                op,
            ),
    {
        let t = self.tcycle;
        let dst = if op < 0x10 {
            RegPair::BC
        } else if op < 0x20 {
            RegPair::DE
        } else {
            RegPair::HL
        };
        let src = if op < 0x20 {
            Reg::A
        } else {
            reg_of(op % 8)
        };
        if t == 5 {
            let addr = self.reg.get_pair(dst);
            bus.set_addr(addr);
        } else if t == 6 {
            let v = self.reg.get(src);
            self.write_t2(bus, v);
        } else if t == 7 {
            let addr = self.reg.get_pair(dst);
            self.write_t3(bus);
            // `LD (BC),A` and `LD (DE),A` leave A and the next address's low
            // byte in WZ.
            if op < 0x20 {
                self.reg.wz = word_of(self.reg.a, ((addr as u32 + 1) % 256) as u8);
            }
            self.end_instruction();
        }
    }

    /// `LD (HL),n`.
    fn ld_hli_n(&mut self, bus: &mut B)
        requires
            old(self).tcycle >= 4,
        ensures
            (final(self).state(), final(bus).pins()) == execute_spec(
                old(self).state(),
                old(bus).pins(),
                OP_LD_HLI_N,
            ),
    {
        let t = self.tcycle;
        if t == 8 {
            let addr = self.reg.get_pair(RegPair::HL);
            bus.set_addr(addr);
        } else if t == 9 {
            let v = self.reg.tmp[0];
            self.write_t2(bus, v);
        } else if t == 10 {
            self.write_t3(bus);
            self.end_instruction();
        } else {
            self.operand_read(bus, 5, 0);
        }
    }

    /// `LD A,(nn)` and `LD (nn),A`.
    fn ld_nni(&mut self, bus: &mut B, op: u8)
        requires
            old(self).tcycle >= 4,
            op == OP_LD_A_NNI || op == OP_LD_NNI_A,
        ensures
            (final(self).state(), final(bus).pins()) == execute_spec(
                old(self).state(),
                old(bus).pins(),
                op,
            ),
    {
        let t = self.tcycle;
        if t == 11 {
            let addr = word_of(self.reg.tmp[1], self.reg.tmp[0]);
            bus.set_addr(addr);
            if op == OP_LD_A_NNI {
                self.reg.wz = inc_word(addr);
            } else {
                self.reg.wz = word_of(self.reg.a, ((addr as u32 + 1) % 256) as u8);
            }
        } else if t == 12 {
            if op == OP_LD_A_NNI {
                self.read_t2(bus);
            } else {
                let a = self.reg.a;
                self.write_t2(bus, a);
            }
        } else if t == 13 {
            if op == OP_LD_A_NNI {
                self.reg.a = self.read_t3(bus);
            } else {
                self.write_t3(bus);
            }
            self.end_instruction();
        } else if !self.operand_read(bus, 5, 0) {
            self.operand_read(bus, 8, 1);
        }
    }

    /// `IN A,(n)` and `OUT (n),A`.
    fn in_out(&mut self, bus: &mut B, op: u8)
        requires
            old(self).tcycle >= 4,
            op == OP_IN_A_N || op == OP_OUT_N_A,
        ensures
            (final(self).state(), final(bus).pins()) == execute_spec(
                old(self).state(),
                old(bus).pins(),
                op,
            ),
    {
        let t = self.tcycle;
        let port = self.reg.tmp[0];
        if t == 8 {
            let addr = word_of(self.reg.a, port);
            bus.set_addr(addr);
            if op == OP_IN_A_N {
                self.reg.wz = inc_word(addr);
            } else {
                self.reg.wz = word_of(self.reg.a, ((port as u16 + 1) % 256) as u8);
            }
        } else if t == 9 {
        } else if t == 10 {
            if op == OP_IN_A_N {
                bus.set_iorq(true);
                bus.set_rd(true);
            } else {
                bus.set_iorq(true);
                bus.set_wr(true);
                bus.set_data(self.reg.a);
            }
        } else if t == 11 {
            if op == OP_IN_A_N {
                bus.set_iorq(false);
                bus.set_rd(false);
                self.check_wait(bus);
                self.reg.a = bus.data();
            } else {
                bus.set_iorq(false);
                bus.set_wr(false);
                self.check_wait(bus);
            }
            self.end_instruction();
        } else {
            self.operand_read(bus, 5, 0);
        }
    }

    pub fn reg(&self) -> (r: Registers)
        ensures
            r == self.state().reg,
    {
        self.reg
    }

    pub fn set_reg(&mut self, reg: Registers)
        ensures
            final(self).state() == (Z80State { reg, ..old(self).state() }),
    {
        self.reg = reg;
    }

    pub fn interrupts(&self) -> (r: Interrupts)
        ensures
            r == self.state().int,
    {
        self.int
    }

    pub fn set_int(&mut self, ints: Interrupts)
        ensures
            final(self).state() == (Z80State { int: ints, ..old(self).state() }),
    {
        self.int = ints;
    }

    /// The opcode of the instruction in progress (the last one fetched).
    pub fn opcode(&self) -> (r: Opcode)
        ensures
            opcode_byte(r) == self.state().reg.ir,
    {
        Opcode::from_byte(self.reg.ir)
    }

    pub fn tcycle(&self) -> (r: TCycles)
        ensures
            r == self.state().tcycle,
    {
        self.tcycle
    }
}

impl<B: BusHandlerZ80> Default for Cpu<B> {
    fn default() -> (r: Self)
        ensures
            r.wf(),
            r.state() == (Z80State {
                reg: zero_registers(),
                int: Interrupts { ei: false, iff1: false, iff2: false, im: 0 },
                tcycle: 0,
            }),
    {
        Self::new()
    }
}

/// The opcode has a handler.
pub fn is_supported(op: u8) -> (r: bool)
    ensures
        r == supported(op),
{
    (0x40 <= op && op < 0x80 && op != 0x76 && op % 8 != 6 && op / 8 % 8 != 6) || (op < 0x40 && op
        % 8 == 6 && op / 8 != 6) || (0x40 <= op && op < 0x80 && op % 8 == 6 && op != 0x76) || op
        == 0x0A || op == 0x1A || (0x70 <= op && op < 0x78 && op != 0x76) || op == 0x02 || op
        == 0x12 || op == OP_LD_HLI_N || op == OP_LD_A_NNI || op == OP_LD_NNI_A || op
        == OP_PREFIX_CB || op == OP_EXX || op == OP_IN_A_N || op == OP_OUT_N_A || op == OP_DI
        || op == OP_EI || op == OP_NOP
}

} // verus!
