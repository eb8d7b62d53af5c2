//! The state of a Z80 core and the meaning of each T-state.
//!
//! A tick runs one T-state: at T-state 0 the core samples the interrupt
//! lines, T-states 1 to 4 fetch the opcode (M1), and the later ones run the
//! machine cycles of the instruction. The bus is seen as its pins.
use vstd::prelude::*;
use crate::bus::Pins;

verus! {

/// An 8-bit register.
#[derive(Clone, Copy, Debug, PartialEq, Eq, Structural)]
pub enum Reg {
    A,
    F,
    B,
    C,
    D,
    E,
    H,
    L,
}

/// A 16-bit register pair.
#[derive(Clone, Copy, Debug, PartialEq, Eq, Structural)]
pub enum RegPair {
    AF,
    BC,
    DE,
    HL,
    SP,
}

/// An index register.
#[derive(Clone, Copy, Debug, PartialEq, Eq, Structural)]
pub enum IdxReg {
    IX,
    IY,
}

/// The registers of a Z80, the hidden ones included.
#[derive(Clone, Copy, Debug)]
pub struct Registers {
    /// Program counter
    pub pc: u16,
    /// Stack pointer
    pub sp: u16,
    /// Accumulator
    pub a: u8,
    /// Alternate accumulator
    pub a_: u8,
    /// Status flags
    pub f: u8,
    /// Alternate status flags
    pub f_: u8,
    pub b: u8,
    pub c: u8,
    pub d: u8,
    pub e: u8,
    pub h: u8,
    pub l: u8,
    pub b_: u8,
    pub c_: u8,
    pub d_: u8,
    pub e_: u8,
    pub h_: u8,
    pub l_: u8,
    /// Index register X
    pub ix: u16,
    /// Index register Y
    pub iy: u16,
    /// Interrupt vector
    pub i: u8,
    /// Memory refresh
    pub r: u8,
    /// WZ / MEMPTR
    pub wz: u16,
    /// Instruction register
    pub ir: u8,
    /// Instruction register of the opcode after a prefix
    pub ir_pre: u8,
    /// Temporary registers
    pub tmp: [u8; 2],
}

/// Interrupt state.
#[derive(Clone, Copy, Debug, PartialEq, Eq, Structural)]
pub struct Interrupts {
    /// The last instruction was `EI`
    pub ei: bool,
    /// Interrupt enable flip-flop
    pub iff1: bool,
    /// Backup interrupt enable flip-flop
    pub iff2: bool,
    /// Interrupt mode
    pub im: u8,
}

/// What the core does not handle yet.
#[derive(Clone, Copy, Debug, PartialEq, Eq, Structural)]
pub enum Unsupported {
    /// A non-maskable interrupt was requested.
    Nmi,
    /// A maskable interrupt was accepted.
    Interrupt,
    /// An opcode without a handler.
    Opcode(u8),
    /// A `CB`-prefixed opcode without a handler.
    PrefixCb(u8),
}

/// The whole state of a core: registers, interrupt state and the T-state of
/// the instruction in progress (0 between instructions).
#[derive(Clone, Copy, Debug)]
pub struct Z80State {
    pub reg: Registers,
    pub int: Interrupts,
    pub tcycle: u64,
}

pub open spec fn word(hi: u8, lo: u8) -> u16 {
    (hi * 256 + lo) as u16
}

pub open spec fn inc16(x: u16) -> u16 {
    ((x + 1) % 65536) as u16
}

/// Register by its 3-bit opcode code: B C D E H L (6: none) A.
pub open spec fn reg_of_code(code: u8) -> Reg {
    if code == 0 {
        Reg::B
    } else if code == 1 {
        Reg::C
    } else if code == 2 {
        Reg::D
    } else if code == 3 {
        Reg::E
    } else if code == 4 {
        Reg::H
    } else if code == 5 {
        Reg::L
    } else {
        Reg::A
    }
}

pub open spec fn get_spec(r: Registers, reg: Reg) -> u8 {
    match reg {
        Reg::A => r.a,
        Reg::F => r.f,
        Reg::B => r.b,
        Reg::C => r.c,
        Reg::D => r.d,
        Reg::E => r.e,
        Reg::H => r.h,
        Reg::L => r.l,
    }
}

pub open spec fn set_spec(r: Registers, reg: Reg, v: u8) -> Registers {
    match reg {
        Reg::A => Registers { a: v, ..r },
        Reg::F => Registers { f: v, ..r },
        Reg::B => Registers { b: v, ..r },
        Reg::C => Registers { c: v, ..r },
        Reg::D => Registers { d: v, ..r },
        Reg::E => Registers { e: v, ..r },
        Reg::H => Registers { h: v, ..r },
        Reg::L => Registers { l: v, ..r },
    }
}

pub open spec fn get_pair_spec(r: Registers, rp: RegPair) -> u16 {
    match rp {
        RegPair::AF => word(r.a, r.f),
        RegPair::BC => word(r.b, r.c),
        RegPair::DE => word(r.d, r.e),
        RegPair::HL => word(r.h, r.l),
        RegPair::SP => r.sp,
    }
}

/// Register pair addressed by `LD r,(rp)` / `LD (rp),r`: BC, DE or HL.
pub open spec fn pair_of(op: u8) -> RegPair {
    if op < 0x10 {
        RegPair::BC
    } else if op < 0x20 {
        RegPair::DE
    } else {
        RegPair::HL
    }
}

// ----- opcodes that have a handler -----

pub open spec fn is_ld_r_r(op: u8) -> bool {
    0x40 <= op < 0x80 && op != 0x76 && op % 8 != 6 && op / 8 % 8 != 6
}

/// `LD r,n`.
pub open spec fn is_ld_r_n(op: u8) -> bool {
    op < 0x40 && op % 8 == 6 && op / 8 != 6
}

/// `LD r,(HL)`, `LD A,(BC)`, `LD A,(DE)`.
pub open spec fn is_ld_r_rpi(op: u8) -> bool {
    (0x40 <= op < 0x80 && op % 8 == 6 && op != 0x76) || op == 0x0A || op == 0x1A
}

/// `LD (HL),r`, `LD (BC),A`, `LD (DE),A`.
pub open spec fn is_ld_rpi_r(op: u8) -> bool {
    (0x70 <= op < 0x78 && op != 0x76) || op == 0x02 || op == 0x12
}

/// Source register of `LD (rp),r` and destination of `LD r,(rp)`.
pub open spec fn rpi_reg(op: u8) -> Reg {
    if op < 0x20 {
        Reg::A
    } else if op >= 0x70 {
        reg_of_code(op % 8)
    } else {
        reg_of_code(op / 8 % 8)
    }
}

pub const OP_NOP: u8 = 0x00;
pub const OP_LD_HLI_N: u8 = 0x36;
pub const OP_LD_A_NNI: u8 = 0x3A;
pub const OP_LD_NNI_A: u8 = 0x32;
pub const OP_PREFIX_CB: u8 = 0xCB;
pub const OP_EXX: u8 = 0xD9;
pub const OP_IN_A_N: u8 = 0xDB;
pub const OP_OUT_N_A: u8 = 0xD3;
pub const OP_DI: u8 = 0xF3;
pub const OP_EI: u8 = 0xFB;
pub const OP_CB_RES_0_B: u8 = 0x80;

/// The opcode has a handler.
pub open spec fn supported(op: u8) -> bool {
    is_ld_r_r(op) || is_ld_r_n(op) || is_ld_r_rpi(op) || is_ld_rpi_r(op) || op == OP_LD_HLI_N
        || op == OP_LD_A_NNI || op == OP_LD_NNI_A || op == OP_PREFIX_CB || op == OP_EXX || op
        == OP_IN_A_N || op == OP_OUT_N_A || op == OP_DI || op == OP_EI || op == OP_NOP
}

/// T-states of a supported opcode.
pub open spec fn duration(op: u8) -> u64 {
    if is_ld_r_n(op) || is_ld_r_rpi(op) || is_ld_rpi_r(op) {
        7
    } else if op == OP_LD_HLI_N {
        10
    } else if op == OP_LD_A_NNI || op == OP_LD_NNI_A {
        13
    } else if op == OP_IN_A_N || op == OP_OUT_N_A {
        11
    } else if op == OP_PREFIX_CB {
        8
    } else {
        4
    }
}

/// Well-formed state: the T-state counter lies within the instruction.
pub open spec fn z80_wf(s: Z80State) -> bool {
    s.tcycle <= 3 || (supported(s.reg.ir) && s.tcycle < duration(s.reg.ir))
}

// ----- T-states of the bus cycles -----

/// `WAIT` runs the current T-state again.
pub open spec fn check_wait(s: Z80State, p: Pins) -> Z80State {
    if p.wait {
        Z80State { tcycle: (s.tcycle - 1) as u64, ..s }
    } else {
        s
    }
}

/// Opcode fetch T1: drive PC, assert M1, release RFSH, increment PC.
pub open spec fn fetch_t1(s: Z80State, p: Pins) -> (Z80State, Pins) {
    (
        Z80State { reg: Registers { pc: inc16(s.reg.pc), ..s.reg }, ..s },
        Pins { addr: s.reg.pc, m1: true, rfsh: false, ..p },
    )
}

/// Opcode fetch T2 and memory read T2: assert MREQ and RD.
pub open spec fn read_t2(p: Pins) -> Pins {
    Pins { mreq: true, rd: true, ..p }
}

/// Opcode fetch T3: release MREQ, RD and M1, drive I:R for refresh, assert
/// RFSH, sample the opcode.
pub open spec fn fetch_t3(s: Z80State, p: Pins) -> (Z80State, Pins) {
    let s2 = check_wait(s, p);
    (
        Z80State { reg: Registers { ir: p.data, ..s2.reg }, ..s2 },
        Pins {
            mreq: false,
            rd: false,
            m1: false,
            addr: word(s.reg.i, s.reg.r),
            rfsh: true,
            ..p
        },
    )
}

/// The prefixed-opcode fetch T3, sampling into the prefix instruction
/// register.
pub open spec fn fetch_pre_t3(s: Z80State, p: Pins) -> (Z80State, Pins) {
    let s2 = check_wait(s, p);
    (
        Z80State { reg: Registers { ir_pre: p.data, ..s2.reg }, ..s2 },
        Pins {
            mreq: false,
            rd: false,
            m1: false,
            addr: word(s.reg.i, s.reg.r),
            rfsh: true,
            ..p
        },
    )
}

/// R after a refresh: the low seven bits count up, bit 7 is kept.
pub open spec fn refresh(r: u8) -> u8 {
    ((r / 128) * 128 + (r % 128 + 1) % 128) as u8
}

/// Opcode fetch T4: advance R.
pub open spec fn fetch_t4(s: Z80State) -> Z80State {
    Z80State { reg: Registers { r: refresh(s.reg.r), ..s.reg }, ..s }
}

/// Memory read T3: release MREQ and RD; the byte read is `p.data`.
pub open spec fn read_t3(s: Z80State, p: Pins) -> (Z80State, Pins) {
    (check_wait(s, p), Pins { mreq: false, rd: false, ..p })
}

/// Memory write T2: drive the data and assert MREQ and WR.
pub open spec fn write_t2(p: Pins, data: u8) -> Pins {
    Pins { data, mreq: true, wr: true, ..p }
}

/// Memory write T3: release MREQ and WR.
pub open spec fn write_t3(s: Z80State, p: Pins) -> (Z80State, Pins) {
    (check_wait(s, p), Pins { mreq: false, wr: false, ..p })
}

/// `s` at T-state `t` of the current instruction, with PC advanced when
/// `next` (an operand read from PC).
pub open spec fn with_pc_step(s: Z80State, next: bool) -> Z80State {
    if next {
        Z80State { reg: Registers { pc: inc16(s.reg.pc), ..s.reg }, ..s }
    } else {
        s
    }
}

/// The instruction has ended: back to T-state 0.
pub open spec fn end(s: Z80State) -> Z80State {
    Z80State { tcycle: 0, ..s }
}

pub open spec fn set_tmp(r: Registers, i: int, v: u8) -> Registers {
    if i == 0 {
        Registers { tmp: [v, r.tmp[1]], ..r }
    } else {
        Registers { tmp: [r.tmp[0], v], ..r }
    }
}

/// The address held by the two operand bytes, low byte first.
pub open spec fn tmp_addr(r: Registers) -> u16 {
    word(r.tmp[1], r.tmp[0])
}

/// Reading an operand byte from PC into `tmp[i]` over T-states `t0`, `t0 + 1`
/// and `t0 + 2`. Returns `None` when `t` is not one of them.
pub open spec fn operand_read(s: Z80State, p: Pins, t0: u64, i: int) -> Option<(Z80State, Pins)> {
    let t = s.tcycle;
    if t == t0 {
        Some((with_pc_step(s, true), Pins { addr: s.reg.pc, ..p }))
    } else if t == t0 + 1 {
        Some((s, read_t2(p)))
    } else if t == t0 + 2 {
        let (s2, pins2) = read_t3(s, p);
        Some((Z80State { reg: set_tmp(s2.reg, i, p.data), ..s2 }, pins2))
    } else {
        None
    }
}

/// T-state `s.tcycle >= 4` of a supported opcode `op` other than the `CB`
/// prefix. At T4 the fetch has already advanced R.
pub open spec fn execute_spec(s: Z80State, p: Pins, op: u8) -> (Z80State, Pins) {
    let t = s.tcycle;
    let r = s.reg;
    if is_ld_r_r(op) {
        (end(Z80State { reg: set_spec(r, reg_of_code(op / 8 % 8), get_spec(r, reg_of_code(op % 8))), ..s }), p)
    } else if op == OP_EXX {
        (
            end(
                Z80State {
                    reg: Registers {
                        b: r.b_,
                        c: r.c_,
                        d: r.d_,
                        e: r.e_,
                        h: r.h_,
                        l: r.l_,
                        b_: r.b,
                        c_: r.c,
                        d_: r.d,
                        e_: r.e,
                        h_: r.h,
                        l_: r.l,
                        ..r
                    },
                    ..s
                },
            ),
            p,
        )
    } else if op == OP_EI {
        (end(Z80State { int: Interrupts { ei: true, iff1: true, iff2: true, ..s.int }, ..s }), p)
    } else if op == OP_DI {
        (end(Z80State { int: Interrupts { iff1: false, iff2: false, ..s.int }, ..s }), p)
    } else if op == OP_NOP {
        (end(s), p)
    } else if is_ld_r_n(op) {
        if t == 7 {
            let (s2, pins2) = read_t3(s, p);
            (end(Z80State { reg: set_spec(s2.reg, reg_of_code(op / 8 % 8), p.data), ..s2 }), pins2)
        } else {
            match operand_read(s, p, 5, 0) {
                Some(x) => x,
                None => (s, p),
            }
        }
    } else if is_ld_r_rpi(op) {
        if t == 5 {
            (s, Pins { addr: get_pair_spec(r, pair_of(op)), ..p })
        } else if t == 6 {
            (s, read_t2(p))
        } else if t == 7 {
            let (s2, pins2) = read_t3(s, p);
            let r2 = set_spec(s2.reg, rpi_reg(op), p.data);
            let r3 = if op < 0x20 {
                Registers { wz: inc16(get_pair_spec(r, pair_of(op))), ..r2 }
            } else {
                r2
            };
            (end(Z80State { reg: r3, ..s2 }), pins2)
        } else {
            (s, p)
        }
    } else if is_ld_rpi_r(op) {
        if t == 5 {
            (s, Pins { addr: get_pair_spec(r, pair_of(op)), ..p })
        } else if t == 6 {
            (s, write_t2(p, get_spec(r, rpi_reg(op))))
        } else if t == 7 {
            let (s2, pins2) = write_t3(s, p);
            let r3 = if op < 0x20 {
                Registers {
                    wz: word(r.a, ((get_pair_spec(r, pair_of(op)) + 1) % 256) as u8),
                    ..s2.reg
                }
            } else {
                s2.reg
            };
            (end(Z80State { reg: r3, ..s2 }), pins2)
        } else {
            (s, p)
        }
    } else if op == OP_LD_HLI_N {
        if t == 8 {
            (s, Pins { addr: get_pair_spec(r, RegPair::HL), ..p })
        } else if t == 9 {
            (s, write_t2(p, r.tmp[0]))
        } else if t == 10 {
            let (s2, pins2) = write_t3(s, p);
            (end(s2), pins2)
        } else {
            match operand_read(s, p, 5, 0) {
                Some(x) => x,
                None => (s, p),
            }
        }
    } else if op == OP_LD_A_NNI || op == OP_LD_NNI_A {
        if t == 11 {
            let addr = tmp_addr(r);
            let wz = if op == OP_LD_A_NNI {
                inc16(addr)
            } else {
                word(r.a, ((addr + 1) % 256) as u8)
            };
            (Z80State { reg: Registers { wz, ..r }, ..s }, Pins { addr, ..p })
        } else if t == 12 {
            if op == OP_LD_A_NNI {
                (s, read_t2(p))
            } else {
                (s, write_t2(p, r.a))
            }
        } else if t == 13 {
            if op == OP_LD_A_NNI {
                let (s2, pins2) = read_t3(s, p);
                (end(Z80State { reg: Registers { a: p.data, ..s2.reg }, ..s2 }), pins2)
            } else {
                let (s2, pins2) = write_t3(s, p);
                (end(s2), pins2)
            }
        } else {
            match operand_read(s, p, 5, 0) {
                Some(x) => x,
                None => match operand_read(s, p, 8, 1) {
                    Some(x) => x,
                    None => (s, p),
                },
            }
        }
    } else if op == OP_IN_A_N || op == OP_OUT_N_A {
        let port = r.tmp[0];
        if t == 8 {
            let wz = if op == OP_IN_A_N {
                inc16(word(r.a, port))
            } else {
                word(r.a, ((port + 1) % 256) as u8)
            };
            (Z80State { reg: Registers { wz, ..r }, ..s }, Pins { addr: word(r.a, port), ..p })
        } else if t == 9 {
            (s, p)
        } else if t == 10 {
            if op == OP_IN_A_N {
                (s, Pins { iorq: true, rd: true, ..p })
            } else {
                (s, Pins { iorq: true, wr: true, data: r.a, ..p })
            }
        } else if t == 11 {
            let s2 = check_wait(s, p);
            if op == OP_IN_A_N {
                (
                    end(Z80State { reg: Registers { a: p.data, ..s2.reg }, ..s2 }),
                    Pins { iorq: false, rd: false, ..p },
                )
            } else {
                (end(s2), Pins { iorq: false, wr: false, ..p })
            }
        } else {
            match operand_read(s, p, 5, 0) {
                Some(x) => x,
                None => (s, p),
            }
        }
    } else {
        (s, p)
    }
}

/// T-state `s.tcycle >= 4` of the `CB` prefix: T5 to T8 fetch the second
/// opcode, then it runs. Only `RES 0,B` has a handler.
pub open spec fn prefix_cb_spec(s: Z80State, p: Pins) -> (Z80State, Pins) {
    let t = s.tcycle;
    if t == 4 {
        (s, p)
    } else if t == 5 {
        fetch_t1(s, p)
    } else if t == 6 {
        (s, read_t2(p))
    } else if t == 7 {
        fetch_pre_t3(s, p)
    } else {
        let s2 = if t == 8 {
            fetch_t4(s)
        } else {
            s
        };
        (end(Z80State { reg: Registers { b: s2.reg.b & 0xFE, ..s2.reg }, ..s2 }), p)
    }
}


/// One T-state: the new state and pins, or what stopped the core.
///
/// At T-state 0 a requested NMI is accepted first: IFF1 is copied into IFF2
/// and cleared. Otherwise a maskable request is accepted when IFF1 is set and
/// the last instruction was not `EI`: both flip-flops are cleared. The
/// service itself has no handler, so the core stops there, with the
/// flip-flops set as acceptance leaves them. The core also stops, with
/// nothing changed, before T4 of an opcode without a handler and before T8 of
/// a prefixed one.
pub open spec fn tick_spec(s: Z80State, p: Pins) -> (Z80State, Pins, Result<(), Unsupported>) {
    if s.tcycle == 0 && p.nmi {
        (
            Z80State { int: Interrupts { ei: false, iff2: s.int.iff1, iff1: false, ..s.int }, ..s },
            p,
            Err(Unsupported::Nmi),
        )
    } else if s.tcycle == 0 && !s.int.ei && s.int.iff1 && p.int_req {
        (
            Z80State { int: Interrupts { ei: false, iff1: false, iff2: false, ..s.int }, ..s },
            p,
            Err(Unsupported::Interrupt),
        )
    } else {
        let s0 = if s.tcycle == 0 {
            Z80State { int: Interrupts { ei: false, ..s.int }, ..s }
        } else {
            s
        };
        let s1 = Z80State { tcycle: (s0.tcycle + 1) as u64, ..s0 };
        let t = s1.tcycle;
        let op = s1.reg.ir;
        if t == 1 {
            let (s2, pins2) = fetch_t1(s1, p);
            (s2, pins2, Ok(()))
        } else if t == 2 {
            (s1, read_t2(p), Ok(()))
        } else if t == 3 {
            let (s2, pins2) = fetch_t3(s1, p);
            (s2, pins2, Ok(()))
        } else if t == 4 && !supported(op) {
            (s0, p, Err(Unsupported::Opcode(op)))
        } else if op == OP_PREFIX_CB && t == 8 && s1.reg.ir_pre != OP_CB_RES_0_B {
            (s0, p, Err(Unsupported::PrefixCb(s1.reg.ir_pre)))
        } else {
            let s2 = if t == 4 {
                fetch_t4(s1)
            } else {
                s1
            };
            let (s3, pins3) = if op == OP_PREFIX_CB {
                prefix_cb_spec(s2, p)
            } else {
                execute_spec(s2, p, op)
            };
            (s3, pins3, Ok(()))
        }
    }
}

} // verus!
