//! The public driver of an 8080 / 8085 core: one M-cycle per `tick`, one
//! instruction per `step`.
use vstd::prelude::*;
use std::marker::PhantomData;
use crate::alu;
use crate::alu::flags_byte;
use crate::bus::BusHandler;
use crate::i8080::opcode::{opcode_byte, Opcode};
use crate::i8080::laws::{fetches, jumps, lemma_pc_advance, lemma_pc_m1, lemma_pc_mk};
use crate::i8080::model::{
    cycles_spec, is_ccc, is_jcc, is_rcc, lemma_cycles_flags, len_spec,
    advance_spec, bus_cycle_spec, lemma_advance, core_wf, new_core, stalled, BusCycle, Core, IffState,
    Registers, Variant,
};

verus! {

/// Cycles spent by one instruction.
#[derive(Clone, Copy, Debug, PartialEq, Eq, Structural)]
pub struct Cycles {
    pub mcycles: u64,
    pub tcycles: u64,
}

/// The bus cycle reads a byte that the M-cycle then uses.
pub open spec fn is_read(c: BusCycle) -> bool {
    match c {
        BusCycle::MemRead(_) | BusCycle::PortRead(_) => true,
        _ => false,
    }
}

/// The state after the M-cycles that received the bytes `vs`, in order.
pub open spec fn run_spec(s: Core, vs: Seq<u8>) -> Core
    decreases vs.len(),
{
    if vs.len() == 0 {
        s
    } else {
        advance_spec(run_spec(s, vs.drop_last()), vs.last()).0
    }
}

/// The T-cycles spent by the M-cycles that received the bytes `vs`.
pub open spec fn run_tcycles(s: Core, vs: Seq<u8>) -> int
    decreases vs.len(),
{
    if vs.len() == 0 {
        0
    } else {
        run_tcycles(s, vs.drop_last()) + match advance_spec(
            run_spec(s, vs.drop_last()),
            vs.last(),
        ).1 {
            Some(t) => t as int,
            None => 0,
        }
    }
}

/// An 8080 or 8085 processor, driven over a bus of type `B`.
pub struct Cpu<B: BusHandler> {
    core: Core,
    bus: PhantomData<B>,
}

impl<B: BusHandler> Cpu<B> {
    /// The state of the core.
    pub closed spec fn state(&self) -> Core {
        self.core
    }

    /// The invariant that `tick` keeps.
    pub open spec fn wf(&self) -> bool {
        core_wf(self.state())
    }

    /// An Intel 8080 in its power-on state.
    pub fn new() -> (r: Self)
        ensures
            r.wf(),
            r.state() == new_core(Variant::I8080),
    {
        Self::with_variant(Variant::I8080)
    }

    /// A processor of the given variant in its power-on state: every register
    /// 0, interrupts disabled, not halted, at an instruction boundary.
    pub fn with_variant(variant: Variant) -> (r: Self)
        ensures
            r.wf(),
            r.state() == new_core(variant),
    {
        Cpu { core: Core::new(variant), bus: PhantomData }
    }

    /// Sets PC to `addr`, clears the halt flag and the interrupt enable, drops
    /// any pending interrupt and abandons the instruction in progress.
    pub fn reset(&mut self, addr: u16)
        ensures
            final(self).wf(),
            final(self).state() == (Core {
                reg: Registers { pc: addr, ..old(self).state().reg },
                halt: false,
                iff: IffState::Disabled,
                pending: None,
                mcycle: 0,
                ..old(self).state()
            }),
    {
        self.core.reg.pc = addr;
        self.core.halt = false;
        self.core.iff = IffState::Disabled;
        self.core.pending = None;
        self.core.mcycle = 0;
    }

    /// Presents `opcode` to be run in place of the next fetch once interrupts
    /// are enabled; it replaces any opcode presented before.
    pub fn interrupt(&mut self, opcode: u8)
        ensures
            final(self).wf() == old(self).wf(),
            final(self).state() == (Core { pending: Some(opcode), ..old(self).state() }),
    {
        self.core.pending = Some(opcode);
    }

    /// The programmer-visible registers.
    pub fn registers(&self) -> (r: Registers)
        ensures
            r == self.state().reg,
    {
        self.core.reg
    }

    /// The flag byte `S Z 0 AC 0 P 1 CY`.
    pub fn flag_byte(&self) -> (r: u8)
        ensures
            r == flags_byte(self.state().reg.flags),
    {
        alu::to_byte(self.core.reg.flags)
    }

    /// The program status word: A in the high byte, the flag byte in the low.
    pub fn psw(&self) -> (r: u16)
        ensures
            r == self.state().reg.a as int * 256 + flags_byte(self.state().reg.flags) as int,
    {
        self.core.reg.a as u16 * 256 + alu::to_byte(self.core.reg.flags) as u16
    }

    /// Replaces the programmer-visible registers.
    pub fn set_registers(&mut self, reg: Registers)
        ensures
            old(self).state().mcycle == 0 ==> final(self).wf(),
            final(self).state() == (Core { reg, ..old(self).state() }),
    {
        self.core.reg = reg;
    }

    /// The whole state of the core.
    pub fn snapshot(&self) -> (r: Core)
        ensures
            r == self.state(),
    {
        self.core
    }

    /// The opcode of the instruction in progress (the last one run).
    pub fn opcode(&self) -> (r: Opcode)
        ensures
            opcode_byte(r) == self.state().ir,
    {
        Opcode::from_byte(self.core.ir)
    }

    /// The core is between two instructions.
    pub fn at_boundary(&self) -> (r: bool)
        ensures
            r == (self.state().mcycle == 0),
    {
        self.core.mcycle == 0
    }

    /// Runs one M-cycle: performs its bus transaction, then its state change.
    /// Returns the T-cycles it took, or `None` when the core is halted and no
    /// interrupt can wake it (then nothing changes).
    pub fn tick(&mut self, bus: &mut B) -> (r: Option<u64>)
        requires
            old(self).wf(),
        ensures
            final(self).wf(),
            exists|v: u8|
                (final(self).state(), r) == advance_spec(old(self).state(), v) && (!is_read(
                    bus_cycle_spec(old(self).state()),
                ) ==> v == 0),
    {
        let v = match self.core.bus_cycle() {
            BusCycle::Idle => 0,
            BusCycle::MemRead(addr) => bus.mem_read(addr),
            BusCycle::MemWrite(addr, val) => {
                bus.mem_write(addr, val);
                0
            },
            BusCycle::PortRead(port) => bus.port_read(port),
            BusCycle::PortWrite(port, val) => {
                bus.port_write(port, val);
                0
            },
        };
        proof {
            lemma_advance(self.core, v);
        }
        self.core.advance(v)
    }

    /// Runs one whole instruction. Returns the M-cycles and T-cycles it took,
    /// or `None` when the core is halted and no interrupt can wake it (then
    /// nothing changes).
    pub fn step(&mut self, bus: &mut B) -> (r: Option<Cycles>)
        requires
            old(self).wf(),
            old(self).state().mcycle == 0,
        ensures
            final(self).wf(),
            final(self).state().mcycle == 0,
            r.is_none() <==> stalled(old(self).state()),
            r.is_none() ==> final(self).state() == old(self).state(),
            r.is_some() ==> exists|vs: Seq<u8>|
                vs.len() == r.unwrap().mcycles && 1 <= vs.len() <= 5 && run_spec(
                    old(self).state(),
                    vs,
                ) == final(self).state() && run_tcycles(old(self).state(), vs)
                    == r.unwrap().tcycles,
            fetches(old(self).state()) ==> r.is_some() && r.unwrap().mcycles == cycles_spec(
                final(self).state().ir,
                old(self).state().reg.flags,
                old(self).state().variant,
            ),
            fetches(old(self).state()) && !jumps(
                final(self).state().ir,
                old(self).state().reg.flags,
            ) ==> final(self).state().reg.pc == (old(self).state().reg.pc + len_spec(
                final(self).state().ir,
            )) % 65536,
    {
        let ghost start = self.core;
        let first = self.tick(bus);
        let ghost v0 = choose|v: u8| (self.core, first) == advance_spec(start, v);
        proof {
            lemma_advance(start, v0);
            if fetches(start) {
                lemma_pc_m1(start, v0);
            }
        }
        let t0 = match first {
            None => {
                return None;
            },
            Some(t) => t,
        };
        let ghost mut vs: Seq<u8> = seq![v0];
        proof {
            assert(vs.drop_last() =~= Seq::<u8>::empty());
            assert(run_spec(start, vs.drop_last()) == start);
            assert(run_tcycles(start, vs.drop_last()) == 0);
            assert(vs.last() == v0);
        }
        let mut mcycles: u64 = 1;
        let mut tcycles: u64 = t0;
        while self.core.mcycle != 0
            invariant
                self.wf(),
                1 <= mcycles <= 5,
                self.core.mcycle != 0 ==> self.core.mcycle as u64 == mcycles && mcycles < 5,
                tcycles <= 7 * mcycles,
                vs.len() == mcycles,
                run_spec(start, vs) == self.core,
                run_tcycles(start, vs) == tcycles,
                fetches(start) ==> {
                    let op = vs[0];
                    &&& self.core.ir == op
                    &&& self.core.variant == start.variant
                    &&& (is_rcc(op) || is_jcc(op) || is_ccc(op)) ==> self.core.reg.flags
                        == start.reg.flags
                    &&& self.core.mcycle == 0 ==> mcycles == cycles_spec(
                        op,
                        start.reg.flags,
                        start.variant,
                    )
                    &&& self.core.mcycle != 0 ==> mcycles < cycles_spec(
                        op,
                        start.reg.flags,
                        start.variant,
                    )
                },
            decreases 5 - mcycles,
        {
            let ghost before = self.core;
            let t = self.tick(bus);
            let ghost v = choose|v: u8| (self.core, t) == advance_spec(before, v);
            proof {
                lemma_advance(before, v);
                if fetches(start) {
                    let op = vs[0];
                    if !(is_rcc(op) || is_jcc(op) || is_ccc(op)) {
                        lemma_cycles_flags(op, start.reg.flags, before.reg.flags, start.variant);
                    }
                    lemma_pc_mk(before, v);
                }
                assert(vs.push(v).drop_last() =~= vs);
                vs = vs.push(v);
            }
            let t = match t {
                Some(t) => t,
                None => 0,
            };
            mcycles = mcycles + 1;
            tcycles = tcycles + t;
        }
        proof {
            if fetches(start) && !jumps(vs[0], start.reg.flags) {
                lemma_pc_advance(start, vs);
            }
        }
        Some(Cycles { mcycles, tcycles })
    }
}

} // verus!
