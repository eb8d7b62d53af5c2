//! The bus through which a core reaches memory and I/O.
//!
//! The 8080 / 8085 cores see a transaction-level bus: whole reads and writes of
//! memory and ports. The Z80 core drives individual pins, one T-state at a
//! time.
use vstd::prelude::*;

verus! {

/// A host's memory and I/O ports, as the 8080 / 8085 cores reach them.
pub trait BusHandler {
    /// Reads the byte at `addr`.
    fn mem_read(&mut self, addr: u16) -> u8;

    /// Writes `val` at `addr`.
    fn mem_write(&mut self, addr: u16, val: u8);

    /// Reads a byte from I/O port `port`.
    fn port_read(&mut self, port: u8) -> u8;

    /// Writes `val` to I/O port `port`.
    fn port_write(&mut self, port: u8, val: u8);

    /// Reads the byte at `addr` without side effects, for inspection.
    fn mem_peek(&mut self, addr: u16) -> u8 {
        self.mem_read(addr)
    }
}

/// The state of every pin of a Z80 bus.
#[derive(Clone, Copy, Debug, PartialEq, Eq, Structural)]
pub struct Pins {
    /// Address lines.
    pub addr: u16,
    /// Data lines.
    pub data: u8,
    /// Bus acknowledge (output).
    pub busack: bool,
    /// Bus request (input).
    pub busreq: bool,
    /// I/O request (output).
    pub iorq: bool,
    /// Opcode fetch cycle (output).
    pub m1: bool,
    /// Memory request (output).
    pub mreq: bool,
    /// Read (output).
    pub rd: bool,
    /// Write (output).
    pub wr: bool,
    /// Maskable interrupt request (input).
    pub int_req: bool,
    /// Non-maskable interrupt request (input).
    pub nmi: bool,
    /// Memory refresh (output).
    pub rfsh: bool,
    /// Wait: the current T-state is run again (input).
    pub wait: bool,
    /// Reset (input).
    pub reset: bool,
    /// Halted (output).
    pub halt: bool,
}

/// All address and data lines at 0 and every control pin deasserted.
pub open spec fn pins_idle() -> Pins {
    Pins {
        addr: 0,
        data: 0,
        busack: false,
        busreq: false,
        iorq: false,
        m1: false,
        mreq: false,
        rd: false,
        wr: false,
        int_req: false,
        nmi: false,
        rfsh: false,
        wait: false,
        reset: false,
        halt: false,
    }
}

/// A Z80 bus: a pin-level surface with a getter and a setter for each pin.
pub trait BusHandlerZ80 {
    /// The state of all pins.
    spec fn pins(&self) -> Pins;

    fn addr(&self) -> (r: u16)
        ensures
            r == self.pins().addr,
    ;

    fn set_addr(&mut self, val: u16)
        ensures
            final(self).pins() == (Pins { addr: val, ..old(self).pins() }),
    ;

    fn data(&self) -> (r: u8)
        ensures
            r == self.pins().data,
    ;

    fn set_data(&mut self, val: u8)
        ensures
            final(self).pins() == (Pins { data: val, ..old(self).pins() }),
    ;

    fn busack(&self) -> (r: bool)
        ensures
            r == self.pins().busack,
    ;

    fn set_busack(&mut self, val: bool)
        ensures
            final(self).pins() == (Pins { busack: val, ..old(self).pins() }),
    ;

    fn busreq(&self) -> (r: bool)
        ensures
            r == self.pins().busreq,
    ;

    fn set_busreq(&mut self, val: bool)
        ensures
            final(self).pins() == (Pins { busreq: val, ..old(self).pins() }),
    ;

    fn iorq(&self) -> (r: bool)
        ensures
            r == self.pins().iorq,
    ;

    fn set_iorq(&mut self, val: bool)
        ensures
            final(self).pins() == (Pins { iorq: val, ..old(self).pins() }),
    ;

    fn m1(&self) -> (r: bool)
        ensures
            r == self.pins().m1,
    ;

    fn set_m1(&mut self, val: bool)
        ensures
            final(self).pins() == (Pins { m1: val, ..old(self).pins() }),
    ;

    fn mreq(&self) -> (r: bool)
        ensures
            r == self.pins().mreq,
    ;

    fn set_mreq(&mut self, val: bool)
        ensures
            final(self).pins() == (Pins { mreq: val, ..old(self).pins() }),
    ;

    fn rd(&self) -> (r: bool)
        ensures
            r == self.pins().rd,
    ;

    fn set_rd(&mut self, val: bool)
        ensures
            final(self).pins() == (Pins { rd: val, ..old(self).pins() }),
    ;

    fn wr(&self) -> (r: bool)
        ensures
            r == self.pins().wr,
    ;

    fn set_wr(&mut self, val: bool)
        ensures
            final(self).pins() == (Pins { wr: val, ..old(self).pins() }),
    ;

    fn int_req(&self) -> (r: bool)
        ensures
            r == self.pins().int_req,
    ;

    fn set_int_req(&mut self, val: bool)
        ensures
            final(self).pins() == (Pins { int_req: val, ..old(self).pins() }),
    ;

    fn nmi(&self) -> (r: bool)
        ensures
            r == self.pins().nmi,
    ;

    fn set_nmi(&mut self, val: bool)
        ensures
            final(self).pins() == (Pins { nmi: val, ..old(self).pins() }),
    ;

    fn rfsh(&self) -> (r: bool)
        ensures
            r == self.pins().rfsh,
    ;

    fn set_rfsh(&mut self, val: bool)
        ensures
            final(self).pins() == (Pins { rfsh: val, ..old(self).pins() }),
    ;

    fn wait(&self) -> (r: bool)
        ensures
            r == self.pins().wait,
    ;

    fn set_wait(&mut self, val: bool)
        ensures
            final(self).pins() == (Pins { wait: val, ..old(self).pins() }),
    ;

    fn reset(&self) -> (r: bool)
        ensures
            r == self.pins().reset,
    ;

    fn set_reset(&mut self, val: bool)
        ensures
            final(self).pins() == (Pins { reset: val, ..old(self).pins() }),
    ;

    fn halt(&self) -> (r: bool)
        ensures
            r == self.pins().halt,
    ;

    fn set_halt(&mut self, val: bool)
        ensures
            final(self).pins() == (Pins { halt: val, ..old(self).pins() }),
    ;
}

/// A bus that only holds the state of its pins.
pub struct BusZ80 {
    pins: Pins,
}

impl BusZ80 {
    /// A bus with every pin low.
    pub fn new() -> (r: Self)
        ensures
            r.pins() == pins_idle(),
    {
        BusZ80 {
            pins: Pins {
                addr: 0,
                data: 0,
                busack: false,
                busreq: false,
                iorq: false,
                m1: false,
                mreq: false,
                rd: false,
                wr: false,
                int_req: false,
                nmi: false,
                rfsh: false,
                wait: false,
                reset: false,
                halt: false,
            },
        }
    }
}

impl BusHandlerZ80 for BusZ80 {
    closed spec fn pins(&self) -> Pins {
        self.pins
    }

    fn addr(&self) -> (r: u16) {
        self.pins.addr
    }

    fn set_addr(&mut self, val: u16) {
        self.pins.addr = val;
    }

    fn data(&self) -> (r: u8) {
        self.pins.data
    }

    fn set_data(&mut self, val: u8) {
        self.pins.data = val;
    }

    fn busack(&self) -> (r: bool) {
        self.pins.busack
    }

    fn set_busack(&mut self, val: bool) {
        self.pins.busack = val;
    }

    fn busreq(&self) -> (r: bool) {
        self.pins.busreq
    }

    fn set_busreq(&mut self, val: bool) {
        self.pins.busreq = val;
    }

    fn iorq(&self) -> (r: bool) {
        self.pins.iorq
    }

    fn set_iorq(&mut self, val: bool) {
        self.pins.iorq = val;
    }

    fn m1(&self) -> (r: bool) {
        self.pins.m1
    }

    fn set_m1(&mut self, val: bool) {
        self.pins.m1 = val;
    }

    fn mreq(&self) -> (r: bool) {
        self.pins.mreq
    }

    fn set_mreq(&mut self, val: bool) {
        self.pins.mreq = val;
    }

    fn rd(&self) -> (r: bool) {
        self.pins.rd
    }

    fn set_rd(&mut self, val: bool) {
        self.pins.rd = val;
    }

    fn wr(&self) -> (r: bool) {
        self.pins.wr
    }

    fn set_wr(&mut self, val: bool) {
        self.pins.wr = val;
    }

    fn int_req(&self) -> (r: bool) {
        self.pins.int_req
    }

    fn set_int_req(&mut self, val: bool) {
        self.pins.int_req = val;
    }

    fn nmi(&self) -> (r: bool) {
        self.pins.nmi
    }

    fn set_nmi(&mut self, val: bool) {
        self.pins.nmi = val;
    }

    fn rfsh(&self) -> (r: bool) {
        self.pins.rfsh
    }

    fn set_rfsh(&mut self, val: bool) {
        self.pins.rfsh = val;
    }

    fn wait(&self) -> (r: bool) {
        self.pins.wait
    }

    fn set_wait(&mut self, val: bool) {
        self.pins.wait = val;
    }

    fn reset(&self) -> (r: bool) {
        self.pins.reset
    }

    fn set_reset(&mut self, val: bool) {
        self.pins.reset = val;
    }

    fn halt(&self) -> (r: bool) {
        self.pins.halt
    }

    fn set_halt(&mut self, val: bool) {
        self.pins.halt = val;
    }
}

} // verus!
