use grok80::bus::{BusHandlerZ80, BusZ80};
use grok80::z80::cpu::Cpu;
use grok80::z80::model::{IdxReg, Interrupts, Reg, RegPair, Registers, Unsupported};
use grok80::z80::opcode::{Opcode, OpcodeCB};

struct Ram {
    data: Vec<u8>,
}

impl Ram {
    fn new() -> Self {
        Self {
            data: vec![0x00; 0x10000],
        }
    }

    fn tick(&mut self, bus: &mut BusZ80) {
        let addr = bus.addr() as usize;

        if bus.mreq() && bus.rd() {
            bus.set_data(self.data[addr]);
        } else if bus.mreq() && bus.wr() {
            self.data[addr] = bus.data();
        }
    }
}

struct Ports {
    data: Vec<u8>,
}

impl Ports {
    fn new() -> Self {
        Self {
            data: vec![0x00; 0x100],
        }
    }

    fn tick(&mut self, bus: &mut BusZ80) {
        let addr = (bus.addr() as u8) as usize;

        if bus.iorq() && bus.rd() {
            bus.set_data(self.data[addr]);
        } else if bus.iorq() && bus.wr() {
            self.data[addr] = bus.data();
        }
    }
}

fn bus_to_str(bus: &BusZ80) -> String {
    let r = if bus.rd() { 'r' } else { '-' };
    let w = if bus.wr() { 'w' } else { '-' };
    let m = if bus.mreq() { 'm' } else { '-' };
    let i = if bus.iorq() { 'i' } else { '-' };
    [r, w, m, i].iter().collect()
}

/// One expected T-state: the pins, and the address and data lines when given.
struct Cycle {
    pins: &'static str,
    addr: Option<u16>,
    data: Option<u8>,
}

fn c(pins: &'static str, addr: Option<u16>, data: Option<u8>) -> Cycle {
    Cycle { pins, addr, data }
}

struct Machine {
    cpu: Cpu<BusZ80>,
    bus: BusZ80,
    ram: Ram,
    ports: Ports,
}

impl Machine {
    fn new(reg: Registers, program: &[(u16, u8)]) -> Self {
        let mut cpu: Cpu<BusZ80> = Cpu::new();
        cpu.set_reg(reg);
        let mut ram = Ram::new();
        for (addr, val) in program {
            ram.data[*addr as usize] = *val;
        }
        Self {
            cpu,
            bus: BusZ80::new(),
            ram,
            ports: Ports::new(),
        }
    }

    fn tick(&mut self) -> Result<(), Unsupported> {
        let r = self.cpu.tick(&mut self.bus);
        self.ram.tick(&mut self.bus);
        self.ports.tick(&mut self.bus);
        r
    }

    /// Runs one instruction, checking every T-state against `cycles`.
    fn run(&mut self, name: &str, cycles: &[Cycle]) {
        for (i, b) in cycles.iter().enumerate() {
            self.tick().unwrap();
            let actual = bus_to_str(&self.bus);
            assert_eq!(actual, b.pins, "{name}, pins, cycle {}/{}", i + 1, cycles.len());
            if let Some(expected) = b.addr {
                assert_eq!(self.bus.addr(), expected, "{name}, addr, cycle {}", i + 1);
            }
            if let Some(expected) = b.data {
                assert_eq!(self.bus.data(), expected, "{name}, data, cycle {}", i + 1);
            }
        }
        assert_eq!(self.cpu.tcycle(), 0, "{name}: instruction did not end");
    }
}

fn regs() -> Registers {
    let mut r = Registers::zeroed();
    r.pc = 0x1234;
    r.i = 0x12;
    r.r = 0x7F;
    r
}

/// The four T-states of an opcode fetch from `pc` with refresh address `ir`.
fn fetch(pc: u16, op: u8, refresh: u16) -> Vec<Cycle> {
    vec![
        c("----", Some(pc), None),
        c("r-m-", Some(pc), Some(op)),
        c("----", Some(refresh), Some(op)),
        c("----", Some(refresh), Some(op)),
    ]
}

// The per-opcode JSON corpus is not available here. The cases of the
// `cpu_test_*` tests below are written by hand for the same opcodes, with
// traces derived from the bus cycles the core is specified to run.

#[test]
fn cpu_test_41() {
    // LD B,C, once with R wrapping in its low seven bits and once with bit 7 set.
    for (r, r_after) in [(0x7Fu8, 0x00u8), (0xFF, 0x80), (0x05, 0x06)] {
        let mut reg = regs();
        reg.c = 0x5A;
        reg.b = 0x01;
        reg.r = r;
        let mut m = Machine::new(reg, &[(0x1234, 0x41)]);
        let refresh = 0x1200 | r as u16;
        m.run("41", &fetch(0x1234, 0x41, refresh));
        let out = m.cpu.reg();
        assert_eq!(out.b, 0x5A);
        assert_eq!(out.c, 0x5A);
        assert_eq!(out.pc, 0x1235);
        assert_eq!(out.r, r_after);
    }
}

#[test]
fn cpu_test_46() {
    // LD B,(HL)
    let mut reg = regs();
    reg.h = 0x40;
    reg.l = 0x00;
    let mut m = Machine::new(reg, &[(0x1234, 0x46), (0x4000, 0xAB)]);
    let mut cycles = fetch(0x1234, 0x46, 0x127F);
    cycles.push(c("----", Some(0x4000), None));
    cycles.push(c("r-m-", Some(0x4000), Some(0xAB)));
    cycles.push(c("----", Some(0x4000), Some(0xAB)));
    m.run("46", &cycles);
    let out = m.cpu.reg();
    assert_eq!(out.b, 0xAB);
    assert_eq!(out.pc, 0x1235);
    assert_eq!(out.wz, 0);
}

#[test]
fn cpu_test_70() {
    // LD (HL),B
    let mut reg = regs();
    reg.h = 0x80;
    reg.l = 0x01;
    reg.b = 0xC3;
    let mut m = Machine::new(reg, &[(0x1234, 0x70)]);
    let mut cycles = fetch(0x1234, 0x70, 0x127F);
    cycles.push(c("----", Some(0x8001), None));
    cycles.push(c("-wm-", Some(0x8001), Some(0xC3)));
    cycles.push(c("----", Some(0x8001), Some(0xC3)));
    m.run("70", &cycles);
    assert_eq!(m.ram.data[0x8001], 0xC3);
    assert_eq!(m.cpu.reg().pc, 0x1235);
}

#[test]
fn cpu_test_db() {
    // IN A,(n): the port address carries A in its high byte; WZ becomes A:n + 1.
    for (a, n, wz) in [(0x7Eu8, 0x42u8, 0x7E43u16), (0x00, 0xFE, 0x00FF), (0x12, 0xFF, 0x1300)] {
        let mut reg = regs();
        reg.a = a;
        let mut m = Machine::new(reg, &[(0x1234, 0xDB), (0x1235, n)]);
        m.ports.data[n as usize] = 0x99;
        let mut cycles = fetch(0x1234, 0xDB, 0x127F);
        cycles.push(c("----", Some(0x1235), None));
        cycles.push(c("r-m-", Some(0x1235), Some(n)));
        cycles.push(c("----", Some(0x1235), Some(n)));
        let port = (a as u16) << 8 | n as u16;
        cycles.push(c("----", Some(port), None));
        cycles.push(c("----", Some(port), None));
        cycles.push(c("r--i", Some(port), Some(0x99)));
        cycles.push(c("----", Some(port), Some(0x99)));
        m.run("db", &cycles);
        let out = m.cpu.reg();
        assert_eq!(out.a, 0x99);
        assert_eq!(out.wz, wz);
        assert_eq!(out.pc, 0x1236);
    }
}

#[test]
fn cpu_test_d3() {
    // OUT (n),A: WZ becomes A:(n + 1), the low byte wrapping on its own.
    for (a, n, wz) in [(0x55u8, 0x10u8, 0x5511u16), (0xA0, 0xFF, 0xA000)] {
        let mut reg = regs();
        reg.a = a;
        let mut m = Machine::new(reg, &[(0x1234, 0xD3), (0x1235, n)]);
        let mut cycles = fetch(0x1234, 0xD3, 0x127F);
        cycles.push(c("----", Some(0x1235), None));
        cycles.push(c("r-m-", Some(0x1235), Some(n)));
        cycles.push(c("----", Some(0x1235), Some(n)));
        let port = (a as u16) << 8 | n as u16;
        cycles.push(c("----", Some(port), None));
        cycles.push(c("----", Some(port), None));
        cycles.push(c("-w-i", Some(port), Some(a)));
        cycles.push(c("----", Some(port), Some(a)));
        m.run("d3", &cycles);
        assert_eq!(m.ports.data[n as usize], a);
        assert_eq!(m.cpu.reg().wz, wz);
    }
}

#[test]
fn io_wz_is_a_high_and_port_plus_one_low() {
    for op in [0xDBu8, 0xD3] {
        for n in [0x00u8, 0x01, 0x7F, 0xFE] {
            let mut reg = regs();
            reg.a = 0x3C;
            let mut m = Machine::new(reg, &[(0x1234, op), (0x1235, n)]);
            for _ in 0..11 {
                m.tick().unwrap();
            }
            assert_eq!(m.cpu.tcycle(), 0);
            assert_eq!(m.cpu.reg().wz, (0x3Cu16 << 8) | (n as u16 + 1));
        }
    }
}

#[test]
fn ld_r_n_and_ld_a_nni() {
    // LD D,0x77; LD A,(0x2345); LD (0x3456),A
    let program = [
        (0x1234, 0x16),
        (0x1235, 0x77),
        (0x1236, 0x3A),
        (0x1237, 0x45),
        (0x1238, 0x23),
        (0x2345, 0x5C),
        (0x1239, 0x32),
        (0x123A, 0x56),
        (0x123B, 0x34),
    ];
    let mut m = Machine::new(regs(), &program);
    for _ in 0..7 {
        m.tick().unwrap();
    }
    assert_eq!(m.cpu.reg().d, 0x77);
    for _ in 0..13 {
        m.tick().unwrap();
    }
    assert_eq!(m.cpu.reg().a, 0x5C);
    assert_eq!(m.cpu.reg().wz, 0x2346);
    for _ in 0..13 {
        m.tick().unwrap();
    }
    assert_eq!(m.ram.data[0x3456], 0x5C);
    assert_eq!(m.cpu.reg().wz, 0x5C57);
    assert_eq!(m.cpu.reg().pc, 0x123C);
    assert_eq!(m.cpu.tcycle(), 0);
}

#[test]
fn ld_hli_n_and_indirect_pairs() {
    // LD (HL),0x66; LD A,(BC); LD (DE),A
    let mut reg = regs();
    reg.h = 0x50;
    reg.b = 0x60;
    reg.c = 0xFF;
    reg.d = 0x70;
    reg.e = 0xFF;
    let program = [(0x1234, 0x36), (0x1235, 0x66), (0x1236, 0x0A), (0x1237, 0x12), (0x60FF, 0x21)];
    let mut m = Machine::new(reg, &program);
    for _ in 0..10 {
        m.tick().unwrap();
    }
    assert_eq!(m.ram.data[0x5000], 0x66);
    for _ in 0..7 {
        m.tick().unwrap();
    }
    assert_eq!(m.cpu.reg().a, 0x21);
    assert_eq!(m.cpu.reg().wz, 0x6100);
    for _ in 0..7 {
        m.tick().unwrap();
    }
    assert_eq!(m.ram.data[0x70FF], 0x21);
    assert_eq!(m.cpu.reg().wz, 0x2100);
}

#[test]
fn exx_ei_di_nop_and_res_0_b() {
    let mut reg = regs();
    reg.b = 0x11;
    reg.b_ = 0x23;
    reg.h_ = 0x99;
    let program = [(0x1234, 0xD9), (0x1235, 0xFB), (0x1236, 0x00), (0x1237, 0xF3), (0x1238, 0xCB), (0x1239, 0x80)];
    let mut m = Machine::new(reg, &program);
    for _ in 0..4 {
        m.tick().unwrap();
    }
    assert_eq!((m.cpu.reg().b, m.cpu.reg().b_, m.cpu.reg().h), (0x23, 0x11, 0x99));
    for _ in 0..4 {
        m.tick().unwrap();
    }
    let int = m.cpu.interrupts();
    assert!(int.ei && int.iff1 && int.iff2);
    for _ in 0..4 {
        m.tick().unwrap();
    }
    assert!(!m.cpu.interrupts().ei);
    for _ in 0..4 {
        m.tick().unwrap();
    }
    assert!(!m.cpu.interrupts().iff1 && !m.cpu.interrupts().iff2);
    for _ in 0..8 {
        m.tick().unwrap();
    }
    assert_eq!(m.cpu.reg().b, 0x22);
    assert_eq!(m.cpu.reg().ir_pre, OpcodeCB::RES_0_B.byte());
    assert_eq!(m.cpu.reg().r, 0x7F & 0x80 | 0x05);
    assert_eq!(m.cpu.tcycle(), 0);
}

#[test]
fn wait_extends_the_current_t_state() {
    let mut reg = regs();
    reg.c = 0x42;
    let mut m = Machine::new(reg, &[(0x1234, 0x41)]);
    m.tick().unwrap();
    m.tick().unwrap();
    m.bus.set_wait(true);
    m.tick().unwrap();
    assert_eq!(m.cpu.tcycle(), 2);
    m.tick().unwrap();
    assert_eq!(m.cpu.tcycle(), 2);
    m.bus.set_wait(false);
    m.tick().unwrap();
    assert_eq!(m.cpu.tcycle(), 3);
    m.tick().unwrap();
    assert_eq!(m.cpu.tcycle(), 0);
    assert_eq!(m.cpu.reg().b, 0x42);
}

#[test]
fn unsupported_opcode_stops_before_t4() {
    // INC B has no handler.
    let mut m = Machine::new(regs(), &[(0x1234, 0x04)]);
    for _ in 0..3 {
        m.tick().unwrap();
    }
    assert_eq!(m.tick(), Err(Unsupported::Opcode(0x04)));
    assert_eq!(m.tick(), Err(Unsupported::Opcode(0x04)));
    assert_eq!(m.cpu.tcycle(), 3);
    assert_eq!(m.cpu.reg().r, 0x7F);
    assert_eq!(Opcode::from_byte(0x04), Opcode::INC_B);
}

#[test]
fn interrupts_are_reported() {
    let mut m = Machine::new(regs(), &[(0x1234, 0x00)]);
    m.bus.set_nmi(true);
    assert_eq!(m.tick(), Err(Unsupported::Nmi));
    m.bus.set_nmi(false);
    m.bus.set_int_req(true);
    // Interrupts disabled: the request is ignored.
    m.tick().unwrap();
    let mut m = Machine::new(regs(), &[(0x1234, 0x00)]);
    m.cpu.set_int(Interrupts { ei: false, iff1: true, iff2: true, im: 1 });
    m.bus.set_int_req(true);
    assert_eq!(m.tick(), Err(Unsupported::Interrupt));
    assert!(!m.cpu.interrupts().iff1 && !m.cpu.interrupts().iff2);
    // Right after EI the request waits one instruction.
    m.cpu.set_int(Interrupts { ei: true, iff1: true, iff2: true, im: 1 });
    m.tick().unwrap();
    assert!(!m.cpu.interrupts().ei);
}

#[test]
fn nmi_saves_iff1_in_iff2() {
    let mut m = Machine::new(regs(), &[(0x1234, 0x00)]);
    m.cpu.set_int(Interrupts { ei: true, iff1: true, iff2: false, im: 1 });
    m.bus.set_nmi(true);
    assert_eq!(m.tick(), Err(Unsupported::Nmi));
    let int = m.cpu.interrupts();
    assert!(!int.iff1 && int.iff2 && !int.ei);
    assert_eq!(m.cpu.tcycle(), 0);
}

#[test]
fn register_helpers() {
    let mut r = Registers::zeroed();
    r.set(Reg::H, 0x12);
    r.set(Reg::L, 0x34);
    assert_eq!(r.get_pair(RegPair::HL), 0x1234);
    r.set_pair(RegPair::DE, 0xBEEF);
    assert_eq!((r.get(Reg::D), r.get(Reg::E)), (0xBE, 0xEF));
    r.a_ = 0x77;
    r.exchange(Reg::A);
    assert_eq!((r.a, r.a_), (0x77, 0x00));
    r.set_idx(IdxReg::IY, 0x4321);
    assert_eq!(r.get_idx(IdxReg::IY), 0x4321);
    assert_eq!(r.get_idx(IdxReg::IX), 0);
    for b in 0..=255u8 {
        assert_eq!(Opcode::from_byte(b).byte(), b);
    }
    assert_eq!(OpcodeCB::from_byte(0x80), Some(OpcodeCB::RES_0_B));
    assert_eq!(OpcodeCB::from_byte(0x81), None);
}
