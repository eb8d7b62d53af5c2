use grok80::alu::Flags;
use grok80::bus::BusHandler;
use grok80::i8080::cpu::{Cpu, Cycles};
use grok80::i8080::model::{IffState, Variant};
use grok80::i8080::opcode::Opcode;

struct Bus {
    ram: Vec<u8>,
    output: String,
    exit: bool,
}

impl Bus {
    fn new() -> Self {
        Self {
            ram: vec![0; 0x10000],
            output: String::new(),
            exit: false,
        }
    }

    fn mem_load(&mut self, addr: u16, bytes: &[u8]) {
        for (i, val) in bytes.iter().enumerate() {
            self.ram[addr as usize + i] = *val;
        }
    }
}

impl BusHandler for Bus {
    fn mem_read(&mut self, addr: u16) -> u8 {
        self.ram[addr as usize]
    }

    fn mem_write(&mut self, addr: u16, val: u8) {
        self.ram[addr as usize] = val;
    }

    fn port_read(&mut self, port: u8) -> u8 {
        port.wrapping_mul(3)
    }

    fn port_write(&mut self, port: u8, val: u8) {
        // Port 0 is character output, port 1 ends the run.
        if port == 0 {
            self.output.push(val as char);
        } else if port == 1 {
            self.exit = true;
        } else {
            panic!("Unsupported OUT port");
        }
    }
}

/// A small two-pass assembler: raw bytes, labels, and 16-bit label operands.
struct Asm {
    base: u16,
    code: Vec<u8>,
    labels: Vec<(String, u16)>,
    fixups: Vec<(usize, String)>,
}

impl Asm {
    fn new(base: u16) -> Self {
        Self {
            base,
            code: Vec::new(),
            labels: Vec::new(),
            fixups: Vec::new(),
        }
    }

    fn b(&mut self, bytes: &[u8]) {
        self.code.extend_from_slice(bytes);
    }

    fn label(&mut self, name: &str) {
        let addr = self.base + self.code.len() as u16;
        self.labels.push((name.to_string(), addr));
    }

    /// An opcode followed by the address of `target`.
    fn to(&mut self, op: u8, target: &str) {
        self.code.push(op);
        self.fixups.push((self.code.len(), target.to_string()));
        self.code.extend_from_slice(&[0, 0]);
    }

    fn text(&mut self, s: &str) {
        self.code.extend_from_slice(s.as_bytes());
        self.code.push(b'$');
    }

    /// `print`: writes the `$`-terminated string at HL to port 0.
    fn print_routine(&mut self) {
        self.label("print");
        self.b(&[0x7E, 0xFE, b'$', 0xC8, 0xD3, 0x00, 0x23]); // MOV A,M; CPI '$'; RZ; OUT 0; INX H
        self.to(0xC3, "print");
    }

    /// `ok` prints `banner`, `err` prints an error; both then exit.
    fn epilogue(&mut self, banner: &str) {
        self.label("ok");
        self.to(0x21, "okmsg"); // LXI H,okmsg
        self.to(0xCD, "print");
        self.b(&[0xC3, 0x00, 0x00]);
        self.label("err");
        self.to(0x21, "errmsg");
        self.to(0xCD, "print");
        self.b(&[0xC3, 0x00, 0x00]);
        self.print_routine();
        self.label("okmsg");
        self.text(banner);
        self.label("errmsg");
        self.text(" ERROR");
    }

    fn finish(mut self) -> Vec<u8> {
        for (at, name) in self.fixups.clone() {
            let addr = self
                .labels
                .iter()
                .find(|(n, _)| *n == name)
                .map(|(_, a)| *a)
                .expect("unknown label");
            self.code[at] = addr as u8;
            self.code[at + 1] = (addr >> 8) as u8;
        }
        self.code
    }
}

fn run_test(rom: &[u8]) -> (bool, String) {
    let mut bus = Bus::new();

    // Programs jump to 0x00 when complete, so an OUT to port 1 stands there.
    bus.mem_load(0x00, &[Opcode::OUT.byte(), 0x01]);

    // Programs are loaded at 0x100.
    bus.mem_load(0x100, rom);

    let mut cpu: Cpu<Bus> = Cpu::new();
    cpu.reset(0x100);

    let mut steps: u64 = 0;
    while !bus.exit {
        assert!(cpu.step(&mut bus).is_some(), "halted");
        steps += 1;
        assert!(steps < 50_000_000, "runaway program");
    }

    let passed = !bus.output.contains("FAILED") && !bus.output.contains("ERROR");
    (passed, bus.output)
}

/// Flag edge cases: ADI, SUI and DAA, checked through the flag byte.
fn flags_program() -> Vec<u8> {
    let mut a = Asm::new(0x100);
    a.b(&[0x31, 0x00, 0xF0]); // LXI SP,0xF000
    a.b(&[0x3E, 0xFF, 0xC6, 0x01]); // MVI A,0xFF; ADI 1
    a.to(0xC2, "err"); // JNZ
    a.to(0xD2, "err"); // JNC
    a.to(0xE2, "err"); // JPO
    a.to(0xFA, "err"); // JM
    a.b(&[0xF5, 0xC1, 0x79, 0xFE, 0x57]); // PUSH PSW; POP B; MOV A,C; CPI 0x57
    a.to(0xC2, "err");
    a.b(&[0xAF, 0xD6, 0x01]); // XRA A; SUI 1
    a.b(&[0xF5, 0xC1, 0x79, 0xFE, 0x87]); // PUSH PSW; POP B; MOV A,C; CPI 0x87
    a.to(0xC2, "err");
    a.b(&[0x78, 0xFE, 0xFF]); // MOV A,B; CPI 0xFF
    a.to(0xC2, "err");
    a.b(&[0x3E, 0x9A, 0xB7, 0x27]); // MVI A,0x9A; ORA A; DAA
    a.to(0xC2, "err");
    a.to(0xD2, "err");
    a.b(&[0x3E, 0x15, 0xC6, 0x27, 0x27, 0xFE, 0x42]); // 15 + 27 = 42 in BCD
    a.to(0xC2, "err");
    a.b(&[0x3E, 0x0F, 0xE6, 0xF0]); // MVI A,0x0F; ANI 0xF0: zero, AC from bit 3
    a.to(0xC2, "err");
    a.b(&[0xF5, 0xC1, 0x79, 0xFE, 0x56]); // flags: zero, auxiliary carry and parity set
    a.to(0xC2, "err");
    a.to(0xC3, "ok");
    a.epilogue("flag checks passed");
    a.finish()
}

/// Calls, returns, RST, the stack, XTHL, PCHL, SPHL and memory operands.
fn stack_program() -> Vec<u8> {
    let mut a = Asm::new(0x100);
    a.b(&[0x31, 0x00, 0xF0]); // LXI SP,0xF000
    a.b(&[0x21, 0x34, 0x12, 0xE5]); // LXI H,0x1234; PUSH H
    a.b(&[0x21, 0x78, 0x56, 0xE3]); // LXI H,0x5678; XTHL
    a.b(&[0x7C, 0xFE, 0x12]); // MOV A,H; CPI 0x12
    a.to(0xC2, "err");
    a.b(&[0x7D, 0xFE, 0x34]); // MOV A,L; CPI 0x34
    a.to(0xC2, "err");
    a.b(&[0xD1, 0x7A, 0xFE, 0x56]); // POP D; MOV A,D; CPI 0x56
    a.to(0xC2, "err");
    a.to(0xCD, "sub"); // CALL sub (sets B = 0x42)
    a.b(&[0x78, 0xFE, 0x42]);
    a.to(0xC2, "err");
    a.b(&[0xAF]); // XRA A: Z set
    a.to(0xC4, "err"); // CNZ err: not taken
    a.to(0xCC, "sub2"); // CZ sub2: taken, sets C = 0x99
    a.b(&[0x79, 0xFE, 0x99]);
    a.to(0xC2, "err");
    a.b(&[0x21, 0x00, 0x80, 0x36, 0x7F, 0x34]); // LXI H,0x8000; MVI M,0x7F; INR M
    a.to(0xF2, "err"); // JP err: 0x80 is negative
    a.b(&[0x35, 0x35, 0x7E, 0xFE, 0x7E]); // DCR M; DCR M; MOV A,M; CPI 0x7E
    a.to(0xC2, "err");
    a.b(&[0x21, 0xCD, 0xAB, 0x22, 0x10, 0x80]); // LXI H,0xABCD; SHLD 0x8010
    a.b(&[0x21, 0x00, 0x00, 0x2A, 0x10, 0x80]); // LXI H,0; LHLD 0x8010
    a.b(&[0x7C, 0xFE, 0xAB]);
    a.to(0xC2, "err");
    a.b(&[0x3A, 0x10, 0x80, 0xFE, 0xCD]); // LDA 0x8010; CPI 0xCD
    a.to(0xC2, "err");
    a.b(&[0x21, 0xFF, 0xFF, 0x01, 0x01, 0x00, 0x09]); // HL=0xFFFF; BC=1; DAD B
    a.to(0xD2, "err"); // carry out of bit 15
    a.b(&[0x7C, 0xB5]); // MOV A,H; ORA L
    a.to(0xC2, "err");
    a.b(&[0x3E, 0x81, 0x07]); // MVI A,0x81; RLC -> 0x03, CY
    a.to(0xD2, "err");
    a.b(&[0xFE, 0x03]);
    a.to(0xC2, "err");
    a.b(&[0x37, 0x1F, 0xFE, 0x81]); // STC; RAR -> 0x81
    a.to(0xC2, "err");
    a.to(0x21, "jumped"); // LXI H,jumped; PCHL
    a.b(&[0xE9]);
    a.to(0xC3, "err");
    a.label("jumped");
    a.b(&[0x21, 0x00, 0xE0, 0xF9, 0xC5, 0x21, 0x00, 0x00, 0x39]); // SP=0xE000; PUSH B; HL=SP
    a.b(&[0x7C, 0xFE, 0xDF]); // H == 0xDF
    a.to(0xC2, "err");
    a.to(0xC3, "ok");
    a.label("sub");
    a.b(&[0x06, 0x42, 0xC9]); // MVI B,0x42; RET
    a.label("sub2");
    a.b(&[0x0E, 0x99, 0xC0, 0xC9]); // MVI C,0x99; RNZ (not taken); RET
    a.epilogue("stack checks passed");
    a.finish()
}

/// Moves, loads and stores through register pairs, INX / DCX, XCHG and the
/// conditional jumps on each flag.
fn preliminary_program() -> Vec<u8> {
    let mut a = Asm::new(0x100);
    a.b(&[0x31, 0x00, 0xF0]);
    a.b(&[0x06, 0x11, 0x48, 0x51, 0x5A, 0x63, 0x6C, 0x7D]); // B=0x11; C=B; D=C; E=D; H=E; L=H; A=L
    a.b(&[0xFE, 0x11]);
    a.to(0xC2, "err");
    a.b(&[0x01, 0x00, 0x90, 0x3E, 0x5A, 0x02, 0x3E, 0x00, 0x0A]); // BC=0x9000; STAX B; LDAX B
    a.b(&[0xFE, 0x5A]);
    a.to(0xC2, "err");
    a.b(&[0x11, 0xFF, 0x00, 0x13, 0x7A, 0xFE, 0x01]); // DE=0x00FF; INX D; D == 1
    a.to(0xC2, "err");
    a.b(&[0x1B, 0x1B, 0x7B, 0xFE, 0xFE]); // DCX D twice; E == 0xFE
    a.to(0xC2, "err");
    a.b(&[0x21, 0x22, 0x11, 0xEB, 0x7A, 0xFE, 0x11]); // HL=0x1122; XCHG; D == 0x11
    a.to(0xC2, "err");
    a.b(&[0x3E, 0x01, 0xB7]); // A=1; ORA A: NZ, NC, PO, P
    a.to(0xCA, "err"); // JZ
    a.to(0xDA, "err"); // JC
    a.to(0xEA, "err"); // JPE
    a.to(0xFA, "err"); // JM
    a.b(&[0x37, 0x3F]); // STC; CMC
    a.to(0xDA, "err");
    a.b(&[0x3E, 0x00, 0x2F, 0xFE, 0xFF]); // CMA
    a.to(0xC2, "err");
    a.b(&[0x3E, 0x44, 0x32, 0x20, 0x90, 0x21, 0x20, 0x90, 0x46, 0x78, 0xFE, 0x44]); // STA; MOV B,M
    a.to(0xC2, "err");
    a.b(&[0xDB, 0x05, 0xFE, 0x0F]); // IN 5 reads 15 from the test bus
    a.to(0xC2, "err");
    a.to(0xC3, "ok");
    a.epilogue("transfer checks passed");
    a.finish()
}

/// Every pair of operands through ADD, counting carries and auxiliary
/// carries, and through SUB, counting borrows.
fn exhaustive_program() -> Vec<u8> {
    let mut a = Asm::new(0x100);
    a.b(&[0x31, 0x00, 0xF0, 0x11, 0x00, 0x00, 0x06, 0x00]); // SP; DE=0; B=0
    a.label("outer");
    a.b(&[0x0E, 0x00]); // C=0
    a.label("inner");
    a.b(&[0x78, 0x81, 0xF5, 0xE1, 0x7D, 0xE6, 0x10]); // A=B; ADD C; PUSH PSW; POP H; A=L&0x10
    a.to(0xCA, "noac");
    a.b(&[0x2A, 0x00, 0x80, 0x23, 0x22, 0x00, 0x80]); // count AC at 0x8000
    a.label("noac");
    a.b(&[0x78, 0x81]);
    a.to(0xD2, "nocy");
    a.b(&[0x13]); // INX D
    a.label("nocy");
    a.b(&[0x78, 0x91]); // A=B; SUB C
    a.to(0xD2, "noborrow");
    a.b(&[0x2A, 0x02, 0x80, 0x23, 0x22, 0x02, 0x80]); // count borrows at 0x8002
    a.label("noborrow");
    a.b(&[0x0C]); // INR C
    a.to(0xC2, "inner");
    a.b(&[0x04]); // INR B
    a.to(0xC2, "outer");
    a.b(&[0x7A, 0xFE, 0x7F]);
    a.to(0xC2, "err");
    a.b(&[0x7B, 0xFE, 0x80]);
    a.to(0xC2, "err");
    a.b(&[0x2A, 0x00, 0x80, 0x7C, 0xFE, 0x78]);
    a.to(0xC2, "err");
    a.b(&[0x7D, 0xFE, 0x00]);
    a.to(0xC2, "err");
    a.b(&[0x2A, 0x02, 0x80, 0x7C, 0xFE, 0x7F]);
    a.to(0xC2, "err");
    a.b(&[0x7D, 0xFE, 0x80]);
    a.to(0xC2, "err");
    a.to(0xC3, "ok");
    a.epilogue("exhaustive checks passed");
    a.finish()
}

// The conformance ROMs (TST8080, CPUTEST, 8080PRE, 8080EXM) and the CP/M stub
// they need are not available here, so they are not run. The programs below
// are short self-checking 8080 programs written for these tests; they use
// the same harness (loaded at 0x100, an `OUT 1` exit trap at 0x0000,
// characters on port 0) but test far less than the ROMs do.

#[test]
fn program_flag_edge_cases() {
    let (passed, output) = run_test(&flags_program());
    assert!(passed, "{output}");
    assert!(output.contains("flag checks passed"));
}

#[test]
fn program_stack_and_calls() {
    let (passed, output) = run_test(&stack_program());
    assert!(passed, "{output}");
    assert!(output.contains("stack checks passed"));
}

#[test]
fn program_moves_and_transfers() {
    let (passed, output) = run_test(&preliminary_program());
    assert!(passed, "{output}");
    assert!(output.contains("transfer checks passed"));
}

#[test]
fn program_all_operand_pairs() {
    let (passed, output) = run_test(&exhaustive_program());
    assert!(passed, "{output}");
    assert!(output.contains("exhaustive checks passed"));
}

#[test]
fn harness_reports_a_failing_program() {
    // ADI 1 on 0xFF must set Z; a program that insists otherwise fails.
    let mut a = Asm::new(0x100);
    a.b(&[0x31, 0x00, 0xF0, 0x3E, 0xFF, 0xC6, 0x01]);
    a.to(0xCA, "err");
    a.to(0xC3, "ok");
    a.epilogue("flag checks passed");
    let (passed, output) = run_test(&a.finish());
    assert!(!passed);
    assert!(output.contains("ERROR"));
}

fn cpu_at(program: &[u8], variant: Variant) -> (Cpu<Bus>, Bus) {
    let mut bus = Bus::new();
    bus.mem_load(0x100, program);
    let mut cpu: Cpu<Bus> = Cpu::with_variant(variant);
    cpu.reset(0x100);
    (cpu, bus)
}

#[test]
fn pc_advances_by_instruction_length() {
    // MVI B,1 (2 bytes); LXI D,0x1234 (3 bytes); NOP (1); STA 0x9000 (3); JNZ not taken (3)
    let program = [0x06, 0x01, 0x11, 0x34, 0x12, 0x00, 0x32, 0x00, 0x90, 0xAF, 0xC2, 0x00, 0x00];
    let (mut cpu, mut bus) = cpu_at(&program, Variant::I8080);
    let lens = [2u16, 3, 1, 3, 1, 3];
    let mut pc = 0x100u16;
    for len in lens {
        let op = bus.ram[pc as usize];
        assert_eq!(Opcode::from_byte(op).info().len as u16, len);
        cpu.step(&mut bus).unwrap();
        pc += len;
        assert_eq!(cpu.registers().pc, pc);
    }
}

#[test]
fn push_and_pop_move_sp_by_two() {
    // LXI SP,0x2000; PUSH B; PUSH PSW; POP D; POP H
    let program = [0x31, 0x00, 0x20, 0xC5, 0xF5, 0xD1, 0xE1];
    let (mut cpu, mut bus) = cpu_at(&program, Variant::I8080);
    cpu.step(&mut bus).unwrap();
    let expected = [0x1FFEu16, 0x1FFC, 0x1FFE, 0x2000];
    for sp in expected {
        cpu.step(&mut bus).unwrap();
        assert_eq!(cpu.registers().sp, sp);
    }
}

#[test]
fn xthl_swaps_hl_with_top_of_stack() {
    // LXI SP,0x3000; LXI H,0xBEEF; XTHL
    let program = [0x31, 0x00, 0x30, 0x21, 0xEF, 0xBE, 0xE3];
    let (mut cpu, mut bus) = cpu_at(&program, Variant::I8080);
    bus.ram[0x3000] = 0x34;
    bus.ram[0x3001] = 0x12;
    cpu.step(&mut bus).unwrap();
    cpu.step(&mut bus).unwrap();
    let c = cpu.step(&mut bus).unwrap();
    assert_eq!(c, Cycles { mcycles: 5, tcycles: 18 });
    let r = cpu.registers();
    assert_eq!((r.h, r.l, r.sp), (0x12, 0x34, 0x3000));
    assert_eq!((bus.ram[0x3000], bus.ram[0x3001]), (0xEF, 0xBE));
}

#[test]
fn psw_round_trip_keeps_a_and_flags() {
    // MVI A,0x9A; ORA A; PUSH PSW; MVI A,0; ADI 0; POP PSW
    let program = [0x31, 0x00, 0x30, 0x3E, 0x9A, 0xB7, 0xF5, 0x3E, 0x00, 0xC6, 0x00, 0xF1];
    let (mut cpu, mut bus) = cpu_at(&program, Variant::I8080);
    for _ in 0..4 {
        cpu.step(&mut bus).unwrap();
    }
    let before = cpu.registers();
    assert_eq!(bus.ram[0x2FFE] & 0x2A, 0x02);
    for _ in 0..3 {
        cpu.step(&mut bus).unwrap();
    }
    let after = cpu.registers();
    assert_eq!(after.a, before.a);
    assert_eq!(after.flags, before.flags);
}

#[test]
fn adi_one_on_ff() {
    let (mut cpu, mut bus) = cpu_at(&[0x3E, 0xFF, 0xC6, 0x01], Variant::I8080);
    cpu.step(&mut bus).unwrap();
    cpu.step(&mut bus).unwrap();
    assert_eq!(cpu.flag_byte(), 0x57);
    assert_eq!(cpu.psw(), 0x0057);
    assert_eq!(cpu.opcode(), Opcode::ADI);
    let r = cpu.registers();
    assert_eq!(r.a, 0x00);
    assert_eq!(r.flags, Flags { s: false, z: true, ac: true, p: true, cy: true });
}

#[test]
fn sui_one_on_zero() {
    let (mut cpu, mut bus) = cpu_at(&[0x3E, 0x00, 0xD6, 0x01], Variant::I8080);
    cpu.step(&mut bus).unwrap();
    cpu.step(&mut bus).unwrap();
    let r = cpu.registers();
    assert_eq!(r.a, 0xFF);
    assert!(!r.flags.z && !r.flags.ac && r.flags.cy && r.flags.s);
}

#[test]
fn daa_on_9a() {
    let (mut cpu, mut bus) = cpu_at(&[0x3E, 0x9A, 0x27], Variant::I8080);
    cpu.step(&mut bus).unwrap();
    cpu.step(&mut bus).unwrap();
    let r = cpu.registers();
    assert_eq!(r.a, 0x00);
    assert!(r.flags.cy && r.flags.z);
}

#[test]
fn conditional_jump_timing_by_variant() {
    // XRA A; JNZ 0x0000 (not taken)
    let program = [0xAF, 0xC2, 0x00, 0x00];
    let (mut cpu, mut bus) = cpu_at(&program, Variant::I8080);
    cpu.step(&mut bus).unwrap();
    assert_eq!(cpu.step(&mut bus).unwrap(), Cycles { mcycles: 3, tcycles: 10 });
    assert_eq!(cpu.registers().pc, 0x104);

    let (mut cpu, mut bus) = cpu_at(&program, Variant::I8085);
    cpu.step(&mut bus).unwrap();
    assert_eq!(cpu.step(&mut bus).unwrap(), Cycles { mcycles: 2, tcycles: 7 });
    assert_eq!(cpu.registers().pc, 0x104);
}

#[test]
fn conditional_return_timing() {
    // XRA A; RNZ (not taken); RZ (taken)
    let program = [0x31, 0x00, 0x30, 0xAF, 0xC0, 0xC8];
    let (mut cpu, mut bus) = cpu_at(&program, Variant::I8080);
    bus.ram[0x3000] = 0x00;
    bus.ram[0x3001] = 0x02;
    cpu.step(&mut bus).unwrap();
    cpu.step(&mut bus).unwrap();
    assert_eq!(cpu.step(&mut bus).unwrap().tcycles, 5);
    assert_eq!(cpu.step(&mut bus).unwrap().tcycles, 11);
    assert_eq!(cpu.registers().pc, 0x0200);
}

#[test]
fn undefined_opcode_is_a_four_cycle_nop() {
    let (mut cpu, mut bus) = cpu_at(&[0x08, 0xCB], Variant::I8080);
    let before = cpu.registers();
    assert_eq!(cpu.step(&mut bus).unwrap(), Cycles { mcycles: 1, tcycles: 4 });
    assert_eq!(cpu.step(&mut bus).unwrap(), Cycles { mcycles: 1, tcycles: 4 });
    let after = cpu.registers();
    assert_eq!(after.pc, before.pc + 2);
    assert_eq!(after.a, before.a);
}

#[test]
fn halt_stops_until_interrupt() {
    // EI; HLT; then RST 1 is presented.
    let program = [0x31, 0x00, 0x30, 0xFB, 0x76];
    let (mut cpu, mut bus) = cpu_at(&program, Variant::I8080);
    cpu.step(&mut bus).unwrap();
    cpu.step(&mut bus).unwrap();
    assert_eq!(cpu.step(&mut bus).unwrap().tcycles, 7);
    assert!(cpu.step(&mut bus).is_none());
    assert!(cpu.tick(&mut bus).is_none());
    cpu.interrupt(Opcode::RST_1.byte());
    let c = cpu.step(&mut bus).unwrap();
    assert_eq!(c.mcycles, 3);
    let r = cpu.registers();
    assert_eq!(r.pc, 0x0008);
    assert_eq!(r.sp, 0x2FFE);
    // The address pushed is that of the instruction after HLT.
    assert_eq!((bus.ram[0x2FFE], bus.ram[0x2FFF]), (0x05, 0x01));
    assert_eq!(cpu.snapshot().iff, IffState::Disabled);
}

#[test]
fn interrupt_waits_for_instruction_after_ei() {
    // EI; INR B; INR B
    let program = [0xFB, 0x04, 0x04];
    let (mut cpu, mut bus) = cpu_at(&program, Variant::I8080);
    cpu.step(&mut bus).unwrap();
    cpu.interrupt(Opcode::RST_2.byte());
    cpu.step(&mut bus).unwrap();
    assert_eq!(cpu.registers().b, 1);
    assert_eq!(cpu.registers().pc, 0x102);
    cpu.step(&mut bus).unwrap();
    assert_eq!(cpu.registers().pc, 0x0010);
    assert_eq!(cpu.registers().b, 1);
}

#[test]
fn interrupt_ignored_while_disabled() {
    let (mut cpu, mut bus) = cpu_at(&[0x04, 0x04], Variant::I8080);
    cpu.interrupt(Opcode::RST_7.byte());
    cpu.step(&mut bus).unwrap();
    cpu.step(&mut bus).unwrap();
    assert_eq!(cpu.registers().b, 2);
}

#[test]
fn reset_clears_state() {
    let (mut cpu, mut bus) = cpu_at(&[0xFB, 0x76], Variant::I8080);
    cpu.step(&mut bus).unwrap();
    cpu.step(&mut bus).unwrap();
    cpu.interrupt(0xC7);
    cpu.reset(0x200);
    let s = cpu.snapshot();
    assert_eq!(s.reg.pc, 0x200);
    assert!(!s.halt);
    assert_eq!(s.iff, IffState::Disabled);
    assert!(s.pending.is_none());
    assert!(cpu.at_boundary());
}

#[test]
fn tick_runs_one_m_cycle() {
    // LXI B,0x1234 takes three M-cycles of 4, 3 and 3 T-cycles.
    let (mut cpu, mut bus) = cpu_at(&[0x01, 0x34, 0x12], Variant::I8080);
    assert_eq!(cpu.tick(&mut bus), Some(4));
    assert!(!cpu.at_boundary());
    assert_eq!(cpu.tick(&mut bus), Some(3));
    assert_eq!(cpu.tick(&mut bus), Some(3));
    assert!(cpu.at_boundary());
    let r = cpu.registers();
    assert_eq!((r.b, r.c), (0x12, 0x34));
}

#[test]
fn opcode_table_entries() {
    let call = Opcode::CALL.info();
    assert_eq!(call.name, "CALL ");
    assert_eq!(call.len, 3);
    assert_eq!(call.t_per_m, [Some(4), Some(3), Some(3), Some(3), Some(4)]);
    let push = Opcode::PUSH_B.info_for(Variant::I8085);
    assert_eq!(push.t_per_m, [Some(4), Some(4), Some(5), None, None]);
    assert_eq!(Opcode::from_byte(0x76), Opcode::HLT);
    assert_eq!(Opcode::HLT.info().t_per_m[0], Some(7));
    for b in 0..=255u8 {
        assert_eq!(Opcode::from_byte(b).byte(), b);
    }
}
