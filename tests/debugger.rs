use grok80::bus::BusHandler;
use grok80::debugger::{parse_address, parse_command, split_words, Command, DebugHandler, Debugger, Reply};

struct Mem {
    ram: Vec<u8>,
}

impl BusHandler for Mem {
    fn mem_read(&mut self, addr: u16) -> u8 {
        self.ram[addr as usize]
    }

    fn mem_write(&mut self, addr: u16, val: u8) {
        self.ram[addr as usize] = val;
    }

    fn port_read(&mut self, _port: u8) -> u8 {
        0
    }

    fn port_write(&mut self, _port: u8, _val: u8) {}
}

/// A target whose "instructions" are one byte long.
struct Counter {
    pc: usize,
    shown: usize,
}

impl DebugHandler<Mem> for Counter {
    fn step(&mut self, _bus: &mut Mem) -> usize {
        self.pc += 1;
        self.pc
    }

    fn print_debug(&mut self, _bus: &mut Mem) {
        self.shown += 1;
    }

    fn peek(&mut self, bus: &mut Mem, addr: usize) -> u8 {
        bus.mem_peek(addr as u16)
    }
}

fn words(line: &str) -> Vec<Vec<u8>> {
    split_words(line.as_bytes())
}

#[test]
fn splits_on_ascii_white_space() {
    assert_eq!(words("  setbp\t0x10 \n"), vec![b"setbp".to_vec(), b"0x10".to_vec()]);
    assert!(words("").is_empty());
    assert!(words(" \t\r\n").is_empty());
    assert_eq!(words("a b  c"), vec![b"a".to_vec(), b"b".to_vec(), b"c".to_vec()]);
}

#[test]
fn parses_hex_addresses() {
    assert_eq!(parse_address(&b"0x1F".to_vec()), Some(0x1F));
    assert_eq!(parse_address(&b"beef".to_vec()), Some(0xBEEF));
    assert_eq!(parse_address(&b"0".to_vec()), Some(0));
    assert_eq!(parse_address(&b"0x".to_vec()), None);
    assert_eq!(parse_address(&b"".to_vec()), None);
    assert_eq!(parse_address(&b"12g".to_vec()), None);
    assert_eq!(parse_address(&b"0x0x10".to_vec()), None);
    assert_eq!(parse_address(&b"ffffffffffffffffff".to_vec()), None);
}

#[test]
fn parses_every_command() {
    assert_eq!(parse_command("help"), Command::Help);
    assert_eq!(parse_command("setbp 0x100"), Command::SetBp(0x100));
    assert_eq!(parse_command("bp 200"), Command::SetBp(0x200));
    assert_eq!(parse_command("break 0x10"), Command::SetBp(0x10));
    assert_eq!(parse_command("clrbp 10"), Command::ClrBp(0x10));
    assert_eq!(parse_command("showbp"), Command::ShowBp);
    assert_eq!(parse_command("peek 0xffff"), Command::Peek(0xFFFF));
    for w in ["step", "s", "next", "n"] {
        assert_eq!(parse_command(w), Command::Step);
    }
    assert_eq!(parse_command("continue"), Command::Continue);
    assert_eq!(parse_command("c\n"), Command::Continue);
    assert_eq!(parse_command("exit"), Command::Exit);
    assert_eq!(parse_command(""), Command::Empty);
    assert_eq!(parse_command("setbp xyz"), Command::BadAddress);
    assert_eq!(parse_command("jump 10"), Command::Unrecognized);
    assert_eq!(parse_command("step 2"), Command::Unrecognized);
    assert_eq!(parse_command("peek 1 2"), Command::Unrecognized);
}

#[test]
fn breakpoints_and_replies() {
    let mut bus = Mem { ram: vec![0; 0x10000] };
    bus.ram[0x42] = 0x99;
    let mut dbg = Debugger::new(Counter { pc: 0, shown: 0 });
    assert_eq!(dbg.process_input(&mut bus, "bp 3"), Reply::Nothing);
    assert_eq!(dbg.process_input(&mut bus, "bp 3"), Reply::Nothing);
    assert_eq!(dbg.process_input(&mut bus, "bp 7"), Reply::Nothing);
    assert_eq!(dbg.process_input(&mut bus, "showbp"), Reply::Breakpoints(vec![3, 7]));
    assert!(dbg.is_breakpoint(3) && dbg.is_breakpoint(7) && !dbg.is_breakpoint(4));
    assert_eq!(dbg.process_input(&mut bus, "clrbp 3"), Reply::Nothing);
    assert_eq!(dbg.breakpoints(), vec![7]);
    assert_eq!(dbg.process_input(&mut bus, "peek 42"), Reply::Peek(0x42, 0x99));
    assert_eq!(dbg.process_input(&mut bus, "help"), Reply::Help);
    assert_eq!(dbg.process_input(&mut bus, "frobnicate"), Reply::Unrecognized);
    assert_eq!(dbg.process_input(&mut bus, "s"), Reply::Nothing);
    assert_eq!(dbg.process_input(&mut bus, "c"), Reply::Continue);
    let mut pc = 0;
    while !dbg.is_breakpoint(pc) {
        pc = dbg.step(&mut bus);
    }
    assert_eq!(pc, 7);
    dbg.show(&mut bus);
    assert!(!dbg.exited());
    assert_eq!(dbg.process_input(&mut bus, "exit"), Reply::Nothing);
    assert!(dbg.exited());
}
