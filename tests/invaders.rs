use grok80::bus::BusHandler;
use grok80::invaders::{Bus, InputReg, ShiftReg, SoundReg, Vblank, HALF_VBLANK_CYCLES, OP_RST_1, OP_RST_2};

#[test]
fn shift_register_window() {
    let mut s = ShiftReg::new();
    s.write(0xAB);
    s.write(0xCD);
    s.write_amnt(0);
    assert_eq!(s.read(), 0xCD);
    s.write_amnt(4);
    assert_eq!(s.read(), 0xDA);
    s.write_amnt(0x0F);
    assert_eq!(s.read(), 0xD5);
}

#[test]
fn input_ports() {
    let mut i = InputReg::new();
    i.set_credit(true);
    i.set_start_1p(true);
    i.set_right_p1(true);
    i.set_left_p2(true);
    i.set_tilt(true);
    assert_eq!(i.read_reg1(), 0x45);
    assert_eq!(i.read_reg2(), 0x24);
    i.set_credit(false);
    i.set_tilt(false);
    assert_eq!(i.read_reg1(), 0x44);
    assert_eq!(i.read_reg2(), 0x20);
}

#[test]
fn sound_ports_keep_defined_bits() {
    let mut s = SoundReg::new();
    s.set_reg1(0xFF);
    assert!(s.ufo() && s.shoot() && s.player_die() && s.invader_die() && s.extra_life());
    s.set_reg1(0x02);
    assert!(!s.ufo() && s.shoot());
    s.set_reg2(0x11);
    assert!(s.fleet_move1() && !s.fleet_move2() && !s.fleet_move3() && !s.fleet_move4() && s.ufo_die());
}

#[test]
fn port_map() {
    let mut bus = Bus::new();
    bus.input_reg.set_shoot_p1(true);
    assert_eq!(bus.port_read(1), 0x10);
    bus.port_write(4, 0x12);
    bus.port_write(4, 0x34);
    bus.port_write(2, 0x02);
    assert_eq!(bus.port_read(3), 0xD0);
    bus.port_write(3, 0x08);
    assert!(bus.sound_reg.invader_die());
    bus.port_write(6, 0x00);
    assert_eq!(bus.port_read(7), 0);
    bus.mem_load(0x2000, &[1, 2, 3]);
    assert_eq!(bus.mem_read(0x2001), 2);
    bus.mem_write(0xFFFF, 9);
    assert_eq!(bus.mem_read(0xFFFF), 9);
}

#[test]
fn vblank_alternates_interrupts() {
    let mut v = Vblank::new();
    assert_eq!(HALF_VBLANK_CYCLES, 16666);
    assert_eq!(v.advance(16665), None);
    assert_eq!(v.advance(4), Some(OP_RST_1));
    assert_eq!(v.advance(16660), None);
    assert_eq!(v.advance(10), Some(OP_RST_2));
    assert_eq!(v.advance(16663), Some(OP_RST_1));
}
