//! The Space Invaders cabinet around an 8080: its shift register, input and
//! sound latches, I/O port map and the two video interrupts of each frame.
use vstd::prelude::*;
use crate::bus::BusHandler;

verus! {

pub const CPU_FREQ_HZ: u64 = 2_000_000;
pub const FRAME_RATE_HZ: u64 = 60;
/// T-cycles between the mid-screen and the end-of-screen interrupts.
pub const HALF_VBLANK_CYCLES: u64 = CPU_FREQ_HZ / FRAME_RATE_HZ / 2;

/// `RST 1`, raised at mid-screen.
pub const OP_RST_1: u8 = 0xCF;
/// `RST 2`, raised at the end of the screen.
pub const OP_RST_2: u8 = 0xD7;

/// The hardware shift register: a 16-bit window read at an offset of 0 to 7.
pub struct ShiftReg {
    reg: u16,
    amnt: u8,
}

impl ShiftReg {
    pub closed spec fn value(&self) -> u16 {
        self.reg
    }

    pub closed spec fn offset(&self) -> u8 {
        self.amnt
    }

    pub open spec fn wf(&self) -> bool {
        self.offset() < 8
    }

    pub fn new() -> (r: Self)
        ensures
            r.wf(),
            r.value() == 0,
            r.offset() == 0,
    {
        ShiftReg { reg: 0, amnt: 0 }
    }

    /// The eight bits of the window that start `8 - offset` bits up.
    pub fn read(&self) -> (r: u8)
        requires
            self.wf(),
        ensures
            r == ((self.value() >> ((8 - self.offset()) as u16)) as u8),
    {
        (self.reg >> ((8 - self.amnt) as u16)) as u8
    }

    /// Shifts `val` in from the top, the old high byte dropping to the low.
    pub fn write(&mut self, val: u8)
        ensures
            final(self).value() == (old(self).value() / 256) + (val as u16) * 256,
            final(self).offset() == old(self).offset(),
    {
        self.reg = self.reg / 256 + (val as u16) * 256;
    }

    /// Sets the offset to the low three bits of `val`.
    pub fn write_amnt(&mut self, val: u8)
        ensures
            final(self).wf(),
            final(self).offset() == val % 8,
            final(self).value() == old(self).value(),
    {
        self.amnt = val % 8;
    }
}

/// Bits of the first input port.
pub const IN1_CREDIT: u8 = 0x01;
pub const IN1_START_2P: u8 = 0x02;
pub const IN1_START_1P: u8 = 0x04;
pub const IN1_SHOOT_PLAYER1: u8 = 0x10;
pub const IN1_LEFT_PLAYER1: u8 = 0x20;
pub const IN1_RIGHT_PLAYER1: u8 = 0x40;
/// Bits of the second input port.
pub const IN2_TILT: u8 = 0x04;
pub const IN2_SHOOT_PLAYER2: u8 = 0x10;
pub const IN2_LEFT_PLAYER2: u8 = 0x20;
pub const IN2_RIGHT_PLAYER2: u8 = 0x40;

/// `bits` with the bits of `mask` set or cleared.
pub open spec fn with_bits(bits: u8, mask: u8, on: bool) -> u8 {
    if on {
        bits | mask
    } else {
        bits & !mask
    }
}

pub fn set_bits(bits: u8, mask: u8, on: bool) -> (r: u8)
    ensures
        r == with_bits(bits, mask, on),
{
    if on {
        bits | mask
    } else {
        bits & !mask
    }
}

/// The two input ports: coin, start buttons, controls and tilt.
pub struct InputReg {
    reg1: u8,
    reg2: u8,
}

impl InputReg {
    pub closed spec fn port1(&self) -> u8 {
        self.reg1
    }

    pub closed spec fn port2(&self) -> u8 {
        self.reg2
    }

    pub fn new() -> (r: Self)
        ensures
            r.port1() == 0 && r.port2() == 0,
    {
        InputReg { reg1: 0, reg2: 0 }
    }

    pub fn read_reg1(&self) -> (r: u8)
        ensures
            r == self.port1(),
    {
        self.reg1
    }

    pub fn read_reg2(&self) -> (r: u8)
        ensures
            r == self.port2(),
    {
        self.reg2
    }

    fn set1(&mut self, mask: u8, val: bool)
        ensures
            final(self).port1() == with_bits(old(self).port1(), mask, val),
            final(self).port2() == old(self).port2(),
    {
        self.reg1 = set_bits(self.reg1, mask, val);
    }

    fn set2(&mut self, mask: u8, val: bool)
        ensures
            final(self).port2() == with_bits(old(self).port2(), mask, val),
            final(self).port1() == old(self).port1(),
    {
        self.reg2 = set_bits(self.reg2, mask, val);
    }

    pub fn set_credit(&mut self, val: bool)
        ensures
            final(self).port1() == with_bits(old(self).port1(), IN1_CREDIT, val),
            final(self).port2() == old(self).port2(),
    {
        self.set1(IN1_CREDIT, val)
    }

    pub fn set_start_2p(&mut self, val: bool)
        ensures
            final(self).port1() == with_bits(old(self).port1(), IN1_START_2P, val),
            final(self).port2() == old(self).port2(),
    {
        self.set1(IN1_START_2P, val)
    }

    pub fn set_start_1p(&mut self, val: bool)
        ensures
            final(self).port1() == with_bits(old(self).port1(), IN1_START_1P, val),
            final(self).port2() == old(self).port2(),
    {
        self.set1(IN1_START_1P, val)
    }

    pub fn set_shoot_p1(&mut self, val: bool)
        ensures
            final(self).port1() == with_bits(old(self).port1(), IN1_SHOOT_PLAYER1, val),
            final(self).port2() == old(self).port2(),
    {
        self.set1(IN1_SHOOT_PLAYER1, val)
    }

    pub fn set_left_p1(&mut self, val: bool)
        ensures
            final(self).port1() == with_bits(old(self).port1(), IN1_LEFT_PLAYER1, val),
            final(self).port2() == old(self).port2(),
    {
        self.set1(IN1_LEFT_PLAYER1, val)
    }

    pub fn set_right_p1(&mut self, val: bool)
        ensures
            final(self).port1() == with_bits(old(self).port1(), IN1_RIGHT_PLAYER1, val),
            final(self).port2() == old(self).port2(),
    {
        self.set1(IN1_RIGHT_PLAYER1, val)
    }

    pub fn set_tilt(&mut self, val: bool)
        ensures
            final(self).port2() == with_bits(old(self).port2(), IN2_TILT, val),
            final(self).port1() == old(self).port1(),
    {
        self.set2(IN2_TILT, val)
    }

    pub fn set_shoot_p2(&mut self, val: bool)
        ensures
            final(self).port2() == with_bits(old(self).port2(), IN2_SHOOT_PLAYER2, val),
            final(self).port1() == old(self).port1(),
    {
        self.set2(IN2_SHOOT_PLAYER2, val)
    }

    pub fn set_left_p2(&mut self, val: bool)
        ensures
            final(self).port2() == with_bits(old(self).port2(), IN2_LEFT_PLAYER2, val),
            final(self).port1() == old(self).port1(),
    {
        self.set2(IN2_LEFT_PLAYER2, val)
    }

    pub fn set_right_p2(&mut self, val: bool)
        ensures
            final(self).port2() == with_bits(old(self).port2(), IN2_RIGHT_PLAYER2, val),
            final(self).port1() == old(self).port1(),
    {
        self.set2(IN2_RIGHT_PLAYER2, val)
    }
}

/// Bits of the first sound port.
pub const SND1_UFO: u8 = 0x01;
pub const SND1_SHOOT: u8 = 0x02;
pub const SND1_PLAYER_DIE: u8 = 0x04;
pub const SND1_INVADER_DIE: u8 = 0x08;
pub const SND1_EXTRA_LIFE: u8 = 0x10;
/// Bits of the second sound port.
pub const SND2_FLEET_MOVE1: u8 = 0x01;
pub const SND2_FLEET_MOVE2: u8 = 0x02;
pub const SND2_FLEET_MOVE3: u8 = 0x04;
pub const SND2_FLEET_MOVE4: u8 = 0x08;
pub const SND2_UFO_DIE: u8 = 0x10;
/// Both sound ports use their low five bits.
pub const SND_MASK: u8 = 0x1F;

/// The two sound ports.
pub struct SoundReg {
    reg1: u8,
    reg2: u8,
}

impl SoundReg {
    pub closed spec fn port1(&self) -> u8 {
        self.reg1
    }

    pub closed spec fn port2(&self) -> u8 {
        self.reg2
    }

    pub fn new() -> (r: Self)
        ensures
            r.port1() == 0 && r.port2() == 0,
    {
        SoundReg { reg1: 0, reg2: 0 }
    }

    /// Latches the defined bits of `val` into the first port.
    pub fn set_reg1(&mut self, val: u8)
        ensures
            final(self).port1() == val & SND_MASK,
            final(self).port2() == old(self).port2(),
    {
        self.reg1 = val & SND_MASK;
    }

    /// Latches the defined bits of `val` into the second port.
    pub fn set_reg2(&mut self, val: u8)
        ensures
            final(self).port2() == val & SND_MASK,
            final(self).port1() == old(self).port1(),
    {
        self.reg2 = val & SND_MASK;
    }

    pub fn ufo(&self) -> (r: bool)
        ensures
            r == (self.port1() & SND1_UFO != 0),
    {
        self.reg1 & SND1_UFO != 0
    }

    pub fn shoot(&self) -> (r: bool)
        ensures
            r == (self.port1() & SND1_SHOOT != 0),
    {
        self.reg1 & SND1_SHOOT != 0
    }

    pub fn player_die(&self) -> (r: bool)
        ensures
            r == (self.port1() & SND1_PLAYER_DIE != 0),
    {
        self.reg1 & SND1_PLAYER_DIE != 0
    }

    pub fn invader_die(&self) -> (r: bool)
        ensures
            r == (self.port1() & SND1_INVADER_DIE != 0),
    {
        self.reg1 & SND1_INVADER_DIE != 0
    }

    pub fn extra_life(&self) -> (r: bool)
        ensures
            r == (self.port1() & SND1_EXTRA_LIFE != 0),
    {
        self.reg1 & SND1_EXTRA_LIFE != 0
    }

    pub fn fleet_move1(&self) -> (r: bool)
        ensures
            r == (self.port2() & SND2_FLEET_MOVE1 != 0),
    {
        self.reg2 & SND2_FLEET_MOVE1 != 0
    }

    pub fn fleet_move2(&self) -> (r: bool)
        ensures
            r == (self.port2() & SND2_FLEET_MOVE2 != 0),
    {
        self.reg2 & SND2_FLEET_MOVE2 != 0
    }

    pub fn fleet_move3(&self) -> (r: bool)
        ensures
            r == (self.port2() & SND2_FLEET_MOVE3 != 0),
    {
        self.reg2 & SND2_FLEET_MOVE3 != 0
    }

    pub fn fleet_move4(&self) -> (r: bool)
        ensures
            r == (self.port2() & SND2_FLEET_MOVE4 != 0),
    {
        self.reg2 & SND2_FLEET_MOVE4 != 0
    }

    pub fn ufo_die(&self) -> (r: bool)
        ensures
            r == (self.port2() & SND2_UFO_DIE != 0),
    {
        self.reg2 & SND2_UFO_DIE != 0
    }
}

/// The cabinet's memory and I/O, as the 8080 sees them.
pub struct Bus {
    ram: Vec<u8>,
    shift_reg: ShiftReg,
    pub input_reg: InputReg,
    pub sound_reg: SoundReg,
}

impl Bus {
    pub closed spec fn memory(&self) -> Seq<u8> {
        self.ram@
    }

    pub closed spec fn shifter(&self) -> ShiftReg {
        self.shift_reg
    }

    pub closed spec fn inputs(&self) -> InputReg {
        self.input_reg
    }

    pub closed spec fn sounds(&self) -> SoundReg {
        self.sound_reg
    }

    pub open spec fn wf(&self) -> bool {
        self.shifter().wf()
    }

    /// 64 KiB of zeroed memory and idle ports.
    pub fn new() -> (r: Self)
        ensures
            r.wf(),
            r.memory() == Seq::new(0x10000, |i: int| 0u8),
    {
        let mut ram: Vec<u8> = Vec::new();
        let mut i: usize = 0;
        while i < 0x10000
            invariant
                i <= 0x10000,
                ram@ == Seq::new(i as nat, |j: int| 0u8),
            decreases 0x10000 - i,
        {
            ram.push(0);
            proof {
                assert(ram@ =~= Seq::new((i + 1) as nat, |j: int| 0u8));
            }
            i = i + 1;
        }
        Bus {
            ram,
            shift_reg: ShiftReg::new(),
            input_reg: InputReg::new(),
            sound_reg: SoundReg::new(),
        }
    }

    /// Copies `bytes` into memory from `addr` on, up to the end of memory.
    pub fn mem_load(&mut self, addr: u16, bytes: &[u8])
        ensures
            final(self).wf() == old(self).wf(),
            final(self).memory().len() == old(self).memory().len(),
            forall|i: int|
                0 <= i < final(self).memory().len() ==> #[trigger] final(self).memory()[i] == if addr
                    <= i < addr + bytes@.len() {
                    bytes@[i - addr]
                } else {
                    old(self).memory()[i]
                },
    {
        let mut i: usize = 0;
        while i < bytes.len()
            invariant
                i <= bytes@.len(),
                self.shift_reg == old(self).shift_reg,
                self.ram@.len() == old(self).ram@.len(),
                forall|j: int|
                    0 <= j < self.ram@.len() ==> #[trigger] self.ram@[j] == if addr <= j < addr
                        + i && j < self.ram@.len() {
                        bytes@[j - addr]
                    } else {
                        old(self).ram@[j]
                    },
            decreases bytes.len() - i,
        {
            let base = addr as usize;
            if base < self.ram.len() && i < self.ram.len() - base {
                self.ram.set(base + i, bytes[i]);
            }
            i = i + 1;
        }
    }
}

impl BusHandler for Bus {
    fn mem_read(&mut self, addr: u16) -> (r: u8)
        ensures
            (addr as int) < old(self).memory().len() ==> r == old(self).memory()[addr as int],
            *final(self) == *old(self),
    {
        if (addr as usize) < self.ram.len() {
            self.ram[addr as usize]
        } else {
            0
        }
    }

    fn mem_write(&mut self, addr: u16, val: u8) {
        if (addr as usize) < self.ram.len() {
            self.ram.set(addr as usize, val);
        }
    }

    fn port_read(&mut self, port: u8) -> (r: u8)
        ensures
            *final(self) == *old(self),
            port == 1 ==> r == old(self).inputs().port1(),
            port == 2 ==> r == old(self).inputs().port2(),
            port == 3 && old(self).wf() ==> r == ((old(self).shifter().value() >> ((8
                - old(self).shifter().offset()) as u16)) as u8),
            port != 1 && port != 2 && port != 3 ==> r == 0,
    {
        if port == 1 {
            self.input_reg.read_reg1()
        } else if port == 2 {
            self.input_reg.read_reg2()
        } else if port == 3 && self.shift_reg.amnt < 8 {
            self.shift_reg.read()
        } else {
            0
        }
    }

    fn port_write(&mut self, port: u8, val: u8)
        ensures
            old(self).wf() || port == 2 ==> final(self).wf(),
            port == 3 ==> final(self).sounds().port1() == val & SND_MASK,
            port == 5 ==> final(self).sounds().port2() == val & SND_MASK,
            port == 2 ==> final(self).shifter().offset() == val % 8,
            port == 4 ==> final(self).shifter().value() == old(self).shifter().value() / 256
                + (val as u16) * 256,
            port != 2 && port != 4 ==> final(self).shifter() == old(self).shifter(),
            final(self).memory() == old(self).memory(),
    {
        if port == 2 {
            self.shift_reg.write_amnt(val);
        } else if port == 3 {
            self.sound_reg.set_reg1(val);
        } else if port == 4 {
            self.shift_reg.write(val);
        } else if port == 5 {
            self.sound_reg.set_reg2(val);
        }
        // Port 6 resets the watchdog, which is not modelled.
    }
}

/// When the two video interrupts of a frame fall, counted in T-cycles.
pub struct Vblank {
    tcycles: u64,
    vblank: bool,
}

impl Vblank {
    pub closed spec fn elapsed(&self) -> u64 {
        self.tcycles
    }

    /// The next interrupt is the end-of-screen one.
    pub closed spec fn at_bottom(&self) -> bool {
        self.vblank
    }

    pub open spec fn wf(&self) -> bool {
        self.elapsed() < HALF_VBLANK_CYCLES
    }

    pub fn new() -> (r: Self)
        ensures
            r.wf(),
            r.elapsed() == 0,
            !r.at_bottom(),
    {
        Vblank { tcycles: 0, vblank: false }
    }

    /// Counts `t` more T-cycles; when half a frame has passed, returns the
    /// interrupt opcode to present (`RST 1` at mid-screen, `RST 2` at the
    /// bottom, alternately).
    pub fn advance(&mut self, t: u64) -> (r: Option<u8>)
        requires
            old(self).wf(),
            t < HALF_VBLANK_CYCLES,
        ensures
            final(self).wf(),
            ({
                let total = old(self).elapsed() + t;
                if total >= HALF_VBLANK_CYCLES {
                    &&& r == Some(if old(self).at_bottom() { OP_RST_2 } else { OP_RST_1 })
                    &&& final(self).elapsed() == total - HALF_VBLANK_CYCLES
                    &&& final(self).at_bottom() == !old(self).at_bottom()
                } else {
                    &&& r.is_none()
                    &&& final(self).elapsed() == total
                    &&& final(self).at_bottom() == old(self).at_bottom()
                }
            }),
    {
        self.tcycles = self.tcycles + t;
        if self.tcycles >= HALF_VBLANK_CYCLES {
            let opcode = if self.vblank {
                OP_RST_2
            } else {
                OP_RST_1
            };
            self.vblank = !self.vblank;
            self.tcycles = self.tcycles - HALF_VBLANK_CYCLES;
            Some(opcode)
        } else {
            None
        }
    }
}

} // verus!
