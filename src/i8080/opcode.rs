//! The 8080 / 8085 opcode table: mnemonic, encoded length and T-cycles of
//! each M-cycle.
use vstd::prelude::*;
use crate::i8080::model::{is_ccc, is_jcc, is_rcc, len_spec, cycles_spec, tcycles_spec, Variant};
use crate::alu::Flags;

verus! {

/// Longest instruction, in M-cycles.
pub const MCYCLES_MAX: usize = 5;

/// What the opcode table holds for one opcode.
pub struct OpcodeInfo {
    /// Mnemonic, followed by a space or comma where operands follow.
    pub name: &'static str,
    /// Encoded length in bytes.
    pub len: u8,
    /// T-cycles of each M-cycle the instruction can run, in order.
    pub t_per_m: [Option<u64>; 5],
}

/// The most M-cycles that `op` can run.
pub open spec fn max_cycles_spec(op: u8, v: Variant) -> u8 {
    if is_rcc(op) || is_jcc(op) {
        3
    } else if is_ccc(op) {
        5
    } else {
        cycles_spec(op, Flags { s: false, z: false, ac: false, p: false, cy: false }, v)
    }
}

/// Entry `k` of the timing row of `op`.
pub open spec fn t_entry(op: u8, k: u8, v: Variant) -> Option<u64> {
    if k < max_cycles_spec(op, v) {
        Some(tcycles_spec(op, k, v))
    } else {
        None
    }
}

/// The 256 opcodes of the 8080, in encoding order.
#[allow(non_camel_case_types)]
#[derive(Clone, Copy, Debug, PartialEq, Eq, Structural)]
pub enum Opcode {
    NOP,
    LXI_B,
    STAX_B,
    INX_B,
    INR_B,
    DCR_B,
    MVI_B,
    RLC,
    UNDEF_1,
    DAD_B,
    LDAX_B,
    DCX_B,
    INR_C,
    DCR_C,
    MVI_C,
    RRC,
    UNDEF_2,
    LXI_D,
    STAX_D,
    INX_D,
    INR_D,
    DCR_D,
    MVI_D,
    RAL,
    UNDEF_3,
    DAD_D,
    LDAX_D,
    DCX_D,
    INR_E,
    DCR_E,
    MVI_E,
    RAR,
    UNDEF_4,
    LXI_H,
    SHLD,
    INX_H,
    INR_H,
    DCR_H,
    MVI_H,
    DAA,
    UNDEF_5,
    DAD_H,
    LHLD,
    DCX_H,
    INR_L,
    DCR_L,
    MVI_L,
    CMA,
    UNDEF_6,
    LXI_SP,
    STA,
    INX_SP,
    INR_M,
    DCR_M,
    MVI_M,
    STC,
    UNDEF_7,
    DAD_SP,
    LDA,
    DCX_SP,
    INR_A,
    DCR_A,
    MVI_A,
    CMC,
    MOV_B_B,
    MOV_B_C,
    MOV_B_D,
    MOV_B_E,
    MOV_B_H,
    MOV_B_L,
    MOV_B_M,
    MOV_B_A,
    MOV_C_B,
    MOV_C_C,
    MOV_C_D,
    MOV_C_E,
    MOV_C_H,
    MOV_C_L,
    MOV_C_M,
    MOV_C_A,
    MOV_D_B,
    MOV_D_C,
    MOV_D_D,
    MOV_D_E,
    MOV_D_H,
    MOV_D_L,
    MOV_D_M,
    MOV_D_A,
    MOV_E_B,
    MOV_E_C,
    MOV_E_D,
    MOV_E_E,
    MOV_E_H,
    MOV_E_L,
    MOV_E_M,
    MOV_E_A,
    MOV_H_B,
    MOV_H_C,
    MOV_H_D,
    MOV_H_E,
    MOV_H_H,
    MOV_H_L,
    MOV_H_M,
    MOV_H_A,
    MOV_L_B,
    MOV_L_C,
    MOV_L_D,
    MOV_L_E,
    MOV_L_H,
    MOV_L_L,
    MOV_L_M,
    MOV_L_A,
    MOV_M_B,
    MOV_M_C,
    MOV_M_D,
    MOV_M_E,
    MOV_M_H,
    MOV_M_L,
    HLT,
    MOV_M_A,
    MOV_A_B,
    MOV_A_C,
    MOV_A_D,
    MOV_A_E,
    MOV_A_H,
    MOV_A_L,
    MOV_A_M,
    MOV_A_A,
    ADD_B,
    ADD_C,
    ADD_D,
    ADD_E,
    ADD_H,
    ADD_L,
    ADD_M,
    ADD_A,
    ADC_B,
    ADC_C,
    ADC_D,
    ADC_E,
    ADC_H,
    ADC_L,
    ADC_M,
    ADC_A,
    SUB_B,
    SUB_C,
    SUB_D,
    SUB_E,
    SUB_H,
    SUB_L,
    SUB_M,
    SUB_A,
    SBB_B,
    SBB_C,
    SBB_D,
    SBB_E,
    SBB_H,
    SBB_L,
    SBB_M,
    SBB_A,
    ANA_B,
    ANA_C,
    ANA_D,
    ANA_E,
    ANA_H,
    ANA_L,
    ANA_M,
    ANA_A,
    XRA_B,
    XRA_C,
    XRA_D,
    XRA_E,
    XRA_H,
    XRA_L,
    XRA_M,
    XRA_A,
    ORA_B,
    ORA_C,
    ORA_D,
    ORA_E,
    ORA_H,
    ORA_L,
    ORA_M,
    ORA_A,
    CMP_B,
    CMP_C,
    CMP_D,
    CMP_E,
    CMP_H,
    CMP_L,
    CMP_M,
    CMP_A,
    RNZ,
    POP_B,
    JNZ,
    JMP,
    CNZ,
    PUSH_B,
    ADI,
    RST_0,
    RZ,
    RET,
    JZ,
    UNDEF_8,
    CZ,
    CALL,
    ACI,
    RST_1,
    RNC,
    POP_D,
    JNC,
    OUT,
    CNC,
    PUSH_D,
    SUI,
    RST_2,
    RC,
    UNDEF_9,
    JC,
    IN,
    CC,
    UNDEF_10,
    SBI,
    RST_3,
    RPO,
    POP_H,
    JPO,
    XTHL,
    CPO,
    PUSH_H,
    ANI,
    RST_4,
    RPE,
    PCHL,
    JPE,
    XCHG,
    CPE,
    UNDEF_11,
    XRI,
    RST_5,
    RP,
    POP_PSW,
    JP,
    DI,
    CP,
    PUSH_PSW,
    ORI,
    RST_6,
    RM,
    SPHL,
    JM,
    EI,
    CM,
    UNDEF_12,
    CPI,
    RST_7,
}

/// The byte that encodes `op`.
pub open spec fn opcode_byte(op: Opcode) -> u8 {
    match op {
        Opcode::NOP => 0x00,
        Opcode::LXI_B => 0x01,
        Opcode::STAX_B => 0x02,
        Opcode::INX_B => 0x03,
        Opcode::INR_B => 0x04,
        Opcode::DCR_B => 0x05,
        Opcode::MVI_B => 0x06,
        Opcode::RLC => 0x07,
        Opcode::UNDEF_1 => 0x08,
        Opcode::DAD_B => 0x09,
        Opcode::LDAX_B => 0x0a,
        Opcode::DCX_B => 0x0b,
        Opcode::INR_C => 0x0c,
        Opcode::DCR_C => 0x0d,
        Opcode::MVI_C => 0x0e,
        Opcode::RRC => 0x0f,
        Opcode::UNDEF_2 => 0x10,
        Opcode::LXI_D => 0x11,
        Opcode::STAX_D => 0x12,
        Opcode::INX_D => 0x13,
        Opcode::INR_D => 0x14,
        Opcode::DCR_D => 0x15,
        Opcode::MVI_D => 0x16,
        Opcode::RAL => 0x17,
        Opcode::UNDEF_3 => 0x18,
        Opcode::DAD_D => 0x19,
        Opcode::LDAX_D => 0x1a,
        Opcode::DCX_D => 0x1b,
        Opcode::INR_E => 0x1c,
        Opcode::DCR_E => 0x1d,
        Opcode::MVI_E => 0x1e,
        Opcode::RAR => 0x1f,
        Opcode::UNDEF_4 => 0x20,
        Opcode::LXI_H => 0x21,
        Opcode::SHLD => 0x22,
        Opcode::INX_H => 0x23,
        Opcode::INR_H => 0x24,
        Opcode::DCR_H => 0x25,
        Opcode::MVI_H => 0x26,
        Opcode::DAA => 0x27,
        Opcode::UNDEF_5 => 0x28,
        Opcode::DAD_H => 0x29,
        Opcode::LHLD => 0x2a,
        Opcode::DCX_H => 0x2b,
        Opcode::INR_L => 0x2c,
        Opcode::DCR_L => 0x2d,
        Opcode::MVI_L => 0x2e,
        Opcode::CMA => 0x2f,
        Opcode::UNDEF_6 => 0x30,
        Opcode::LXI_SP => 0x31,
        Opcode::STA => 0x32,
        Opcode::INX_SP => 0x33,
        Opcode::INR_M => 0x34,
        Opcode::DCR_M => 0x35,
        Opcode::MVI_M => 0x36,
        Opcode::STC => 0x37,
        Opcode::UNDEF_7 => 0x38,
        Opcode::DAD_SP => 0x39,
        Opcode::LDA => 0x3a,
        Opcode::DCX_SP => 0x3b,
        Opcode::INR_A => 0x3c,
        Opcode::DCR_A => 0x3d,
        Opcode::MVI_A => 0x3e,
        Opcode::CMC => 0x3f,
        Opcode::MOV_B_B => 0x40,
        Opcode::MOV_B_C => 0x41,
        Opcode::MOV_B_D => 0x42,
        Opcode::MOV_B_E => 0x43,
        Opcode::MOV_B_H => 0x44,
        Opcode::MOV_B_L => 0x45,
        Opcode::MOV_B_M => 0x46,
        Opcode::MOV_B_A => 0x47,
        Opcode::MOV_C_B => 0x48,
        Opcode::MOV_C_C => 0x49,
        Opcode::MOV_C_D => 0x4a,
        Opcode::MOV_C_E => 0x4b,
        Opcode::MOV_C_H => 0x4c,
        Opcode::MOV_C_L => 0x4d,
        Opcode::MOV_C_M => 0x4e,
        Opcode::MOV_C_A => 0x4f,
        Opcode::MOV_D_B => 0x50,
        Opcode::MOV_D_C => 0x51,
        Opcode::MOV_D_D => 0x52,
        Opcode::MOV_D_E => 0x53,
        Opcode::MOV_D_H => 0x54,
        Opcode::MOV_D_L => 0x55,
        Opcode::MOV_D_M => 0x56,
        Opcode::MOV_D_A => 0x57,
        Opcode::MOV_E_B => 0x58,
        Opcode::MOV_E_C => 0x59,
        Opcode::MOV_E_D => 0x5a,
        Opcode::MOV_E_E => 0x5b,
        Opcode::MOV_E_H => 0x5c,
        Opcode::MOV_E_L => 0x5d,
        Opcode::MOV_E_M => 0x5e,
        Opcode::MOV_E_A => 0x5f,
        Opcode::MOV_H_B => 0x60,
        Opcode::MOV_H_C => 0x61,
        Opcode::MOV_H_D => 0x62,
        Opcode::MOV_H_E => 0x63,
        Opcode::MOV_H_H => 0x64,
        Opcode::MOV_H_L => 0x65,
        Opcode::MOV_H_M => 0x66,
        Opcode::MOV_H_A => 0x67,
        Opcode::MOV_L_B => 0x68,
        Opcode::MOV_L_C => 0x69,
        Opcode::MOV_L_D => 0x6a,
        Opcode::MOV_L_E => 0x6b,
        Opcode::MOV_L_H => 0x6c,
        Opcode::MOV_L_L => 0x6d,
        Opcode::MOV_L_M => 0x6e,
        Opcode::MOV_L_A => 0x6f,
        Opcode::MOV_M_B => 0x70,
        Opcode::MOV_M_C => 0x71,
        Opcode::MOV_M_D => 0x72,
        Opcode::MOV_M_E => 0x73,
        Opcode::MOV_M_H => 0x74,
        Opcode::MOV_M_L => 0x75,
        Opcode::HLT => 0x76,
        Opcode::MOV_M_A => 0x77,
        Opcode::MOV_A_B => 0x78,
        Opcode::MOV_A_C => 0x79,
        Opcode::MOV_A_D => 0x7a,
        Opcode::MOV_A_E => 0x7b,
        Opcode::MOV_A_H => 0x7c,
        Opcode::MOV_A_L => 0x7d,
        Opcode::MOV_A_M => 0x7e,
        Opcode::MOV_A_A => 0x7f,
        Opcode::ADD_B => 0x80,
        Opcode::ADD_C => 0x81,
        Opcode::ADD_D => 0x82,
        Opcode::ADD_E => 0x83,
        Opcode::ADD_H => 0x84,
        Opcode::ADD_L => 0x85,
        Opcode::ADD_M => 0x86,
        Opcode::ADD_A => 0x87,
        Opcode::ADC_B => 0x88,
        Opcode::ADC_C => 0x89,
        Opcode::ADC_D => 0x8a,
        Opcode::ADC_E => 0x8b,
        Opcode::ADC_H => 0x8c,
        Opcode::ADC_L => 0x8d,
        Opcode::ADC_M => 0x8e,
        Opcode::ADC_A => 0x8f,
        Opcode::SUB_B => 0x90,
        Opcode::SUB_C => 0x91,
        Opcode::SUB_D => 0x92,
        Opcode::SUB_E => 0x93,
        Opcode::SUB_H => 0x94,
        Opcode::SUB_L => 0x95,
        Opcode::SUB_M => 0x96,
        Opcode::SUB_A => 0x97,
        Opcode::SBB_B => 0x98,
        Opcode::SBB_C => 0x99,
        Opcode::SBB_D => 0x9a,
        Opcode::SBB_E => 0x9b,
        Opcode::SBB_H => 0x9c,
        Opcode::SBB_L => 0x9d,
        Opcode::SBB_M => 0x9e,
        Opcode::SBB_A => 0x9f,
        Opcode::ANA_B => 0xa0,
        Opcode::ANA_C => 0xa1,
        Opcode::ANA_D => 0xa2,
        Opcode::ANA_E => 0xa3,
        Opcode::ANA_H => 0xa4,
        Opcode::ANA_L => 0xa5,
        Opcode::ANA_M => 0xa6,
        Opcode::ANA_A => 0xa7,
        Opcode::XRA_B => 0xa8,
        Opcode::XRA_C => 0xa9,
        Opcode::XRA_D => 0xaa,
        Opcode::XRA_E => 0xab,
        Opcode::XRA_H => 0xac,
        Opcode::XRA_L => 0xad,
        Opcode::XRA_M => 0xae,
        Opcode::XRA_A => 0xaf,
        Opcode::ORA_B => 0xb0,
        Opcode::ORA_C => 0xb1,
        Opcode::ORA_D => 0xb2,
        Opcode::ORA_E => 0xb3,
        Opcode::ORA_H => 0xb4,
        Opcode::ORA_L => 0xb5,
        Opcode::ORA_M => 0xb6,
        Opcode::ORA_A => 0xb7,
        Opcode::CMP_B => 0xb8,
        Opcode::CMP_C => 0xb9,
        Opcode::CMP_D => 0xba,
        Opcode::CMP_E => 0xbb,
        Opcode::CMP_H => 0xbc,
        Opcode::CMP_L => 0xbd,
        Opcode::CMP_M => 0xbe,
        Opcode::CMP_A => 0xbf,
        Opcode::RNZ => 0xc0,
        Opcode::POP_B => 0xc1,
        Opcode::JNZ => 0xc2,
        Opcode::JMP => 0xc3,
        Opcode::CNZ => 0xc4,
        Opcode::PUSH_B => 0xc5,
        Opcode::ADI => 0xc6,
        Opcode::RST_0 => 0xc7,
        Opcode::RZ => 0xc8,
        Opcode::RET => 0xc9,
        Opcode::JZ => 0xca,
        Opcode::UNDEF_8 => 0xcb,
        Opcode::CZ => 0xcc,
        Opcode::CALL => 0xcd,
        Opcode::ACI => 0xce,
        Opcode::RST_1 => 0xcf,
        Opcode::RNC => 0xd0,
        Opcode::POP_D => 0xd1,
        Opcode::JNC => 0xd2,
        Opcode::OUT => 0xd3,
        Opcode::CNC => 0xd4,
        Opcode::PUSH_D => 0xd5,
        Opcode::SUI => 0xd6,
        Opcode::RST_2 => 0xd7,
        Opcode::RC => 0xd8,
        Opcode::UNDEF_9 => 0xd9,
        Opcode::JC => 0xda,
        Opcode::IN => 0xdb,
        Opcode::CC => 0xdc,
        Opcode::UNDEF_10 => 0xdd,
        Opcode::SBI => 0xde,
        Opcode::RST_3 => 0xdf,
        Opcode::RPO => 0xe0,
        Opcode::POP_H => 0xe1,
        Opcode::JPO => 0xe2,
        Opcode::XTHL => 0xe3,
        Opcode::CPO => 0xe4,
        Opcode::PUSH_H => 0xe5,
        Opcode::ANI => 0xe6,
        Opcode::RST_4 => 0xe7,
        Opcode::RPE => 0xe8,
        Opcode::PCHL => 0xe9,
        Opcode::JPE => 0xea,
        Opcode::XCHG => 0xeb,
        Opcode::CPE => 0xec,
        Opcode::UNDEF_11 => 0xed,
        Opcode::XRI => 0xee,
        Opcode::RST_5 => 0xef,
        Opcode::RP => 0xf0,
        Opcode::POP_PSW => 0xf1,
        Opcode::JP => 0xf2,
        Opcode::DI => 0xf3,
        Opcode::CP => 0xf4,
        Opcode::PUSH_PSW => 0xf5,
        Opcode::ORI => 0xf6,
        Opcode::RST_6 => 0xf7,
        Opcode::RM => 0xf8,
        Opcode::SPHL => 0xf9,
        Opcode::JM => 0xfa,
        Opcode::EI => 0xfb,
        Opcode::CM => 0xfc,
        Opcode::UNDEF_12 => 0xfd,
        Opcode::CPI => 0xfe,
        Opcode::RST_7 => 0xff,
    }
}

impl Opcode {
    /// The opcode that byte `b` encodes.
    #[verifier::rlimit(100)]
    pub fn from_byte(b: u8) -> (r: Opcode)
        ensures
            opcode_byte(r) == b,
    {
        match b {
            0x00 => Opcode::NOP,
            0x01 => Opcode::LXI_B,
            0x02 => Opcode::STAX_B,
            0x03 => Opcode::INX_B,
            0x04 => Opcode::INR_B,
            0x05 => Opcode::DCR_B,
            0x06 => Opcode::MVI_B,
            0x07 => Opcode::RLC,
            0x08 => Opcode::UNDEF_1,
            0x09 => Opcode::DAD_B,
            0x0a => Opcode::LDAX_B,
            0x0b => Opcode::DCX_B,
            0x0c => Opcode::INR_C,
            0x0d => Opcode::DCR_C,
            0x0e => Opcode::MVI_C,
            0x0f => Opcode::RRC,
            0x10 => Opcode::UNDEF_2,
            0x11 => Opcode::LXI_D,
            0x12 => Opcode::STAX_D,
            0x13 => Opcode::INX_D,
            0x14 => Opcode::INR_D,
            0x15 => Opcode::DCR_D,
            0x16 => Opcode::MVI_D,
            0x17 => Opcode::RAL,
            0x18 => Opcode::UNDEF_3,
            0x19 => Opcode::DAD_D,
            0x1a => Opcode::LDAX_D,
            0x1b => Opcode::DCX_D,
            0x1c => Opcode::INR_E,
            0x1d => Opcode::DCR_E,
            0x1e => Opcode::MVI_E,
            0x1f => Opcode::RAR,
            0x20 => Opcode::UNDEF_4,
            0x21 => Opcode::LXI_H,
            0x22 => Opcode::SHLD,
            0x23 => Opcode::INX_H,
            0x24 => Opcode::INR_H,
            0x25 => Opcode::DCR_H,
            0x26 => Opcode::MVI_H,
            0x27 => Opcode::DAA,
            0x28 => Opcode::UNDEF_5,
            0x29 => Opcode::DAD_H,
            0x2a => Opcode::LHLD,
            0x2b => Opcode::DCX_H,
            0x2c => Opcode::INR_L,
            0x2d => Opcode::DCR_L,
            0x2e => Opcode::MVI_L,
            0x2f => Opcode::CMA,
            0x30 => Opcode::UNDEF_6,
            0x31 => Opcode::LXI_SP,
            0x32 => Opcode::STA,
            0x33 => Opcode::INX_SP,
            0x34 => Opcode::INR_M,
            0x35 => Opcode::DCR_M,
            0x36 => Opcode::MVI_M,
            0x37 => Opcode::STC,
            0x38 => Opcode::UNDEF_7,
            0x39 => Opcode::DAD_SP,
            0x3a => Opcode::LDA,
            0x3b => Opcode::DCX_SP,
            0x3c => Opcode::INR_A,
            0x3d => Opcode::DCR_A,
            0x3e => Opcode::MVI_A,
            0x3f => Opcode::CMC,
            0x40 => Opcode::MOV_B_B,
            0x41 => Opcode::MOV_B_C,
            0x42 => Opcode::MOV_B_D,
            0x43 => Opcode::MOV_B_E,
            0x44 => Opcode::MOV_B_H,
            0x45 => Opcode::MOV_B_L,
            0x46 => Opcode::MOV_B_M,
            0x47 => Opcode::MOV_B_A,
            0x48 => Opcode::MOV_C_B,
            0x49 => Opcode::MOV_C_C,
            0x4a => Opcode::MOV_C_D,
            0x4b => Opcode::MOV_C_E,
            0x4c => Opcode::MOV_C_H,
            0x4d => Opcode::MOV_C_L,
            0x4e => Opcode::MOV_C_M,
            0x4f => Opcode::MOV_C_A,
            0x50 => Opcode::MOV_D_B,
            0x51 => Opcode::MOV_D_C,
            0x52 => Opcode::MOV_D_D,
            0x53 => Opcode::MOV_D_E,
            0x54 => Opcode::MOV_D_H,
            0x55 => Opcode::MOV_D_L,
            0x56 => Opcode::MOV_D_M,
            0x57 => Opcode::MOV_D_A,
            0x58 => Opcode::MOV_E_B,
            0x59 => Opcode::MOV_E_C,
            0x5a => Opcode::MOV_E_D,
            0x5b => Opcode::MOV_E_E,
            0x5c => Opcode::MOV_E_H,
            0x5d => Opcode::MOV_E_L,
            0x5e => Opcode::MOV_E_M,
            0x5f => Opcode::MOV_E_A,
            0x60 => Opcode::MOV_H_B,
            0x61 => Opcode::MOV_H_C,
            0x62 => Opcode::MOV_H_D,
            0x63 => Opcode::MOV_H_E,
            0x64 => Opcode::MOV_H_H,
            0x65 => Opcode::MOV_H_L,
            0x66 => Opcode::MOV_H_M,
            0x67 => Opcode::MOV_H_A,
            0x68 => Opcode::MOV_L_B,
            0x69 => Opcode::MOV_L_C,
            0x6a => Opcode::MOV_L_D,
            0x6b => Opcode::MOV_L_E,
            0x6c => Opcode::MOV_L_H,
            0x6d => Opcode::MOV_L_L,
            0x6e => Opcode::MOV_L_M,
            0x6f => Opcode::MOV_L_A,
            0x70 => Opcode::MOV_M_B,
            0x71 => Opcode::MOV_M_C,
            0x72 => Opcode::MOV_M_D,
            0x73 => Opcode::MOV_M_E,
            0x74 => Opcode::MOV_M_H,
            0x75 => Opcode::MOV_M_L,
            0x76 => Opcode::HLT,
            0x77 => Opcode::MOV_M_A,
            0x78 => Opcode::MOV_A_B,
            0x79 => Opcode::MOV_A_C,
            0x7a => Opcode::MOV_A_D,
            0x7b => Opcode::MOV_A_E,
            0x7c => Opcode::MOV_A_H,
            0x7d => Opcode::MOV_A_L,
            0x7e => Opcode::MOV_A_M,
            0x7f => Opcode::MOV_A_A,
            0x80 => Opcode::ADD_B,
            0x81 => Opcode::ADD_C,
            0x82 => Opcode::ADD_D,
            0x83 => Opcode::ADD_E,
            0x84 => Opcode::ADD_H,
            0x85 => Opcode::ADD_L,
            0x86 => Opcode::ADD_M,
            0x87 => Opcode::ADD_A,
            0x88 => Opcode::ADC_B,
            0x89 => Opcode::ADC_C,
            0x8a => Opcode::ADC_D,
            0x8b => Opcode::ADC_E,
            0x8c => Opcode::ADC_H,
            0x8d => Opcode::ADC_L,
            0x8e => Opcode::ADC_M,
            0x8f => Opcode::ADC_A,
            0x90 => Opcode::SUB_B,
            0x91 => Opcode::SUB_C,
            0x92 => Opcode::SUB_D,
            0x93 => Opcode::SUB_E,
            0x94 => Opcode::SUB_H,
            0x95 => Opcode::SUB_L,
            0x96 => Opcode::SUB_M,
            0x97 => Opcode::SUB_A,
            0x98 => Opcode::SBB_B,
            0x99 => Opcode::SBB_C,
            0x9a => Opcode::SBB_D,
            0x9b => Opcode::SBB_E,
            0x9c => Opcode::SBB_H,
            0x9d => Opcode::SBB_L,
            0x9e => Opcode::SBB_M,
            0x9f => Opcode::SBB_A,
            0xa0 => Opcode::ANA_B,
            0xa1 => Opcode::ANA_C,
            0xa2 => Opcode::ANA_D,
            0xa3 => Opcode::ANA_E,
            0xa4 => Opcode::ANA_H,
            0xa5 => Opcode::ANA_L,
            0xa6 => Opcode::ANA_M,
            0xa7 => Opcode::ANA_A,
            0xa8 => Opcode::XRA_B,
            0xa9 => Opcode::XRA_C,
            0xaa => Opcode::XRA_D,
            0xab => Opcode::XRA_E,
            0xac => Opcode::XRA_H,
            0xad => Opcode::XRA_L,
            0xae => Opcode::XRA_M,
            0xaf => Opcode::XRA_A,
            0xb0 => Opcode::ORA_B,
            0xb1 => Opcode::ORA_C,
            0xb2 => Opcode::ORA_D,
            0xb3 => Opcode::ORA_E,
            0xb4 => Opcode::ORA_H,
            0xb5 => Opcode::ORA_L,
            0xb6 => Opcode::ORA_M,
            0xb7 => Opcode::ORA_A,
            0xb8 => Opcode::CMP_B,
            0xb9 => Opcode::CMP_C,
            0xba => Opcode::CMP_D,
            0xbb => Opcode::CMP_E,
            0xbc => Opcode::CMP_H,
            0xbd => Opcode::CMP_L,
            0xbe => Opcode::CMP_M,
            0xbf => Opcode::CMP_A,
            0xc0 => Opcode::RNZ,
            0xc1 => Opcode::POP_B,
            0xc2 => Opcode::JNZ,
            0xc3 => Opcode::JMP,
            0xc4 => Opcode::CNZ,
            0xc5 => Opcode::PUSH_B,
            0xc6 => Opcode::ADI,
            0xc7 => Opcode::RST_0,
            0xc8 => Opcode::RZ,
            0xc9 => Opcode::RET,
            0xca => Opcode::JZ,
            0xcb => Opcode::UNDEF_8,
            0xcc => Opcode::CZ,
            0xcd => Opcode::CALL,
            0xce => Opcode::ACI,
            0xcf => Opcode::RST_1,
            0xd0 => Opcode::RNC,
            0xd1 => Opcode::POP_D,
            0xd2 => Opcode::JNC,
            0xd3 => Opcode::OUT,
            0xd4 => Opcode::CNC,
            0xd5 => Opcode::PUSH_D,
            0xd6 => Opcode::SUI,
            0xd7 => Opcode::RST_2,
            0xd8 => Opcode::RC,
            0xd9 => Opcode::UNDEF_9,
            0xda => Opcode::JC,
            0xdb => Opcode::IN,
            0xdc => Opcode::CC,
            0xdd => Opcode::UNDEF_10,
            0xde => Opcode::SBI,
            0xdf => Opcode::RST_3,
            0xe0 => Opcode::RPO,
            0xe1 => Opcode::POP_H,
            0xe2 => Opcode::JPO,
            0xe3 => Opcode::XTHL,
            0xe4 => Opcode::CPO,
            0xe5 => Opcode::PUSH_H,
            0xe6 => Opcode::ANI,
            0xe7 => Opcode::RST_4,
            0xe8 => Opcode::RPE,
            0xe9 => Opcode::PCHL,
            0xea => Opcode::JPE,
            0xeb => Opcode::XCHG,
            0xec => Opcode::CPE,
            0xed => Opcode::UNDEF_11,
            0xee => Opcode::XRI,
            0xef => Opcode::RST_5,
            0xf0 => Opcode::RP,
            0xf1 => Opcode::POP_PSW,
            0xf2 => Opcode::JP,
            0xf3 => Opcode::DI,
            0xf4 => Opcode::CP,
            0xf5 => Opcode::PUSH_PSW,
            0xf6 => Opcode::ORI,
            0xf7 => Opcode::RST_6,
            0xf8 => Opcode::RM,
            0xf9 => Opcode::SPHL,
            0xfa => Opcode::JM,
            0xfb => Opcode::EI,
            0xfc => Opcode::CM,
            0xfd => Opcode::UNDEF_12,
            0xfe => Opcode::CPI,
            _ => Opcode::RST_7,
        }
    }

    /// The byte that encodes this opcode.
    pub fn byte(&self) -> (r: u8)
        ensures
            r == opcode_byte(*self),
    {
        match self {
            Opcode::NOP => 0x00,
            Opcode::LXI_B => 0x01,
            Opcode::STAX_B => 0x02,
            Opcode::INX_B => 0x03,
            Opcode::INR_B => 0x04,
            Opcode::DCR_B => 0x05,
            Opcode::MVI_B => 0x06,
            Opcode::RLC => 0x07,
            Opcode::UNDEF_1 => 0x08,
            Opcode::DAD_B => 0x09,
            Opcode::LDAX_B => 0x0a,
            Opcode::DCX_B => 0x0b,
            Opcode::INR_C => 0x0c,
            Opcode::DCR_C => 0x0d,
            Opcode::MVI_C => 0x0e,
            Opcode::RRC => 0x0f,
            Opcode::UNDEF_2 => 0x10,
            Opcode::LXI_D => 0x11,
            Opcode::STAX_D => 0x12,
            Opcode::INX_D => 0x13,
            Opcode::INR_D => 0x14,
            Opcode::DCR_D => 0x15,
            Opcode::MVI_D => 0x16,
            Opcode::RAL => 0x17,
            Opcode::UNDEF_3 => 0x18,
            Opcode::DAD_D => 0x19,
            Opcode::LDAX_D => 0x1a,
            Opcode::DCX_D => 0x1b,
            Opcode::INR_E => 0x1c,
            Opcode::DCR_E => 0x1d,
            Opcode::MVI_E => 0x1e,
            Opcode::RAR => 0x1f,
            Opcode::UNDEF_4 => 0x20,
            Opcode::LXI_H => 0x21,
            Opcode::SHLD => 0x22,
            Opcode::INX_H => 0x23,
            Opcode::INR_H => 0x24,
            Opcode::DCR_H => 0x25,
            Opcode::MVI_H => 0x26,
            Opcode::DAA => 0x27,
            Opcode::UNDEF_5 => 0x28,
            Opcode::DAD_H => 0x29,
            Opcode::LHLD => 0x2a,
            Opcode::DCX_H => 0x2b,
            Opcode::INR_L => 0x2c,
            Opcode::DCR_L => 0x2d,
            Opcode::MVI_L => 0x2e,
            Opcode::CMA => 0x2f,
            Opcode::UNDEF_6 => 0x30,
            Opcode::LXI_SP => 0x31,
            Opcode::STA => 0x32,
            Opcode::INX_SP => 0x33,
            Opcode::INR_M => 0x34,
            Opcode::DCR_M => 0x35,
            Opcode::MVI_M => 0x36,
            Opcode::STC => 0x37,
            Opcode::UNDEF_7 => 0x38,
            Opcode::DAD_SP => 0x39,
            Opcode::LDA => 0x3a,
            Opcode::DCX_SP => 0x3b,
            Opcode::INR_A => 0x3c,
            Opcode::DCR_A => 0x3d,
            Opcode::MVI_A => 0x3e,
            Opcode::CMC => 0x3f,
            Opcode::MOV_B_B => 0x40,
            Opcode::MOV_B_C => 0x41,
            Opcode::MOV_B_D => 0x42,
            Opcode::MOV_B_E => 0x43,
            Opcode::MOV_B_H => 0x44,
            Opcode::MOV_B_L => 0x45,
            Opcode::MOV_B_M => 0x46,
            Opcode::MOV_B_A => 0x47,
            Opcode::MOV_C_B => 0x48,
            Opcode::MOV_C_C => 0x49,
            Opcode::MOV_C_D => 0x4a,
            Opcode::MOV_C_E => 0x4b,
            Opcode::MOV_C_H => 0x4c,
            Opcode::MOV_C_L => 0x4d,
            Opcode::MOV_C_M => 0x4e,
            Opcode::MOV_C_A => 0x4f,
            Opcode::MOV_D_B => 0x50,
            Opcode::MOV_D_C => 0x51,
            Opcode::MOV_D_D => 0x52,
            Opcode::MOV_D_E => 0x53,
            Opcode::MOV_D_H => 0x54,
            Opcode::MOV_D_L => 0x55,
            Opcode::MOV_D_M => 0x56,
            Opcode::MOV_D_A => 0x57,
            Opcode::MOV_E_B => 0x58,
            Opcode::MOV_E_C => 0x59,
            Opcode::MOV_E_D => 0x5a,
            Opcode::MOV_E_E => 0x5b,
            Opcode::MOV_E_H => 0x5c,
            Opcode::MOV_E_L => 0x5d,
            Opcode::MOV_E_M => 0x5e,
            Opcode::MOV_E_A => 0x5f,
            Opcode::MOV_H_B => 0x60,
            Opcode::MOV_H_C => 0x61,
            Opcode::MOV_H_D => 0x62,
            Opcode::MOV_H_E => 0x63,
            Opcode::MOV_H_H => 0x64,
            Opcode::MOV_H_L => 0x65,
            Opcode::MOV_H_M => 0x66,
            Opcode::MOV_H_A => 0x67,
            Opcode::MOV_L_B => 0x68,
            Opcode::MOV_L_C => 0x69,
            Opcode::MOV_L_D => 0x6a,
            Opcode::MOV_L_E => 0x6b,
            Opcode::MOV_L_H => 0x6c,
            Opcode::MOV_L_L => 0x6d,
            Opcode::MOV_L_M => 0x6e,
            Opcode::MOV_L_A => 0x6f,
            Opcode::MOV_M_B => 0x70,
            Opcode::MOV_M_C => 0x71,
            Opcode::MOV_M_D => 0x72,
            Opcode::MOV_M_E => 0x73,
            Opcode::MOV_M_H => 0x74,
            Opcode::MOV_M_L => 0x75,
            Opcode::HLT => 0x76,
            Opcode::MOV_M_A => 0x77,
            Opcode::MOV_A_B => 0x78,
            Opcode::MOV_A_C => 0x79,
            Opcode::MOV_A_D => 0x7a,
            Opcode::MOV_A_E => 0x7b,
            Opcode::MOV_A_H => 0x7c,
            Opcode::MOV_A_L => 0x7d,
            Opcode::MOV_A_M => 0x7e,
            Opcode::MOV_A_A => 0x7f,
            Opcode::ADD_B => 0x80,
            Opcode::ADD_C => 0x81,
            Opcode::ADD_D => 0x82,
            Opcode::ADD_E => 0x83,
            Opcode::ADD_H => 0x84,
            Opcode::ADD_L => 0x85,
            Opcode::ADD_M => 0x86,
            Opcode::ADD_A => 0x87,
            Opcode::ADC_B => 0x88,
            Opcode::ADC_C => 0x89,
            Opcode::ADC_D => 0x8a,
            Opcode::ADC_E => 0x8b,
            Opcode::ADC_H => 0x8c,
            Opcode::ADC_L => 0x8d,
            Opcode::ADC_M => 0x8e,
            Opcode::ADC_A => 0x8f,
            Opcode::SUB_B => 0x90,
            Opcode::SUB_C => 0x91,
            Opcode::SUB_D => 0x92,
            Opcode::SUB_E => 0x93,
            Opcode::SUB_H => 0x94,
            Opcode::SUB_L => 0x95,
            Opcode::SUB_M => 0x96,
            Opcode::SUB_A => 0x97,
            Opcode::SBB_B => 0x98,
            Opcode::SBB_C => 0x99,
            Opcode::SBB_D => 0x9a,
            Opcode::SBB_E => 0x9b,
            Opcode::SBB_H => 0x9c,
            Opcode::SBB_L => 0x9d,
            Opcode::SBB_M => 0x9e,
            Opcode::SBB_A => 0x9f,
            Opcode::ANA_B => 0xa0,
            Opcode::ANA_C => 0xa1,
            Opcode::ANA_D => 0xa2,
            Opcode::ANA_E => 0xa3,
            Opcode::ANA_H => 0xa4,
            Opcode::ANA_L => 0xa5,
            Opcode::ANA_M => 0xa6,
            Opcode::ANA_A => 0xa7,
            Opcode::XRA_B => 0xa8,
            Opcode::XRA_C => 0xa9,
            Opcode::XRA_D => 0xaa,
            Opcode::XRA_E => 0xab,
            Opcode::XRA_H => 0xac,
            Opcode::XRA_L => 0xad,
            Opcode::XRA_M => 0xae,
            Opcode::XRA_A => 0xaf,
            Opcode::ORA_B => 0xb0,
            Opcode::ORA_C => 0xb1,
            Opcode::ORA_D => 0xb2,
            Opcode::ORA_E => 0xb3,
            Opcode::ORA_H => 0xb4,
            Opcode::ORA_L => 0xb5,
            Opcode::ORA_M => 0xb6,
            Opcode::ORA_A => 0xb7,
            Opcode::CMP_B => 0xb8,
            Opcode::CMP_C => 0xb9,
            Opcode::CMP_D => 0xba,
            Opcode::CMP_E => 0xbb,
            Opcode::CMP_H => 0xbc,
            Opcode::CMP_L => 0xbd,
            Opcode::CMP_M => 0xbe,
            Opcode::CMP_A => 0xbf,
            Opcode::RNZ => 0xc0,
            Opcode::POP_B => 0xc1,
            Opcode::JNZ => 0xc2,
            Opcode::JMP => 0xc3,
            Opcode::CNZ => 0xc4,
            Opcode::PUSH_B => 0xc5,
            Opcode::ADI => 0xc6,
            Opcode::RST_0 => 0xc7,
            Opcode::RZ => 0xc8,
            Opcode::RET => 0xc9,
            Opcode::JZ => 0xca,
            Opcode::UNDEF_8 => 0xcb,
            Opcode::CZ => 0xcc,
            Opcode::CALL => 0xcd,
            Opcode::ACI => 0xce,
            Opcode::RST_1 => 0xcf,
            Opcode::RNC => 0xd0,
            Opcode::POP_D => 0xd1,
            Opcode::JNC => 0xd2,
            Opcode::OUT => 0xd3,
            Opcode::CNC => 0xd4,
            Opcode::PUSH_D => 0xd5,
            Opcode::SUI => 0xd6,
            Opcode::RST_2 => 0xd7,
            Opcode::RC => 0xd8,
            Opcode::UNDEF_9 => 0xd9,
            Opcode::JC => 0xda,
            Opcode::IN => 0xdb,
            Opcode::CC => 0xdc,
            Opcode::UNDEF_10 => 0xdd,
            Opcode::SBI => 0xde,
            Opcode::RST_3 => 0xdf,
            Opcode::RPO => 0xe0,
            Opcode::POP_H => 0xe1,
            Opcode::JPO => 0xe2,
            Opcode::XTHL => 0xe3,
            Opcode::CPO => 0xe4,
            Opcode::PUSH_H => 0xe5,
            Opcode::ANI => 0xe6,
            Opcode::RST_4 => 0xe7,
            Opcode::RPE => 0xe8,
            Opcode::PCHL => 0xe9,
            Opcode::JPE => 0xea,
            Opcode::XCHG => 0xeb,
            Opcode::CPE => 0xec,
            Opcode::UNDEF_11 => 0xed,
            Opcode::XRI => 0xee,
            Opcode::RST_5 => 0xef,
            Opcode::RP => 0xf0,
            Opcode::POP_PSW => 0xf1,
            Opcode::JP => 0xf2,
            Opcode::DI => 0xf3,
            Opcode::CP => 0xf4,
            Opcode::PUSH_PSW => 0xf5,
            Opcode::ORI => 0xf6,
            Opcode::RST_6 => 0xf7,
            Opcode::RM => 0xf8,
            Opcode::SPHL => 0xf9,
            Opcode::JM => 0xfa,
            Opcode::EI => 0xfb,
            Opcode::CM => 0xfc,
            Opcode::UNDEF_12 => 0xfd,
            Opcode::CPI => 0xfe,
            Opcode::RST_7 => 0xff,
        }
    }

    /// The table entry of this opcode on the Intel 8080.
    pub fn info(&self) -> (r: OpcodeInfo)
        ensures
            r.len == len_spec(opcode_byte(*self)),
            r.t_per_m[0] == t_entry(opcode_byte(*self), 0, Variant::I8080),
            r.t_per_m[1] == t_entry(opcode_byte(*self), 1, Variant::I8080),
            r.t_per_m[2] == t_entry(opcode_byte(*self), 2, Variant::I8080),
            r.t_per_m[3] == t_entry(opcode_byte(*self), 3, Variant::I8080),
            r.t_per_m[4] == t_entry(opcode_byte(*self), 4, Variant::I8080),
    {
        self.info_for(Variant::I8080)
    }

    /// The table entry of this opcode on the given variant.
    #[verifier::rlimit(50)]
    pub fn info_for(&self, variant: Variant) -> (r: OpcodeInfo)
        ensures
            r.len == len_spec(opcode_byte(*self)),
            r.t_per_m[0] == t_entry(opcode_byte(*self), 0, variant),
            r.t_per_m[1] == t_entry(opcode_byte(*self), 1, variant),
            r.t_per_m[2] == t_entry(opcode_byte(*self), 2, variant),
            r.t_per_m[3] == t_entry(opcode_byte(*self), 3, variant),
            r.t_per_m[4] == t_entry(opcode_byte(*self), 4, variant),
    {
        let i8080 = variant == Variant::I8080;
        match self {
            Opcode::NOP => OpcodeInfo {
                name: "NOP",
                len: 1,
                t_per_m: [Some(4), None, None, None, None],
            },
            Opcode::LXI_B => OpcodeInfo {
                name: "LXI B,",
                len: 3,
                t_per_m: [Some(4), Some(3), Some(3), None, None],
            },
            Opcode::STAX_B => OpcodeInfo {
                name: "STAX B",
                len: 1,
                t_per_m: [Some(4), Some(3), None, None, None],
            },
            Opcode::INX_B => OpcodeInfo {
                name: "INX B",
                len: 1,
                t_per_m: if i8080 {
                    [Some(5), None, None, None, None]
                } else {
                    [Some(6), None, None, None, None]
                },
            },
            Opcode::INR_B => OpcodeInfo {
                name: "INR B",
                len: 1,
                t_per_m: if i8080 {
                    [Some(5), None, None, None, None]
                } else {
                    [Some(4), None, None, None, None]
                },
            },
            Opcode::DCR_B => OpcodeInfo {
                name: "DCR B",
                len: 1,
                t_per_m: if i8080 {
                    [Some(5), None, None, None, None]
                } else {
                    [Some(4), None, None, None, None]
                },
            },
            Opcode::MVI_B => OpcodeInfo {
                name: "MVI B,",
                len: 2,
                t_per_m: [Some(4), Some(3), None, None, None],
            },
            Opcode::RLC => OpcodeInfo {
                name: "RLC",
                len: 1,
                t_per_m: [Some(4), None, None, None, None],
            },
            Opcode::UNDEF_1 => OpcodeInfo {
                name: "UNDEF 1",
                len: 1,
                t_per_m: [Some(4), None, None, None, None],
            },
            Opcode::DAD_B => OpcodeInfo {
                name: "DAD B",
                len: 1,
                t_per_m: [Some(4), Some(3), Some(3), None, None],
            },
            Opcode::LDAX_B => OpcodeInfo {
                name: "LDAX B",
                len: 1,
                t_per_m: [Some(4), Some(3), None, None, None],
            },
            Opcode::DCX_B => OpcodeInfo {
                name: "DCX B",
                len: 1,
                t_per_m: if i8080 {
                    [Some(5), None, None, None, None]
                } else {
                    [Some(6), None, None, None, None]
                },
            },
            Opcode::INR_C => OpcodeInfo {
                name: "INR C",
                len: 1,
                t_per_m: if i8080 {
                    [Some(5), None, None, None, None]
                } else {
                    [Some(4), None, None, None, None]
                },
            },
            Opcode::DCR_C => OpcodeInfo {
                name: "DCR C",
                len: 1,
                t_per_m: if i8080 {
                    [Some(5), None, None, None, None]
                } else {
                    [Some(4), None, None, None, None]
                },
            },
            Opcode::MVI_C => OpcodeInfo {
                name: "MVI C,",
                len: 2,
                t_per_m: [Some(4), Some(3), None, None, None],
            },
            Opcode::RRC => OpcodeInfo {
                name: "RRC",
                len: 1,
                t_per_m: [Some(4), None, None, None, None],
            },
            Opcode::UNDEF_2 => OpcodeInfo {
                name: "UNDEF 2",
                len: 1,
                t_per_m: [Some(4), None, None, None, None],
            },
            Opcode::LXI_D => OpcodeInfo {
                name: "LXI D,",
                len: 3,
                t_per_m: [Some(4), Some(3), Some(3), None, None],
            },
            Opcode::STAX_D => OpcodeInfo {
                name: "STAX D",
                len: 1,
                t_per_m: [Some(4), Some(3), None, None, None],
            },
            Opcode::INX_D => OpcodeInfo {
                name: "INX D",
                len: 1,
                t_per_m: if i8080 {
                    [Some(5), None, None, None, None]
                } else {
                    [Some(6), None, None, None, None]
                },
            },
            Opcode::INR_D => OpcodeInfo {
                name: "INR D",
                len: 1,
                t_per_m: if i8080 {
                    [Some(5), None, None, None, None]
                } else {
                    [Some(4), None, None, None, None]
                },
            },
            Opcode::DCR_D => OpcodeInfo {
                name: "DCR D",
                len: 1,
                t_per_m: if i8080 {
                    [Some(5), None, None, None, None]
                } else {
                    [Some(4), None, None, None, None]
                },
            },
            Opcode::MVI_D => OpcodeInfo {
                name: "MVI D,",
                len: 2,
                t_per_m: [Some(4), Some(3), None, None, None],
            },
            Opcode::RAL => OpcodeInfo {
                name: "RAL",
                len: 1,
                t_per_m: [Some(4), None, None, None, None],
            },
            Opcode::UNDEF_3 => OpcodeInfo {
                name: "UNDEF 3",
                len: 1,
                t_per_m: [Some(4), None, None, None, None],
            },
            Opcode::DAD_D => OpcodeInfo {
                name: "DAD D",
                len: 1,
                t_per_m: [Some(4), Some(3), Some(3), None, None],
            },
            Opcode::LDAX_D => OpcodeInfo {
                name: "LDAX D",
                len: 1,
                t_per_m: [Some(4), Some(3), None, None, None],
            },
            Opcode::DCX_D => OpcodeInfo {
                name: "DCX D",
                len: 1,
                t_per_m: if i8080 {
                    [Some(5), None, None, None, None]
                } else {
                    [Some(6), None, None, None, None]
                },
            },
            Opcode::INR_E => OpcodeInfo {
                name: "INR E",
                len: 1,
                t_per_m: if i8080 {
                    [Some(5), None, None, None, None]
                } else {
                    [Some(4), None, None, None, None]
                },
            },
            Opcode::DCR_E => OpcodeInfo {
                name: "DCR E",
                len: 1,
                t_per_m: if i8080 {
                    [Some(5), None, None, None, None]
                } else {
                    [Some(4), None, None, None, None]
                },
            },
            Opcode::MVI_E => OpcodeInfo {
                name: "MVI E,",
                len: 2,
                t_per_m: [Some(4), Some(3), None, None, None],
            },
            Opcode::RAR => OpcodeInfo {
                name: "RAR",
                len: 1,
                t_per_m: [Some(4), None, None, None, None],
            },
            Opcode::UNDEF_4 => OpcodeInfo {
                name: "UNDEF 4",
                len: 1,
                t_per_m: [Some(4), None, None, None, None],
            },
            Opcode::LXI_H => OpcodeInfo {
                name: "LXI H,",
                len: 3,
                t_per_m: [Some(4), Some(3), Some(3), None, None],
            },
            Opcode::SHLD => OpcodeInfo {
                name: "SHLD ",
                len: 3,
                t_per_m: [Some(4), Some(3), Some(3), Some(3), Some(3)],
            },
            Opcode::INX_H => OpcodeInfo {
                name: "INX H",
                len: 1,
                t_per_m: if i8080 {
                    [Some(5), None, None, None, None]
                } else {
                    [Some(6), None, None, None, None]
                },
            },
            Opcode::INR_H => OpcodeInfo {
                name: "INR H",
                len: 1,
                t_per_m: if i8080 {
                    [Some(5), None, None, None, None]
                } else {
                    [Some(4), None, None, None, None]
                },
            },
            Opcode::DCR_H => OpcodeInfo {
                name: "DCR H",
                len: 1,
                t_per_m: if i8080 {
                    [Some(5), None, None, None, None]
                } else {
                    [Some(4), None, None, None, None]
                },
            },
            Opcode::MVI_H => OpcodeInfo {
                name: "MVI H,",
                len: 2,
                t_per_m: [Some(4), Some(3), None, None, None],
            },
            Opcode::DAA => OpcodeInfo {
                name: "DAA",
                len: 1,
                t_per_m: [Some(4), None, None, None, None],
            },
            Opcode::UNDEF_5 => OpcodeInfo {
                name: "UNDEF 5",
                len: 1,
                t_per_m: [Some(4), None, None, None, None],
            },
            Opcode::DAD_H => OpcodeInfo {
                name: "DAD H",
                len: 1,
                t_per_m: [Some(4), Some(3), Some(3), None, None],
            },
            Opcode::LHLD => OpcodeInfo {
                name: "LHLD ",
                len: 3,
                t_per_m: [Some(4), Some(3), Some(3), Some(3), Some(3)],
            },
            Opcode::DCX_H => OpcodeInfo {
                name: "DCX H",
                len: 1,
                t_per_m: if i8080 {
                    [Some(5), None, None, None, None]
                } else {
                    [Some(6), None, None, None, None]
                },
            },
            Opcode::INR_L => OpcodeInfo {
                name: "INR L",
                len: 1,
                t_per_m: if i8080 {
                    [Some(5), None, None, None, None]
                } else {
                    [Some(4), None, None, None, None]
                },
            },
            Opcode::DCR_L => OpcodeInfo {
                name: "DCR L",
                len: 1,
                t_per_m: if i8080 {
                    [Some(5), None, None, None, None]
                } else {
                    [Some(4), None, None, None, None]
                },
            },
            Opcode::MVI_L => OpcodeInfo {
                name: "MVI L,",
                len: 2,
                t_per_m: [Some(4), Some(3), None, None, None],
            },
            Opcode::CMA => OpcodeInfo {
                name: "CMA",
                len: 1,
                t_per_m: [Some(4), None, None, None, None],
            },
            Opcode::UNDEF_6 => OpcodeInfo {
                name: "UNDEF 6",
                len: 1,
                t_per_m: [Some(4), None, None, None, None],
            },
            Opcode::LXI_SP => OpcodeInfo {
                name: "LXI SP,",
                len: 3,
                t_per_m: [Some(4), Some(3), Some(3), None, None],
            },
            Opcode::STA => OpcodeInfo {
                name: "STA ",
                len: 3,
                t_per_m: [Some(4), Some(3), Some(3), Some(3), None],
            },
            Opcode::INX_SP => OpcodeInfo {
                name: "INX SP",
                len: 1,
                t_per_m: if i8080 {
                    [Some(5), None, None, None, None]
                } else {
                    [Some(6), None, None, None, None]
                },
            },
            Opcode::INR_M => OpcodeInfo {
                name: "INR M",
                len: 1,
                t_per_m: [Some(4), Some(3), Some(3), None, None],
            },
            Opcode::DCR_M => OpcodeInfo {
                name: "DCR M",
                len: 1,
                t_per_m: [Some(4), Some(3), Some(3), None, None],
            },
            Opcode::MVI_M => OpcodeInfo {
                name: "MVI M,",
                len: 2,
                t_per_m: [Some(4), Some(3), Some(3), None, None],
            },
            Opcode::STC => OpcodeInfo {
                name: "STC",
                len: 1,
                t_per_m: [Some(4), None, None, None, None],
            },
            Opcode::UNDEF_7 => OpcodeInfo {
                name: "UNDEF 7",
                len: 1,
                t_per_m: [Some(4), None, None, None, None],
            },
            Opcode::DAD_SP => OpcodeInfo {
                name: "DAD SP",
                len: 1,
                t_per_m: [Some(4), Some(3), Some(3), None, None],
            },
            Opcode::LDA => OpcodeInfo {
                name: "LDA ",
                len: 3,
                t_per_m: [Some(4), Some(3), Some(3), Some(3), None],
            },
            Opcode::DCX_SP => OpcodeInfo {
                name: "DCX SP",
                len: 1,
                t_per_m: if i8080 {
                    [Some(5), None, None, None, None]
                } else {
                    [Some(6), None, None, None, None]
                },
            },
            Opcode::INR_A => OpcodeInfo {
                name: "INR A",
                len: 1,
                t_per_m: if i8080 {
                    [Some(5), None, None, None, None]
                } else {
                    [Some(4), None, None, None, None]
                },
            },
            Opcode::DCR_A => OpcodeInfo {
                name: "DCR A",
                len: 1,
                t_per_m: if i8080 {
                    [Some(5), None, None, None, None]
                } else {
                    [Some(4), None, None, None, None]
                },
            },
            Opcode::MVI_A => OpcodeInfo {
                name: "MVI A,",
                len: 2,
                t_per_m: [Some(4), Some(3), None, None, None],
            },
            Opcode::CMC => OpcodeInfo {
                name: "CMC",
                len: 1,
                t_per_m: [Some(4), None, None, None, None],
            },
            Opcode::MOV_B_B => OpcodeInfo {
                name: "MOV B,B",
                len: 1,
                t_per_m: if i8080 {
                    [Some(5), None, None, None, None]
                } else {
                    [Some(4), None, None, None, None]
                },
            },
            Opcode::MOV_B_C => OpcodeInfo {
                name: "MOV B,C",
                len: 1,
                t_per_m: if i8080 {
                    [Some(5), None, None, None, None]
                } else {
                    [Some(4), None, None, None, None]
                },
            },
            Opcode::MOV_B_D => OpcodeInfo {
                name: "MOV B,D",
                len: 1,
                t_per_m: if i8080 {
                    [Some(5), None, None, None, None]
                } else {
                    [Some(4), None, None, None, None]
                },
            },
            Opcode::MOV_B_E => OpcodeInfo {
                name: "MOV B,E",
                len: 1,
                t_per_m: if i8080 {
                    [Some(5), None, None, None, None]
                } else {
                    [Some(4), None, None, None, None]
                },
            },
            Opcode::MOV_B_H => OpcodeInfo {
                name: "MOV B,H",
                len: 1,
                t_per_m: if i8080 {
                    [Some(5), None, None, None, None]
                } else {
                    [Some(4), None, None, None, None]
                },
            },
            Opcode::MOV_B_L => OpcodeInfo {
                name: "MOV B,L",
                len: 1,
                t_per_m: if i8080 {
                    [Some(5), None, None, None, None]
                } else {
                    [Some(4), None, None, None, None]
                },
            },
            Opcode::MOV_B_M => OpcodeInfo {
                name: "MOV B,M",
                len: 1,
                t_per_m: [Some(4), Some(3), None, None, None],
            },
            Opcode::MOV_B_A => OpcodeInfo {
                name: "MOV B,A",
                len: 1,
                t_per_m: if i8080 {
                    [Some(5), None, None, None, None]
                } else {
                    [Some(4), None, None, None, None]
                },
            },
            Opcode::MOV_C_B => OpcodeInfo {
                name: "MOV C,B",
                len: 1,
                t_per_m: if i8080 {
                    [Some(5), None, None, None, None]
                } else {
                    [Some(4), None, None, None, None]
                },
            },
            Opcode::MOV_C_C => OpcodeInfo {
                name: "MOV C,C",
                len: 1,
                t_per_m: if i8080 {
                    [Some(5), None, None, None, None]
                } else {
                    [Some(4), None, None, None, None]
                },
            },
            Opcode::MOV_C_D => OpcodeInfo {
                name: "MOV C,D",
                len: 1,
                t_per_m: if i8080 {
                    [Some(5), None, None, None, None]
                } else {
                    [Some(4), None, None, None, None]
                },
            },
            Opcode::MOV_C_E => OpcodeInfo {
                name: "MOV C,E",
                len: 1,
                t_per_m: if i8080 {
                    [Some(5), None, None, None, None]
                } else {
                    [Some(4), None, None, None, None]
                },
            },
            Opcode::MOV_C_H => OpcodeInfo {
                name: "MOV C,H",
                len: 1,
                t_per_m: if i8080 {
                    [Some(5), None, None, None, None]
                } else {
                    [Some(4), None, None, None, None]
                },
            },
            Opcode::MOV_C_L => OpcodeInfo {
                name: "MOV C,L",
                len: 1,
                t_per_m: if i8080 {
                    [Some(5), None, None, None, None]
                } else {
                    [Some(4), None, None, None, None]
                },
            },
            Opcode::MOV_C_M => OpcodeInfo {
                name: "MOV C,M",
                len: 1,
                t_per_m: [Some(4), Some(3), None, None, None],
            },
            Opcode::MOV_C_A => OpcodeInfo {
                name: "MOV C,A",
                len: 1,
                t_per_m: if i8080 {
                    [Some(5), None, None, None, None]
                } else {
                    [Some(4), None, None, None, None]
                },
            },
            Opcode::MOV_D_B => OpcodeInfo {
                name: "MOV D,B",
                len: 1,
                t_per_m: if i8080 {
                    [Some(5), None, None, None, None]
                } else {
                    [Some(4), None, None, None, None]
                },
            },
            Opcode::MOV_D_C => OpcodeInfo {
                name: "MOV D,C",
                len: 1,
                t_per_m: if i8080 {
                    [Some(5), None, None, None, None]
                } else {
                    [Some(4), None, None, None, None]
                },
            },
            Opcode::MOV_D_D => OpcodeInfo {
                name: "MOV D,D",
                len: 1,
                t_per_m: if i8080 {
                    [Some(5), None, None, None, None]
                } else {
                    [Some(4), None, None, None, None]
                },
            },
            Opcode::MOV_D_E => OpcodeInfo {
                name: "MOV D,E",
                len: 1,
                t_per_m: if i8080 {
                    [Some(5), None, None, None, None]
                } else {
                    [Some(4), None, None, None, None]
                },
            },
            Opcode::MOV_D_H => OpcodeInfo {
                name: "MOV D,H",
                len: 1,
                t_per_m: if i8080 {
                    [Some(5), None, None, None, None]
                } else {
                    [Some(4), None, None, None, None]
                },
            },
            Opcode::MOV_D_L => OpcodeInfo {
                name: "MOV D,L",
                len: 1,
                t_per_m: if i8080 {
                    [Some(5), None, None, None, None]
                } else {
                    [Some(4), None, None, None, None]
                },
            },
            Opcode::MOV_D_M => OpcodeInfo {
                name: "MOV D,M",
                len: 1,
                t_per_m: [Some(4), Some(3), None, None, None],
            },
            Opcode::MOV_D_A => OpcodeInfo {
                name: "MOV D,A",
                len: 1,
                t_per_m: if i8080 {
                    [Some(5), None, None, None, None]
                } else {
                    [Some(4), None, None, None, None]
                },
            },
            Opcode::MOV_E_B => OpcodeInfo {
                name: "MOV E,B",
                len: 1,
                t_per_m: if i8080 {
                    [Some(5), None, None, None, None]
                } else {
                    [Some(4), None, None, None, None]
                },
            },
            Opcode::MOV_E_C => OpcodeInfo {
                name: "MOV E,C",
                len: 1,
                t_per_m: if i8080 {
                    [Some(5), None, None, None, None]
                } else {
                    [Some(4), None, None, None, None]
                },
            },
            Opcode::MOV_E_D => OpcodeInfo {
                name: "MOV E,D",
                len: 1,
                t_per_m: if i8080 {
                    [Some(5), None, None, None, None]
                } else {
                    [Some(4), None, None, None, None]
                },
            },
            Opcode::MOV_E_E => OpcodeInfo {
                name: "MOV E,E",
                len: 1,
                t_per_m: if i8080 {
                    [Some(5), None, None, None, None]
                } else {
                    [Some(4), None, None, None, None]
                },
            },
            Opcode::MOV_E_H => OpcodeInfo {
                name: "MOV E,H",
                len: 1,
                t_per_m: if i8080 {
                    [Some(5), None, None, None, None]
                } else {
                    [Some(4), None, None, None, None]
                },
            },
            Opcode::MOV_E_L => OpcodeInfo {
                name: "MOV E,L",
                len: 1,
                t_per_m: if i8080 {
                    [Some(5), None, None, None, None]
                } else {
                    [Some(4), None, None, None, None]
                },
            },
            Opcode::MOV_E_M => OpcodeInfo {
                name: "MOV E,M",
                len: 1,
                t_per_m: [Some(4), Some(3), None, None, None],
            },
            Opcode::MOV_E_A => OpcodeInfo {
                name: "MOV E,A",
                len: 1,
                t_per_m: if i8080 {
                    [Some(5), None, None, None, None]
                } else {
                    [Some(4), None, None, None, None]
                },
            },
            Opcode::MOV_H_B => OpcodeInfo {
                name: "MOV H,B",
                len: 1,
                t_per_m: if i8080 {
                    [Some(5), None, None, None, None]
                } else {
                    [Some(4), None, None, None, None]
                },
            },
            Opcode::MOV_H_C => OpcodeInfo {
                name: "MOV H,C",
                len: 1,
                t_per_m: if i8080 {
                    [Some(5), None, None, None, None]
                } else {
                    [Some(4), None, None, None, None]
                },
            },
            Opcode::MOV_H_D => OpcodeInfo {
                name: "MOV H,D",
                len: 1,
                t_per_m: if i8080 {
                    [Some(5), None, None, None, None]
                } else {
                    [Some(4), None, None, None, None]
                },
            },
            Opcode::MOV_H_E => OpcodeInfo {
                name: "MOV H,E",
                len: 1,
                t_per_m: if i8080 {
                    [Some(5), None, None, None, None]
                } else {
                    [Some(4), None, None, None, None]
                },
            },
            Opcode::MOV_H_H => OpcodeInfo {
                name: "MOV H,H",
                len: 1,
                t_per_m: if i8080 {
                    [Some(5), None, None, None, None]
                } else {
                    [Some(4), None, None, None, None]
                },
            },
            Opcode::MOV_H_L => OpcodeInfo {
                name: "MOV H,L",
                len: 1,
                t_per_m: if i8080 {
                    [Some(5), None, None, None, None]
                } else {
                    [Some(4), None, None, None, None]
                },
            },
            Opcode::MOV_H_M => OpcodeInfo {
                name: "MOV H,M",
                len: 1,
                t_per_m: [Some(4), Some(3), None, None, None],
            },
            Opcode::MOV_H_A => OpcodeInfo {
                name: "MOV H,A",
                len: 1,
                t_per_m: if i8080 {
                    [Some(5), None, None, None, None]
                } else {
                    [Some(4), None, None, None, None]
                },
            },
            Opcode::MOV_L_B => OpcodeInfo {
                name: "MOV L,B",
                len: 1,
                t_per_m: if i8080 {
                    [Some(5), None, None, None, None]
                } else {
                    [Some(4), None, None, None, None]
                },
            },
            Opcode::MOV_L_C => OpcodeInfo {
                name: "MOV L,C",
                len: 1,
                t_per_m: if i8080 {
                    [Some(5), None, None, None, None]
                } else {
                    [Some(4), None, None, None, None]
                },
            },
            Opcode::MOV_L_D => OpcodeInfo {
                name: "MOV L,D",
                len: 1,
                t_per_m: if i8080 {
                    [Some(5), None, None, None, None]
                } else {
                    [Some(4), None, None, None, None]
                },
            },
            Opcode::MOV_L_E => OpcodeInfo {
                name: "MOV L,E",
                len: 1,
                t_per_m: if i8080 {
                    [Some(5), None, None, None, None]
                } else {
                    [Some(4), None, None, None, None]
                },
            },
            Opcode::MOV_L_H => OpcodeInfo {
                name: "MOV L,H",
                len: 1,
                t_per_m: if i8080 {
                    [Some(5), None, None, None, None]
                } else {
                    [Some(4), None, None, None, None]
                },
            },
            Opcode::MOV_L_L => OpcodeInfo {
                name: "MOV L,L",
                len: 1,
                t_per_m: if i8080 {
                    [Some(5), None, None, None, None]
                } else {
                    [Some(4), None, None, None, None]
                },
            },
            Opcode::MOV_L_M => OpcodeInfo {
                name: "MOV L,M",
                len: 1,
                t_per_m: [Some(4), Some(3), None, None, None],
            },
            Opcode::MOV_L_A => OpcodeInfo {
                name: "MOV L,A",
                len: 1,
                t_per_m: if i8080 {
                    [Some(5), None, None, None, None]
                } else {
                    [Some(4), None, None, None, None]
                },
            },
            Opcode::MOV_M_B => OpcodeInfo {
                name: "MOV M,B",
                len: 1,
                t_per_m: [Some(4), Some(3), None, None, None],
            },
            Opcode::MOV_M_C => OpcodeInfo {
                name: "MOV M,C",
                len: 1,
                t_per_m: [Some(4), Some(3), None, None, None],
            },
            Opcode::MOV_M_D => OpcodeInfo {
                name: "MOV M,D",
                len: 1,
                t_per_m: [Some(4), Some(3), None, None, None],
            },
            Opcode::MOV_M_E => OpcodeInfo {
                name: "MOV M,E",
                len: 1,
                t_per_m: [Some(4), Some(3), None, None, None],
            },
            Opcode::MOV_M_H => OpcodeInfo {
                name: "MOV M,H",
                len: 1,
                t_per_m: [Some(4), Some(3), None, None, None],
            },
            Opcode::MOV_M_L => OpcodeInfo {
                name: "MOV M,L",
                len: 1,
                t_per_m: [Some(4), Some(3), None, None, None],
            },
            Opcode::HLT => OpcodeInfo {
                name: "HLT",
                len: 1,
                t_per_m: if i8080 {
                    [Some(7), None, None, None, None]
                } else {
                    [Some(5), None, None, None, None]
                },
            },
            Opcode::MOV_M_A => OpcodeInfo {
                name: "MOV M,A",
                len: 1,
                t_per_m: [Some(4), Some(3), None, None, None],
            },
            Opcode::MOV_A_B => OpcodeInfo {
                name: "MOV A,B",
                len: 1,
                t_per_m: if i8080 {
                    [Some(5), None, None, None, None]
                } else {
                    [Some(4), None, None, None, None]
                },
            },
            Opcode::MOV_A_C => OpcodeInfo {
                name: "MOV A,C",
                len: 1,
                t_per_m: if i8080 {
                    [Some(5), None, None, None, None]
                } else {
                    [Some(4), None, None, None, None]
                },
            },
            Opcode::MOV_A_D => OpcodeInfo {
                name: "MOV A,D",
                len: 1,
                t_per_m: if i8080 {
                    [Some(5), None, None, None, None]
                } else {
                    [Some(4), None, None, None, None]
                },
            },
            Opcode::MOV_A_E => OpcodeInfo {
                name: "MOV A,E",
                len: 1,
                t_per_m: if i8080 {
                    [Some(5), None, None, None, None]
                } else {
                    [Some(4), None, None, None, None]
                },
            },
            Opcode::MOV_A_H => OpcodeInfo {
                name: "MOV A,H",
                len: 1,
                t_per_m: if i8080 {
                    [Some(5), None, None, None, None]
                } else {
                    [Some(4), None, None, None, None]
                },
            },
            Opcode::MOV_A_L => OpcodeInfo {
                name: "MOV A,L",
                len: 1,
                t_per_m: if i8080 {
                    [Some(5), None, None, None, None]
                } else {
                    [Some(4), None, None, None, None]
                },
            },
            Opcode::MOV_A_M => OpcodeInfo {
                name: "MOV A,M",
                len: 1,
                t_per_m: [Some(4), Some(3), None, None, None],
            },
            Opcode::MOV_A_A => OpcodeInfo {
                name: "MOV A,A",
                len: 1,
                t_per_m: if i8080 {
                    [Some(5), None, None, None, None]
                } else {
                    [Some(4), None, None, None, None]
                },
            },
            Opcode::ADD_B => OpcodeInfo {
                name: "ADD B",
                len: 1,
                t_per_m: [Some(4), None, None, None, None],
            },
            Opcode::ADD_C => OpcodeInfo {
                name: "ADD C",
                len: 1,
                t_per_m: [Some(4), None, None, None, None],
            },
            Opcode::ADD_D => OpcodeInfo {
                name: "ADD D",
                len: 1,
                t_per_m: [Some(4), None, None, None, None],
            },
            Opcode::ADD_E => OpcodeInfo {
                name: "ADD E",
                len: 1,
                t_per_m: [Some(4), None, None, None, None],
            },
            Opcode::ADD_H => OpcodeInfo {
                name: "ADD H",
                len: 1,
                t_per_m: [Some(4), None, None, None, None],
            },
            Opcode::ADD_L => OpcodeInfo {
                name: "ADD L",
                len: 1,
                t_per_m: [Some(4), None, None, None, None],
            },
            Opcode::ADD_M => OpcodeInfo {
                name: "ADD M",
                len: 1,
                t_per_m: [Some(4), Some(3), None, None, None],
            },
            Opcode::ADD_A => OpcodeInfo {
                name: "ADD A",
                len: 1,
                t_per_m: [Some(4), None, None, None, None],
            },
            Opcode::ADC_B => OpcodeInfo {
                name: "ADC B",
                len: 1,
                t_per_m: [Some(4), None, None, None, None],
            },
            Opcode::ADC_C => OpcodeInfo {
                name: "ADC C",
                len: 1,
                t_per_m: [Some(4), None, None, None, None],
            },
            Opcode::ADC_D => OpcodeInfo {
                name: "ADC D",
                len: 1,
                t_per_m: [Some(4), None, None, None, None],
            },
            Opcode::ADC_E => OpcodeInfo {
                name: "ADC E",
                len: 1,
                t_per_m: [Some(4), None, None, None, None],
            },
            Opcode::ADC_H => OpcodeInfo {
                name: "ADC H",
                len: 1,
                t_per_m: [Some(4), None, None, None, None],
            },
            Opcode::ADC_L => OpcodeInfo {
                name: "ADC L",
                len: 1,
                t_per_m: [Some(4), None, None, None, None],
            },
            Opcode::ADC_M => OpcodeInfo {
                name: "ADC M",
                len: 1,
                t_per_m: [Some(4), Some(3), None, None, None],
            },
            Opcode::ADC_A => OpcodeInfo {
                name: "ADC A",
                len: 1,
                t_per_m: [Some(4), None, None, None, None],
            },
            Opcode::SUB_B => OpcodeInfo {
                name: "SUB B",
                len: 1,
                t_per_m: [Some(4), None, None, None, None],
            },
            Opcode::SUB_C => OpcodeInfo {
                name: "SUB C",
                len: 1,
                t_per_m: [Some(4), None, None, None, None],
            },
            Opcode::SUB_D => OpcodeInfo {
                name: "SUB D",
                len: 1,
                t_per_m: [Some(4), None, None, None, None],
            },
            Opcode::SUB_E => OpcodeInfo {
                name: "SUB E",
                len: 1,
                t_per_m: [Some(4), None, None, None, None],
            },
            Opcode::SUB_H => OpcodeInfo {
                name: "SUB H",
                len: 1,
                t_per_m: [Some(4), None, None, None, None],
            },
            Opcode::SUB_L => OpcodeInfo {
                name: "SUB L",
                len: 1,
                t_per_m: [Some(4), None, None, None, None],
            },
            Opcode::SUB_M => OpcodeInfo {
                name: "SUB M",
                len: 1,
                t_per_m: [Some(4), Some(3), None, None, None],
            },
            Opcode::SUB_A => OpcodeInfo {
                name: "SUB A",
                len: 1,
                t_per_m: [Some(4), None, None, None, None],
            },
            Opcode::SBB_B => OpcodeInfo {
                name: "SBB B",
                len: 1,
                t_per_m: [Some(4), None, None, None, None],
            },
            Opcode::SBB_C => OpcodeInfo {
                name: "SBB C",
                len: 1,
                t_per_m: [Some(4), None, None, None, None],
            },
            Opcode::SBB_D => OpcodeInfo {
                name: "SBB D",
                len: 1,
                t_per_m: [Some(4), None, None, None, None],
            },
            Opcode::SBB_E => OpcodeInfo {
                name: "SBB E",
                len: 1,
                t_per_m: [Some(4), None, None, None, None],
            },
            Opcode::SBB_H => OpcodeInfo {
                name: "SBB H",
                len: 1,
                t_per_m: [Some(4), None, None, None, None],
            },
            Opcode::SBB_L => OpcodeInfo {
                name: "SBB L",
                len: 1,
                t_per_m: [Some(4), None, None, None, None],
            },
            Opcode::SBB_M => OpcodeInfo {
                name: "SBB M",
                len: 1,
                t_per_m: [Some(4), Some(3), None, None, None],
            },
            Opcode::SBB_A => OpcodeInfo {
                name: "SBB A",
                len: 1,
                t_per_m: [Some(4), None, None, None, None],
            },
            Opcode::ANA_B => OpcodeInfo {
                name: "ANA B",
                len: 1,
                t_per_m: [Some(4), None, None, None, None],
            },
            Opcode::ANA_C => OpcodeInfo {
                name: "ANA C",
                len: 1,
                t_per_m: [Some(4), None, None, None, None],
            },
            Opcode::ANA_D => OpcodeInfo {
                name: "ANA D",
                len: 1,
                t_per_m: [Some(4), None, None, None, None],
            },
            Opcode::ANA_E => OpcodeInfo {
                name: "ANA E",
                len: 1,
                t_per_m: [Some(4), None, None, None, None],
            },
            Opcode::ANA_H => OpcodeInfo {
                name: "ANA H",
                len: 1,
                t_per_m: [Some(4), None, None, None, None],
            },
            Opcode::ANA_L => OpcodeInfo {
                name: "ANA L",
                len: 1,
                t_per_m: [Some(4), None, None, None, None],
            },
            Opcode::ANA_M => OpcodeInfo {
                name: "ANA M",
                len: 1,
                t_per_m: [Some(4), Some(3), None, None, None],
            },
            Opcode::ANA_A => OpcodeInfo {
                name: "ANA A",
                len: 1,
                t_per_m: [Some(4), None, None, None, None],
            },
            Opcode::XRA_B => OpcodeInfo {
                name: "XRA B",
                len: 1,
                t_per_m: [Some(4), None, None, None, None],
            },
            Opcode::XRA_C => OpcodeInfo {
                name: "XRA C",
                len: 1,
                t_per_m: [Some(4), None, None, None, None],
            },
            Opcode::XRA_D => OpcodeInfo {
                name: "XRA D",
                len: 1,
                t_per_m: [Some(4), None, None, None, None],
            },
            Opcode::XRA_E => OpcodeInfo {
                name: "XRA E",
                len: 1,
                t_per_m: [Some(4), None, None, None, None],
            },
            Opcode::XRA_H => OpcodeInfo {
                name: "XRA H",
                len: 1,
                t_per_m: [Some(4), None, None, None, None],
            },
            Opcode::XRA_L => OpcodeInfo {
                name: "XRA L",
                len: 1,
                t_per_m: [Some(4), None, None, None, None],
            },
            Opcode::XRA_M => OpcodeInfo {
                name: "XRA M",
                len: 1,
                t_per_m: [Some(4), Some(3), None, None, None],
            },
            Opcode::XRA_A => OpcodeInfo {
                name: "XRA A",
                len: 1,
                t_per_m: [Some(4), None, None, None, None],
            },
            Opcode::ORA_B => OpcodeInfo {
                name: "ORA B",
                len: 1,
                t_per_m: [Some(4), None, None, None, None],
            },
            Opcode::ORA_C => OpcodeInfo {
                name: "ORA C",
                len: 1,
                t_per_m: [Some(4), None, None, None, None],
            },
            Opcode::ORA_D => OpcodeInfo {
                name: "ORA D",
                len: 1,
                t_per_m: [Some(4), None, None, None, None],
            },
            Opcode::ORA_E => OpcodeInfo {
                name: "ORA E",
                len: 1,
                t_per_m: [Some(4), None, None, None, None],
            },
            Opcode::ORA_H => OpcodeInfo {
                name: "ORA H",
                len: 1,
                t_per_m: [Some(4), None, None, None, None],
            },
            Opcode::ORA_L => OpcodeInfo {
                name: "ORA L",
                len: 1,
                t_per_m: [Some(4), None, None, None, None],
            },
            Opcode::ORA_M => OpcodeInfo {
                name: "ORA M",
                len: 1,
                t_per_m: [Some(4), Some(3), None, None, None],
            },
            Opcode::ORA_A => OpcodeInfo {
                name: "ORA A",
                len: 1,
                t_per_m: [Some(4), None, None, None, None],
            },
            Opcode::CMP_B => OpcodeInfo {
                name: "CMP B",
                len: 1,
                t_per_m: [Some(4), None, None, None, None],
            },
            Opcode::CMP_C => OpcodeInfo {
                name: "CMP C",
                len: 1,
                t_per_m: [Some(4), None, None, None, None],
            },
            Opcode::CMP_D => OpcodeInfo {
                name: "CMP D",
                len: 1,
                t_per_m: [Some(4), None, None, None, None],
            },
            Opcode::CMP_E => OpcodeInfo {
                name: "CMP E",
                len: 1,
                t_per_m: [Some(4), None, None, None, None],
            },
            Opcode::CMP_H => OpcodeInfo {
                name: "CMP H",
                len: 1,
                t_per_m: [Some(4), None, None, None, None],
            },
            Opcode::CMP_L => OpcodeInfo {
                name: "CMP L",
                len: 1,
                t_per_m: [Some(4), None, None, None, None],
            },
            Opcode::CMP_M => OpcodeInfo {
                name: "CMP M",
                len: 1,
                t_per_m: [Some(4), Some(3), None, None, None],
            },
            Opcode::CMP_A => OpcodeInfo {
                name: "CMP A",
                len: 1,
                t_per_m: [Some(4), None, None, None, None],
            },
            Opcode::RNZ => OpcodeInfo {
                name: "RNZ",
                len: 1,
                t_per_m: if i8080 {
                    [Some(5), Some(3), Some(3), None, None]
                } else {
                    [Some(6), Some(3), Some(3), None, None]
                },
            },
            Opcode::POP_B => OpcodeInfo {
                name: "POP B",
                len: 1,
                t_per_m: [Some(4), Some(3), Some(3), None, None],
            },
            Opcode::JNZ => OpcodeInfo {
                name: "JNZ ",
                len: 3,
                t_per_m: [Some(4), Some(3), Some(3), None, None],
            },
            Opcode::JMP => OpcodeInfo {
                name: "JMP ",
                len: 3,
                t_per_m: [Some(4), Some(3), Some(3), None, None],
            },
            Opcode::CNZ => OpcodeInfo {
                name: "CNZ ",
                len: 3,
                t_per_m: if i8080 {
                    [Some(4), Some(3), Some(4), Some(3), Some(3)]
                } else {
                    [Some(4), Some(5), Some(3), Some(3), Some(3)]
                },
            },
            Opcode::PUSH_B => OpcodeInfo {
                name: "PUSH B",
                len: 1,
                t_per_m: if i8080 {
                    [Some(4), Some(3), Some(4), None, None]
                } else {
                    [Some(4), Some(4), Some(5), None, None]
                },
            },
            Opcode::ADI => OpcodeInfo {
                name: "ADI ",
                len: 2,
                t_per_m: [Some(4), Some(3), None, None, None],
            },
            Opcode::RST_0 => OpcodeInfo {
                name: "RST 0",
                len: 1,
                t_per_m: if i8080 {
                    [Some(4), Some(3), Some(4), None, None]
                } else {
                    [Some(4), Some(4), Some(4), None, None]
                },
            },
            Opcode::RZ => OpcodeInfo {
                name: "RZ",
                len: 1,
                t_per_m: if i8080 {
                    [Some(5), Some(3), Some(3), None, None]
                } else {
                    [Some(6), Some(3), Some(3), None, None]
                },
            },
            Opcode::RET => OpcodeInfo {
                name: "RET",
                len: 1,
                t_per_m: [Some(4), Some(3), Some(3), None, None],
            },
            Opcode::JZ => OpcodeInfo {
                name: "JZ ",
                len: 3,
                t_per_m: [Some(4), Some(3), Some(3), None, None],
            },
            Opcode::UNDEF_8 => OpcodeInfo {
                name: "UNDEF 8",
                len: 1,
                t_per_m: [Some(4), None, None, None, None],
            },
            Opcode::CZ => OpcodeInfo {
                name: "CZ ",
                len: 3,
                t_per_m: if i8080 {
                    [Some(4), Some(3), Some(4), Some(3), Some(3)]
                } else {
                    [Some(4), Some(5), Some(3), Some(3), Some(3)]
                },
            },
            Opcode::CALL => OpcodeInfo {
                name: "CALL ",
                len: 3,
                t_per_m: if i8080 {
                    [Some(4), Some(3), Some(3), Some(3), Some(4)]
                } else {
                    [Some(4), Some(3), Some(3), Some(4), Some(4)]
                },
            },
            Opcode::ACI => OpcodeInfo {
                name: "ACI ",
                len: 2,
                t_per_m: [Some(4), Some(3), None, None, None],
            },
            Opcode::RST_1 => OpcodeInfo {
                name: "RST 1",
                len: 1,
                t_per_m: if i8080 {
                    [Some(4), Some(3), Some(4), None, None]
                } else {
                    [Some(4), Some(4), Some(4), None, None]
                },
            },
            Opcode::RNC => OpcodeInfo {
                name: "RNC",
                len: 1,
                t_per_m: if i8080 {
                    [Some(5), Some(3), Some(3), None, None]
                } else {
                    [Some(6), Some(3), Some(3), None, None]
                },
            },
            Opcode::POP_D => OpcodeInfo {
                name: "POP D",
                len: 1,
                t_per_m: [Some(4), Some(3), Some(3), None, None],
            },
            Opcode::JNC => OpcodeInfo {
                name: "JNC ",
                len: 3,
                t_per_m: [Some(4), Some(3), Some(3), None, None],
            },
            Opcode::OUT => OpcodeInfo {
                name: "OUT ",
                len: 2,
                t_per_m: [Some(4), Some(3), Some(3), None, None],
            },
            Opcode::CNC => OpcodeInfo {
                name: "CNC ",
                len: 3,
                t_per_m: if i8080 {
                    [Some(4), Some(3), Some(4), Some(3), Some(3)]
                } else {
                    [Some(4), Some(5), Some(3), Some(3), Some(3)]
                },
            },
            Opcode::PUSH_D => OpcodeInfo {
                name: "PUSH D",
                len: 1,
                t_per_m: if i8080 {
                    [Some(4), Some(3), Some(4), None, None]
                } else {
                    [Some(4), Some(4), Some(5), None, None]
                },
            },
            Opcode::SUI => OpcodeInfo {
                name: "SUI ",
                len: 2,
                t_per_m: [Some(4), Some(3), None, None, None],
            },
            Opcode::RST_2 => OpcodeInfo {
                name: "RST 2",
                len: 1,
                t_per_m: if i8080 {
                    [Some(4), Some(3), Some(4), None, None]
                } else {
                    [Some(4), Some(4), Some(4), None, None]
                },
            },
            Opcode::RC => OpcodeInfo {
                name: "RC",
                len: 1,
                t_per_m: if i8080 {
                    [Some(5), Some(3), Some(3), None, None]
                } else {
                    [Some(6), Some(3), Some(3), None, None]
                },
            },
            Opcode::UNDEF_9 => OpcodeInfo {
                name: "UNDEF 9",
                len: 1,
                t_per_m: [Some(4), None, None, None, None],
            },
            Opcode::JC => OpcodeInfo {
                name: "JC ",
                len: 3,
                t_per_m: [Some(4), Some(3), Some(3), None, None],
            },
            Opcode::IN => OpcodeInfo {
                name: "IN ",
                len: 2,
                t_per_m: [Some(4), Some(3), Some(3), None, None],
            },
            Opcode::CC => OpcodeInfo {
                name: "CC ",
                len: 3,
                t_per_m: if i8080 {
                    [Some(4), Some(3), Some(4), Some(3), Some(3)]
                } else {
                    [Some(4), Some(5), Some(3), Some(3), Some(3)]
                },
            },
            Opcode::UNDEF_10 => OpcodeInfo {
                name: "UNDEF 10",
                len: 1,
                t_per_m: [Some(4), None, None, None, None],
            },
            Opcode::SBI => OpcodeInfo {
                name: "SBI ",
                len: 2,
                t_per_m: [Some(4), Some(3), None, None, None],
            },
            Opcode::RST_3 => OpcodeInfo {
                name: "RST 3",
                len: 1,
                t_per_m: if i8080 {
                    [Some(4), Some(3), Some(4), None, None]
                } else {
                    [Some(4), Some(4), Some(4), None, None]
                },
            },
            Opcode::RPO => OpcodeInfo {
                name: "RPO",
                len: 1,
                t_per_m: if i8080 {
                    [Some(5), Some(3), Some(3), None, None]
                } else {
                    [Some(6), Some(3), Some(3), None, None]
                },
            },
            Opcode::POP_H => OpcodeInfo {
                name: "POP H",
                len: 1,
                t_per_m: [Some(4), Some(3), Some(3), None, None],
            },
            Opcode::JPO => OpcodeInfo {
                name: "JPO ",
                len: 3,
                t_per_m: [Some(4), Some(3), Some(3), None, None],
            },
            Opcode::XTHL => OpcodeInfo {
                name: "XTHL",
                len: 1,
                t_per_m: if i8080 {
                    [Some(4), Some(3), Some(3), Some(4), Some(4)]
                } else {
                    [Some(4), Some(3), Some(3), Some(3), Some(3)]
                },
            },
            Opcode::CPO => OpcodeInfo {
                name: "CPO ",
                len: 3,
                t_per_m: if i8080 {
                    [Some(4), Some(3), Some(4), Some(3), Some(3)]
                } else {
                    [Some(4), Some(5), Some(3), Some(3), Some(3)]
                },
            },
            Opcode::PUSH_H => OpcodeInfo {
                name: "PUSH H",
                len: 1,
                t_per_m: if i8080 {
                    [Some(4), Some(3), Some(4), None, None]
                } else {
                    [Some(4), Some(4), Some(5), None, None]
                },
            },
            Opcode::ANI => OpcodeInfo {
                name: "ANI ",
                len: 2,
                t_per_m: [Some(4), Some(3), None, None, None],
            },
            Opcode::RST_4 => OpcodeInfo {
                name: "RST 4",
                len: 1,
                t_per_m: if i8080 {
                    [Some(4), Some(3), Some(4), None, None]
                } else {
                    [Some(4), Some(4), Some(4), None, None]
                },
            },
            Opcode::RPE => OpcodeInfo {
                name: "RPE",
                len: 1,
                t_per_m: if i8080 {
                    [Some(5), Some(3), Some(3), None, None]
                } else {
                    [Some(6), Some(3), Some(3), None, None]
                },
            },
            Opcode::PCHL => OpcodeInfo {
                name: "PCHL",
                len: 1,
                t_per_m: if i8080 {
                    [Some(5), None, None, None, None]
                } else {
                    [Some(6), None, None, None, None]
                },
            },
            Opcode::JPE => OpcodeInfo {
                name: "JPE ",
                len: 3,
                t_per_m: [Some(4), Some(3), Some(3), None, None],
            },
            Opcode::XCHG => OpcodeInfo {
                name: "XCHG",
                len: 1,
                t_per_m: [Some(4), None, None, None, None],
            },
            Opcode::CPE => OpcodeInfo {
                name: "CPE ",
                len: 3,
                t_per_m: if i8080 {
                    [Some(4), Some(3), Some(4), Some(3), Some(3)]
                } else {
                    [Some(4), Some(5), Some(3), Some(3), Some(3)]
                },
            },
            Opcode::UNDEF_11 => OpcodeInfo {
                name: "UNDEF 11",
                len: 1,
                t_per_m: [Some(4), None, None, None, None],
            },
            Opcode::XRI => OpcodeInfo {
                name: "XRI ",
                len: 2,
                t_per_m: [Some(4), Some(3), None, None, None],
            },
            Opcode::RST_5 => OpcodeInfo {
                name: "RST 5",
                len: 1,
                t_per_m: if i8080 {
                    [Some(4), Some(3), Some(4), None, None]
                } else {
                    [Some(4), Some(4), Some(4), None, None]
                },
            },
            Opcode::RP => OpcodeInfo {
                name: "RP",
                len: 1,
                t_per_m: if i8080 {
                    [Some(5), Some(3), Some(3), None, None]
                } else {
                    [Some(6), Some(3), Some(3), None, None]
                },
            },
            Opcode::POP_PSW => OpcodeInfo {
                name: "POP PSW",
                len: 1,
                t_per_m: [Some(4), Some(3), Some(3), None, None],
            },
            Opcode::JP => OpcodeInfo {
                name: "JP ",
                len: 3,
                t_per_m: [Some(4), Some(3), Some(3), None, None],
            },
            Opcode::DI => OpcodeInfo {
                name: "DI",
                len: 1,
                t_per_m: [Some(4), None, None, None, None],
            },
            Opcode::CP => OpcodeInfo {
                name: "CP ",
                len: 3,
                t_per_m: if i8080 {
                    [Some(4), Some(3), Some(4), Some(3), Some(3)]
                } else {
                    [Some(4), Some(5), Some(3), Some(3), Some(3)]
                },
            },
            Opcode::PUSH_PSW => OpcodeInfo {
                name: "PUSH PSW",
                len: 1,
                t_per_m: if i8080 {
                    [Some(4), Some(3), Some(4), None, None]
                } else {
                    [Some(4), Some(4), Some(5), None, None]
                },
            },
            Opcode::ORI => OpcodeInfo {
                name: "ORI ",
                len: 2,
                t_per_m: [Some(4), Some(3), None, None, None],
            },
            Opcode::RST_6 => OpcodeInfo {
                name: "RST 6",
                len: 1,
                t_per_m: if i8080 {
                    [Some(4), Some(3), Some(4), None, None]
                } else {
                    [Some(4), Some(4), Some(4), None, None]
                },
            },
            Opcode::RM => OpcodeInfo {
                name: "RM",
                len: 1,
                t_per_m: if i8080 {
                    [Some(5), Some(3), Some(3), None, None]
                } else {
                    [Some(6), Some(3), Some(3), None, None]
                },
            },
            Opcode::SPHL => OpcodeInfo {
                name: "SPHL",
                len: 1,
                t_per_m: if i8080 {
                    [Some(5), None, None, None, None]
                } else {
                    [Some(6), None, None, None, None]
                },
            },
            Opcode::JM => OpcodeInfo {
                name: "JM ",
                len: 3,
                t_per_m: [Some(4), Some(3), Some(3), None, None],
            },
            Opcode::EI => OpcodeInfo {
                name: "EI",
                len: 1,
                t_per_m: [Some(4), None, None, None, None],
            },
            Opcode::CM => OpcodeInfo {
                name: "CM ",
                len: 3,
                t_per_m: if i8080 {
                    [Some(4), Some(3), Some(4), Some(3), Some(3)]
                } else {
                    [Some(4), Some(5), Some(3), Some(3), Some(3)]
                },
            },
            Opcode::UNDEF_12 => OpcodeInfo {
                name: "UNDEF 12",
                len: 1,
                t_per_m: [Some(4), None, None, None, None],
            },
            Opcode::CPI => OpcodeInfo {
                name: "CPI ",
                len: 2,
                t_per_m: [Some(4), Some(3), None, None, None],
            },
            Opcode::RST_7 => OpcodeInfo {
                name: "RST 7",
                len: 1,
                t_per_m: if i8080 {
                    [Some(4), Some(3), Some(4), None, None]
                } else {
                    [Some(4), Some(4), Some(4), None, None]
                },
            },
        }
    }
}

} // verus!
