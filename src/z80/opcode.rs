//! Names of the Z80 opcodes.
use vstd::prelude::*;

verus! {

/// The 256 unprefixed opcodes of the Z80, in encoding order.
#[allow(non_camel_case_types)]
#[derive(Clone, Copy, Debug, PartialEq, Eq, Structural)]
pub enum Opcode {
    NOP,
    LD_BC_NN,
    LD_BCi_A,
    INC_BC,
    INC_B,
    DEC_B,
    LD_B_N,
    RLCA,
    EX_AF_AF,
    ADD_HL_BC,
    LD_A_BCi,
    DEC_BC,
    INC_C,
    DEC_C,
    LD_C_N,
    RRCA,
    DJNZ_DIS,
    LD_DE_NN,
    LD_DEi_A,
    INC_DE,
    INC_D,
    DEC_D,
    LD_D_N,
    RLA,
    JR_DIS,
    ADD_HL_DE,
    LD_A_DEi,
    DEC_DE,
    INC_E,
    DEC_E,
    LD_E_N,
    RRA,
    JR_NZ_DIS,
    LD_HL_NN,
    LD_NNi_HL,
    INC_HL,
    INC_H,
    DEC_H,
    LD_H_N,
    DAA,
    JR_Z_DIS,
    ADD_HL_HL,
    LD_HL_NNi,
    DEC_HL,
    INC_L,
    DEC_L,
    LD_L_N,
    CPL,
    JR_NC_DIS,
    LD_SP_NN,
    LD_NNi_A,
    INC_SP,
    INC_HLi,
    DEC_HLi,
    LD_HLi_N,
    SCF,
    JR_C_DIS,
    ADD_HL_SP,
    LD_A_NNi,
    DEC_SP,
    INC_A,
    DEC_A,
    LD_A_N,
    CCF,
    LD_B_B,
    LD_B_C,
    LD_B_D,
    LD_B_E,
    LD_B_H,
    LD_B_L,
    LD_B_HLi,
    LD_B_A,
    LD_C_B,
    LD_C_C,
    LD_C_D,
    LD_C_E,
    LD_C_H,
    LD_C_L,
    LD_C_HLi,
    LD_C_A,
    LD_D_B,
    LD_D_C,
    LD_D_D,
    LD_D_E,
    LD_D_H,
    LD_D_L,
    LD_D_HLi,
    LD_D_A,
    LD_E_B,
    LD_E_C,
    LD_E_D,
    LD_E_E,
    LD_E_H,
    LD_E_L,
    LD_E_HLi,
    LD_E_A,
    LD_H_B,
    LD_H_C,
    LD_H_D,
    LD_H_E,
    LD_H_H,
    LD_H_L,
    LD_H_HLi,
    LD_H_A,
    LD_L_B,
    LD_L_C,
    LD_L_D,
    LD_L_E,
    LD_L_H,
    LD_L_L,
    LD_L_HLi,
    LD_L_A,
    LD_HLi_B,
    LD_HLi_C,
    LD_HLi_D,
    LD_HLi_E,
    LD_HLi_H,
    LD_HLi_L,
    HALT,
    LD_HLi_A,
    LD_A_B,
    LD_A_C,
    LD_A_D,
    LD_A_E,
    LD_A_H,
    LD_A_L,
    LD_A_HLi,
    LD_A_A,
    ADD_A_B,
    ADD_A_C,
    ADD_A_D,
    ADD_A_E,
    ADD_A_H,
    ADD_A_L,
    ADD_A_HLi,
    ADD_A_A,
    ADC_A_B,
    ADC_A_C,
    ADC_A_D,
    ADC_A_E,
    ADC_A_H,
    ADC_A_L,
    ADC_A_HLi,
    ADC_A_A,
    SUB_B,
    SUB_C,
    SUB_D,
    SUB_E,
    SUB_H,
    SUB_L,
    SUB_HLi,
    SUB_A,
    SBC_A_B,
    SBC_A_C,
    SBC_A_D,
    SBC_A_E,
    SBC_A_H,
    SBC_A_L,
    SBC_A_HLi,
    SBC_A_A,
    AND_B,
    AND_C,
    AND_D,
    AND_E,
    AND_H,
    AND_L,
    AND_HLi,
    AND_A,
    XOR_B,
    XOR_C,
    XOR_D,
    XOR_E,
    XOR_H,
    XOR_L,
    XOR_HLi,
    XOR_A,
    OR_B,
    OR_C,
    OR_D,
    OR_E,
    OR_H,
    OR_L,
    OR_HLi,
    OR_A,
    CP_B,
    CP_C,
    CP_D,
    CP_E,
    CP_H,
    CP_L,
    CP_HLi,
    CP_A,
    RET_NZ,
    POP_BC,
    JP_NZ_NN,
    JP_NN,
    CALL_NZ_NN,
    PUSH_BC,
    ADD_A_N,
    RST_0,
    RET_Z,
    RET,
    JP_Z_NN,
    PREFIX_CB,
    CALL_Z_NN,
    CALL_NN,
    ADC_A_N,
    RST_8,
    RET_NC,
    POP_DE,
    JP_NC_NN,
    OUT_N_A,
    CALL_NC_NN,
    PUSH_DE,
    SUB_N,
    RST_10H,
    RET_C,
    EXX,
    JP_C_NN,
    IN_A_N,
    CALL_C_NN,
    PREFIX_DD,
    SBD_A_N,
    RST_18H,
    RET_PO,
    POP_HL,
    JP_PO_NN,
    EX_SPi_HL,
    CALL_PO_NN,
    PUSH_HL,
    AND_N,
    RST_20H,
    RET_PE,
    JP_HLi,
    JP_PE_NN,
    EX_DE_HL,
    CALL_PE_NN,
    PREFIX_ED,
    XOR_N,
    RST_28H,
    RET_P,
    POP_AF,
    JP_P_NN,
    DI,
    CALL_P_NN,
    PUSH_AF,
    OR_N,
    RST_30H,
    RET_M,
    LD_SP_HL,
    JP_M_NN,
    EI,
    CALL_M_NN,
    PREFIX_FD,
    CP_N,
    RST_38H,
}

/// The byte that encodes `op`.
pub open spec fn opcode_byte(op: Opcode) -> u8 {
    match op {
        Opcode::NOP => 0x00,
        Opcode::LD_BC_NN => 0x01,
        Opcode::LD_BCi_A => 0x02,
        Opcode::INC_BC => 0x03,
        Opcode::INC_B => 0x04,
        Opcode::DEC_B => 0x05,
        Opcode::LD_B_N => 0x06,
        Opcode::RLCA => 0x07,
        Opcode::EX_AF_AF => 0x08,
        Opcode::ADD_HL_BC => 0x09,
        Opcode::LD_A_BCi => 0x0a,
        Opcode::DEC_BC => 0x0b,
        Opcode::INC_C => 0x0c,
        Opcode::DEC_C => 0x0d,
        Opcode::LD_C_N => 0x0e,
        Opcode::RRCA => 0x0f,
        Opcode::DJNZ_DIS => 0x10,
        Opcode::LD_DE_NN => 0x11,
        Opcode::LD_DEi_A => 0x12,
        Opcode::INC_DE => 0x13,
        Opcode::INC_D => 0x14,
        Opcode::DEC_D => 0x15,
        Opcode::LD_D_N => 0x16,
        Opcode::RLA => 0x17,
        Opcode::JR_DIS => 0x18,
        Opcode::ADD_HL_DE => 0x19,
        Opcode::LD_A_DEi => 0x1a,
        Opcode::DEC_DE => 0x1b,
        Opcode::INC_E => 0x1c,
        Opcode::DEC_E => 0x1d,
        Opcode::LD_E_N => 0x1e,
        Opcode::RRA => 0x1f,
        Opcode::JR_NZ_DIS => 0x20,
        Opcode::LD_HL_NN => 0x21,
        Opcode::LD_NNi_HL => 0x22,
        Opcode::INC_HL => 0x23,
        Opcode::INC_H => 0x24,
        Opcode::DEC_H => 0x25,
        Opcode::LD_H_N => 0x26,
        Opcode::DAA => 0x27,
        Opcode::JR_Z_DIS => 0x28,
        Opcode::ADD_HL_HL => 0x29,
        Opcode::LD_HL_NNi => 0x2a,
        Opcode::DEC_HL => 0x2b,
        Opcode::INC_L => 0x2c,
        Opcode::DEC_L => 0x2d,
        Opcode::LD_L_N => 0x2e,
        Opcode::CPL => 0x2f,
        Opcode::JR_NC_DIS => 0x30,
        Opcode::LD_SP_NN => 0x31,
        Opcode::LD_NNi_A => 0x32,
        Opcode::INC_SP => 0x33,
        Opcode::INC_HLi => 0x34,
        Opcode::DEC_HLi => 0x35,
        Opcode::LD_HLi_N => 0x36,
        Opcode::SCF => 0x37,
        Opcode::JR_C_DIS => 0x38,
        Opcode::ADD_HL_SP => 0x39,
        Opcode::LD_A_NNi => 0x3a,
        Opcode::DEC_SP => 0x3b,
        Opcode::INC_A => 0x3c,
        Opcode::DEC_A => 0x3d,
        Opcode::LD_A_N => 0x3e,
        Opcode::CCF => 0x3f,
        Opcode::LD_B_B => 0x40,
        Opcode::LD_B_C => 0x41,
        Opcode::LD_B_D => 0x42,
        Opcode::LD_B_E => 0x43,
        Opcode::LD_B_H => 0x44,
        Opcode::LD_B_L => 0x45,
        Opcode::LD_B_HLi => 0x46,
        Opcode::LD_B_A => 0x47,
        Opcode::LD_C_B => 0x48,
        Opcode::LD_C_C => 0x49,
        Opcode::LD_C_D => 0x4a,
        Opcode::LD_C_E => 0x4b,
        Opcode::LD_C_H => 0x4c,
        Opcode::LD_C_L => 0x4d,
        Opcode::LD_C_HLi => 0x4e,
        Opcode::LD_C_A => 0x4f,
        Opcode::LD_D_B => 0x50,
        Opcode::LD_D_C => 0x51,
        Opcode::LD_D_D => 0x52,
        Opcode::LD_D_E => 0x53,
        Opcode::LD_D_H => 0x54,
        Opcode::LD_D_L => 0x55,
        Opcode::LD_D_HLi => 0x56,
        Opcode::LD_D_A => 0x57,
        Opcode::LD_E_B => 0x58,
        Opcode::LD_E_C => 0x59,
        Opcode::LD_E_D => 0x5a,
        Opcode::LD_E_E => 0x5b,
        Opcode::LD_E_H => 0x5c,
        Opcode::LD_E_L => 0x5d,
        Opcode::LD_E_HLi => 0x5e,
        Opcode::LD_E_A => 0x5f,
        Opcode::LD_H_B => 0x60,
        Opcode::LD_H_C => 0x61,
        Opcode::LD_H_D => 0x62,
        Opcode::LD_H_E => 0x63,
        Opcode::LD_H_H => 0x64,
        Opcode::LD_H_L => 0x65,
        Opcode::LD_H_HLi => 0x66,
        Opcode::LD_H_A => 0x67,
        Opcode::LD_L_B => 0x68,
        Opcode::LD_L_C => 0x69,
        Opcode::LD_L_D => 0x6a,
        Opcode::LD_L_E => 0x6b,
        Opcode::LD_L_H => 0x6c,
        Opcode::LD_L_L => 0x6d,
        Opcode::LD_L_HLi => 0x6e,
        Opcode::LD_L_A => 0x6f,
        Opcode::LD_HLi_B => 0x70,
        Opcode::LD_HLi_C => 0x71,
        Opcode::LD_HLi_D => 0x72,
        Opcode::LD_HLi_E => 0x73,
        Opcode::LD_HLi_H => 0x74,
        Opcode::LD_HLi_L => 0x75,
        Opcode::HALT => 0x76,
        Opcode::LD_HLi_A => 0x77,
        Opcode::LD_A_B => 0x78,
        Opcode::LD_A_C => 0x79,
        Opcode::LD_A_D => 0x7a,
        Opcode::LD_A_E => 0x7b,
        Opcode::LD_A_H => 0x7c,
        Opcode::LD_A_L => 0x7d,
        Opcode::LD_A_HLi => 0x7e,
        Opcode::LD_A_A => 0x7f,
        Opcode::ADD_A_B => 0x80,
        Opcode::ADD_A_C => 0x81,
        Opcode::ADD_A_D => 0x82,
        Opcode::ADD_A_E => 0x83,
        Opcode::ADD_A_H => 0x84,
        Opcode::ADD_A_L => 0x85,
        Opcode::ADD_A_HLi => 0x86,
        Opcode::ADD_A_A => 0x87,
        Opcode::ADC_A_B => 0x88,
        Opcode::ADC_A_C => 0x89,
        Opcode::ADC_A_D => 0x8a,
        Opcode::ADC_A_E => 0x8b,
        Opcode::ADC_A_H => 0x8c,
        Opcode::ADC_A_L => 0x8d,
        Opcode::ADC_A_HLi => 0x8e,
        Opcode::ADC_A_A => 0x8f,
        Opcode::SUB_B => 0x90,
        Opcode::SUB_C => 0x91,
        Opcode::SUB_D => 0x92,
        Opcode::SUB_E => 0x93,
        Opcode::SUB_H => 0x94,
        Opcode::SUB_L => 0x95,
        Opcode::SUB_HLi => 0x96,
        Opcode::SUB_A => 0x97,
        Opcode::SBC_A_B => 0x98,
        Opcode::SBC_A_C => 0x99,
        Opcode::SBC_A_D => 0x9a,
        Opcode::SBC_A_E => 0x9b,
        Opcode::SBC_A_H => 0x9c,
        Opcode::SBC_A_L => 0x9d,
        Opcode::SBC_A_HLi => 0x9e,
        Opcode::SBC_A_A => 0x9f,
        Opcode::AND_B => 0xa0,
        Opcode::AND_C => 0xa1,
        Opcode::AND_D => 0xa2,
        Opcode::AND_E => 0xa3,
        Opcode::AND_H => 0xa4,
        Opcode::AND_L => 0xa5,
        Opcode::AND_HLi => 0xa6,
        Opcode::AND_A => 0xa7,
        Opcode::XOR_B => 0xa8,
        Opcode::XOR_C => 0xa9,
        Opcode::XOR_D => 0xaa,
        Opcode::XOR_E => 0xab,
        Opcode::XOR_H => 0xac,
        Opcode::XOR_L => 0xad,
        Opcode::XOR_HLi => 0xae,
        Opcode::XOR_A => 0xaf,
        Opcode::OR_B => 0xb0,
        Opcode::OR_C => 0xb1,
        Opcode::OR_D => 0xb2,
        Opcode::OR_E => 0xb3,
        Opcode::OR_H => 0xb4,
        Opcode::OR_L => 0xb5,
        Opcode::OR_HLi => 0xb6,
        Opcode::OR_A => 0xb7,
        Opcode::CP_B => 0xb8,
        Opcode::CP_C => 0xb9,
        Opcode::CP_D => 0xba,
        Opcode::CP_E => 0xbb,
        Opcode::CP_H => 0xbc,
        Opcode::CP_L => 0xbd,
        Opcode::CP_HLi => 0xbe,
        Opcode::CP_A => 0xbf,
        Opcode::RET_NZ => 0xc0,
        Opcode::POP_BC => 0xc1,
        Opcode::JP_NZ_NN => 0xc2,
        Opcode::JP_NN => 0xc3,
        Opcode::CALL_NZ_NN => 0xc4,
        Opcode::PUSH_BC => 0xc5,
        Opcode::ADD_A_N => 0xc6,
        Opcode::RST_0 => 0xc7,
        Opcode::RET_Z => 0xc8,
        Opcode::RET => 0xc9,
        Opcode::JP_Z_NN => 0xca,
        Opcode::PREFIX_CB => 0xcb,
        Opcode::CALL_Z_NN => 0xcc,
        Opcode::CALL_NN => 0xcd,
        Opcode::ADC_A_N => 0xce,
        Opcode::RST_8 => 0xcf,
        Opcode::RET_NC => 0xd0,
        Opcode::POP_DE => 0xd1,
        Opcode::JP_NC_NN => 0xd2,
        Opcode::OUT_N_A => 0xd3,
        Opcode::CALL_NC_NN => 0xd4,
        Opcode::PUSH_DE => 0xd5,
        Opcode::SUB_N => 0xd6,
        Opcode::RST_10H => 0xd7,
        Opcode::RET_C => 0xd8,
        Opcode::EXX => 0xd9,
        Opcode::JP_C_NN => 0xda,
        Opcode::IN_A_N => 0xdb,
        Opcode::CALL_C_NN => 0xdc,
        Opcode::PREFIX_DD => 0xdd,
        Opcode::SBD_A_N => 0xde,
        Opcode::RST_18H => 0xdf,
        Opcode::RET_PO => 0xe0,
        Opcode::POP_HL => 0xe1,
        Opcode::JP_PO_NN => 0xe2,
        Opcode::EX_SPi_HL => 0xe3,
        Opcode::CALL_PO_NN => 0xe4,
        Opcode::PUSH_HL => 0xe5,
        Opcode::AND_N => 0xe6,
        Opcode::RST_20H => 0xe7,
        Opcode::RET_PE => 0xe8,
        Opcode::JP_HLi => 0xe9,
        Opcode::JP_PE_NN => 0xea,
        Opcode::EX_DE_HL => 0xeb,
        Opcode::CALL_PE_NN => 0xec,
        Opcode::PREFIX_ED => 0xed,
        Opcode::XOR_N => 0xee,
        Opcode::RST_28H => 0xef,
        Opcode::RET_P => 0xf0,
        Opcode::POP_AF => 0xf1,
        Opcode::JP_P_NN => 0xf2,
        Opcode::DI => 0xf3,
        Opcode::CALL_P_NN => 0xf4,
        Opcode::PUSH_AF => 0xf5,
        Opcode::OR_N => 0xf6,
        Opcode::RST_30H => 0xf7,
        Opcode::RET_M => 0xf8,
        Opcode::LD_SP_HL => 0xf9,
        Opcode::JP_M_NN => 0xfa,
        Opcode::EI => 0xfb,
        Opcode::CALL_M_NN => 0xfc,
        Opcode::PREFIX_FD => 0xfd,
        Opcode::CP_N => 0xfe,
        Opcode::RST_38H => 0xff,
    }
}

impl Opcode {
    /// The opcode that byte `b` encodes.
    #[verifier::rlimit(100)]
    pub fn from_byte(b: u8) -> (r: Opcode)
        ensures
            opcode_byte(r) == b,
    {
        match b {
            0x00 => Opcode::NOP,
            0x01 => Opcode::LD_BC_NN,
            0x02 => Opcode::LD_BCi_A,
            0x03 => Opcode::INC_BC,
            0x04 => Opcode::INC_B,
            0x05 => Opcode::DEC_B,
            0x06 => Opcode::LD_B_N,
            0x07 => Opcode::RLCA,
            0x08 => Opcode::EX_AF_AF,
            0x09 => Opcode::ADD_HL_BC,
            0x0a => Opcode::LD_A_BCi,
            0x0b => Opcode::DEC_BC,
            0x0c => Opcode::INC_C,
            0x0d => Opcode::DEC_C,
            0x0e => Opcode::LD_C_N,
            0x0f => Opcode::RRCA,
            0x10 => Opcode::DJNZ_DIS,
            0x11 => Opcode::LD_DE_NN,
            0x12 => Opcode::LD_DEi_A,
            0x13 => Opcode::INC_DE,
            0x14 => Opcode::INC_D,
            0x15 => Opcode::DEC_D,
            0x16 => Opcode::LD_D_N,
            0x17 => Opcode::RLA,
            0x18 => Opcode::JR_DIS,
            0x19 => Opcode::ADD_HL_DE,
            0x1a => Opcode::LD_A_DEi,
            0x1b => Opcode::DEC_DE,
            0x1c => Opcode::INC_E,
            0x1d => Opcode::DEC_E,
            0x1e => Opcode::LD_E_N,
            0x1f => Opcode::RRA,
            0x20 => Opcode::JR_NZ_DIS,
            0x21 => Opcode::LD_HL_NN,
            0x22 => Opcode::LD_NNi_HL,
            0x23 => Opcode::INC_HL,
            0x24 => Opcode::INC_H,
            0x25 => Opcode::DEC_H,
            0x26 => Opcode::LD_H_N,
            0x27 => Opcode::DAA,
            0x28 => Opcode::JR_Z_DIS,
            0x29 => Opcode::ADD_HL_HL,
            0x2a => Opcode::LD_HL_NNi,
            0x2b => Opcode::DEC_HL,
            0x2c => Opcode::INC_L,
            0x2d => Opcode::DEC_L,
            0x2e => Opcode::LD_L_N,
            0x2f => Opcode::CPL,
            0x30 => Opcode::JR_NC_DIS,
            0x31 => Opcode::LD_SP_NN,
            0x32 => Opcode::LD_NNi_A,
            0x33 => Opcode::INC_SP,
            0x34 => Opcode::INC_HLi,
            0x35 => Opcode::DEC_HLi,
            0x36 => Opcode::LD_HLi_N,
            0x37 => Opcode::SCF,
            0x38 => Opcode::JR_C_DIS,
            0x39 => Opcode::ADD_HL_SP,
            0x3a => Opcode::LD_A_NNi,
            0x3b => Opcode::DEC_SP,
            0x3c => Opcode::INC_A,
            0x3d => Opcode::DEC_A,
            0x3e => Opcode::LD_A_N,
            0x3f => Opcode::CCF,
            0x40 => Opcode::LD_B_B,
            0x41 => Opcode::LD_B_C,
            0x42 => Opcode::LD_B_D,
            0x43 => Opcode::LD_B_E,
            0x44 => Opcode::LD_B_H,
            0x45 => Opcode::LD_B_L,
            0x46 => Opcode::LD_B_HLi,
            0x47 => Opcode::LD_B_A,
            0x48 => Opcode::LD_C_B,
            0x49 => Opcode::LD_C_C,
            0x4a => Opcode::LD_C_D,
            0x4b => Opcode::LD_C_E,
            0x4c => Opcode::LD_C_H,
            0x4d => Opcode::LD_C_L,
            0x4e => Opcode::LD_C_HLi,
            0x4f => Opcode::LD_C_A,
            0x50 => Opcode::LD_D_B,
            0x51 => Opcode::LD_D_C,
            0x52 => Opcode::LD_D_D,
            0x53 => Opcode::LD_D_E,
            0x54 => Opcode::LD_D_H,
            0x55 => Opcode::LD_D_L,
            0x56 => Opcode::LD_D_HLi,
            0x57 => Opcode::LD_D_A,
            0x58 => Opcode::LD_E_B,
            0x59 => Opcode::LD_E_C,
            0x5a => Opcode::LD_E_D,
            0x5b => Opcode::LD_E_E,
            0x5c => Opcode::LD_E_H,
            0x5d => Opcode::LD_E_L,
            0x5e => Opcode::LD_E_HLi,
            0x5f => Opcode::LD_E_A,
            0x60 => Opcode::LD_H_B,
            0x61 => Opcode::LD_H_C,
            0x62 => Opcode::LD_H_D,
            0x63 => Opcode::LD_H_E,
            0x64 => Opcode::LD_H_H,
            0x65 => Opcode::LD_H_L,
            0x66 => Opcode::LD_H_HLi,
            0x67 => Opcode::LD_H_A,
            0x68 => Opcode::LD_L_B,
            0x69 => Opcode::LD_L_C,
            0x6a => Opcode::LD_L_D,
            0x6b => Opcode::LD_L_E,
            0x6c => Opcode::LD_L_H,
            0x6d => Opcode::LD_L_L,
            0x6e => Opcode::LD_L_HLi,
            0x6f => Opcode::LD_L_A,
            0x70 => Opcode::LD_HLi_B,
            0x71 => Opcode::LD_HLi_C,
            0x72 => Opcode::LD_HLi_D,
            0x73 => Opcode::LD_HLi_E,
            0x74 => Opcode::LD_HLi_H,
            0x75 => Opcode::LD_HLi_L,
            0x76 => Opcode::HALT,
            0x77 => Opcode::LD_HLi_A,
            0x78 => Opcode::LD_A_B,
            0x79 => Opcode::LD_A_C,
            0x7a => Opcode::LD_A_D,
            0x7b => Opcode::LD_A_E,
            0x7c => Opcode::LD_A_H,
            0x7d => Opcode::LD_A_L,
            0x7e => Opcode::LD_A_HLi,
            0x7f => Opcode::LD_A_A,
            0x80 => Opcode::ADD_A_B,
            0x81 => Opcode::ADD_A_C,
            0x82 => Opcode::ADD_A_D,
            0x83 => Opcode::ADD_A_E,
            0x84 => Opcode::ADD_A_H,
            0x85 => Opcode::ADD_A_L,
            0x86 => Opcode::ADD_A_HLi,
            0x87 => Opcode::ADD_A_A,
            0x88 => Opcode::ADC_A_B,
            0x89 => Opcode::ADC_A_C,
            0x8a => Opcode::ADC_A_D,
            0x8b => Opcode::ADC_A_E,
            0x8c => Opcode::ADC_A_H,
            0x8d => Opcode::ADC_A_L,
            0x8e => Opcode::ADC_A_HLi,
            0x8f => Opcode::ADC_A_A,
            0x90 => Opcode::SUB_B,
            0x91 => Opcode::SUB_C,
            0x92 => Opcode::SUB_D,
            0x93 => Opcode::SUB_E,
            0x94 => Opcode::SUB_H,
            0x95 => Opcode::SUB_L,
            0x96 => Opcode::SUB_HLi,
            0x97 => Opcode::SUB_A,
            0x98 => Opcode::SBC_A_B,
            0x99 => Opcode::SBC_A_C,
            0x9a => Opcode::SBC_A_D,
            0x9b => Opcode::SBC_A_E,
            0x9c => Opcode::SBC_A_H,
            0x9d => Opcode::SBC_A_L,
            0x9e => Opcode::SBC_A_HLi,
            0x9f => Opcode::SBC_A_A,
            0xa0 => Opcode::AND_B,
            0xa1 => Opcode::AND_C,
            0xa2 => Opcode::AND_D,
            0xa3 => Opcode::AND_E,
            0xa4 => Opcode::AND_H,
            0xa5 => Opcode::AND_L,
            0xa6 => Opcode::AND_HLi,
            0xa7 => Opcode::AND_A,
            0xa8 => Opcode::XOR_B,
            0xa9 => Opcode::XOR_C,
            0xaa => Opcode::XOR_D,
            0xab => Opcode::XOR_E,
            0xac => Opcode::XOR_H,
            0xad => Opcode::XOR_L,
            0xae => Opcode::XOR_HLi,
            0xaf => Opcode::XOR_A,
            0xb0 => Opcode::OR_B,
            0xb1 => Opcode::OR_C,
            0xb2 => Opcode::OR_D,
            0xb3 => Opcode::OR_E,
            0xb4 => Opcode::OR_H,
            0xb5 => Opcode::OR_L,
            0xb6 => Opcode::OR_HLi,
            0xb7 => Opcode::OR_A,
            0xb8 => Opcode::CP_B,
            0xb9 => Opcode::CP_C,
            0xba => Opcode::CP_D,
            0xbb => Opcode::CP_E,
            0xbc => Opcode::CP_H,
            0xbd => Opcode::CP_L,
            0xbe => Opcode::CP_HLi,
            0xbf => Opcode::CP_A,
            0xc0 => Opcode::RET_NZ,
            0xc1 => Opcode::POP_BC,
            0xc2 => Opcode::JP_NZ_NN,
            0xc3 => Opcode::JP_NN,
            0xc4 => Opcode::CALL_NZ_NN,
            0xc5 => Opcode::PUSH_BC,
            0xc6 => Opcode::ADD_A_N,
            0xc7 => Opcode::RST_0,
            0xc8 => Opcode::RET_Z,
            0xc9 => Opcode::RET,
            0xca => Opcode::JP_Z_NN,
            0xcb => Opcode::PREFIX_CB,
            0xcc => Opcode::CALL_Z_NN,
            0xcd => Opcode::CALL_NN,
            0xce => Opcode::ADC_A_N,
            0xcf => Opcode::RST_8,
            0xd0 => Opcode::RET_NC,
            0xd1 => Opcode::POP_DE,
            0xd2 => Opcode::JP_NC_NN,
            0xd3 => Opcode::OUT_N_A,
            0xd4 => Opcode::CALL_NC_NN,
            0xd5 => Opcode::PUSH_DE,
            0xd6 => Opcode::SUB_N,
            0xd7 => Opcode::RST_10H,
            0xd8 => Opcode::RET_C,
            0xd9 => Opcode::EXX,
            0xda => Opcode::JP_C_NN,
            0xdb => Opcode::IN_A_N,
            0xdc => Opcode::CALL_C_NN,
            0xdd => Opcode::PREFIX_DD,
            0xde => Opcode::SBD_A_N,
            0xdf => Opcode::RST_18H,
            0xe0 => Opcode::RET_PO,
            0xe1 => Opcode::POP_HL,
            0xe2 => Opcode::JP_PO_NN,
            0xe3 => Opcode::EX_SPi_HL,
            0xe4 => Opcode::CALL_PO_NN,
            0xe5 => Opcode::PUSH_HL,
            0xe6 => Opcode::AND_N,
            0xe7 => Opcode::RST_20H,
            0xe8 => Opcode::RET_PE,
            0xe9 => Opcode::JP_HLi,
            0xea => Opcode::JP_PE_NN,
            0xeb => Opcode::EX_DE_HL,
            0xec => Opcode::CALL_PE_NN,
            0xed => Opcode::PREFIX_ED,
            0xee => Opcode::XOR_N,
            0xef => Opcode::RST_28H,
            0xf0 => Opcode::RET_P,
            0xf1 => Opcode::POP_AF,
            0xf2 => Opcode::JP_P_NN,
            0xf3 => Opcode::DI,
            0xf4 => Opcode::CALL_P_NN,
            0xf5 => Opcode::PUSH_AF,
            0xf6 => Opcode::OR_N,
            0xf7 => Opcode::RST_30H,
            0xf8 => Opcode::RET_M,
            0xf9 => Opcode::LD_SP_HL,
            0xfa => Opcode::JP_M_NN,
            0xfb => Opcode::EI,
            0xfc => Opcode::CALL_M_NN,
            0xfd => Opcode::PREFIX_FD,
            0xfe => Opcode::CP_N,
            _ => Opcode::RST_38H,
        }
    }

    /// The byte that encodes this opcode.
    pub fn byte(&self) -> (r: u8)
        ensures
            r == opcode_byte(*self),
    {
        match self {
            Opcode::NOP => 0x00,
            Opcode::LD_BC_NN => 0x01,
            Opcode::LD_BCi_A => 0x02,
            Opcode::INC_BC => 0x03,
            Opcode::INC_B => 0x04,
            Opcode::DEC_B => 0x05,
            Opcode::LD_B_N => 0x06,
            Opcode::RLCA => 0x07,
            Opcode::EX_AF_AF => 0x08,
            Opcode::ADD_HL_BC => 0x09,
            Opcode::LD_A_BCi => 0x0a,
            Opcode::DEC_BC => 0x0b,
            Opcode::INC_C => 0x0c,
            Opcode::DEC_C => 0x0d,
            Opcode::LD_C_N => 0x0e,
            Opcode::RRCA => 0x0f,
            Opcode::DJNZ_DIS => 0x10,
            Opcode::LD_DE_NN => 0x11,
            Opcode::LD_DEi_A => 0x12,
            Opcode::INC_DE => 0x13,
            Opcode::INC_D => 0x14,
            Opcode::DEC_D => 0x15,
            Opcode::LD_D_N => 0x16,
            Opcode::RLA => 0x17,
            Opcode::JR_DIS => 0x18,
            Opcode::ADD_HL_DE => 0x19,
            Opcode::LD_A_DEi => 0x1a,
            Opcode::DEC_DE => 0x1b,
            Opcode::INC_E => 0x1c,
            Opcode::DEC_E => 0x1d,
            Opcode::LD_E_N => 0x1e,
            Opcode::RRA => 0x1f,
            Opcode::JR_NZ_DIS => 0x20,
            Opcode::LD_HL_NN => 0x21,
            Opcode::LD_NNi_HL => 0x22,
            Opcode::INC_HL => 0x23,
            Opcode::INC_H => 0x24,
            Opcode::DEC_H => 0x25,
            Opcode::LD_H_N => 0x26,
            Opcode::DAA => 0x27,
            Opcode::JR_Z_DIS => 0x28,
            Opcode::ADD_HL_HL => 0x29,
            Opcode::LD_HL_NNi => 0x2a,
            Opcode::DEC_HL => 0x2b,
            Opcode::INC_L => 0x2c,
            Opcode::DEC_L => 0x2d,
            Opcode::LD_L_N => 0x2e,
            Opcode::CPL => 0x2f,
            Opcode::JR_NC_DIS => 0x30,
            Opcode::LD_SP_NN => 0x31,
            Opcode::LD_NNi_A => 0x32,
            Opcode::INC_SP => 0x33,
            Opcode::INC_HLi => 0x34,
            Opcode::DEC_HLi => 0x35,
            Opcode::LD_HLi_N => 0x36,
            Opcode::SCF => 0x37,
            Opcode::JR_C_DIS => 0x38,
            Opcode::ADD_HL_SP => 0x39,
            Opcode::LD_A_NNi => 0x3a,
            Opcode::DEC_SP => 0x3b,
            Opcode::INC_A => 0x3c,
            Opcode::DEC_A => 0x3d,
            Opcode::LD_A_N => 0x3e,
            Opcode::CCF => 0x3f,
            Opcode::LD_B_B => 0x40,
            Opcode::LD_B_C => 0x41,
            Opcode::LD_B_D => 0x42,
            Opcode::LD_B_E => 0x43,
            Opcode::LD_B_H => 0x44,
            Opcode::LD_B_L => 0x45,
            Opcode::LD_B_HLi => 0x46,
            Opcode::LD_B_A => 0x47,
            Opcode::LD_C_B => 0x48,
            Opcode::LD_C_C => 0x49,
            Opcode::LD_C_D => 0x4a,
            Opcode::LD_C_E => 0x4b,
            Opcode::LD_C_H => 0x4c,
            Opcode::LD_C_L => 0x4d,
            Opcode::LD_C_HLi => 0x4e,
            Opcode::LD_C_A => 0x4f,
            Opcode::LD_D_B => 0x50,
            Opcode::LD_D_C => 0x51,
            Opcode::LD_D_D => 0x52,
            Opcode::LD_D_E => 0x53,
            Opcode::LD_D_H => 0x54,
            Opcode::LD_D_L => 0x55,
            Opcode::LD_D_HLi => 0x56,
            Opcode::LD_D_A => 0x57,
            Opcode::LD_E_B => 0x58,
            Opcode::LD_E_C => 0x59,
            Opcode::LD_E_D => 0x5a,
            Opcode::LD_E_E => 0x5b,
            Opcode::LD_E_H => 0x5c,
            Opcode::LD_E_L => 0x5d,
            Opcode::LD_E_HLi => 0x5e,
            Opcode::LD_E_A => 0x5f,
            Opcode::LD_H_B => 0x60,
            Opcode::LD_H_C => 0x61,
            Opcode::LD_H_D => 0x62,
            Opcode::LD_H_E => 0x63,
            Opcode::LD_H_H => 0x64,
            Opcode::LD_H_L => 0x65,
            Opcode::LD_H_HLi => 0x66,
            Opcode::LD_H_A => 0x67,
            Opcode::LD_L_B => 0x68,
            Opcode::LD_L_C => 0x69,
            Opcode::LD_L_D => 0x6a,
            Opcode::LD_L_E => 0x6b,
            Opcode::LD_L_H => 0x6c,
            Opcode::LD_L_L => 0x6d,
            Opcode::LD_L_HLi => 0x6e,
            Opcode::LD_L_A => 0x6f,
            Opcode::LD_HLi_B => 0x70,
            Opcode::LD_HLi_C => 0x71,
            Opcode::LD_HLi_D => 0x72,
            Opcode::LD_HLi_E => 0x73,
            Opcode::LD_HLi_H => 0x74,
            Opcode::LD_HLi_L => 0x75,
            Opcode::HALT => 0x76,
            Opcode::LD_HLi_A => 0x77,
            Opcode::LD_A_B => 0x78,
            Opcode::LD_A_C => 0x79,
            Opcode::LD_A_D => 0x7a,
            Opcode::LD_A_E => 0x7b,
            Opcode::LD_A_H => 0x7c,
            Opcode::LD_A_L => 0x7d,
            Opcode::LD_A_HLi => 0x7e,
            Opcode::LD_A_A => 0x7f,
            Opcode::ADD_A_B => 0x80,
            Opcode::ADD_A_C => 0x81,
            Opcode::ADD_A_D => 0x82,
            Opcode::ADD_A_E => 0x83,
            Opcode::ADD_A_H => 0x84,
            Opcode::ADD_A_L => 0x85,
            Opcode::ADD_A_HLi => 0x86,
            Opcode::ADD_A_A => 0x87,
            Opcode::ADC_A_B => 0x88,
            Opcode::ADC_A_C => 0x89,
            Opcode::ADC_A_D => 0x8a,
            Opcode::ADC_A_E => 0x8b,
            Opcode::ADC_A_H => 0x8c,
            Opcode::ADC_A_L => 0x8d,
            Opcode::ADC_A_HLi => 0x8e,
            Opcode::ADC_A_A => 0x8f,
            Opcode::SUB_B => 0x90,
            Opcode::SUB_C => 0x91,
            Opcode::SUB_D => 0x92,
            Opcode::SUB_E => 0x93,
            Opcode::SUB_H => 0x94,
            Opcode::SUB_L => 0x95,
            Opcode::SUB_HLi => 0x96,
            Opcode::SUB_A => 0x97,
            Opcode::SBC_A_B => 0x98,
            Opcode::SBC_A_C => 0x99,
            Opcode::SBC_A_D => 0x9a,
            Opcode::SBC_A_E => 0x9b,
            Opcode::SBC_A_H => 0x9c,
            Opcode::SBC_A_L => 0x9d,
            Opcode::SBC_A_HLi => 0x9e,
            Opcode::SBC_A_A => 0x9f,
            Opcode::AND_B => 0xa0,
            Opcode::AND_C => 0xa1,
            Opcode::AND_D => 0xa2,
            Opcode::AND_E => 0xa3,
            Opcode::AND_H => 0xa4,
            Opcode::AND_L => 0xa5,
            Opcode::AND_HLi => 0xa6,
            Opcode::AND_A => 0xa7,
            Opcode::XOR_B => 0xa8,
            Opcode::XOR_C => 0xa9,
            Opcode::XOR_D => 0xaa,
            Opcode::XOR_E => 0xab,
            Opcode::XOR_H => 0xac,
            Opcode::XOR_L => 0xad,
            Opcode::XOR_HLi => 0xae,
            Opcode::XOR_A => 0xaf,
            Opcode::OR_B => 0xb0,
            Opcode::OR_C => 0xb1,
            Opcode::OR_D => 0xb2,
            Opcode::OR_E => 0xb3,
            Opcode::OR_H => 0xb4,
            Opcode::OR_L => 0xb5,
            Opcode::OR_HLi => 0xb6,
            Opcode::OR_A => 0xb7,
            Opcode::CP_B => 0xb8,
            Opcode::CP_C => 0xb9,
            Opcode::CP_D => 0xba,
            Opcode::CP_E => 0xbb,
            Opcode::CP_H => 0xbc,
            Opcode::CP_L => 0xbd,
            Opcode::CP_HLi => 0xbe,
            Opcode::CP_A => 0xbf,
            Opcode::RET_NZ => 0xc0,
            Opcode::POP_BC => 0xc1,
            Opcode::JP_NZ_NN => 0xc2,
            Opcode::JP_NN => 0xc3,
            Opcode::CALL_NZ_NN => 0xc4,
            Opcode::PUSH_BC => 0xc5,
            Opcode::ADD_A_N => 0xc6,
            Opcode::RST_0 => 0xc7,
            Opcode::RET_Z => 0xc8,
            Opcode::RET => 0xc9,
            Opcode::JP_Z_NN => 0xca,
            Opcode::PREFIX_CB => 0xcb,
            Opcode::CALL_Z_NN => 0xcc,
            Opcode::CALL_NN => 0xcd,
            Opcode::ADC_A_N => 0xce,
            Opcode::RST_8 => 0xcf,
            Opcode::RET_NC => 0xd0,
            Opcode::POP_DE => 0xd1,
            Opcode::JP_NC_NN => 0xd2,
            Opcode::OUT_N_A => 0xd3,
            Opcode::CALL_NC_NN => 0xd4,
            Opcode::PUSH_DE => 0xd5,
            Opcode::SUB_N => 0xd6,
            Opcode::RST_10H => 0xd7,
            Opcode::RET_C => 0xd8,
            Opcode::EXX => 0xd9,
            Opcode::JP_C_NN => 0xda,
            Opcode::IN_A_N => 0xdb,
            Opcode::CALL_C_NN => 0xdc,
            Opcode::PREFIX_DD => 0xdd,
            Opcode::SBD_A_N => 0xde,
            Opcode::RST_18H => 0xdf,
            Opcode::RET_PO => 0xe0,
            Opcode::POP_HL => 0xe1,
            Opcode::JP_PO_NN => 0xe2,
            Opcode::EX_SPi_HL => 0xe3,
            Opcode::CALL_PO_NN => 0xe4,
            Opcode::PUSH_HL => 0xe5,
            Opcode::AND_N => 0xe6,
            Opcode::RST_20H => 0xe7,
            Opcode::RET_PE => 0xe8,
            Opcode::JP_HLi => 0xe9,
            Opcode::JP_PE_NN => 0xea,
            Opcode::EX_DE_HL => 0xeb,
            Opcode::CALL_PE_NN => 0xec,
            Opcode::PREFIX_ED => 0xed,
            Opcode::XOR_N => 0xee,
            Opcode::RST_28H => 0xef,
            Opcode::RET_P => 0xf0,
            Opcode::POP_AF => 0xf1,
            Opcode::JP_P_NN => 0xf2,
            Opcode::DI => 0xf3,
            Opcode::CALL_P_NN => 0xf4,
            Opcode::PUSH_AF => 0xf5,
            Opcode::OR_N => 0xf6,
            Opcode::RST_30H => 0xf7,
            Opcode::RET_M => 0xf8,
            Opcode::LD_SP_HL => 0xf9,
            Opcode::JP_M_NN => 0xfa,
            Opcode::EI => 0xfb,
            Opcode::CALL_M_NN => 0xfc,
            Opcode::PREFIX_FD => 0xfd,
            Opcode::CP_N => 0xfe,
            Opcode::RST_38H => 0xff,
        }
    }
}

/// The `CB`-prefixed opcodes that have a handler.
#[allow(non_camel_case_types)]
#[derive(Clone, Copy, Debug, PartialEq, Eq, Structural)]
pub enum OpcodeCB {
    RES_0_B,
}

impl OpcodeCB {
    /// The prefixed opcode that byte `b` encodes, when it has a handler.
    pub fn from_byte(b: u8) -> (r: Option<OpcodeCB>)
        ensures
            r == (if b == 0x80 {
                Some(OpcodeCB::RES_0_B)
            } else {
                None::<OpcodeCB>
            }),
    {
        if b == 0x80 {
            Some(OpcodeCB::RES_0_B)
        } else {
            None
        }
    }

    /// The byte that follows the `CB` prefix for this opcode.
    pub fn byte(&self) -> (r: u8)
        ensures
            r == 0x80,
    {
        match self {
            OpcodeCB::RES_0_B => 0x80,
        }
    }
}

} // verus!
