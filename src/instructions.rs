use vstd::prelude::*;
use crate::machine::{Machine, is_readable};

verus! {

/// The 8-bit CPU registers an instruction can name.
#[derive(Clone, Copy, Debug, PartialEq, Eq, Structural)]
pub enum R8 {
    A,
    B,
    C,
    D,
    E,
    H,
    L,
}

/// The 16-bit CPU register pairs an instruction can name.
#[derive(Clone, Copy, Debug, PartialEq, Eq, Structural)]
pub enum R16 {
    AF,
    BC,
    DE,
    HL,
    SP,
}

/// Branch conditions on the CPU flags.
#[derive(Clone, Copy, Debug, PartialEq, Eq, Structural)]
pub enum Condition {
    NZ,
    Z,
    NC,
    C,
}

/// A 16-bit immediate operand, as its two bytes.
#[derive(Clone, Copy, Debug, PartialEq, Eq, Structural)]
pub struct Immediate16 {
    pub lower_byte: u8,
    pub higher_byte: u8,
}

impl Immediate16 {
    pub fn as_u16(&self) -> (r: u16)
        ensures
            r == self.higher_byte * 256 + self.lower_byte,
    {
        let r = (self.higher_byte as u16) << 8u16 | self.lower_byte as u16;
        let h = self.higher_byte;
        let l = self.lower_byte;
        assert(((h as u16) << 8u16 | l as u16) == h as u16 * 256 + l as u16) by (bit_vector);
        r
    }

    pub fn from_u16(value: u16) -> (r: Self)
        ensures
            r.lower_byte == value % 256,
            r.higher_byte == value / 256,
    {
        Immediate16 { lower_byte: (value % 256) as u8, higher_byte: (value / 256) as u8 }
    }

    /// Reads an immediate stored lower byte first at `address` (the second
    /// byte's address wraps at the top of the address space).
    pub fn from_memory(machine: &Machine, address: u16) -> (r: Immediate16)
        requires
            machine@.wf(),
            is_readable(address),
            is_readable(if address == 0xFFFF { 0u16 } else { (address + 1) as u16 }),
        ensures
            r.lower_byte == machine@.read(address),
            r.higher_byte == machine@.read(if address == 0xFFFF { 0u16 } else { (address + 1) as u16 }),
    {
        Immediate16 {
            lower_byte: machine.read_u8(address),
            higher_byte: machine.read_u8(address.wrapping_add(1)),
        }
    }
}

/// One decoded CPU instruction with its operands.
#[allow(non_camel_case_types)]
#[derive(Clone, Copy, Debug, PartialEq, Eq, Structural)]
pub enum Instruction {
    ADC_A_mHL,
    ADC_A_r8(R8),
    ADC_A_u8(u8),
    ADD_A_mHL,
    ADD_A_r8(R8),
    ADD_A_u8(u8),
    ADD_HL_r16(R16),
    ADD_SP_i8(i8),
    AND_A_mHL,
    AND_A_r8(R8),
    AND_u8(u8),
    BIT_u3_mHL(u8),
    BIT_u3_r8(u8, R8),
    CALL_a16(Immediate16),
    CALL_cc_u16(Condition, Immediate16),
    CCF,
    CP_A_mHL,
    CP_A_r8(R8),
    CP_A_u8(u8),
    CPL,
    DAA,
    DEC_mHL,
    DEC_r16(R16),
    DEC_r8(R8),
    DI,
    EI,
    HALT,
    Illegal(u8),
    INC_mHL,
    INC_r16(R16),
    INC_r8(R8),
    JP_cc_u16(Condition, Immediate16),
    JP_HL,
    JP_u16(Immediate16),
    JR_cc_i8(Condition, i8),
    JR_i8(i8),
    JR_r8(R8),
    LD_A_FFC,
    LD_A_FFu8(u8),
    LD_A_mHLdec,
    LD_A_mHLinc,
    LD_A_mr16(R16),
    LD_A_mu16(Immediate16),
    LD_FFC_A,
    LD_FFu8_A(u8),
    LD_H_mHL,
    LD_HL_SP_i8(i8),
    LD_L_mHL,
    LD_mHL_u8(u8),
    LD_mHLdec_A,
    LD_mHLinc_A,
    LD_mr16_r8(R16, R8),
    LD_mu16_A(Immediate16),
    LD_mu16_SP(Immediate16),
    LD_r16_d16(R16, Immediate16),
    LD_r8_mr16(R8, R16),
    LD_r8_r8(R8, R8),
    LD_r8_u8(R8, u8),
    LD_SP_HL,
    LD_SP_u16(Immediate16),
    NOP,
    OR_A_mHL,
    OR_A_r8(R8),
    OR_A_u8(u8),
    POP_r16(R16),
    PUSH_r16(R16),
    RES_u3_mHL(u8),
    RES_u3_r8(u8, R8),
    RET_cc(Condition),
    RET,
    RETI,
    RL_mHL,
    RL_r8(R8),
    RLA,
    RLC_mHL,
    RLC_r8(R8),
    RLCA,
    RR_mHL,
    RR_r8(R8),
    RRA,
    RRC_mHL,
    RRC_r8(R8),
    RRCA,
    RST(Immediate16),
    SBC_A_mHL,
    SBC_A_r8(R8),
    SBC_A_u8(u8),
    SCF,
    SET_u3_mHL(u8),
    SET_u3_r8(u8, R8),
    SLA_mHL,
    SLA_r8(R8),
    SRA_mHL,
    SRA_r8(R8),
    SRL_mHL,
    SRL_r8(R8),
    STOP,
    SUB_A_mHL,
    SUB_A_r8(R8),
    SUB_A_u8(u8),
    SWAP_mHL,
    SWAP_r8(R8),
    XOR_A_mHL,
    XOR_A_r8(R8),
    XOR_A_u8(u8),
}

} // verus!
