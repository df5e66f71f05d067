//! Decoding of 16-bit instruction words into a closed instruction taxonomy.
//!
//! The opcode space is sparse and irregular: the operation is sometimes
//! identified by the top nibble alone, sometimes by the top and bottom
//! nibbles together, and sometimes by the full low byte. Decoding is a
//! single precedence chain that tests the most constrained patterns
//! first; any word matching no pattern maps to the distinguished
//! `Invalid_Instruction` kind, so decoding is total and never fails.

use vstd::prelude::*;

verus! {

/// The decoded category of a 16-bit instruction word, independent of its
/// operand values. The variants past `LD_Vx_I` (up to `LD_Vx_R`) are
/// extended-instruction-set opcodes that are recognized here but whose
/// handlers are absent from the executor by design.
#[allow(non_camel_case_types)]
#[derive(Clone, Copy, Debug, PartialEq, Eq, Structural)]
pub enum Instruction {
    SYS_addr,
    CLS,
    RET,
    JP_addr,
    CALL_addr,
    SE_Vx,
    SNE_Vx,
    SE_Vx_Vy,
    LD_Vx,
    ADD_Vx,
    LD_Vx_Vy,
    OR_Vx_Vy,
    AND_Vx_Vy,
    XOR_Vx_Vy,
    ADD_Vx_Vy,
    SUB_Vx_Vy,
    SHR_Vx,
    SUBN_Vx_Vy,
    SHL_Vx,
    SNE_Vx_Vy,
    LD_I,
    JP_V0,
    RND_Vx,
    DRW_Vx_Vy,
    SKP_Vx,
    SKNP_Vx,
    LD_Vx_DT,
    LD_Vx_K,
    LD_DT_Vx,
    LD_ST_Vx,
    ADD_I_Vx,
    LD_F_Vx,
    LD_B_Vx,
    LD_I_Vx,
    LD_Vx_I,
    SCD_nibble,
    SCR,
    SCL,
    EXIT,
    LOW,
    HIGH,
    DRW_Vx_Vy_0,
    LD_HF_Vx,
    LD_R_Vx,
    LD_Vx_R,
    Invalid_Instruction,
}

/// High byte of an instruction word.
pub open spec fn spec_high_byte(opcode: u16) -> u8 {
    (opcode / 0x100) as u8
}

/// Low byte of an instruction word.
pub open spec fn spec_low_byte(opcode: u16) -> u8 {
    (opcode % 0x100) as u8
}

/// Second nibble of an instruction word: the register-X operand.
pub open spec fn spec_op_x(opcode: u16) -> u8 {
    ((opcode / 0x100) % 0x10) as u8
}

/// Third nibble of an instruction word: the register-Y operand.
pub open spec fn spec_op_y(opcode: u16) -> u8 {
    ((opcode / 0x10) % 0x10) as u8
}

/// Lowest nibble of an instruction word: the sprite-row-count operand.
pub open spec fn spec_op_n(opcode: u16) -> u8 {
    (opcode % 0x10) as u8
}

/// Low byte of an instruction word: the immediate-byte operand.
pub open spec fn spec_op_kk(opcode: u16) -> u8 {
    (opcode % 0x100) as u8
}

/// Low 12 bits of an instruction word: the address operand.
pub open spec fn spec_op_nnn(opcode: u16) -> u16 {
    opcode % 0x1000
}

/// The instruction kind a 16-bit word decodes to. A single precedence
/// chain tests full-word patterns before nibble-group patterns before
/// single-nibble patterns; every word falls into exactly one kind.
pub open spec fn spec_parse_opcode(opcode: u16) -> Instruction {
    let high_byte = spec_high_byte(opcode);
    let low_byte = spec_low_byte(opcode);
    let first_nibble = high_byte / 0x10;
    let last_nibble = low_byte % 0x10;
    let third_nibble = low_byte / 0x10;
    if high_byte == 0x00 && low_byte == 0xEE {
        Instruction::RET
    } else if high_byte == 0x00 && low_byte == 0xFB {
        Instruction::SCR
    } else if high_byte == 0x00 && low_byte == 0xFC {
        Instruction::SCL
    } else if high_byte == 0x00 && low_byte == 0xFD {
        Instruction::EXIT
    } else if high_byte == 0x00 && low_byte == 0xFE {
        Instruction::LOW
    } else if high_byte == 0x00 && low_byte == 0xFF {
        Instruction::HIGH
    } else if first_nibble == 0x0 && third_nibble == 0xE {
        Instruction::CLS
    } else if first_nibble == 0x0 && third_nibble == 0xC {
        Instruction::SCD_nibble
    } else if first_nibble == 0x0 {
        Instruction::SYS_addr
    } else if first_nibble == 0x1 {
        Instruction::JP_addr
    } else if first_nibble == 0x2 {
        Instruction::CALL_addr
    } else if first_nibble == 0x3 {
        Instruction::SE_Vx
    } else if first_nibble == 0x4 {
        Instruction::SNE_Vx
    } else if first_nibble == 0x5 {
        Instruction::SE_Vx_Vy
    } else if first_nibble == 0x6 {
        Instruction::LD_Vx
    } else if first_nibble == 0x7 {
        Instruction::ADD_Vx
    } else if first_nibble == 0x8 && last_nibble == 0x0 {
        Instruction::LD_Vx_Vy
    } else if first_nibble == 0x8 && last_nibble == 0x1 {
        Instruction::OR_Vx_Vy
    } else if first_nibble == 0x8 && last_nibble == 0x2 {
        Instruction::AND_Vx_Vy
    } else if first_nibble == 0x8 && last_nibble == 0x3 {
        Instruction::XOR_Vx_Vy
    } else if first_nibble == 0x8 && last_nibble == 0x4 {
        Instruction::ADD_Vx_Vy
    } else if first_nibble == 0x8 && last_nibble == 0x5 {
        Instruction::SUB_Vx_Vy
    } else if first_nibble == 0x8 && last_nibble == 0x6 {
        Instruction::SHR_Vx
    } else if first_nibble == 0x8 && last_nibble == 0x7 {
        Instruction::SUBN_Vx_Vy
    } else if first_nibble == 0x8 && last_nibble == 0xE {
        Instruction::SHL_Vx
    } else if first_nibble == 0x9 && last_nibble == 0x0 {
        Instruction::SNE_Vx_Vy
    } else if first_nibble == 0xA {
        Instruction::LD_I
    } else if first_nibble == 0xB {
        Instruction::JP_V0
    } else if first_nibble == 0xC {
        Instruction::RND_Vx
    } else if first_nibble == 0xD && last_nibble == 0x0 {
        Instruction::DRW_Vx_Vy_0
    } else if first_nibble == 0xD {
        Instruction::DRW_Vx_Vy
    } else if first_nibble == 0xE && low_byte == 0x9E {
        Instruction::SKP_Vx
    } else if first_nibble == 0xE && low_byte == 0xA1 {
        Instruction::SKNP_Vx
    } else if first_nibble == 0xF && low_byte == 0x07 {
        Instruction::LD_Vx_DT
    } else if first_nibble == 0xF && low_byte == 0x0A {
        Instruction::LD_Vx_K
    } else if first_nibble == 0xF && low_byte == 0x15 {
        Instruction::LD_DT_Vx
    } else if first_nibble == 0xF && low_byte == 0x18 {
        Instruction::LD_ST_Vx
    } else if first_nibble == 0xF && low_byte == 0x1E {
        Instruction::ADD_I_Vx
    } else if first_nibble == 0xF && low_byte == 0x29 {
        Instruction::LD_F_Vx
    } else if first_nibble == 0xF && low_byte == 0x33 {
        Instruction::LD_B_Vx
    } else if first_nibble == 0xF && low_byte == 0x55 {
        Instruction::LD_I_Vx
    } else if first_nibble == 0xF && low_byte == 0x65 {
        Instruction::LD_Vx_I
    } else if first_nibble == 0xF && low_byte == 0x30 {
        Instruction::LD_HF_Vx
    } else if first_nibble == 0xF && low_byte == 0x75 {
        Instruction::LD_R_Vx
    } else if first_nibble == 0xF && low_byte == 0x85 {
        Instruction::LD_Vx_R
    } else {
        Instruction::Invalid_Instruction
    }
}

impl Instruction {
    /// Classify a 16-bit instruction word into exactly one instruction
    /// kind. Total over all 65536 words: a word matching no known
    /// pattern yields `Invalid_Instruction` rather than failing.
    pub fn parse_opcode(opcode: u16) -> (inst: Instruction)
        ensures
            inst == spec_parse_opcode(opcode),
    {
        let high_byte: u8 = (opcode / 0x100) as u8;
        let low_byte: u8 = (opcode % 0x100) as u8;
        let first_nibble: u8 = high_byte / 0x10;
        let last_nibble: u8 = low_byte % 0x10;
        let third_nibble: u8 = low_byte / 0x10;
        if high_byte == 0x00 && low_byte == 0xEE {
            Instruction::RET
        } else if high_byte == 0x00 && low_byte == 0xFB {
            Instruction::SCR
        } else if high_byte == 0x00 && low_byte == 0xFC {
            Instruction::SCL
        } else if high_byte == 0x00 && low_byte == 0xFD {
            Instruction::EXIT
        } else if high_byte == 0x00 && low_byte == 0xFE {
            Instruction::LOW
        } else if high_byte == 0x00 && low_byte == 0xFF {
            Instruction::HIGH
        } else if first_nibble == 0x0 && third_nibble == 0xE {
            Instruction::CLS
        } else if first_nibble == 0x0 && third_nibble == 0xC {
            Instruction::SCD_nibble
        } else if first_nibble == 0x0 {
            Instruction::SYS_addr
        } else if first_nibble == 0x1 {
            Instruction::JP_addr
        } else if first_nibble == 0x2 {
            Instruction::CALL_addr
        } else if first_nibble == 0x3 {
            Instruction::SE_Vx
        } else if first_nibble == 0x4 {
            Instruction::SNE_Vx
        } else if first_nibble == 0x5 {
            Instruction::SE_Vx_Vy
        } else if first_nibble == 0x6 {
            Instruction::LD_Vx
        } else if first_nibble == 0x7 {
            Instruction::ADD_Vx
        } else if first_nibble == 0x8 && last_nibble == 0x0 {
            Instruction::LD_Vx_Vy
        } else if first_nibble == 0x8 && last_nibble == 0x1 {
            Instruction::OR_Vx_Vy
        } else if first_nibble == 0x8 && last_nibble == 0x2 {
            Instruction::AND_Vx_Vy
        } else if first_nibble == 0x8 && last_nibble == 0x3 {
            Instruction::XOR_Vx_Vy
        } else if first_nibble == 0x8 && last_nibble == 0x4 {
            Instruction::ADD_Vx_Vy
        } else if first_nibble == 0x8 && last_nibble == 0x5 {
            Instruction::SUB_Vx_Vy
        } else if first_nibble == 0x8 && last_nibble == 0x6 {
            Instruction::SHR_Vx
        } else if first_nibble == 0x8 && last_nibble == 0x7 {
            Instruction::SUBN_Vx_Vy
        } else if first_nibble == 0x8 && last_nibble == 0xE {
            Instruction::SHL_Vx
        } else if first_nibble == 0x9 && last_nibble == 0x0 {
            Instruction::SNE_Vx_Vy
        } else if first_nibble == 0xA {
            Instruction::LD_I
        } else if first_nibble == 0xB {
            Instruction::JP_V0
        } else if first_nibble == 0xC {
            Instruction::RND_Vx
        } else if first_nibble == 0xD && last_nibble == 0x0 {
            Instruction::DRW_Vx_Vy_0
        } else if first_nibble == 0xD {
            Instruction::DRW_Vx_Vy
        } else if first_nibble == 0xE && low_byte == 0x9E {
            Instruction::SKP_Vx
        } else if first_nibble == 0xE && low_byte == 0xA1 {
            Instruction::SKNP_Vx
        } else if first_nibble == 0xF && low_byte == 0x07 {
            Instruction::LD_Vx_DT
        } else if first_nibble == 0xF && low_byte == 0x0A {
            Instruction::LD_Vx_K
        } else if first_nibble == 0xF && low_byte == 0x15 {
            Instruction::LD_DT_Vx
        } else if first_nibble == 0xF && low_byte == 0x18 {
            Instruction::LD_ST_Vx
        } else if first_nibble == 0xF && low_byte == 0x1E {
            Instruction::ADD_I_Vx
        } else if first_nibble == 0xF && low_byte == 0x29 {
            Instruction::LD_F_Vx
        } else if first_nibble == 0xF && low_byte == 0x33 {
            Instruction::LD_B_Vx
        } else if first_nibble == 0xF && low_byte == 0x55 {
            Instruction::LD_I_Vx
        } else if first_nibble == 0xF && low_byte == 0x65 {
            Instruction::LD_Vx_I
        } else if first_nibble == 0xF && low_byte == 0x30 {
            Instruction::LD_HF_Vx
        } else if first_nibble == 0xF && low_byte == 0x75 {
            Instruction::LD_R_Vx
        } else if first_nibble == 0xF && low_byte == 0x85 {
            Instruction::LD_Vx_R
        } else {
            Instruction::Invalid_Instruction
        }
    }
}

/// Decoding is a pure function of the word: any two decodings of the
/// same 16-bit word, at any two times, yield the same instruction kind.
pub proof fn lemma_parse_opcode_deterministic(opcode: u16, a: Instruction, b: Instruction)
    requires
        a == spec_parse_opcode(opcode),
        b == spec_parse_opcode(opcode),
    ensures
        a == b,
{
}

/// Extract the register-X operand (second nibble) of a word.
pub fn op_x(opcode: u16) -> (r: u8)
    ensures
        r == spec_op_x(opcode),
        r < 16,
{
    ((opcode / 0x100) % 0x10) as u8
}

/// Extract the register-Y operand (third nibble) of a word.
pub fn op_y(opcode: u16) -> (r: u8)
    ensures
        r == spec_op_y(opcode),
        r < 16,
{
    ((opcode / 0x10) % 0x10) as u8
}

/// Extract the sprite-row-count operand (lowest nibble) of a word.
pub fn op_n(opcode: u16) -> (r: u8)
    ensures
        r == spec_op_n(opcode),
        r < 16,
{
    (opcode % 0x10) as u8
}

/// Extract the immediate-byte operand (low byte) of a word.
pub fn op_kk(opcode: u16) -> (r: u8)
    ensures
        r == spec_op_kk(opcode),
{
    (opcode % 0x100) as u8
}

/// Extract the address operand (low 12 bits) of a word.
pub fn op_nnn(opcode: u16) -> (r: u16)
    ensures
        r == spec_op_nnn(opcode),
        r < 0x1000,
{
    opcode % 0x1000
}

} // verus!
