//! Instruction decoding: a pure, total map from a 16-bit opcode to a tagged
//! instruction value.
//!
//! Dispatch is by nibble: the top nibble selects a coarse group, and for the
//! groups 0x0, 0x5, 0x8, 0x9, 0xE and 0xF a secondary nibble or the low byte
//! selects the specific operation. Operands are extracted with fixed masks:
//! the high register is bits 8..=11, the low register bits 4..=7, an 8-bit
//! literal bits 0..=7, and a 12-bit address bits 0..=11.

use vstd::prelude::*;

verus! {

/// A decoded CHIP-8 instruction.
///
/// Register operands are 4-bit indices (0..=15), data operands 8-bit
/// literals, and address operands 12-bit values (0..=0xFFF). The two
/// fallbacks are `NOP` for the legacy "call native routine" form `0x0nnn`
/// (executed as a no-op) and `UNKNOWN` for an opcode that matches no defined
/// pattern (fatal when executed).
#[derive(Debug, Clone, Copy, PartialEq, Eq, Structural)]
pub enum Instruction {
    ClearScreen,
    Return,
    Jump(u16),
    Call(u16),
    SkipIfEQData(u8, u8),
    SkipIfNEData(u8, u8),
    SkipIfEQRegister(u8, u8),
    LoadData(u8, u8),
    AddData(u8, u8),
    LoadRegister(u8, u8),
    Or(u8, u8),
    And(u8, u8),
    Xor(u8, u8),
    Add(u8, u8),
    Sub(u8, u8),
    ShiftRight(u8),
    NegatedSub(u8, u8),
    ShiftLeft(u8),
    SkipIfNERegister(u8, u8),
    SetI(u16),
    JumpFromOffset(u16),
    Random(u8, u8),
    Draw(u8, u8, u8),
    SkipIfPressed(u8),
    SkipIfNotPressed(u8),
    SetRegisterFromDelay(u8),
    AwaitPress(u8),
    SetDelayFromRegister(u8),
    SetSoundFromRegister(u8),
    AddI(u8),
    LoadSprite(u8),
    SetBCDRepresentation(u8),
    StoreRegisters(u8),
    ReadRegisters(u8),
    NOP(u16),
    UNKNOWN(u16),
}

/// The 12-bit address operand: bits 0..=11.
pub open spec fn spec_mask_address(bytes: u16) -> u16 {
    bytes & 0x0FFF
}

/// The register operand in bits 8..=11.
pub open spec fn spec_mask_high_register(bytes: u16) -> u8 {
    ((bytes & 0x0F00) >> 8) as u8
}

/// The register operand in bits 4..=7.
pub open spec fn spec_mask_low_register(bytes: u16) -> u8 {
    ((bytes & 0x00F0) >> 4) as u8
}

/// The 8-bit data operand: bits 0..=7.
pub open spec fn spec_mask_data(bytes: u16) -> u8 {
    (bytes & 0x00FF) as u8
}

/// The decoding map itself: total over all 16-bit opcodes, with `NOP` and
/// `UNKNOWN` as the two fallbacks.
pub open spec fn spec_parse_opcode(bytes: u16) -> Instruction {
    if bytes & 0xF000 == 0x0000 {
        if bytes & 0x00FF == 0x00E0 {
            Instruction::ClearScreen
        } else if bytes & 0x00FF == 0x00EE {
            Instruction::Return
        } else {
            Instruction::NOP(bytes)
        }
    } else if bytes & 0xF000 == 0x1000 {
        Instruction::Jump(spec_mask_address(bytes))
    } else if bytes & 0xF000 == 0x2000 {
        Instruction::Call(spec_mask_address(bytes))
    } else if bytes & 0xF000 == 0x3000 {
        Instruction::SkipIfEQData(spec_mask_high_register(bytes), spec_mask_data(bytes))
    } else if bytes & 0xF000 == 0x4000 {
        Instruction::SkipIfNEData(spec_mask_high_register(bytes), spec_mask_data(bytes))
    } else if bytes & 0xF000 == 0x5000 {
        if bytes & 0x000F == 0x0000 {
            Instruction::SkipIfEQRegister(spec_mask_high_register(bytes), spec_mask_low_register(bytes))
        } else {
            Instruction::UNKNOWN(bytes)
        }
    } else if bytes & 0xF000 == 0x6000 {
        Instruction::LoadData(spec_mask_high_register(bytes), spec_mask_data(bytes))
    } else if bytes & 0xF000 == 0x7000 {
        Instruction::AddData(spec_mask_high_register(bytes), spec_mask_data(bytes))
    } else if bytes & 0xF000 == 0x8000 {
        if bytes & 0x000F == 0x0000 {
            Instruction::LoadRegister(spec_mask_high_register(bytes), spec_mask_low_register(bytes))
        } else if bytes & 0x000F == 0x0001 {
            Instruction::Or(spec_mask_high_register(bytes), spec_mask_low_register(bytes))
        } else if bytes & 0x000F == 0x0002 {
            Instruction::And(spec_mask_high_register(bytes), spec_mask_low_register(bytes))
        } else if bytes & 0x000F == 0x0003 {
            Instruction::Xor(spec_mask_high_register(bytes), spec_mask_low_register(bytes))
        } else if bytes & 0x000F == 0x0004 {
            Instruction::Add(spec_mask_high_register(bytes), spec_mask_low_register(bytes))
        } else if bytes & 0x000F == 0x0005 {
            Instruction::Sub(spec_mask_high_register(bytes), spec_mask_low_register(bytes))
        } else if bytes & 0x000F == 0x0006 {
            Instruction::ShiftRight(spec_mask_high_register(bytes))
        } else if bytes & 0x000F == 0x0007 {
            Instruction::NegatedSub(spec_mask_high_register(bytes), spec_mask_low_register(bytes))
        } else if bytes & 0x000F == 0x000E {
            Instruction::ShiftLeft(spec_mask_high_register(bytes))
        } else {
            Instruction::UNKNOWN(bytes)
        }
    } else if bytes & 0xF000 == 0x9000 {
        if bytes & 0x000F == 0x0000 {
            Instruction::SkipIfNERegister(spec_mask_high_register(bytes), spec_mask_low_register(bytes))
        } else {
            Instruction::UNKNOWN(bytes)
        }
    } else if bytes & 0xF000 == 0xA000 {
        Instruction::SetI(spec_mask_address(bytes))
    } else if bytes & 0xF000 == 0xB000 {
        Instruction::JumpFromOffset(spec_mask_address(bytes))
    } else if bytes & 0xF000 == 0xC000 {
        Instruction::Random(spec_mask_high_register(bytes), spec_mask_data(bytes))
    } else if bytes & 0xF000 == 0xD000 {
        Instruction::Draw(
            spec_mask_high_register(bytes),
            spec_mask_low_register(bytes),
            spec_mask_data(bytes & 0x000F),
        )
    } else if bytes & 0xF000 == 0xE000 {
        if bytes & 0x00FF == 0x009E {
            Instruction::SkipIfPressed(spec_mask_high_register(bytes))
        } else if bytes & 0x00FF == 0x00A1 {
            Instruction::SkipIfNotPressed(spec_mask_high_register(bytes))
        } else {
            Instruction::UNKNOWN(bytes)
        }
    } else {
        if bytes & 0x00FF == 0x0007 {
            Instruction::SetRegisterFromDelay(spec_mask_high_register(bytes))
        } else if bytes & 0x00FF == 0x000A {
            Instruction::AwaitPress(spec_mask_high_register(bytes))
        } else if bytes & 0x00FF == 0x0015 {
            Instruction::SetDelayFromRegister(spec_mask_high_register(bytes))
        } else if bytes & 0x00FF == 0x0018 {
            Instruction::SetSoundFromRegister(spec_mask_high_register(bytes))
        } else if bytes & 0x00FF == 0x001E {
            Instruction::AddI(spec_mask_high_register(bytes))
        } else if bytes & 0x00FF == 0x0029 {
            Instruction::LoadSprite(spec_mask_high_register(bytes))
        } else if bytes & 0x00FF == 0x0033 {
            Instruction::SetBCDRepresentation(spec_mask_high_register(bytes))
        } else if bytes & 0x00FF == 0x0055 {
            Instruction::StoreRegisters(spec_mask_high_register(bytes))
        } else if bytes & 0x00FF == 0x0065 {
            Instruction::ReadRegisters(spec_mask_high_register(bytes))
        } else {
            Instruction::UNKNOWN(bytes)
        }
    }
}

/// Operand sanity for a decoded instruction: every register operand is a
/// 4-bit index and a sprite height is at most fifteen rows. The decoder only
/// produces such instructions; the execution engine requires them.
pub open spec fn instruction_wf(instruction: Instruction) -> bool {
    match instruction {
        Instruction::ClearScreen => true,
        Instruction::Return => true,
        Instruction::Jump(_) => true,
        Instruction::Call(_) => true,
        Instruction::SkipIfEQData(x, _) => x < 16,
        Instruction::SkipIfNEData(x, _) => x < 16,
        Instruction::SkipIfEQRegister(x, y) => x < 16 && y < 16,
        Instruction::LoadData(x, _) => x < 16,
        Instruction::AddData(x, _) => x < 16,
        Instruction::LoadRegister(x, y) => x < 16 && y < 16,
        Instruction::Or(x, y) => x < 16 && y < 16,
        Instruction::And(x, y) => x < 16 && y < 16,
        Instruction::Xor(x, y) => x < 16 && y < 16,
        Instruction::Add(x, y) => x < 16 && y < 16,
        Instruction::Sub(x, y) => x < 16 && y < 16,
        Instruction::ShiftRight(x) => x < 16,
        Instruction::NegatedSub(x, y) => x < 16 && y < 16,
        Instruction::ShiftLeft(x) => x < 16,
        Instruction::SkipIfNERegister(x, y) => x < 16 && y < 16,
        Instruction::SetI(_) => true,
        Instruction::JumpFromOffset(_) => true,
        Instruction::Random(x, _) => x < 16,
        Instruction::Draw(x, y, n) => x < 16 && y < 16 && n <= 15,
        Instruction::SkipIfPressed(x) => x < 16,
        Instruction::SkipIfNotPressed(x) => x < 16,
        Instruction::SetRegisterFromDelay(x) => x < 16,
        Instruction::AwaitPress(x) => x < 16,
        Instruction::SetDelayFromRegister(x) => x < 16,
        Instruction::SetSoundFromRegister(x) => x < 16,
        Instruction::AddI(x) => x < 16,
        Instruction::LoadSprite(x) => x < 16,
        Instruction::SetBCDRepresentation(x) => x < 16,
        Instruction::StoreRegisters(x) => x < 16,
        Instruction::ReadRegisters(x) => x < 16,
        Instruction::NOP(_) => true,
        Instruction::UNKNOWN(_) => true,
    }
}

/// Whatever the opcode, the decoder yields a well-formed instruction.
pub proof fn lemma_parsed_instruction_wf(bytes: u16)
    ensures
        instruction_wf(spec_parse_opcode(bytes)),
{
    lemma_parse_operands_in_range(bytes);
    assert(((bytes & 0x000F) & 0x00FF) <= 15) by (bit_vector);
}

/// Every register operand the decoder produces is a 4-bit index, and every
/// address operand a 12-bit value.
pub proof fn lemma_parse_operands_in_range(bytes: u16)
    ensures
        spec_mask_address(bytes) <= 0xFFF,
        spec_mask_high_register(bytes) < 16,
        spec_mask_low_register(bytes) < 16,
{
    assert(bytes & 0x0FFF <= 0xFFF) by (bit_vector);
    assert(((bytes & 0x0F00) >> 8) < 16) by (bit_vector);
    assert(((bytes & 0x00F0) >> 4) < 16) by (bit_vector);
}

fn mask_address(bytes: u16) -> (r: u16)
    ensures
        r == spec_mask_address(bytes),
        r <= 0xFFF,
{
    proof {
        lemma_parse_operands_in_range(bytes);
    }
    bytes & 0x0FFF
}

fn mask_high_register(bytes: u16) -> (r: u8)
    ensures
        r == spec_mask_high_register(bytes),
        r < 16,
{
    proof {
        lemma_parse_operands_in_range(bytes);
    }
    ((bytes & 0x0F00) >> 8) as u8
}

fn mask_low_register(bytes: u16) -> (r: u8)
    ensures
        r == spec_mask_low_register(bytes),
        r < 16,
{
    proof {
        lemma_parse_operands_in_range(bytes);
    }
    ((bytes & 0x00F0) >> 4) as u8
}

fn mask_data(bytes: u16) -> (r: u8)
    ensures
        r == spec_mask_data(bytes),
{
    (bytes & 0x00FF) as u8
}

/// Parse a big-endian 2-byte opcode into its CHIP-8 instruction. Total and
/// deterministic: every 16-bit input maps to some variant.
pub fn parse_opcode(bytes: u16) -> (r: Instruction)
    ensures
        r == spec_parse_opcode(bytes),
{
    match bytes & 0xF000 {
        0x0000 => match bytes & 0x00FF {
            0x00E0 => Instruction::ClearScreen,
            0x00EE => Instruction::Return,
            // 0x0nnn is `jump to machine code routine`, ignored
            _ => Instruction::NOP(bytes),
        },
        0x1000 => Instruction::Jump(mask_address(bytes)),
        0x2000 => Instruction::Call(mask_address(bytes)),
        0x3000 => Instruction::SkipIfEQData(mask_high_register(bytes), mask_data(bytes)),
        0x4000 => Instruction::SkipIfNEData(mask_high_register(bytes), mask_data(bytes)),
        0x5000 => match bytes & 0x000F {
            0x0000 => Instruction::SkipIfEQRegister(mask_high_register(bytes), mask_low_register(bytes)),
            _ => Instruction::UNKNOWN(bytes),
        },
        0x6000 => Instruction::LoadData(mask_high_register(bytes), mask_data(bytes)),
        0x7000 => Instruction::AddData(mask_high_register(bytes), mask_data(bytes)),
        0x8000 => match bytes & 0x000F {
            0x0000 => Instruction::LoadRegister(mask_high_register(bytes), mask_low_register(bytes)),
            0x0001 => Instruction::Or(mask_high_register(bytes), mask_low_register(bytes)),
            0x0002 => Instruction::And(mask_high_register(bytes), mask_low_register(bytes)),
            0x0003 => Instruction::Xor(mask_high_register(bytes), mask_low_register(bytes)),
            0x0004 => Instruction::Add(mask_high_register(bytes), mask_low_register(bytes)),
            0x0005 => Instruction::Sub(mask_high_register(bytes), mask_low_register(bytes)),
            0x0006 => Instruction::ShiftRight(mask_high_register(bytes)),
            0x0007 => Instruction::NegatedSub(mask_high_register(bytes), mask_low_register(bytes)),
            0x000E => Instruction::ShiftLeft(mask_high_register(bytes)),
            _ => Instruction::UNKNOWN(bytes),
        },
        0x9000 => match bytes & 0x000F {
            0x0000 => Instruction::SkipIfNERegister(mask_high_register(bytes), mask_low_register(bytes)),
            _ => Instruction::UNKNOWN(bytes),
        },
        0xA000 => Instruction::SetI(mask_address(bytes)),
        0xB000 => Instruction::JumpFromOffset(mask_address(bytes)),
        0xC000 => Instruction::Random(mask_high_register(bytes), mask_data(bytes)),
        0xD000 => Instruction::Draw(
            mask_high_register(bytes),
            mask_low_register(bytes),
            mask_data(bytes & 0x000F),
        ),
        0xE000 => match bytes & 0x00FF {
            0x009E => Instruction::SkipIfPressed(mask_high_register(bytes)),
            0x00A1 => Instruction::SkipIfNotPressed(mask_high_register(bytes)),
            _ => Instruction::UNKNOWN(bytes),
        },
        0xF000 => match bytes & 0x00FF {
            0x0007 => Instruction::SetRegisterFromDelay(mask_high_register(bytes)),
            0x000A => Instruction::AwaitPress(mask_high_register(bytes)),
            0x0015 => Instruction::SetDelayFromRegister(mask_high_register(bytes)),
            0x0018 => Instruction::SetSoundFromRegister(mask_high_register(bytes)),
            0x001E => Instruction::AddI(mask_high_register(bytes)),
            0x0029 => Instruction::LoadSprite(mask_high_register(bytes)),
            0x0033 => Instruction::SetBCDRepresentation(mask_high_register(bytes)),
            0x0055 => Instruction::StoreRegisters(mask_high_register(bytes)),
            0x0065 => Instruction::ReadRegisters(mask_high_register(bytes)),
            _ => Instruction::UNKNOWN(bytes),
        },
        _ => {
            proof {
                assert(bytes & 0xF000 == 0x0000 || bytes & 0xF000 == 0x1000
                    || bytes & 0xF000 == 0x2000 || bytes & 0xF000 == 0x3000
                    || bytes & 0xF000 == 0x4000 || bytes & 0xF000 == 0x5000
                    || bytes & 0xF000 == 0x6000 || bytes & 0xF000 == 0x7000
                    || bytes & 0xF000 == 0x8000 || bytes & 0xF000 == 0x9000
                    || bytes & 0xF000 == 0xA000 || bytes & 0xF000 == 0xB000
                    || bytes & 0xF000 == 0xC000 || bytes & 0xF000 == 0xD000
                    || bytes & 0xF000 == 0xE000 || bytes & 0xF000 == 0xF000)
                    by (bit_vector);
            }
            Instruction::UNKNOWN(bytes)
        },
    }
}

} // verus!
