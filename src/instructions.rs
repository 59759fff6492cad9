use vstd::prelude::*;

verus! {

/// One instruction family per variant; operands select a register, the byte at
/// address HL (`HLI`) or an immediate that follows the opcode.
#[derive(Clone, Copy, Debug, PartialEq, Eq, Structural)]
pub enum Instruction {
    ADD(ArithmeticTarget),
    ADDL(ArithmeticTargetLong),
    ADC(ArithmeticTarget),
    SUB(ArithmeticTarget),
    SBC(ArithmeticTarget),
    CMP(ArithmeticTarget),
    INC(IncDecTarget),
    DEC(IncDecTarget),
    AND(ArithmeticTarget),
    OR(ArithmeticTarget),
    XOR(ArithmeticTarget),
    RLCA,
    RRCA,
    RLA,
    RRA,
    RLC(RegisterTarget),
    RRC(RegisterTarget),
    RL(RegisterTarget),
    RR(RegisterTarget),
    SLA(RegisterTarget),
    SRA(RegisterTarget),
    SWAP(RegisterTarget),
    SRL(RegisterTarget),
    BIT(u8, RegisterTarget),
    RES(u8, RegisterTarget),
    SET(u8, RegisterTarget),
    JP(JumpType),
    JPL,
    JR(JumpType),
    CALL(JumpType),
    RET(JumpType),
    RETI,
    /// Call to the fixed vector `8 * n`.
    RST(u8),
    PUSH(StackRegisters),
    POP(StackRegisters),
    /// Load; each form names its target before its source.
    LD(LoadType),
    CCF,
    SCF,
    DAA,
    CPL,
    HALT,
    STOP,
    DI,
    EI,
    NOP,
}

#[derive(Clone, Copy, Debug, PartialEq, Eq, Structural)]
pub enum ArithmeticTarget {
    A,
    B,
    C,
    D,
    E,
    H,
    L,
    HLI,
    D8,
}

/// Second operand of a 16-bit addition: a register pair added to HL, or a
/// signed immediate byte added to SP.
#[derive(Clone, Copy, Debug, PartialEq, Eq, Structural)]
pub enum ArithmeticTargetLong {
    BC,
    DE,
    HL,
    SP,
    S8,
}

#[derive(Clone, Copy, Debug, PartialEq, Eq, Structural)]
pub enum IncDecTarget {
    B,
    C,
    D,
    E,
    H,
    L,
    HLI,
    A,
    BC,
    DE,
    HL,
    SP,
}

#[derive(Clone, Copy, Debug, PartialEq, Eq, Structural)]
pub enum RegisterTarget {
    A,
    B,
    C,
    D,
    E,
    H,
    L,
    HLI,
}

#[derive(Clone, Copy, Debug, PartialEq, Eq, Structural)]
pub enum JumpType {
    NotZero,
    Zero,
    NotCarry,
    Carry,
    Always,
}

#[derive(Clone, Copy, Debug, PartialEq, Eq, Structural)]
pub enum StackRegisters {
    AF,
    BC,
    DE,
    HL,
}

#[derive(Clone, Copy, Debug, PartialEq, Eq, Structural)]
pub enum LoadType {
    Byte(LoadByteTarget, LoadByteSource),
    Word(LoadWordTarget, LoadWordSource),
    AFromIndirect(Indirect),
    IndirectFromA(Indirect),
    AFromByteAddress(ByteAddress),
    ByteAddressFromA(ByteAddress),
    /// Stores SP at the absolute address that follows the opcode.
    SPToAddress,
}

#[derive(Clone, Copy, Debug, PartialEq, Eq, Structural)]
pub enum LoadByteTarget {
    B,
    C,
    D,
    E,
    H,
    L,
    HLI,
    A,
}

#[derive(Clone, Copy, Debug, PartialEq, Eq, Structural)]
pub enum LoadByteSource {
    B,
    C,
    D,
    E,
    H,
    L,
    HLI,
    A,
    D8,
}

#[derive(Clone, Copy, Debug, PartialEq, Eq, Structural)]
pub enum LoadWordTarget {
    BC,
    DE,
    HL,
    SP,
}

#[derive(Clone, Copy, Debug, PartialEq, Eq, Structural)]
pub enum LoadWordSource {
    BC,
    DE,
    HL,
    SP,
    D16,
}

/// Memory addressed by a register pair; `HLINC` and `HLDEC` step HL afterwards.
#[derive(Clone, Copy, Debug, PartialEq, Eq, Structural)]
pub enum Indirect {
    BCI,
    DEI,
    HLINC,
    HLDEC,
}

/// `A8` and `C` address the page 0xFF00; `A16` is a full immediate address.
#[derive(Clone, Copy, Debug, PartialEq, Eq, Structural)]
pub enum ByteAddress {
    A8,
    C,
    A16,
}

/// The table of the second byte after the prefix byte 0xCB: every entry is defined.
#[verifier::opaque]
pub open spec fn prefixed_table(byte: u8) -> Instruction {
    match byte {
        0x00 => Instruction::RLC(RegisterTarget::B),
        0x01 => Instruction::RLC(RegisterTarget::C),
        0x02 => Instruction::RLC(RegisterTarget::D),
        0x03 => Instruction::RLC(RegisterTarget::E),
        0x04 => Instruction::RLC(RegisterTarget::H),
        0x05 => Instruction::RLC(RegisterTarget::L),
        0x06 => Instruction::RLC(RegisterTarget::HLI),
        0x07 => Instruction::RLC(RegisterTarget::A),
        0x08 => Instruction::RRC(RegisterTarget::B),
        0x09 => Instruction::RRC(RegisterTarget::C),
        0x0A => Instruction::RRC(RegisterTarget::D),
        0x0B => Instruction::RRC(RegisterTarget::E),
        0x0C => Instruction::RRC(RegisterTarget::H),
        0x0D => Instruction::RRC(RegisterTarget::L),
        0x0E => Instruction::RRC(RegisterTarget::HLI),
        0x0F => Instruction::RRC(RegisterTarget::A),
        0x10 => Instruction::RL(RegisterTarget::B),
        0x11 => Instruction::RL(RegisterTarget::C),
        0x12 => Instruction::RL(RegisterTarget::D),
        0x13 => Instruction::RL(RegisterTarget::E),
        0x14 => Instruction::RL(RegisterTarget::H),
        0x15 => Instruction::RL(RegisterTarget::L),
        0x16 => Instruction::RL(RegisterTarget::HLI),
        0x17 => Instruction::RL(RegisterTarget::A),
        0x18 => Instruction::RR(RegisterTarget::B),
        0x19 => Instruction::RR(RegisterTarget::C),
        0x1A => Instruction::RR(RegisterTarget::D),
        0x1B => Instruction::RR(RegisterTarget::E),
        0x1C => Instruction::RR(RegisterTarget::H),
        0x1D => Instruction::RR(RegisterTarget::L),
        0x1E => Instruction::RR(RegisterTarget::HLI),
        0x1F => Instruction::RR(RegisterTarget::A),
        0x20 => Instruction::SLA(RegisterTarget::B),
        0x21 => Instruction::SLA(RegisterTarget::C),
        0x22 => Instruction::SLA(RegisterTarget::D),
        0x23 => Instruction::SLA(RegisterTarget::E),
        0x24 => Instruction::SLA(RegisterTarget::H),
        0x25 => Instruction::SLA(RegisterTarget::L),
        0x26 => Instruction::SLA(RegisterTarget::HLI),
        0x27 => Instruction::SLA(RegisterTarget::A),
        0x28 => Instruction::SRA(RegisterTarget::B),
        0x29 => Instruction::SRA(RegisterTarget::C),
        0x2A => Instruction::SRA(RegisterTarget::D),
        0x2B => Instruction::SRA(RegisterTarget::E),
        0x2C => Instruction::SRA(RegisterTarget::H),
        0x2D => Instruction::SRA(RegisterTarget::L),
        0x2E => Instruction::SRA(RegisterTarget::HLI),
        0x2F => Instruction::SRA(RegisterTarget::A),
        0x30 => Instruction::SWAP(RegisterTarget::B),
        0x31 => Instruction::SWAP(RegisterTarget::C),
        0x32 => Instruction::SWAP(RegisterTarget::D),
        0x33 => Instruction::SWAP(RegisterTarget::E),
        0x34 => Instruction::SWAP(RegisterTarget::H),
        0x35 => Instruction::SWAP(RegisterTarget::L),
        0x36 => Instruction::SWAP(RegisterTarget::HLI),
        0x37 => Instruction::SWAP(RegisterTarget::A),
        0x38 => Instruction::SRL(RegisterTarget::B),
        0x39 => Instruction::SRL(RegisterTarget::C),
        0x3A => Instruction::SRL(RegisterTarget::D),
        0x3B => Instruction::SRL(RegisterTarget::E),
        0x3C => Instruction::SRL(RegisterTarget::H),
        0x3D => Instruction::SRL(RegisterTarget::L),
        0x3E => Instruction::SRL(RegisterTarget::HLI),
        0x3F => Instruction::SRL(RegisterTarget::A),
        0x40 => Instruction::BIT(0x00, RegisterTarget::B),
        0x41 => Instruction::BIT(0x00, RegisterTarget::C),
        0x42 => Instruction::BIT(0x00, RegisterTarget::D),
        0x43 => Instruction::BIT(0x00, RegisterTarget::E),
        0x44 => Instruction::BIT(0x00, RegisterTarget::H),
        0x45 => Instruction::BIT(0x00, RegisterTarget::L),
        0x46 => Instruction::BIT(0x00, RegisterTarget::HLI),
        0x47 => Instruction::BIT(0x00, RegisterTarget::A),
        0x48 => Instruction::BIT(0x01, RegisterTarget::B),
        0x49 => Instruction::BIT(0x01, RegisterTarget::C),
        0x4A => Instruction::BIT(0x01, RegisterTarget::D),
        0x4B => Instruction::BIT(0x01, RegisterTarget::E),
        0x4C => Instruction::BIT(0x01, RegisterTarget::H),
        0x4D => Instruction::BIT(0x01, RegisterTarget::L),
        0x4E => Instruction::BIT(0x01, RegisterTarget::HLI),
        0x4F => Instruction::BIT(0x01, RegisterTarget::A),
        0x50 => Instruction::BIT(0x02, RegisterTarget::B),
        0x51 => Instruction::BIT(0x02, RegisterTarget::C),
        0x52 => Instruction::BIT(0x02, RegisterTarget::D),
        0x53 => Instruction::BIT(0x02, RegisterTarget::E),
        0x54 => Instruction::BIT(0x02, RegisterTarget::H),
        0x55 => Instruction::BIT(0x02, RegisterTarget::L),
        0x56 => Instruction::BIT(0x02, RegisterTarget::HLI),
        0x57 => Instruction::BIT(0x02, RegisterTarget::A),
        0x58 => Instruction::BIT(0x03, RegisterTarget::B),
        0x59 => Instruction::BIT(0x03, RegisterTarget::C),
        0x5A => Instruction::BIT(0x03, RegisterTarget::D),
        0x5B => Instruction::BIT(0x03, RegisterTarget::E),
        0x5C => Instruction::BIT(0x03, RegisterTarget::H),
        0x5D => Instruction::BIT(0x03, RegisterTarget::L),
        0x5E => Instruction::BIT(0x03, RegisterTarget::HLI),
        0x5F => Instruction::BIT(0x03, RegisterTarget::A),
        0x60 => Instruction::BIT(0x04, RegisterTarget::B),
        0x61 => Instruction::BIT(0x04, RegisterTarget::C),
        0x62 => Instruction::BIT(0x04, RegisterTarget::D),
        0x63 => Instruction::BIT(0x04, RegisterTarget::E),
        0x64 => Instruction::BIT(0x04, RegisterTarget::H),
        0x65 => Instruction::BIT(0x04, RegisterTarget::L),
        0x66 => Instruction::BIT(0x04, RegisterTarget::HLI),
        0x67 => Instruction::BIT(0x04, RegisterTarget::A),
        0x68 => Instruction::BIT(0x05, RegisterTarget::B),
        0x69 => Instruction::BIT(0x05, RegisterTarget::C),
        0x6A => Instruction::BIT(0x05, RegisterTarget::D),
        0x6B => Instruction::BIT(0x05, RegisterTarget::E),
        0x6C => Instruction::BIT(0x05, RegisterTarget::H),
        0x6D => Instruction::BIT(0x05, RegisterTarget::L),
        0x6E => Instruction::BIT(0x05, RegisterTarget::HLI),
        0x6F => Instruction::BIT(0x05, RegisterTarget::A),
        0x70 => Instruction::BIT(0x06, RegisterTarget::B),
        0x71 => Instruction::BIT(0x06, RegisterTarget::C),
        0x72 => Instruction::BIT(0x06, RegisterTarget::D),
        0x73 => Instruction::BIT(0x06, RegisterTarget::E),
        0x74 => Instruction::BIT(0x06, RegisterTarget::H),
        0x75 => Instruction::BIT(0x06, RegisterTarget::L),
        0x76 => Instruction::BIT(0x06, RegisterTarget::HLI),
        0x77 => Instruction::BIT(0x06, RegisterTarget::A),
        0x78 => Instruction::BIT(0x07, RegisterTarget::B),
        0x79 => Instruction::BIT(0x07, RegisterTarget::C),
        0x7A => Instruction::BIT(0x07, RegisterTarget::D),
        0x7B => Instruction::BIT(0x07, RegisterTarget::E),
        0x7C => Instruction::BIT(0x07, RegisterTarget::H),
        0x7D => Instruction::BIT(0x07, RegisterTarget::L),
        0x7E => Instruction::BIT(0x07, RegisterTarget::HLI),
        0x7F => Instruction::BIT(0x07, RegisterTarget::A),
        0x80 => Instruction::RES(0x00, RegisterTarget::B),
        0x81 => Instruction::RES(0x00, RegisterTarget::C),
        0x82 => Instruction::RES(0x00, RegisterTarget::D),
        0x83 => Instruction::RES(0x00, RegisterTarget::E),
        0x84 => Instruction::RES(0x00, RegisterTarget::H),
        0x85 => Instruction::RES(0x00, RegisterTarget::L),
        0x86 => Instruction::RES(0x00, RegisterTarget::HLI),
        0x87 => Instruction::RES(0x00, RegisterTarget::A),
        0x88 => Instruction::RES(0x01, RegisterTarget::B),
        0x89 => Instruction::RES(0x01, RegisterTarget::C),
        0x8A => Instruction::RES(0x01, RegisterTarget::D),
        0x8B => Instruction::RES(0x01, RegisterTarget::E),
        0x8C => Instruction::RES(0x01, RegisterTarget::H),
        0x8D => Instruction::RES(0x01, RegisterTarget::L),
        0x8E => Instruction::RES(0x01, RegisterTarget::HLI),
        0x8F => Instruction::RES(0x01, RegisterTarget::A),
        0x90 => Instruction::RES(0x02, RegisterTarget::B),
        0x91 => Instruction::RES(0x02, RegisterTarget::C),
        0x92 => Instruction::RES(0x02, RegisterTarget::D),
        0x93 => Instruction::RES(0x02, RegisterTarget::E),
        0x94 => Instruction::RES(0x02, RegisterTarget::H),
        0x95 => Instruction::RES(0x02, RegisterTarget::L),
        0x96 => Instruction::RES(0x02, RegisterTarget::HLI),
        0x97 => Instruction::RES(0x02, RegisterTarget::A),
        0x98 => Instruction::RES(0x03, RegisterTarget::B),
        0x99 => Instruction::RES(0x03, RegisterTarget::C),
        0x9A => Instruction::RES(0x03, RegisterTarget::D),
        0x9B => Instruction::RES(0x03, RegisterTarget::E),
        0x9C => Instruction::RES(0x03, RegisterTarget::H),
        0x9D => Instruction::RES(0x03, RegisterTarget::L),
        0x9E => Instruction::RES(0x03, RegisterTarget::HLI),
        0x9F => Instruction::RES(0x03, RegisterTarget::A),
        0xA0 => Instruction::RES(0x04, RegisterTarget::B),
        0xA1 => Instruction::RES(0x04, RegisterTarget::C),
        0xA2 => Instruction::RES(0x04, RegisterTarget::D),
        0xA3 => Instruction::RES(0x04, RegisterTarget::E),
        0xA4 => Instruction::RES(0x04, RegisterTarget::H),
        0xA5 => Instruction::RES(0x04, RegisterTarget::L),
        0xA6 => Instruction::RES(0x04, RegisterTarget::HLI),
        0xA7 => Instruction::RES(0x04, RegisterTarget::A),
        0xA8 => Instruction::RES(0x05, RegisterTarget::B),
        0xA9 => Instruction::RES(0x05, RegisterTarget::C),
        0xAA => Instruction::RES(0x05, RegisterTarget::D),
        0xAB => Instruction::RES(0x05, RegisterTarget::E),
        0xAC => Instruction::RES(0x05, RegisterTarget::H),
        0xAD => Instruction::RES(0x05, RegisterTarget::L),
        0xAE => Instruction::RES(0x05, RegisterTarget::HLI),
        0xAF => Instruction::RES(0x05, RegisterTarget::A),
        0xB0 => Instruction::RES(0x06, RegisterTarget::B),
        0xB1 => Instruction::RES(0x06, RegisterTarget::C),
        0xB2 => Instruction::RES(0x06, RegisterTarget::D),
        0xB3 => Instruction::RES(0x06, RegisterTarget::E),
        0xB4 => Instruction::RES(0x06, RegisterTarget::H),
        0xB5 => Instruction::RES(0x06, RegisterTarget::L),
        0xB6 => Instruction::RES(0x06, RegisterTarget::HLI),
        0xB7 => Instruction::RES(0x06, RegisterTarget::A),
        0xB8 => Instruction::RES(0x07, RegisterTarget::B),
        0xB9 => Instruction::RES(0x07, RegisterTarget::C),
        0xBA => Instruction::RES(0x07, RegisterTarget::D),
        0xBB => Instruction::RES(0x07, RegisterTarget::E),
        0xBC => Instruction::RES(0x07, RegisterTarget::H),
        0xBD => Instruction::RES(0x07, RegisterTarget::L),
        0xBE => Instruction::RES(0x07, RegisterTarget::HLI),
        0xBF => Instruction::RES(0x07, RegisterTarget::A),
        0xC0 => Instruction::SET(0x00, RegisterTarget::B),
        0xC1 => Instruction::SET(0x00, RegisterTarget::C),
        0xC2 => Instruction::SET(0x00, RegisterTarget::D),
        0xC3 => Instruction::SET(0x00, RegisterTarget::E),
        0xC4 => Instruction::SET(0x00, RegisterTarget::H),
        0xC5 => Instruction::SET(0x00, RegisterTarget::L),
        0xC6 => Instruction::SET(0x00, RegisterTarget::HLI),
        0xC7 => Instruction::SET(0x00, RegisterTarget::A),
        0xC8 => Instruction::SET(0x01, RegisterTarget::B),
        0xC9 => Instruction::SET(0x01, RegisterTarget::C),
        0xCA => Instruction::SET(0x01, RegisterTarget::D),
        0xCB => Instruction::SET(0x01, RegisterTarget::E),
        0xCC => Instruction::SET(0x01, RegisterTarget::H),
        0xCD => Instruction::SET(0x01, RegisterTarget::L),
        0xCE => Instruction::SET(0x01, RegisterTarget::HLI),
        0xCF => Instruction::SET(0x01, RegisterTarget::A),
        0xD0 => Instruction::SET(0x02, RegisterTarget::B),
        0xD1 => Instruction::SET(0x02, RegisterTarget::C),
        0xD2 => Instruction::SET(0x02, RegisterTarget::D),
        0xD3 => Instruction::SET(0x02, RegisterTarget::E),
        0xD4 => Instruction::SET(0x02, RegisterTarget::H),
        0xD5 => Instruction::SET(0x02, RegisterTarget::L),
        0xD6 => Instruction::SET(0x02, RegisterTarget::HLI),
        0xD7 => Instruction::SET(0x02, RegisterTarget::A),
        0xD8 => Instruction::SET(0x03, RegisterTarget::B),
        0xD9 => Instruction::SET(0x03, RegisterTarget::C),
        0xDA => Instruction::SET(0x03, RegisterTarget::D),
        0xDB => Instruction::SET(0x03, RegisterTarget::E),
        0xDC => Instruction::SET(0x03, RegisterTarget::H),
        0xDD => Instruction::SET(0x03, RegisterTarget::L),
        0xDE => Instruction::SET(0x03, RegisterTarget::HLI),
        0xDF => Instruction::SET(0x03, RegisterTarget::A),
        0xE0 => Instruction::SET(0x04, RegisterTarget::B),
        0xE1 => Instruction::SET(0x04, RegisterTarget::C),
        0xE2 => Instruction::SET(0x04, RegisterTarget::D),
        0xE3 => Instruction::SET(0x04, RegisterTarget::E),
        0xE4 => Instruction::SET(0x04, RegisterTarget::H),
        0xE5 => Instruction::SET(0x04, RegisterTarget::L),
        0xE6 => Instruction::SET(0x04, RegisterTarget::HLI),
        0xE7 => Instruction::SET(0x04, RegisterTarget::A),
        0xE8 => Instruction::SET(0x05, RegisterTarget::B),
        0xE9 => Instruction::SET(0x05, RegisterTarget::C),
        0xEA => Instruction::SET(0x05, RegisterTarget::D),
        0xEB => Instruction::SET(0x05, RegisterTarget::E),
        0xEC => Instruction::SET(0x05, RegisterTarget::H),
        0xED => Instruction::SET(0x05, RegisterTarget::L),
        0xEE => Instruction::SET(0x05, RegisterTarget::HLI),
        0xEF => Instruction::SET(0x05, RegisterTarget::A),
        0xF0 => Instruction::SET(0x06, RegisterTarget::B),
        0xF1 => Instruction::SET(0x06, RegisterTarget::C),
        0xF2 => Instruction::SET(0x06, RegisterTarget::D),
        0xF3 => Instruction::SET(0x06, RegisterTarget::E),
        0xF4 => Instruction::SET(0x06, RegisterTarget::H),
        0xF5 => Instruction::SET(0x06, RegisterTarget::L),
        0xF6 => Instruction::SET(0x06, RegisterTarget::HLI),
        0xF7 => Instruction::SET(0x06, RegisterTarget::A),
        0xF8 => Instruction::SET(0x07, RegisterTarget::B),
        0xF9 => Instruction::SET(0x07, RegisterTarget::C),
        0xFA => Instruction::SET(0x07, RegisterTarget::D),
        0xFB => Instruction::SET(0x07, RegisterTarget::E),
        0xFC => Instruction::SET(0x07, RegisterTarget::H),
        0xFD => Instruction::SET(0x07, RegisterTarget::L),
        0xFE => Instruction::SET(0x07, RegisterTarget::HLI),
        0xFF => Instruction::SET(0x07, RegisterTarget::A),
    }
}

/// The table of the first opcode byte; `None` marks an illegal opcode (and the prefix byte).
#[verifier::opaque]
pub open spec fn unprefixed_table(byte: u8) -> Option<Instruction> {
    match byte {
        0x00 => Some(Instruction::NOP),
        0x01 => Some(Instruction::LD(LoadType::Word(LoadWordTarget::BC, LoadWordSource::D16))),
        0x02 => Some(Instruction::LD(LoadType::IndirectFromA(Indirect::BCI))),
        0x03 => Some(Instruction::INC(IncDecTarget::BC)),
        0x04 => Some(Instruction::INC(IncDecTarget::B)),
        0x05 => Some(Instruction::DEC(IncDecTarget::B)),
        0x06 => Some(Instruction::LD(LoadType::Byte(LoadByteTarget::B, LoadByteSource::D8))),
        0x07 => Some(Instruction::RLCA),
        0x08 => Some(Instruction::LD(LoadType::SPToAddress)),
        0x09 => Some(Instruction::ADDL(ArithmeticTargetLong::BC)),
        0x0A => Some(Instruction::LD(LoadType::AFromIndirect(Indirect::BCI))),
        0x0B => Some(Instruction::DEC(IncDecTarget::BC)),
        0x0C => Some(Instruction::INC(IncDecTarget::C)),
        0x0D => Some(Instruction::DEC(IncDecTarget::C)),
        0x0E => Some(Instruction::LD(LoadType::Byte(LoadByteTarget::C, LoadByteSource::D8))),
        0x0F => Some(Instruction::RRCA),
        0x10 => Some(Instruction::STOP),
        0x11 => Some(Instruction::LD(LoadType::Word(LoadWordTarget::DE, LoadWordSource::D16))),
        0x12 => Some(Instruction::LD(LoadType::IndirectFromA(Indirect::DEI))),
        0x13 => Some(Instruction::INC(IncDecTarget::DE)),
        0x14 => Some(Instruction::INC(IncDecTarget::D)),
        0x15 => Some(Instruction::DEC(IncDecTarget::D)),
        0x16 => Some(Instruction::LD(LoadType::Byte(LoadByteTarget::D, LoadByteSource::D8))),
        0x17 => Some(Instruction::RLA),
        0x18 => Some(Instruction::JR(JumpType::Always)),
        0x19 => Some(Instruction::ADDL(ArithmeticTargetLong::DE)),
        0x1A => Some(Instruction::LD(LoadType::AFromIndirect(Indirect::DEI))),
        0x1B => Some(Instruction::DEC(IncDecTarget::DE)),
        0x1C => Some(Instruction::INC(IncDecTarget::E)),
        0x1D => Some(Instruction::DEC(IncDecTarget::E)),
        0x1E => Some(Instruction::LD(LoadType::Byte(LoadByteTarget::E, LoadByteSource::D8))),
        0x1F => Some(Instruction::RRA),
        0x20 => Some(Instruction::JR(JumpType::NotZero)),
        0x21 => Some(Instruction::LD(LoadType::Word(LoadWordTarget::HL, LoadWordSource::D16))),
        0x22 => Some(Instruction::LD(LoadType::IndirectFromA(Indirect::HLINC))),
        0x23 => Some(Instruction::INC(IncDecTarget::HL)),
        0x24 => Some(Instruction::INC(IncDecTarget::H)),
        0x25 => Some(Instruction::DEC(IncDecTarget::H)),
        0x26 => Some(Instruction::LD(LoadType::Byte(LoadByteTarget::H, LoadByteSource::D8))),
        0x27 => Some(Instruction::DAA),
        0x28 => Some(Instruction::JR(JumpType::Zero)),
        0x29 => Some(Instruction::ADDL(ArithmeticTargetLong::HL)),
        0x2A => Some(Instruction::LD(LoadType::AFromIndirect(Indirect::HLINC))),
        0x2B => Some(Instruction::DEC(IncDecTarget::HL)),
        0x2C => Some(Instruction::INC(IncDecTarget::L)),
        0x2D => Some(Instruction::DEC(IncDecTarget::L)),
        0x2E => Some(Instruction::LD(LoadType::Byte(LoadByteTarget::L, LoadByteSource::D8))),
        0x2F => Some(Instruction::CPL),
        0x30 => Some(Instruction::JR(JumpType::NotCarry)),
        0x31 => Some(Instruction::LD(LoadType::Word(LoadWordTarget::SP, LoadWordSource::D16))),
        0x32 => Some(Instruction::LD(LoadType::IndirectFromA(Indirect::HLDEC))),
        0x33 => Some(Instruction::INC(IncDecTarget::SP)),
        0x34 => Some(Instruction::INC(IncDecTarget::HLI)),
        0x35 => Some(Instruction::DEC(IncDecTarget::HLI)),
        0x36 => Some(Instruction::LD(LoadType::Byte(LoadByteTarget::HLI, LoadByteSource::D8))),
        0x37 => Some(Instruction::SCF),
        0x38 => Some(Instruction::JR(JumpType::Carry)),
        0x39 => Some(Instruction::ADDL(ArithmeticTargetLong::SP)),
        0x3A => Some(Instruction::LD(LoadType::AFromIndirect(Indirect::HLDEC))),
        0x3B => Some(Instruction::DEC(IncDecTarget::SP)),
        0x3C => Some(Instruction::INC(IncDecTarget::A)),
        0x3D => Some(Instruction::DEC(IncDecTarget::A)),
        0x3E => Some(Instruction::LD(LoadType::Byte(LoadByteTarget::A, LoadByteSource::D8))),
        0x3F => Some(Instruction::CCF),
        0x40 => Some(Instruction::LD(LoadType::Byte(LoadByteTarget::B, LoadByteSource::B))),
        0x41 => Some(Instruction::LD(LoadType::Byte(LoadByteTarget::B, LoadByteSource::C))),
        0x42 => Some(Instruction::LD(LoadType::Byte(LoadByteTarget::B, LoadByteSource::D))),
        0x43 => Some(Instruction::LD(LoadType::Byte(LoadByteTarget::B, LoadByteSource::E))),
        0x44 => Some(Instruction::LD(LoadType::Byte(LoadByteTarget::B, LoadByteSource::H))),
        0x45 => Some(Instruction::LD(LoadType::Byte(LoadByteTarget::B, LoadByteSource::L))),
        0x46 => Some(Instruction::LD(LoadType::Byte(LoadByteTarget::B, LoadByteSource::HLI))),
        0x47 => Some(Instruction::LD(LoadType::Byte(LoadByteTarget::B, LoadByteSource::A))),
        0x48 => Some(Instruction::LD(LoadType::Byte(LoadByteTarget::C, LoadByteSource::B))),
        0x49 => Some(Instruction::LD(LoadType::Byte(LoadByteTarget::C, LoadByteSource::C))),
        0x4A => Some(Instruction::LD(LoadType::Byte(LoadByteTarget::C, LoadByteSource::D))),
        0x4B => Some(Instruction::LD(LoadType::Byte(LoadByteTarget::C, LoadByteSource::E))),
        0x4C => Some(Instruction::LD(LoadType::Byte(LoadByteTarget::C, LoadByteSource::H))),
        0x4D => Some(Instruction::LD(LoadType::Byte(LoadByteTarget::C, LoadByteSource::L))),
        0x4E => Some(Instruction::LD(LoadType::Byte(LoadByteTarget::C, LoadByteSource::HLI))),
        0x4F => Some(Instruction::LD(LoadType::Byte(LoadByteTarget::C, LoadByteSource::A))),
        0x50 => Some(Instruction::LD(LoadType::Byte(LoadByteTarget::D, LoadByteSource::B))),
        0x51 => Some(Instruction::LD(LoadType::Byte(LoadByteTarget::D, LoadByteSource::C))),
        0x52 => Some(Instruction::LD(LoadType::Byte(LoadByteTarget::D, LoadByteSource::D))),
        0x53 => Some(Instruction::LD(LoadType::Byte(LoadByteTarget::D, LoadByteSource::E))),
        0x54 => Some(Instruction::LD(LoadType::Byte(LoadByteTarget::D, LoadByteSource::H))),
        0x55 => Some(Instruction::LD(LoadType::Byte(LoadByteTarget::D, LoadByteSource::L))),
        0x56 => Some(Instruction::LD(LoadType::Byte(LoadByteTarget::D, LoadByteSource::HLI))),
        0x57 => Some(Instruction::LD(LoadType::Byte(LoadByteTarget::D, LoadByteSource::A))),
        0x58 => Some(Instruction::LD(LoadType::Byte(LoadByteTarget::E, LoadByteSource::B))),
        0x59 => Some(Instruction::LD(LoadType::Byte(LoadByteTarget::E, LoadByteSource::C))),
        0x5A => Some(Instruction::LD(LoadType::Byte(LoadByteTarget::E, LoadByteSource::D))),
        0x5B => Some(Instruction::LD(LoadType::Byte(LoadByteTarget::E, LoadByteSource::E))),
        0x5C => Some(Instruction::LD(LoadType::Byte(LoadByteTarget::E, LoadByteSource::H))),
        0x5D => Some(Instruction::LD(LoadType::Byte(LoadByteTarget::E, LoadByteSource::L))),
        0x5E => Some(Instruction::LD(LoadType::Byte(LoadByteTarget::E, LoadByteSource::HLI))),
        0x5F => Some(Instruction::LD(LoadType::Byte(LoadByteTarget::E, LoadByteSource::A))),
        0x60 => Some(Instruction::LD(LoadType::Byte(LoadByteTarget::H, LoadByteSource::B))),
        0x61 => Some(Instruction::LD(LoadType::Byte(LoadByteTarget::H, LoadByteSource::C))),
        0x62 => Some(Instruction::LD(LoadType::Byte(LoadByteTarget::H, LoadByteSource::D))),
        0x63 => Some(Instruction::LD(LoadType::Byte(LoadByteTarget::H, LoadByteSource::E))),
        0x64 => Some(Instruction::LD(LoadType::Byte(LoadByteTarget::H, LoadByteSource::H))),
        0x65 => Some(Instruction::LD(LoadType::Byte(LoadByteTarget::H, LoadByteSource::L))),
        0x66 => Some(Instruction::LD(LoadType::Byte(LoadByteTarget::H, LoadByteSource::HLI))),
        0x67 => Some(Instruction::LD(LoadType::Byte(LoadByteTarget::H, LoadByteSource::A))),
        0x68 => Some(Instruction::LD(LoadType::Byte(LoadByteTarget::L, LoadByteSource::B))),
        0x69 => Some(Instruction::LD(LoadType::Byte(LoadByteTarget::L, LoadByteSource::C))),
        0x6A => Some(Instruction::LD(LoadType::Byte(LoadByteTarget::L, LoadByteSource::D))),
        0x6B => Some(Instruction::LD(LoadType::Byte(LoadByteTarget::L, LoadByteSource::E))),
        0x6C => Some(Instruction::LD(LoadType::Byte(LoadByteTarget::L, LoadByteSource::H))),
        0x6D => Some(Instruction::LD(LoadType::Byte(LoadByteTarget::L, LoadByteSource::L))),
        0x6E => Some(Instruction::LD(LoadType::Byte(LoadByteTarget::L, LoadByteSource::HLI))),
        0x6F => Some(Instruction::LD(LoadType::Byte(LoadByteTarget::L, LoadByteSource::A))),
        0x70 => Some(Instruction::LD(LoadType::Byte(LoadByteTarget::HLI, LoadByteSource::B))),
        0x71 => Some(Instruction::LD(LoadType::Byte(LoadByteTarget::HLI, LoadByteSource::C))),
        0x72 => Some(Instruction::LD(LoadType::Byte(LoadByteTarget::HLI, LoadByteSource::D))),
        0x73 => Some(Instruction::LD(LoadType::Byte(LoadByteTarget::HLI, LoadByteSource::E))),
        0x74 => Some(Instruction::LD(LoadType::Byte(LoadByteTarget::HLI, LoadByteSource::H))),
        0x75 => Some(Instruction::LD(LoadType::Byte(LoadByteTarget::HLI, LoadByteSource::L))),
        0x76 => Some(Instruction::HALT),
        0x77 => Some(Instruction::LD(LoadType::Byte(LoadByteTarget::HLI, LoadByteSource::A))),
        0x78 => Some(Instruction::LD(LoadType::Byte(LoadByteTarget::A, LoadByteSource::B))),
        0x79 => Some(Instruction::LD(LoadType::Byte(LoadByteTarget::A, LoadByteSource::C))),
        0x7A => Some(Instruction::LD(LoadType::Byte(LoadByteTarget::A, LoadByteSource::D))),
        0x7B => Some(Instruction::LD(LoadType::Byte(LoadByteTarget::A, LoadByteSource::E))),
        0x7C => Some(Instruction::LD(LoadType::Byte(LoadByteTarget::A, LoadByteSource::H))),
        0x7D => Some(Instruction::LD(LoadType::Byte(LoadByteTarget::A, LoadByteSource::L))),
        0x7E => Some(Instruction::LD(LoadType::Byte(LoadByteTarget::A, LoadByteSource::HLI))),
        0x7F => Some(Instruction::LD(LoadType::Byte(LoadByteTarget::A, LoadByteSource::A))),
        0x80 => Some(Instruction::ADD(ArithmeticTarget::B)),
        0x81 => Some(Instruction::ADD(ArithmeticTarget::C)),
        0x82 => Some(Instruction::ADD(ArithmeticTarget::D)),
        0x83 => Some(Instruction::ADD(ArithmeticTarget::E)),
        0x84 => Some(Instruction::ADD(ArithmeticTarget::H)),
        0x85 => Some(Instruction::ADD(ArithmeticTarget::L)),
        0x86 => Some(Instruction::ADD(ArithmeticTarget::HLI)),
        0x87 => Some(Instruction::ADD(ArithmeticTarget::A)),
        0x88 => Some(Instruction::ADC(ArithmeticTarget::B)),
        0x89 => Some(Instruction::ADC(ArithmeticTarget::C)),
        0x8A => Some(Instruction::ADC(ArithmeticTarget::D)),
        0x8B => Some(Instruction::ADC(ArithmeticTarget::E)),
        0x8C => Some(Instruction::ADC(ArithmeticTarget::H)),
        0x8D => Some(Instruction::ADC(ArithmeticTarget::L)),
        0x8E => Some(Instruction::ADC(ArithmeticTarget::HLI)),
        0x8F => Some(Instruction::ADC(ArithmeticTarget::A)),
        0x90 => Some(Instruction::SUB(ArithmeticTarget::B)),
        0x91 => Some(Instruction::SUB(ArithmeticTarget::C)),
        0x92 => Some(Instruction::SUB(ArithmeticTarget::D)),
        0x93 => Some(Instruction::SUB(ArithmeticTarget::E)),
        0x94 => Some(Instruction::SUB(ArithmeticTarget::H)),
        0x95 => Some(Instruction::SUB(ArithmeticTarget::L)),
        0x96 => Some(Instruction::SUB(ArithmeticTarget::HLI)),
        0x97 => Some(Instruction::SUB(ArithmeticTarget::A)),
        0x98 => Some(Instruction::SBC(ArithmeticTarget::B)),
        0x99 => Some(Instruction::SBC(ArithmeticTarget::C)),
        0x9A => Some(Instruction::SBC(ArithmeticTarget::D)),
        0x9B => Some(Instruction::SBC(ArithmeticTarget::E)),
        0x9C => Some(Instruction::SBC(ArithmeticTarget::H)),
        0x9D => Some(Instruction::SBC(ArithmeticTarget::L)),
        0x9E => Some(Instruction::SBC(ArithmeticTarget::HLI)),
        0x9F => Some(Instruction::SBC(ArithmeticTarget::A)),
        0xA0 => Some(Instruction::AND(ArithmeticTarget::B)),
        0xA1 => Some(Instruction::AND(ArithmeticTarget::C)),
        0xA2 => Some(Instruction::AND(ArithmeticTarget::D)),
        0xA3 => Some(Instruction::AND(ArithmeticTarget::E)),
        0xA4 => Some(Instruction::AND(ArithmeticTarget::H)),
        0xA5 => Some(Instruction::AND(ArithmeticTarget::L)),
        0xA6 => Some(Instruction::AND(ArithmeticTarget::HLI)),
        0xA7 => Some(Instruction::AND(ArithmeticTarget::A)),
        0xA8 => Some(Instruction::XOR(ArithmeticTarget::B)),
        0xA9 => Some(Instruction::XOR(ArithmeticTarget::C)),
        0xAA => Some(Instruction::XOR(ArithmeticTarget::D)),
        0xAB => Some(Instruction::XOR(ArithmeticTarget::E)),
        0xAC => Some(Instruction::XOR(ArithmeticTarget::H)),
        0xAD => Some(Instruction::XOR(ArithmeticTarget::L)),
        0xAE => Some(Instruction::XOR(ArithmeticTarget::HLI)),
        0xAF => Some(Instruction::XOR(ArithmeticTarget::A)),
        0xB0 => Some(Instruction::OR(ArithmeticTarget::B)),
        0xB1 => Some(Instruction::OR(ArithmeticTarget::C)),
        0xB2 => Some(Instruction::OR(ArithmeticTarget::D)),
        0xB3 => Some(Instruction::OR(ArithmeticTarget::E)),
        0xB4 => Some(Instruction::OR(ArithmeticTarget::H)),
        0xB5 => Some(Instruction::OR(ArithmeticTarget::L)),
        0xB6 => Some(Instruction::OR(ArithmeticTarget::HLI)),
        0xB7 => Some(Instruction::OR(ArithmeticTarget::A)),
        0xB8 => Some(Instruction::CMP(ArithmeticTarget::B)),
        0xB9 => Some(Instruction::CMP(ArithmeticTarget::C)),
        0xBA => Some(Instruction::CMP(ArithmeticTarget::D)),
        0xBB => Some(Instruction::CMP(ArithmeticTarget::E)),
        0xBC => Some(Instruction::CMP(ArithmeticTarget::H)),
        0xBD => Some(Instruction::CMP(ArithmeticTarget::L)),
        0xBE => Some(Instruction::CMP(ArithmeticTarget::HLI)),
        0xBF => Some(Instruction::CMP(ArithmeticTarget::A)),
        0xC0 => Some(Instruction::RET(JumpType::NotZero)),
        0xC1 => Some(Instruction::POP(StackRegisters::BC)),
        0xC2 => Some(Instruction::JP(JumpType::NotZero)),
        0xC3 => Some(Instruction::JP(JumpType::Always)),
        0xC4 => Some(Instruction::CALL(JumpType::NotZero)),
        0xC5 => Some(Instruction::PUSH(StackRegisters::BC)),
        0xC6 => Some(Instruction::ADD(ArithmeticTarget::D8)),
        0xC7 => Some(Instruction::RST(0x00)),
        0xC8 => Some(Instruction::RET(JumpType::Zero)),
        0xC9 => Some(Instruction::RET(JumpType::Always)),
        0xCA => Some(Instruction::JP(JumpType::Zero)),
        0xCC => Some(Instruction::CALL(JumpType::Zero)),
        0xCD => Some(Instruction::CALL(JumpType::Always)),
        0xCE => Some(Instruction::ADC(ArithmeticTarget::D8)),
        0xCF => Some(Instruction::RST(0x01)),
        0xD0 => Some(Instruction::RET(JumpType::NotCarry)),
        0xD1 => Some(Instruction::POP(StackRegisters::DE)),
        0xD2 => Some(Instruction::JP(JumpType::NotCarry)),
        0xD4 => Some(Instruction::CALL(JumpType::NotCarry)),
        0xD5 => Some(Instruction::PUSH(StackRegisters::DE)),
        0xD6 => Some(Instruction::SUB(ArithmeticTarget::D8)),
        0xD7 => Some(Instruction::RST(0x02)),
        0xD8 => Some(Instruction::RET(JumpType::Carry)),
        0xD9 => Some(Instruction::RETI),
        0xDA => Some(Instruction::JP(JumpType::Carry)),
        0xDC => Some(Instruction::CALL(JumpType::Carry)),
        0xDE => Some(Instruction::SBC(ArithmeticTarget::D8)),
        0xDF => Some(Instruction::RST(0x03)),
        0xE0 => Some(Instruction::LD(LoadType::ByteAddressFromA(ByteAddress::A8))),
        0xE1 => Some(Instruction::POP(StackRegisters::HL)),
        0xE2 => Some(Instruction::LD(LoadType::ByteAddressFromA(ByteAddress::C))),
        0xE5 => Some(Instruction::PUSH(StackRegisters::HL)),
        0xE6 => Some(Instruction::AND(ArithmeticTarget::D8)),
        0xE7 => Some(Instruction::RST(0x04)),
        0xE8 => Some(Instruction::ADDL(ArithmeticTargetLong::S8)),
        0xE9 => Some(Instruction::JPL),
        0xEA => Some(Instruction::LD(LoadType::ByteAddressFromA(ByteAddress::A16))),
        0xEE => Some(Instruction::XOR(ArithmeticTarget::D8)),
        0xEF => Some(Instruction::RST(0x05)),
        0xF0 => Some(Instruction::LD(LoadType::AFromByteAddress(ByteAddress::A8))),
        0xF1 => Some(Instruction::POP(StackRegisters::AF)),
        0xF2 => Some(Instruction::LD(LoadType::AFromByteAddress(ByteAddress::C))),
        0xF3 => Some(Instruction::DI),
        0xF5 => Some(Instruction::PUSH(StackRegisters::AF)),
        0xF6 => Some(Instruction::OR(ArithmeticTarget::D8)),
        0xF7 => Some(Instruction::RST(0x06)),
        0xF8 => Some(Instruction::LD(LoadType::Word(LoadWordTarget::HL, LoadWordSource::SP))),
        0xF9 => Some(Instruction::LD(LoadType::Word(LoadWordTarget::SP, LoadWordSource::HL))),
        0xFA => Some(Instruction::LD(LoadType::AFromByteAddress(ByteAddress::A16))),
        0xFB => Some(Instruction::EI),
        0xFE => Some(Instruction::CMP(ArithmeticTarget::D8)),
        0xFF => Some(Instruction::RST(0x07)),
        _ => None,
    }
}

/// The instruction that an opcode byte selects in one of the two tables.
pub open spec fn decode(byte: u8, prefixed: bool) -> Option<Instruction> {
    if prefixed {
        Some(prefixed_table(byte))
    } else {
        unprefixed_table(byte)
    }
}

/// Register operands in their encoding order: B, C, D, E, H, L, (HL), A.
pub open spec fn register_target_of(index: u8) -> RegisterTarget {
    if index == 0 {
        RegisterTarget::B
    } else if index == 1 {
        RegisterTarget::C
    } else if index == 2 {
        RegisterTarget::D
    } else if index == 3 {
        RegisterTarget::E
    } else if index == 4 {
        RegisterTarget::H
    } else if index == 5 {
        RegisterTarget::L
    } else if index == 6 {
        RegisterTarget::HLI
    } else {
        RegisterTarget::A
    }
}

fn register_target(index: u8) -> (r: RegisterTarget)
    ensures
        r == register_target_of(index),
{
    if index == 0 {
        RegisterTarget::B
    } else if index == 1 {
        RegisterTarget::C
    } else if index == 2 {
        RegisterTarget::D
    } else if index == 3 {
        RegisterTarget::E
    } else if index == 4 {
        RegisterTarget::H
    } else if index == 5 {
        RegisterTarget::L
    } else if index == 6 {
        RegisterTarget::HLI
    } else {
        RegisterTarget::A
    }
}

fn arithmetic_target(index: u8) -> (r: ArithmeticTarget)
    ensures
        index == 0 ==> r == ArithmeticTarget::B,
        index == 1 ==> r == ArithmeticTarget::C,
        index == 2 ==> r == ArithmeticTarget::D,
        index == 3 ==> r == ArithmeticTarget::E,
        index == 4 ==> r == ArithmeticTarget::H,
        index == 5 ==> r == ArithmeticTarget::L,
        index == 6 ==> r == ArithmeticTarget::HLI,
        index >= 7 ==> r == ArithmeticTarget::A,
{
    if index == 0 {
        ArithmeticTarget::B
    } else if index == 1 {
        ArithmeticTarget::C
    } else if index == 2 {
        ArithmeticTarget::D
    } else if index == 3 {
        ArithmeticTarget::E
    } else if index == 4 {
        ArithmeticTarget::H
    } else if index == 5 {
        ArithmeticTarget::L
    } else if index == 6 {
        ArithmeticTarget::HLI
    } else {
        ArithmeticTarget::A
    }
}

fn byte_inc_dec_target(index: u8) -> (r: IncDecTarget)
    ensures
        index == 0 ==> r == IncDecTarget::B,
        index == 1 ==> r == IncDecTarget::C,
        index == 2 ==> r == IncDecTarget::D,
        index == 3 ==> r == IncDecTarget::E,
        index == 4 ==> r == IncDecTarget::H,
        index == 5 ==> r == IncDecTarget::L,
        index == 6 ==> r == IncDecTarget::HLI,
        index >= 7 ==> r == IncDecTarget::A,
{
    if index == 0 {
        IncDecTarget::B
    } else if index == 1 {
        IncDecTarget::C
    } else if index == 2 {
        IncDecTarget::D
    } else if index == 3 {
        IncDecTarget::E
    } else if index == 4 {
        IncDecTarget::H
    } else if index == 5 {
        IncDecTarget::L
    } else if index == 6 {
        IncDecTarget::HLI
    } else {
        IncDecTarget::A
    }
}

fn word_inc_dec_target(index: u8) -> (r: IncDecTarget)
    ensures
        index == 0 ==> r == IncDecTarget::BC,
        index == 1 ==> r == IncDecTarget::DE,
        index == 2 ==> r == IncDecTarget::HL,
        index >= 3 ==> r == IncDecTarget::SP,
{
    if index == 0 {
        IncDecTarget::BC
    } else if index == 1 {
        IncDecTarget::DE
    } else if index == 2 {
        IncDecTarget::HL
    } else {
        IncDecTarget::SP
    }
}

fn load_byte_target(index: u8) -> (r: LoadByteTarget)
    ensures
        index == 0 ==> r == LoadByteTarget::B,
        index == 1 ==> r == LoadByteTarget::C,
        index == 2 ==> r == LoadByteTarget::D,
        index == 3 ==> r == LoadByteTarget::E,
        index == 4 ==> r == LoadByteTarget::H,
        index == 5 ==> r == LoadByteTarget::L,
        index == 6 ==> r == LoadByteTarget::HLI,
        index >= 7 ==> r == LoadByteTarget::A,
{
    if index == 0 {
        LoadByteTarget::B
    } else if index == 1 {
        LoadByteTarget::C
    } else if index == 2 {
        LoadByteTarget::D
    } else if index == 3 {
        LoadByteTarget::E
    } else if index == 4 {
        LoadByteTarget::H
    } else if index == 5 {
        LoadByteTarget::L
    } else if index == 6 {
        LoadByteTarget::HLI
    } else {
        LoadByteTarget::A
    }
}

fn load_byte_source(index: u8) -> (r: LoadByteSource)
    ensures
        index == 0 ==> r == LoadByteSource::B,
        index == 1 ==> r == LoadByteSource::C,
        index == 2 ==> r == LoadByteSource::D,
        index == 3 ==> r == LoadByteSource::E,
        index == 4 ==> r == LoadByteSource::H,
        index == 5 ==> r == LoadByteSource::L,
        index == 6 ==> r == LoadByteSource::HLI,
        index >= 7 ==> r == LoadByteSource::A,
{
    if index == 0 {
        LoadByteSource::B
    } else if index == 1 {
        LoadByteSource::C
    } else if index == 2 {
        LoadByteSource::D
    } else if index == 3 {
        LoadByteSource::E
    } else if index == 4 {
        LoadByteSource::H
    } else if index == 5 {
        LoadByteSource::L
    } else if index == 6 {
        LoadByteSource::HLI
    } else {
        LoadByteSource::A
    }
}

fn load_word_target(index: u8) -> (r: LoadWordTarget)
    ensures
        index == 0 ==> r == LoadWordTarget::BC,
        index == 1 ==> r == LoadWordTarget::DE,
        index == 2 ==> r == LoadWordTarget::HL,
        index >= 3 ==> r == LoadWordTarget::SP,
{
    if index == 0 {
        LoadWordTarget::BC
    } else if index == 1 {
        LoadWordTarget::DE
    } else if index == 2 {
        LoadWordTarget::HL
    } else {
        LoadWordTarget::SP
    }
}

fn long_target(index: u8) -> (r: ArithmeticTargetLong)
    ensures
        index == 0 ==> r == ArithmeticTargetLong::BC,
        index == 1 ==> r == ArithmeticTargetLong::DE,
        index == 2 ==> r == ArithmeticTargetLong::HL,
        index >= 3 ==> r == ArithmeticTargetLong::SP,
{
    if index == 0 {
        ArithmeticTargetLong::BC
    } else if index == 1 {
        ArithmeticTargetLong::DE
    } else if index == 2 {
        ArithmeticTargetLong::HL
    } else {
        ArithmeticTargetLong::SP
    }
}

fn stack_register(index: u8) -> (r: StackRegisters)
    ensures
        index == 0 ==> r == StackRegisters::BC,
        index == 1 ==> r == StackRegisters::DE,
        index == 2 ==> r == StackRegisters::HL,
        index >= 3 ==> r == StackRegisters::AF,
{
    if index == 0 {
        StackRegisters::BC
    } else if index == 1 {
        StackRegisters::DE
    } else if index == 2 {
        StackRegisters::HL
    } else {
        StackRegisters::AF
    }
}

/// Branch conditions in their encoding order.
fn condition(index: u8) -> (r: JumpType)
    ensures
        index == 0 ==> r == JumpType::NotZero,
        index == 1 ==> r == JumpType::Zero,
        index == 2 ==> r == JumpType::NotCarry,
        index >= 3 ==> r == JumpType::Carry,
{
    if index == 0 {
        JumpType::NotZero
    } else if index == 1 {
        JumpType::Zero
    } else if index == 2 {
        JumpType::NotCarry
    } else {
        JumpType::Carry
    }
}

/// The eight accumulator operations in their encoding order.
fn accumulator_operation(index: u8, operand: ArithmeticTarget) -> (r: Instruction)
    ensures
        index == 0 ==> r == Instruction::ADD(operand),
        index == 1 ==> r == Instruction::ADC(operand),
        index == 2 ==> r == Instruction::SUB(operand),
        index == 3 ==> r == Instruction::SBC(operand),
        index == 4 ==> r == Instruction::AND(operand),
        index == 5 ==> r == Instruction::XOR(operand),
        index == 6 ==> r == Instruction::OR(operand),
        index >= 7 ==> r == Instruction::CMP(operand),
{
    if index == 0 {
        Instruction::ADD(operand)
    } else if index == 1 {
        Instruction::ADC(operand)
    } else if index == 2 {
        Instruction::SUB(operand)
    } else if index == 3 {
        Instruction::SBC(operand)
    } else if index == 4 {
        Instruction::AND(operand)
    } else if index == 5 {
        Instruction::XOR(operand)
    } else if index == 6 {
        Instruction::OR(operand)
    } else {
        Instruction::CMP(operand)
    }
}

impl Instruction {
    /// Bit indices are in 0..8.
    pub open spec fn wf(self) -> bool {
        match self {
            Instruction::BIT(b, _) => b < 8,
            Instruction::RES(b, _) => b < 8,
            Instruction::SET(b, _) => b < 8,
            _ => true,
        }
    }

    /// Encoded length in bytes, the prefix byte included: 1 with implicit operands,
    /// 2 with an immediate byte or a prefix, 3 with an immediate word.
    pub open spec fn spec_length(self) -> u16 {
        match self {
            Instruction::ADD(t) | Instruction::ADC(t) | Instruction::SUB(t) | Instruction::SBC(t)
            | Instruction::CMP(t) | Instruction::AND(t) | Instruction::OR(t) | Instruction::XOR(
                t,
            ) => if t == ArithmeticTarget::D8 {
                2
            } else {
                1
            },
            Instruction::ADDL(t) => if t == ArithmeticTargetLong::S8 {
                2
            } else {
                1
            },
            Instruction::RLC(_) | Instruction::RRC(_) | Instruction::RL(_) | Instruction::RR(_)
            | Instruction::SLA(_) | Instruction::SRA(_) | Instruction::SWAP(_) | Instruction::SRL(
                _,
            ) | Instruction::BIT(_, _) | Instruction::RES(_, _) | Instruction::SET(_, _) => 2,
            Instruction::JP(_) | Instruction::CALL(_) => 3,
            Instruction::JR(_) | Instruction::STOP => 2,
            Instruction::LD(load) => match load {
                LoadType::Byte(_, source) => if source == LoadByteSource::D8 {
                    2
                } else {
                    1
                },
                LoadType::Word(_, source) => if source == LoadWordSource::D16 {
                    3
                } else {
                    1
                },
                LoadType::AFromByteAddress(address) | LoadType::ByteAddressFromA(address) => {
                    match address {
                        ByteAddress::A8 => 2,
                        ByteAddress::C => 1,
                        ByteAddress::A16 => 3,
                    }
                },
                LoadType::SPToAddress => 3,
                _ => 1,
            },
            _ => 1,
        }
    }

    pub fn length(&self) -> (r: u16)
        ensures
            r == self.spec_length(),
    {
        match self {
            Instruction::ADD(t) | Instruction::ADC(t) | Instruction::SUB(t) | Instruction::SBC(t)
            | Instruction::CMP(t) | Instruction::AND(t) | Instruction::OR(t) | Instruction::XOR(
                t,
            ) => if matches!(t, ArithmeticTarget::D8) {
                2
            } else {
                1
            },
            Instruction::ADDL(t) => if matches!(t, ArithmeticTargetLong::S8) {
                2
            } else {
                1
            },
            Instruction::RLC(_) | Instruction::RRC(_) | Instruction::RL(_) | Instruction::RR(_)
            | Instruction::SLA(_) | Instruction::SRA(_) | Instruction::SWAP(_) | Instruction::SRL(
                _,
            ) | Instruction::BIT(_, _) | Instruction::RES(_, _) | Instruction::SET(_, _) => 2,
            Instruction::JP(_) | Instruction::CALL(_) => 3,
            Instruction::JR(_) | Instruction::STOP => 2,
            Instruction::LD(load) => match load {
                LoadType::Byte(_, source) => if matches!(source, LoadByteSource::D8) {
                    2
                } else {
                    1
                },
                LoadType::Word(_, source) => if matches!(source, LoadWordSource::D16) {
                    3
                } else {
                    1
                },
                LoadType::AFromByteAddress(address) | LoadType::ByteAddressFromA(address) => {
                    match address {
                        ByteAddress::A8 => 2,
                        ByteAddress::C => 1,
                        ByteAddress::A16 => 3,
                    }
                },
                LoadType::SPToAddress => 3,
                _ => 1,
            },
            _ => 1,
        }
    }

    /// Decodes `byte` in the prefixed table when `prefixed`, else in the first table.
    pub fn from_byte(byte: u8, prefixed: bool) -> (r: Option<Instruction>)
        ensures
            r == decode(byte, prefixed),
            r matches Some(i) ==> i.wf(),
    {
        if prefixed {
            Instruction::from_byte_prefixed(byte)
        } else {
            Instruction::from_byte_not_prefixed(byte)
        }
    }

    /// The byte is split as `xx yyy zzz`: `xx` picks the family, `yyy` the
    /// operation or bit index, `zzz` the register.
    pub fn from_byte_prefixed(byte: u8) -> (r: Option<Instruction>)
        ensures
            r == Some(prefixed_table(byte)),
            r matches Some(i) ==> i.wf(),
    {
        reveal(prefixed_table);
        let target = register_target(byte % 8);
        let y: u8 = (byte / 8) % 8;
        let instruction = if byte < 0x40 {
            if y == 0 {
                Instruction::RLC(target)
            } else if y == 1 {
                Instruction::RRC(target)
            } else if y == 2 {
                Instruction::RL(target)
            } else if y == 3 {
                Instruction::RR(target)
            } else if y == 4 {
                Instruction::SLA(target)
            } else if y == 5 {
                Instruction::SRA(target)
            } else if y == 6 {
                Instruction::SWAP(target)
            } else {
                Instruction::SRL(target)
            }
        } else if byte < 0x80 {
            Instruction::BIT(y, target)
        } else if byte < 0xC0 {
            Instruction::RES(y, target)
        } else {
            Instruction::SET(y, target)
        };
        Some(instruction)
    }

    /// The byte is split as `xx yyy zzz` (and `yyy` as `pp q`); each quarter
    /// `xx` has its own layout.
    pub fn from_byte_not_prefixed(byte: u8) -> (r: Option<Instruction>)
        ensures
            r == unprefixed_table(byte),
            r matches Some(i) ==> i.wf(),
    {
        reveal(unprefixed_table);
        let x: u8 = byte / 64;
        let y: u8 = (byte / 8) % 8;
        let z: u8 = byte % 8;
        let p: u8 = y / 2;
        let q: u8 = y % 2;
        if x == 0 {
            Instruction::from_first_quarter(byte, y, z, p, q)
        } else if x == 1 {
            if byte == 0x76 {
                Some(Instruction::HALT)
            } else {
                Some(Instruction::LD(LoadType::Byte(load_byte_target(y), load_byte_source(z))))
            }
        } else if x == 2 {
            Some(accumulator_operation(y, arithmetic_target(z)))
        } else {
            Instruction::from_last_quarter(byte, y, z, p, q)
        }
    }

    /// Opcodes 0x00 to 0x3F.
    fn from_first_quarter(byte: u8, y: u8, z: u8, p: u8, q: u8) -> (r: Option<Instruction>)
        requires
            byte < 0x40,
            y == (byte / 8) % 8,
            z == byte % 8,
            p == y / 2,
            q == y % 2,
        ensures
            r == unprefixed_table(byte),
    {
        reveal(unprefixed_table);
        let instruction = if z == 0 {
            if y == 0 {
                Instruction::NOP
            } else if y == 1 {
                Instruction::LD(LoadType::SPToAddress)
            } else if y == 2 {
                Instruction::STOP
            } else if y == 3 {
                Instruction::JR(JumpType::Always)
            } else {
                Instruction::JR(condition(y - 4))
            }
        } else if z == 1 {
            if q == 0 {
                Instruction::LD(LoadType::Word(load_word_target(p), LoadWordSource::D16))
            } else {
                Instruction::ADDL(long_target(p))
            }
        } else if z == 2 {
            let pointer = if p == 0 {
                Indirect::BCI
            } else if p == 1 {
                Indirect::DEI
            } else if p == 2 {
                Indirect::HLINC
            } else {
                Indirect::HLDEC
            };
            if q == 0 {
                Instruction::LD(LoadType::IndirectFromA(pointer))
            } else {
                Instruction::LD(LoadType::AFromIndirect(pointer))
            }
        } else if z == 3 {
            if q == 0 {
                Instruction::INC(word_inc_dec_target(p))
            } else {
                Instruction::DEC(word_inc_dec_target(p))
            }
        } else if z == 4 {
            Instruction::INC(byte_inc_dec_target(y))
        } else if z == 5 {
            Instruction::DEC(byte_inc_dec_target(y))
        } else if z == 6 {
            Instruction::LD(LoadType::Byte(load_byte_target(y), LoadByteSource::D8))
        } else if y == 0 {
            Instruction::RLCA
        } else if y == 1 {
            Instruction::RRCA
        } else if y == 2 {
            Instruction::RLA
        } else if y == 3 {
            Instruction::RRA
        } else if y == 4 {
            Instruction::DAA
        } else if y == 5 {
            Instruction::CPL
        } else if y == 6 {
            Instruction::SCF
        } else {
            Instruction::CCF
        };
        Some(instruction)
    }

    /// Opcodes 0xC0 to 0xFF.
    fn from_last_quarter(byte: u8, y: u8, z: u8, p: u8, q: u8) -> (r: Option<Instruction>)
        requires
            byte >= 0xC0,
            y == (byte / 8) % 8,
            z == byte % 8,
            p == y / 2,
            q == y % 2,
        ensures
            r == unprefixed_table(byte),
    {
        reveal(unprefixed_table);
        if z == 0 {
            if y < 4 {
                Some(Instruction::RET(condition(y)))
            } else if y == 4 {
                Some(Instruction::LD(LoadType::ByteAddressFromA(ByteAddress::A8)))
            } else if y == 5 {
                Some(Instruction::ADDL(ArithmeticTargetLong::S8))
            } else if y == 6 {
                Some(Instruction::LD(LoadType::AFromByteAddress(ByteAddress::A8)))
            } else {
                Some(Instruction::LD(LoadType::Word(LoadWordTarget::HL, LoadWordSource::SP)))
            }
        } else if z == 1 {
            if q == 0 {
                Some(Instruction::POP(stack_register(p)))
            } else if p == 0 {
                Some(Instruction::RET(JumpType::Always))
            } else if p == 1 {
                Some(Instruction::RETI)
            } else if p == 2 {
                Some(Instruction::JPL)
            } else {
                Some(Instruction::LD(LoadType::Word(LoadWordTarget::SP, LoadWordSource::HL)))
            }
        } else if z == 2 {
            if y < 4 {
                Some(Instruction::JP(condition(y)))
            } else if y == 4 {
                Some(Instruction::LD(LoadType::ByteAddressFromA(ByteAddress::C)))
            } else if y == 5 {
                Some(Instruction::LD(LoadType::ByteAddressFromA(ByteAddress::A16)))
            } else if y == 6 {
                Some(Instruction::LD(LoadType::AFromByteAddress(ByteAddress::C)))
            } else {
                Some(Instruction::LD(LoadType::AFromByteAddress(ByteAddress::A16)))
            }
        } else if z == 3 {
            if y == 0 {
                Some(Instruction::JP(JumpType::Always))
            } else if y == 6 {
                Some(Instruction::DI)
            } else if y == 7 {
                Some(Instruction::EI)
            } else {
                None
            }
        } else if z == 4 {
            if y < 4 {
                Some(Instruction::CALL(condition(y)))
            } else {
                None
            }
        } else if z == 5 {
            if q == 0 {
                Some(Instruction::PUSH(stack_register(p)))
            } else if p == 0 {
                Some(Instruction::CALL(JumpType::Always))
            } else {
                None
            }
        } else if z == 6 {
            Some(accumulator_operation(y, ArithmeticTarget::D8))
        } else {
            Some(Instruction::RST(y))
        }
    }
}

/// Decoding is total: every byte of the prefixed table is an instruction, and in
/// the first table exactly the prefix byte and the eleven unused opcodes are not.
pub proof fn lemma_decode_total(byte: u8)
    ensures
        decode(byte, true) is Some,
        decode(byte, false) is None <==> (byte == 0xCB || byte == 0xD3 || byte == 0xDB || byte
            == 0xDD || byte == 0xE3 || byte == 0xE4 || byte == 0xEB || byte == 0xEC || byte == 0xED
            || byte == 0xF4 || byte == 0xFC || byte == 0xFD),
{
    reveal(prefixed_table);
    reveal(unprefixed_table);
}

} // verus!
