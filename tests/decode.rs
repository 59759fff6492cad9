use lr35902::{
    ArithmeticTarget, ArithmeticTargetLong, ByteAddress, IncDecTarget, Indirect, Instruction,
    JumpType, LoadByteSource, LoadByteTarget, LoadType, LoadWordSource, LoadWordTarget,
    RegisterTarget, StackRegisters,
};

const UNUSED: [u8; 12] = [
    0xCB, 0xD3, 0xDB, 0xDD, 0xE3, 0xE4, 0xEB, 0xEC, 0xED, 0xF4, 0xFC, 0xFD,
];

#[test]
fn decoder_is_total() {
    for b in 0..=255u8 {
        assert!(Instruction::from_byte(b, true).is_some());
        assert_eq!(Instruction::from_byte(b, false).is_none(), UNUSED.contains(&b));
    }
}

#[test]
fn decodes_accumulator_operations() {
    assert_eq!(
        Instruction::from_byte(0x80, false),
        Some(Instruction::ADD(ArithmeticTarget::B))
    );
    assert_eq!(
        Instruction::from_byte(0x8E, false),
        Some(Instruction::ADC(ArithmeticTarget::HLI))
    );
    assert_eq!(
        Instruction::from_byte(0xAF, false),
        Some(Instruction::XOR(ArithmeticTarget::A))
    );
    assert_eq!(
        Instruction::from_byte(0xFE, false),
        Some(Instruction::CMP(ArithmeticTarget::D8))
    );
    assert_eq!(
        Instruction::from_byte(0xE8, false),
        Some(Instruction::ADDL(ArithmeticTargetLong::S8))
    );
    assert_eq!(
        Instruction::from_byte(0x39, false),
        Some(Instruction::ADDL(ArithmeticTargetLong::SP))
    );
}

#[test]
fn decodes_loads() {
    assert_eq!(Instruction::from_byte(0x76, false), Some(Instruction::HALT));
    assert_eq!(
        Instruction::from_byte(0x77, false),
        Some(Instruction::LD(LoadType::Byte(LoadByteTarget::HLI, LoadByteSource::A)))
    );
    assert_eq!(
        Instruction::from_byte(0x3E, false),
        Some(Instruction::LD(LoadType::Byte(LoadByteTarget::A, LoadByteSource::D8)))
    );
    assert_eq!(
        Instruction::from_byte(0x31, false),
        Some(Instruction::LD(LoadType::Word(LoadWordTarget::SP, LoadWordSource::D16)))
    );
    assert_eq!(
        Instruction::from_byte(0x2A, false),
        Some(Instruction::LD(LoadType::AFromIndirect(Indirect::HLINC)))
    );
    assert_eq!(
        Instruction::from_byte(0x32, false),
        Some(Instruction::LD(LoadType::IndirectFromA(Indirect::HLDEC)))
    );
    assert_eq!(
        Instruction::from_byte(0xE0, false),
        Some(Instruction::LD(LoadType::ByteAddressFromA(ByteAddress::A8)))
    );
    assert_eq!(
        Instruction::from_byte(0xFA, false),
        Some(Instruction::LD(LoadType::AFromByteAddress(ByteAddress::A16)))
    );
    assert_eq!(
        Instruction::from_byte(0x08, false),
        Some(Instruction::LD(LoadType::SPToAddress))
    );
}

#[test]
fn decodes_control_flow() {
    assert_eq!(Instruction::from_byte(0xC3, false), Some(Instruction::JP(JumpType::Always)));
    assert_eq!(Instruction::from_byte(0xDA, false), Some(Instruction::JP(JumpType::Carry)));
    assert_eq!(Instruction::from_byte(0x20, false), Some(Instruction::JR(JumpType::NotZero)));
    assert_eq!(Instruction::from_byte(0xCC, false), Some(Instruction::CALL(JumpType::Zero)));
    assert_eq!(Instruction::from_byte(0xD0, false), Some(Instruction::RET(JumpType::NotCarry)));
    assert_eq!(Instruction::from_byte(0xD9, false), Some(Instruction::RETI));
    assert_eq!(Instruction::from_byte(0xE9, false), Some(Instruction::JPL));
    assert_eq!(Instruction::from_byte(0xEF, false), Some(Instruction::RST(5)));
    assert_eq!(
        Instruction::from_byte(0xF5, false),
        Some(Instruction::PUSH(StackRegisters::AF))
    );
    assert_eq!(
        Instruction::from_byte(0xC1, false),
        Some(Instruction::POP(StackRegisters::BC))
    );
    assert_eq!(Instruction::from_byte(0x33, false), Some(Instruction::INC(IncDecTarget::SP)));
    assert_eq!(Instruction::from_byte(0x35, false), Some(Instruction::DEC(IncDecTarget::HLI)));
}

#[test]
fn decodes_prefixed_table() {
    assert_eq!(
        Instruction::from_byte(0x00, true),
        Some(Instruction::RLC(RegisterTarget::B))
    );
    assert_eq!(
        Instruction::from_byte(0x37, true),
        Some(Instruction::SWAP(RegisterTarget::A))
    );
    assert_eq!(
        Instruction::from_byte(0x7C, true),
        Some(Instruction::BIT(7, RegisterTarget::H))
    );
    assert_eq!(
        Instruction::from_byte(0x86, true),
        Some(Instruction::RES(0, RegisterTarget::HLI))
    );
    assert_eq!(
        Instruction::from_byte(0xFF, true),
        Some(Instruction::SET(7, RegisterTarget::A))
    );
}

#[test]
fn instruction_lengths() {
    assert_eq!(Instruction::NOP.length(), 1);
    assert_eq!(Instruction::ADD(ArithmeticTarget::B).length(), 1);
    assert_eq!(Instruction::ADD(ArithmeticTarget::D8).length(), 2);
    assert_eq!(Instruction::ADDL(ArithmeticTargetLong::S8).length(), 2);
    assert_eq!(Instruction::JR(JumpType::Zero).length(), 2);
    assert_eq!(Instruction::JP(JumpType::Always).length(), 3);
    assert_eq!(Instruction::CALL(JumpType::Carry).length(), 3);
    assert_eq!(Instruction::BIT(3, RegisterTarget::C).length(), 2);
    assert_eq!(
        Instruction::LD(LoadType::Word(LoadWordTarget::HL, LoadWordSource::D16)).length(),
        3
    );
    assert_eq!(
        Instruction::LD(LoadType::AFromByteAddress(ByteAddress::A8)).length(),
        2
    );
    assert_eq!(Instruction::LD(LoadType::ByteAddressFromA(ByteAddress::C)).length(), 1);
    assert_eq!(Instruction::LD(LoadType::SPToAddress).length(), 3);
}
