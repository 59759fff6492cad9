use lr35902::{
    ArithmeticTarget, ArithmeticTargetLong, ByteAddress, CpuError, FlagRegister, IncDecTarget,
    Indirect, Instruction, JumpType, LoadByteSource, LoadByteTarget, LoadType, MemoryBus,
    RegisterTarget, StackRegisters, CPU,
};

fn cpu() -> CPU {
    CPU::new(MemoryBus::new())
}

fn flags(zero: bool, subtract: bool, half_carry: bool, carry: bool) -> FlagRegister {
    FlagRegister { zero, subtract, half_carry, carry }
}

fn load(cpu: &mut CPU, address: u16, bytes: &[u8]) {
    for (i, b) in bytes.iter().enumerate() {
        cpu.bus.write_byte(address.wrapping_add(i as u16), *b);
    }
}

#[test]
fn power_on_state() {
    let c = cpu();
    assert_eq!(c.pc, 0x0100);
    assert_eq!(c.sp, 0xFFFE);
    assert_eq!(c.registers.get_af(), 0x01B0);
    assert_eq!(c.registers.get_bc(), 0x0013);
    assert_eq!(c.registers.get_de(), 0x00D8);
    assert_eq!(c.registers.get_hl(), 0x014D);
    assert!(!c.interrupts_enabled);
    assert!(!c.halted);
}

#[test]
fn memory_reads_back_writes() {
    let mut bus = MemoryBus::new();
    assert_eq!(bus.read_byte(0xFFFF), 0);
    bus.write_byte(0xFFFF, 0xAB);
    bus.write_byte(0x0000, 0xCD);
    assert_eq!(bus.read_byte(0xFFFF), 0xAB);
    assert_eq!(bus.read_byte(0x0000), 0xCD);
    assert_eq!(bus.read_byte(0x8000), 0);
}

#[test]
fn add_half_carry_boundary() {
    let mut c = cpu();
    c.registers.a = 0x0F;
    c.registers.b = 0x01;
    let next = c.execute(Instruction::ADD(ArithmeticTarget::B));
    assert_eq!(c.registers.a, 0x10);
    assert_eq!(c.registers.f, flags(false, false, true, false));
    assert_eq!(next, 0x0101);
}

#[test]
fn add_full_overflow() {
    let mut c = cpu();
    c.registers.a = 0xFF;
    c.registers.c = 0x01;
    c.execute(Instruction::ADD(ArithmeticTarget::C));
    assert_eq!(c.registers.a, 0x00);
    assert_eq!(c.registers.f, flags(true, false, true, true));
}

#[test]
fn add_immediate_reads_next_byte() {
    let mut c = cpu();
    c.registers.a = 0x3A;
    load(&mut c, 0x0100, &[0xC6, 0xC6]);
    let next = c.execute(Instruction::ADD(ArithmeticTarget::D8));
    assert_eq!(c.registers.a, 0x00);
    assert_eq!(c.registers.f, flags(true, false, true, true));
    assert_eq!(next, 0x0102);
}

#[test]
fn sub_borrow() {
    let mut c = cpu();
    c.registers.a = 0x00;
    c.registers.d = 0x01;
    c.execute(Instruction::SUB(ArithmeticTarget::D));
    assert_eq!(c.registers.a, 0xFF);
    assert_eq!(c.registers.f, flags(false, true, true, true));
}

#[test]
fn add_with_carry_in() {
    let mut c = cpu();
    c.registers.a = 0xE1;
    c.registers.e = 0x0F;
    c.registers.f = flags(false, false, false, true);
    c.execute(Instruction::ADC(ArithmeticTarget::E));
    assert_eq!(c.registers.a, 0xF1);
    assert_eq!(c.registers.f, flags(false, false, true, false));
    c.registers.a = 0xFF;
    c.registers.e = 0xFF;
    c.registers.f.carry = true;
    c.execute(Instruction::ADC(ArithmeticTarget::E));
    assert_eq!(c.registers.a, 0xFF);
    assert_eq!(c.registers.f, flags(false, false, true, true));
}

#[test]
fn sub_with_borrow_in() {
    let mut c = cpu();
    c.registers.a = 0x3B;
    c.registers.h = 0x2A;
    c.registers.f = flags(false, false, false, true);
    c.execute(Instruction::SBC(ArithmeticTarget::H));
    assert_eq!(c.registers.a, 0x10);
    assert_eq!(c.registers.f, flags(false, true, false, false));
    c.registers.a = 0x00;
    c.registers.h = 0xFF;
    c.registers.f.carry = true;
    c.execute(Instruction::SBC(ArithmeticTarget::H));
    assert_eq!(c.registers.a, 0x00);
    assert_eq!(c.registers.f, flags(true, true, true, true));
}

#[test]
fn compare_sets_all_flags_and_keeps_a() {
    let mut c = cpu();
    c.registers.a = 0x3C;
    c.registers.b = 0x40;
    c.execute(Instruction::CMP(ArithmeticTarget::B));
    assert_eq!(c.registers.a, 0x3C);
    assert_eq!(c.registers.f, flags(false, true, false, true));
    c.registers.b = 0x3C;
    c.execute(Instruction::CMP(ArithmeticTarget::B));
    assert_eq!(c.registers.f, flags(true, true, false, false));
    c.registers.b = 0x2F;
    c.execute(Instruction::CMP(ArithmeticTarget::B));
    assert_eq!(c.registers.f, flags(false, true, true, false));
}

#[test]
fn logic_operations() {
    let mut c = cpu();
    c.registers.a = 0x5A;
    c.registers.l = 0x3F;
    c.registers.f = flags(false, true, true, true);
    c.execute(Instruction::AND(ArithmeticTarget::L));
    assert_eq!(c.registers.a, 0x1A);
    assert_eq!(c.registers.f, flags(false, false, false, false));
    c.execute(Instruction::XOR(ArithmeticTarget::A));
    assert_eq!(c.registers.a, 0x00);
    assert_eq!(c.registers.f, flags(true, false, false, false));
    c.registers.h = 0x80;
    c.registers.l = 0x00;
    c.bus.write_byte(0x8000, 0x0F);
    c.execute(Instruction::OR(ArithmeticTarget::HLI));
    assert_eq!(c.registers.a, 0x0F);
    assert_eq!(c.registers.f, flags(false, false, false, false));
}

#[test]
fn inc_zero_boundary() {
    let mut c = cpu();
    c.registers.b = 0xFF;
    c.registers.f = flags(false, false, false, false);
    c.execute(Instruction::INC(IncDecTarget::B));
    assert_eq!(c.registers.b, 0x00);
    assert!(c.registers.f.zero);
    assert!(c.registers.f.half_carry);
    assert!(!c.registers.f.carry);
    c.registers.b = 0x0F;
    c.execute(Instruction::INC(IncDecTarget::B));
    assert_eq!(c.registers.b, 0x10);
    assert!(c.registers.f.half_carry);
    assert!(!c.registers.f.zero);
}

#[test]
fn dec_nibble_boundary_keeps_carry() {
    let mut c = cpu();
    c.registers.a = 0x10;
    c.registers.f = flags(false, false, false, true);
    c.execute(Instruction::DEC(IncDecTarget::A));
    assert_eq!(c.registers.a, 0x0F);
    assert_eq!(c.registers.f, flags(false, true, true, true));
    c.registers.a = 0x01;
    c.execute(Instruction::DEC(IncDecTarget::A));
    assert_eq!(c.registers.a, 0x00);
    assert_eq!(c.registers.f, flags(true, true, false, true));
}

#[test]
fn inc_dec_through_hl_writes_memory() {
    let mut c = cpu();
    c.registers.set_hl(0xC000);
    c.bus.write_byte(0xC000, 0x7F);
    c.execute(Instruction::INC(IncDecTarget::HLI));
    assert_eq!(c.bus.read_byte(0xC000), 0x80);
    c.execute(Instruction::DEC(IncDecTarget::HLI));
    c.execute(Instruction::DEC(IncDecTarget::HLI));
    assert_eq!(c.bus.read_byte(0xC000), 0x7E);
    assert_eq!(c.registers.get_hl(), 0xC000);
}

#[test]
fn wide_inc_keeps_zero() {
    let mut c = cpu();
    c.registers.set_bc(0xFFFF);
    c.registers.f = flags(true, true, false, false);
    c.execute(Instruction::INC(IncDecTarget::BC));
    assert_eq!(c.registers.get_bc(), 0x0000);
    assert!(c.registers.f.zero);
    assert!(!c.registers.f.subtract);
    assert!(c.registers.f.half_carry);
    c.registers.f.zero = false;
    c.execute(Instruction::DEC(IncDecTarget::BC));
    assert_eq!(c.registers.get_bc(), 0xFFFF);
    assert!(!c.registers.f.zero);
    assert!(c.registers.f.subtract);
    c.sp = 0x0FFF;
    c.execute(Instruction::INC(IncDecTarget::SP));
    assert_eq!(c.sp, 0x1000);
    assert!(c.registers.f.half_carry);
}

#[test]
fn add_register_pair_to_hl() {
    let mut c = cpu();
    c.registers.set_hl(0x8A23);
    c.registers.set_bc(0x0605);
    c.registers.f = flags(true, true, false, false);
    c.execute(Instruction::ADDL(ArithmeticTargetLong::BC));
    assert_eq!(c.registers.get_hl(), 0x9028);
    assert_eq!(c.registers.f, flags(true, false, true, false));
    c.registers.set_hl(0x8A23);
    c.execute(Instruction::ADDL(ArithmeticTargetLong::HL));
    assert_eq!(c.registers.get_hl(), 0x1446);
    assert_eq!(c.registers.f, flags(true, false, true, true));
}

#[test]
fn add_signed_byte_to_sp() {
    let mut c = cpu();
    c.sp = 0xFFF8;
    load(&mut c, 0x0100, &[0xE8, 0x02]);
    let next = c.execute(Instruction::ADDL(ArithmeticTargetLong::S8));
    assert_eq!(c.sp, 0xFFFA);
    assert_eq!(next, 0x0102);
    c.bus.write_byte(0x0101, 0xFE);
    c.execute(Instruction::ADDL(ArithmeticTargetLong::S8));
    assert_eq!(c.sp, 0xFFF8);
    assert!(c.registers.f.carry);
    assert_eq!(c.registers.get_hl(), 0x014D);
}

#[test]
fn accumulator_rotations() {
    let mut c = cpu();
    c.registers.f = flags(true, false, false, false);
    c.registers.a = 0x85;
    c.execute(Instruction::RLCA);
    assert_eq!(c.registers.a, 0x0B);
    assert_eq!(c.registers.f, flags(true, false, false, true));
    c.registers.a = 0x3B;
    c.registers.f.carry = false;
    c.execute(Instruction::RRCA);
    assert_eq!(c.registers.a, 0x9D);
    assert!(c.registers.f.carry);
    c.registers.a = 0x95;
    c.registers.f.carry = false;
    c.execute(Instruction::RLA);
    assert_eq!(c.registers.a, 0x2A);
    assert!(c.registers.f.carry);
    c.registers.a = 0x81;
    c.registers.f.carry = false;
    c.execute(Instruction::RRA);
    assert_eq!(c.registers.a, 0x40);
    assert!(c.registers.f.carry);
    assert!(c.registers.f.zero);
}

#[test]
fn prefixed_rotations_set_zero() {
    let mut c = cpu();
    c.registers.b = 0x80;
    c.registers.f = flags(false, true, true, false);
    let next = c.execute(Instruction::RL(RegisterTarget::B));
    assert_eq!(c.registers.b, 0x00);
    assert_eq!(c.registers.f, flags(true, false, false, true));
    assert_eq!(next, 0x0102);
    c.registers.set_hl(0xC100);
    c.bus.write_byte(0xC100, 0x01);
    c.registers.f.carry = false;
    c.execute(Instruction::RRC(RegisterTarget::HLI));
    assert_eq!(c.bus.read_byte(0xC100), 0x80);
    assert_eq!(c.registers.f, flags(false, false, false, true));
    c.registers.c = 0x80;
    c.execute(Instruction::RLC(RegisterTarget::C));
    assert_eq!(c.registers.c, 0x01);
    assert!(c.registers.f.carry);
    c.registers.d = 0x01;
    c.registers.f.carry = false;
    c.execute(Instruction::RR(RegisterTarget::D));
    assert_eq!(c.registers.d, 0x00);
    assert_eq!(c.registers.f, flags(true, false, false, true));
}

#[test]
fn shifts_and_swap() {
    let mut c = cpu();
    c.registers.e = 0x80;
    c.execute(Instruction::SLA(RegisterTarget::E));
    assert_eq!(c.registers.e, 0x00);
    assert_eq!(c.registers.f, flags(true, false, false, true));
    c.registers.a = 0x8A;
    c.execute(Instruction::SRA(RegisterTarget::A));
    assert_eq!(c.registers.a, 0xC5);
    assert_eq!(c.registers.f, flags(false, false, false, false));
    c.registers.h = 0x01;
    c.execute(Instruction::SRL(RegisterTarget::H));
    assert_eq!(c.registers.h, 0x00);
    assert_eq!(c.registers.f, flags(true, false, false, true));
    c.registers.l = 0xF1;
    c.execute(Instruction::SWAP(RegisterTarget::L));
    assert_eq!(c.registers.l, 0x1F);
    assert_eq!(c.registers.f, flags(false, false, false, false));
}

#[test]
fn bit_is_read_only() {
    let mut c = cpu();
    c.registers.h = 0x80;
    c.registers.l = 0x10;
    c.bus.write_byte(0x8010, 0x08);
    c.registers.f = flags(false, true, false, true);
    let before = c.registers;
    c.execute(Instruction::BIT(3, RegisterTarget::HLI));
    assert_eq!(c.bus.read_byte(0x8010), 0x08);
    assert!(!c.registers.f.zero);
    assert!(c.registers.f.carry);
    c.execute(Instruction::BIT(7, RegisterTarget::H));
    assert!(!c.registers.f.zero);
    c.execute(Instruction::BIT(0, RegisterTarget::H));
    assert!(c.registers.f.zero);
    assert!(c.registers.f.half_carry);
    assert!(!c.registers.f.subtract);
    assert_eq!(
        (c.registers.a, c.registers.b, c.registers.c, c.registers.d, c.registers.e),
        (before.a, before.b, before.c, before.d, before.e)
    );
    assert_eq!((c.registers.h, c.registers.l), (before.h, before.l));
}

#[test]
fn res_and_set_write_the_selected_target() {
    let mut c = cpu();
    c.registers.b = 0x00;
    c.registers.a = 0xFF;
    c.execute(Instruction::RES(7, RegisterTarget::A));
    assert_eq!(c.registers.a, 0x7F);
    assert_eq!(c.registers.b, 0x00);
    c.registers.c = 0x00;
    c.execute(Instruction::SET(3, RegisterTarget::C));
    assert_eq!(c.registers.c, 0x08);
    assert_eq!(c.registers.b, 0x00);
    c.registers.set_hl(0xD000);
    c.bus.write_byte(0xD000, 0x0F);
    let f = c.registers.f;
    c.execute(Instruction::RES(0, RegisterTarget::HLI));
    c.execute(Instruction::SET(6, RegisterTarget::HLI));
    assert_eq!(c.bus.read_byte(0xD000), 0x4E);
    assert_eq!(c.registers.f, f);
}

#[test]
fn decimal_adjust_after_add_and_sub() {
    let mut c = cpu();
    c.registers.a = 0x45;
    c.registers.b = 0x38;
    c.execute(Instruction::ADD(ArithmeticTarget::B));
    c.execute(Instruction::DAA);
    assert_eq!(c.registers.a, 0x83);
    assert!(!c.registers.f.carry);
    c.execute(Instruction::SUB(ArithmeticTarget::B));
    c.execute(Instruction::DAA);
    assert_eq!(c.registers.a, 0x45);
    c.registers.a = 0x99;
    c.registers.b = 0x01;
    c.execute(Instruction::ADD(ArithmeticTarget::B));
    c.execute(Instruction::DAA);
    assert_eq!(c.registers.a, 0x00);
    assert_eq!(c.registers.f, flags(true, false, false, true));
}

#[test]
fn flag_instructions() {
    let mut c = cpu();
    c.registers.a = 0x35;
    c.registers.f = flags(true, false, false, false);
    c.execute(Instruction::CPL);
    assert_eq!(c.registers.a, 0xCA);
    assert_eq!(c.registers.f, flags(true, true, true, false));
    c.execute(Instruction::SCF);
    assert_eq!(c.registers.f, flags(true, false, false, true));
    c.execute(Instruction::CCF);
    assert_eq!(c.registers.f, flags(true, false, false, false));
    c.execute(Instruction::CCF);
    assert!(c.registers.f.carry);
}

#[test]
fn jr_backwards_round_trip() {
    let mut c = cpu();
    c.pc = 0x0100;
    load(&mut c, 0x0100, &[0x18, 0xFE]);
    let next = c.execute(Instruction::JR(JumpType::Always));
    assert_eq!(next, 0x0100);
    c.registers.f.zero = false;
    c.bus.write_byte(0x0101, 0x05);
    assert_eq!(c.execute(Instruction::JR(JumpType::Zero)), 0x0102);
    assert_eq!(c.execute(Instruction::JR(JumpType::NotZero)), 0x0107);
}

#[test]
fn absolute_jumps() {
    let mut c = cpu();
    load(&mut c, 0x0100, &[0xC3, 0x34, 0x12]);
    assert_eq!(c.execute(Instruction::JP(JumpType::Always)), 0x1234);
    c.registers.f.carry = false;
    assert_eq!(c.execute(Instruction::JP(JumpType::Carry)), 0x0103);
    assert_eq!(c.execute(Instruction::JP(JumpType::NotCarry)), 0x1234);
    c.registers.set_hl(0x4000);
    assert_eq!(c.execute(Instruction::JPL), 0x4000);
}

#[test]
fn call_ret_round_trip() {
    let mut c = cpu();
    c.pc = 0x0200;
    c.sp = 0xFFFE;
    load(&mut c, 0x0200, &[0xCD, 0x00, 0x03]);
    c.bus.write_byte(0x0300, 0xC9);
    assert_eq!(c.step(), Ok(()));
    assert_eq!(c.pc, 0x0300);
    assert_eq!(c.sp, 0xFFFC);
    assert_eq!(c.bus.read_byte(0xFFFD), 0x02);
    assert_eq!(c.bus.read_byte(0xFFFC), 0x03);
    assert_eq!(c.step(), Ok(()));
    assert_eq!(c.pc, 0x0203);
    assert_eq!(c.sp, 0xFFFE);
}

#[test]
fn conditional_call_and_ret_not_taken() {
    let mut c = cpu();
    c.pc = 0x0200;
    c.sp = 0xFFFE;
    c.registers.f.zero = false;
    load(&mut c, 0x0200, &[0xCC, 0x00, 0x03, 0xC8]);
    assert_eq!(c.step(), Ok(()));
    assert_eq!((c.pc, c.sp), (0x0203, 0xFFFE));
    assert_eq!(c.step(), Ok(()));
    assert_eq!((c.pc, c.sp), (0x0204, 0xFFFE));
}

#[test]
fn rst_and_reti() {
    let mut c = cpu();
    c.pc = 0x0150;
    c.sp = 0xD000;
    let next = c.execute(Instruction::RST(7));
    assert_eq!(next, 0x0038);
    assert_eq!(c.sp, 0xCFFE);
    assert_eq!(c.bus.read_byte(0xCFFF), 0x01);
    assert_eq!(c.bus.read_byte(0xCFFE), 0x51);
    c.execute(Instruction::DI);
    assert!(!c.interrupts_enabled);
    assert_eq!(c.execute(Instruction::RETI), 0x0151);
    assert_eq!(c.sp, 0xD000);
    assert!(c.interrupts_enabled);
}

#[test]
fn push_pop_round_trip() {
    let mut c = cpu();
    c.sp = 0xFFFE;
    c.registers.set_de(0xBEEF);
    c.execute(Instruction::PUSH(StackRegisters::DE));
    assert_eq!(c.sp, 0xFFFC);
    assert_eq!(c.bus.read_byte(0xFFFD), 0xBE);
    assert_eq!(c.bus.read_byte(0xFFFC), 0xEF);
    c.registers.set_de(0);
    c.execute(Instruction::POP(StackRegisters::DE));
    assert_eq!(c.registers.get_de(), 0xBEEF);
    assert_eq!(c.sp, 0xFFFE);
    c.push(0x1234);
    assert_eq!(c.pop(), 0x1234);
    assert_eq!(c.sp, 0xFFFE);
}

#[test]
fn pop_af_clears_low_nibble() {
    let mut c = cpu();
    c.sp = 0xFFFE;
    c.registers.set_bc(0x125F);
    c.execute(Instruction::PUSH(StackRegisters::BC));
    c.execute(Instruction::POP(StackRegisters::AF));
    assert_eq!(c.registers.get_af(), 0x1250);
    assert_eq!(c.registers.a, 0x12);
    assert_eq!(c.registers.f, flags(false, true, false, true));
    c.execute(Instruction::PUSH(StackRegisters::AF));
    c.registers.set_af(0);
    c.execute(Instruction::POP(StackRegisters::AF));
    assert_eq!(c.registers.get_af(), 0x1250);
}

#[test]
fn loads_between_registers_and_memory() {
    let mut c = cpu();
    c.registers.set_hl(0xC000);
    c.registers.a = 0x42;
    let next = c.execute(Instruction::LD(LoadType::IndirectFromA(Indirect::HLINC)));
    assert_eq!(next, 0x0101);
    assert_eq!(c.bus.read_byte(0xC000), 0x42);
    assert_eq!(c.registers.get_hl(), 0xC001);
    c.execute(Instruction::LD(LoadType::AFromIndirect(Indirect::HLDEC)));
    assert_eq!(c.registers.a, 0x00);
    assert_eq!(c.registers.get_hl(), 0xC000);
    c.execute(Instruction::LD(LoadType::Byte(LoadByteTarget::D, LoadByteSource::HLI)));
    assert_eq!(c.registers.d, 0x42);
    load(&mut c, 0x0100, &[0x0E, 0x99]);
    let next = c.execute(Instruction::LD(LoadType::Byte(LoadByteTarget::C, LoadByteSource::D8)));
    assert_eq!(c.registers.c, 0x99);
    assert_eq!(next, 0x0102);
}

#[test]
fn loads_through_high_page_and_absolute_addresses() {
    let mut c = cpu();
    c.registers.a = 0x77;
    load(&mut c, 0x0100, &[0xE0, 0x80]);
    let next = c.execute(Instruction::LD(LoadType::ByteAddressFromA(ByteAddress::A8)));
    assert_eq!(next, 0x0102);
    assert_eq!(c.bus.read_byte(0xFF80), 0x77);
    c.registers.c = 0x81;
    c.execute(Instruction::LD(LoadType::ByteAddressFromA(ByteAddress::C)));
    assert_eq!(c.bus.read_byte(0xFF81), 0x77);
    load(&mut c, 0x0100, &[0xFA, 0x80, 0xFF]);
    c.registers.a = 0;
    let next = c.execute(Instruction::LD(LoadType::AFromByteAddress(ByteAddress::A16)));
    assert_eq!(next, 0x0103);
    assert_eq!(c.registers.a, 0x77);
    c.sp = 0xABCD;
    load(&mut c, 0x0100, &[0x08, 0x00, 0xC0]);
    c.execute(Instruction::LD(LoadType::SPToAddress));
    assert_eq!(c.bus.read_byte(0xC000), 0xCD);
    assert_eq!(c.bus.read_byte(0xC001), 0xAB);
}

#[test]
fn step_runs_a_small_program() {
    let mut c = cpu();
    // LD B,0x03 ; DEC B ; JR NZ,-3 ; HALT
    load(&mut c, 0x0100, &[0x06, 0x03, 0x05, 0x20, 0xFD, 0x76]);
    let mut steps = 0;
    while !c.halted && steps < 20 {
        assert_eq!(c.step(), Ok(()));
        steps += 1;
    }
    assert!(c.halted);
    assert_eq!(c.registers.b, 0);
    assert_eq!(c.pc, 0x0106);
    assert_eq!(steps, 8);
}

#[test]
fn step_prefixed_advances_two_bytes() {
    let mut c = cpu();
    c.registers.a = 0xF0;
    load(&mut c, 0x0100, &[0xCB, 0x37]);
    assert_eq!(c.step(), Ok(()));
    assert_eq!(c.registers.a, 0x0F);
    assert_eq!(c.pc, 0x0102);
}

#[test]
fn step_reports_illegal_opcode() {
    let mut c = cpu();
    load(&mut c, 0x0100, &[0xD3]);
    let before = c.registers;
    assert_eq!(
        c.step(),
        Err(CpuError::IllegalOpcode { byte: 0xD3, prefixed: false })
    );
    assert_eq!(c.pc, 0x0100);
    assert_eq!(c.registers, before);
}

#[test]
fn halt_stop_and_interrupt_enable() {
    let mut c = cpu();
    assert_eq!(c.execute(Instruction::HALT), 0x0101);
    assert!(c.halted);
    assert_eq!(c.execute(Instruction::STOP), 0x0102);
    assert!(c.stopped);
    c.execute(Instruction::EI);
    assert!(c.interrupts_enabled);
    assert_eq!(c.execute(Instruction::NOP), 0x0101);
}
