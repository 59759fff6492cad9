//! The state of the processor as contracts see it, and what each instruction
//! does to it.
use crate::alu::{
    add_bytes, add_words, dec_byte, dec_word, decimal_adjust, inc_byte, inc_word, logic_flags,
    reset_bit, rotate_left, rotate_left_circular, rotate_right, rotate_right_circular, set_bit,
    shift_flags, shift_left_arithmetic, shift_right_arithmetic, shift_right_logical, sign_extend,
    signed_byte, sub_bytes, swap_nibbles,
};
use crate::instructions::{
    ArithmeticTarget, ArithmeticTargetLong, ByteAddress, IncDecTarget, Indirect, Instruction,
    JumpType, LoadByteSource, LoadByteTarget, LoadType, LoadWordSource, LoadWordTarget,
    RegisterTarget, StackRegisters,
};
use crate::registers::{
    bit_set, high_byte, lemma_flags_byte_round_trip, lemma_flags_to_byte_and_back, low_byte, word,
    FlagRegister, Registers,
};
use vstd::prelude::*;

verus! {

/// Registers, program counter, stack pointer, the 64 KiB of memory, and the
/// signals that the processor raises towards its host.
pub struct Machine {
    pub regs: Registers,
    pub pc: u16,
    pub sp: u16,
    pub mem: Seq<u8>,
    pub interrupts_enabled: bool,
    pub halted: bool,
    pub stopped: bool,
}

/// `x + k` modulo 65536.
pub open spec fn offset16(x: u16, k: int) -> u16 {
    ((x + k) % 0x10000) as u16
}

/// Whether a branch with condition `c` is taken under flags `f`.
pub open spec fn condition_holds(f: FlagRegister, c: JumpType) -> bool {
    match c {
        JumpType::NotZero => !f.zero,
        JumpType::Zero => f.zero,
        JumpType::NotCarry => !f.carry,
        JumpType::Carry => f.carry,
        JumpType::Always => true,
    }
}

impl Machine {
    /// Memory covers the whole address space.
    pub open spec fn wf(self) -> bool {
        self.mem.len() == 0x10000
    }

    pub open spec fn read(self, address: u16) -> u8 {
        self.mem[address as int]
    }

    pub open spec fn write(self, address: u16, v: u8) -> Machine {
        Machine { mem: self.mem.update(address as int, v), ..self }
    }

    /// The little-endian word at `address`.
    pub open spec fn read_word(self, address: u16) -> u16 {
        word(self.read(offset16(address, 1)), self.read(address))
    }

    /// The byte after the opcode.
    pub open spec fn imm8(self) -> u8 {
        self.read(offset16(self.pc, 1))
    }

    /// The little-endian word after the opcode.
    pub open spec fn imm16(self) -> u16 {
        self.read_word(offset16(self.pc, 1))
    }

    pub open spec fn with_regs(self, regs: Registers) -> Machine {
        Machine { regs, ..self }
    }

    pub open spec fn with_flags(self, f: FlagRegister) -> Machine {
        Machine { regs: Registers { f, ..self.regs }, ..self }
    }

    /// Result and flags of an accumulator operation written back.
    pub open spec fn accumulate(self, out: (u8, FlagRegister)) -> Machine {
        Machine { regs: Registers { a: out.0, f: out.1, ..self.regs }, ..self }
    }
}

pub open spec fn register(m: Machine, t: RegisterTarget) -> u8 {
    match t {
        RegisterTarget::A => m.regs.a,
        RegisterTarget::B => m.regs.b,
        RegisterTarget::C => m.regs.c,
        RegisterTarget::D => m.regs.d,
        RegisterTarget::E => m.regs.e,
        RegisterTarget::H => m.regs.h,
        RegisterTarget::L => m.regs.l,
        RegisterTarget::HLI => m.read(m.regs.hl()),
    }
}

pub open spec fn set_register(m: Machine, t: RegisterTarget, v: u8) -> Machine {
    match t {
        RegisterTarget::A => m.with_regs(Registers { a: v, ..m.regs }),
        RegisterTarget::B => m.with_regs(Registers { b: v, ..m.regs }),
        RegisterTarget::C => m.with_regs(Registers { c: v, ..m.regs }),
        RegisterTarget::D => m.with_regs(Registers { d: v, ..m.regs }),
        RegisterTarget::E => m.with_regs(Registers { e: v, ..m.regs }),
        RegisterTarget::H => m.with_regs(Registers { h: v, ..m.regs }),
        RegisterTarget::L => m.with_regs(Registers { l: v, ..m.regs }),
        RegisterTarget::HLI => m.write(m.regs.hl(), v),
    }
}

pub open spec fn arithmetic_operand(m: Machine, t: ArithmeticTarget) -> u8 {
    match t {
        ArithmeticTarget::A => m.regs.a,
        ArithmeticTarget::B => m.regs.b,
        ArithmeticTarget::C => m.regs.c,
        ArithmeticTarget::D => m.regs.d,
        ArithmeticTarget::E => m.regs.e,
        ArithmeticTarget::H => m.regs.h,
        ArithmeticTarget::L => m.regs.l,
        ArithmeticTarget::HLI => m.read(m.regs.hl()),
        ArithmeticTarget::D8 => m.imm8(),
    }
}

pub open spec fn word_register(m: Machine, t: LoadWordTarget) -> u16 {
    match t {
        LoadWordTarget::BC => m.regs.bc(),
        LoadWordTarget::DE => m.regs.de(),
        LoadWordTarget::HL => m.regs.hl(),
        LoadWordTarget::SP => m.sp,
    }
}

pub open spec fn set_word_register(m: Machine, t: LoadWordTarget, v: u16) -> Machine {
    match t {
        LoadWordTarget::BC => m.with_regs(m.regs.with_bc(v)),
        LoadWordTarget::DE => m.with_regs(m.regs.with_de(v)),
        LoadWordTarget::HL => m.with_regs(m.regs.with_hl(v)),
        LoadWordTarget::SP => Machine { sp: v, ..m },
    }
}

pub open spec fn stack_register(m: Machine, r: StackRegisters) -> u16 {
    match r {
        StackRegisters::AF => m.regs.af(),
        StackRegisters::BC => m.regs.bc(),
        StackRegisters::DE => m.regs.de(),
        StackRegisters::HL => m.regs.hl(),
    }
}

/// Loading AF passes the low byte through the flag conversion.
pub open spec fn set_stack_register(m: Machine, r: StackRegisters, v: u16) -> Machine {
    match r {
        StackRegisters::AF => m.with_regs(m.regs.with_af(v)),
        StackRegisters::BC => m.with_regs(m.regs.with_bc(v)),
        StackRegisters::DE => m.with_regs(m.regs.with_de(v)),
        StackRegisters::HL => m.with_regs(m.regs.with_hl(v)),
    }
}

/// SP drops by two; the high byte goes to SP + 1 and the low byte to SP.
pub open spec fn push_word(m: Machine, v: u16) -> Machine {
    let sp = offset16(m.sp, -2);
    Machine { sp, ..m.write(offset16(m.sp, -1), high_byte(v)).write(sp, low_byte(v)) }
}

/// The word on top of the stack.
pub open spec fn popped_word(m: Machine) -> u16 {
    m.read_word(m.sp)
}

/// SP rises by two.
pub open spec fn pop_word(m: Machine) -> Machine {
    Machine { sp: offset16(m.sp, 2), ..m }
}

/// 8-bit increment or decrement of a register or of the byte at HL.
pub open spec fn inc_dec_register(m: Machine, r: RegisterTarget, is_inc: bool) -> Machine {
    let out = if is_inc {
        inc_byte(register(m, r), m.regs.f)
    } else {
        dec_byte(register(m, r), m.regs.f)
    };
    set_register(m.with_flags(out.1), r, out.0)
}

/// 16-bit increment or decrement of a register pair or of SP.
pub open spec fn inc_dec_word_register(m: Machine, r: LoadWordTarget, is_inc: bool) -> Machine {
    let out = if is_inc {
        inc_word(word_register(m, r), m.regs.f)
    } else {
        dec_word(word_register(m, r), m.regs.f)
    };
    set_word_register(m.with_flags(out.1), r, out.0)
}

pub open spec fn inc_dec_effect(m: Machine, t: IncDecTarget, is_inc: bool) -> Machine {
    match t {
        IncDecTarget::A => inc_dec_register(m, RegisterTarget::A, is_inc),
        IncDecTarget::B => inc_dec_register(m, RegisterTarget::B, is_inc),
        IncDecTarget::C => inc_dec_register(m, RegisterTarget::C, is_inc),
        IncDecTarget::D => inc_dec_register(m, RegisterTarget::D, is_inc),
        IncDecTarget::E => inc_dec_register(m, RegisterTarget::E, is_inc),
        IncDecTarget::H => inc_dec_register(m, RegisterTarget::H, is_inc),
        IncDecTarget::L => inc_dec_register(m, RegisterTarget::L, is_inc),
        IncDecTarget::HLI => inc_dec_register(m, RegisterTarget::HLI, is_inc),
        IncDecTarget::BC => inc_dec_word_register(m, LoadWordTarget::BC, is_inc),
        IncDecTarget::DE => inc_dec_word_register(m, LoadWordTarget::DE, is_inc),
        IncDecTarget::HL => inc_dec_word_register(m, LoadWordTarget::HL, is_inc),
        IncDecTarget::SP => inc_dec_word_register(m, LoadWordTarget::SP, is_inc),
    }
}

/// A rotation or shift of a selected register or of the byte at HL.
pub open spec fn shift_effect(m: Machine, t: RegisterTarget, out: (u8, bool)) -> Machine {
    set_register(m.with_flags(shift_flags(out.0, out.1)), t, out.0)
}

pub open spec fn load_byte_register(t: LoadByteTarget) -> RegisterTarget {
    match t {
        LoadByteTarget::A => RegisterTarget::A,
        LoadByteTarget::B => RegisterTarget::B,
        LoadByteTarget::C => RegisterTarget::C,
        LoadByteTarget::D => RegisterTarget::D,
        LoadByteTarget::E => RegisterTarget::E,
        LoadByteTarget::H => RegisterTarget::H,
        LoadByteTarget::L => RegisterTarget::L,
        LoadByteTarget::HLI => RegisterTarget::HLI,
    }
}

pub open spec fn load_byte_value(m: Machine, s: LoadByteSource) -> u8 {
    match s {
        LoadByteSource::A => m.regs.a,
        LoadByteSource::B => m.regs.b,
        LoadByteSource::C => m.regs.c,
        LoadByteSource::D => m.regs.d,
        LoadByteSource::E => m.regs.e,
        LoadByteSource::H => m.regs.h,
        LoadByteSource::L => m.regs.l,
        LoadByteSource::HLI => m.read(m.regs.hl()),
        LoadByteSource::D8 => m.imm8(),
    }
}

pub open spec fn load_word_value(m: Machine, s: LoadWordSource) -> u16 {
    match s {
        LoadWordSource::BC => m.regs.bc(),
        LoadWordSource::DE => m.regs.de(),
        LoadWordSource::HL => m.regs.hl(),
        LoadWordSource::SP => m.sp,
        LoadWordSource::D16 => m.imm16(),
    }
}

pub open spec fn indirect_address(m: Machine, p: Indirect) -> u16 {
    match p {
        Indirect::BCI => m.regs.bc(),
        Indirect::DEI => m.regs.de(),
        Indirect::HLINC | Indirect::HLDEC => m.regs.hl(),
    }
}

/// HL after an access through `p`.
pub open spec fn step_hl(m: Machine, p: Indirect) -> Machine {
    match p {
        Indirect::HLINC => m.with_regs(m.regs.with_hl(offset16(m.regs.hl(), 1))),
        Indirect::HLDEC => m.with_regs(m.regs.with_hl(offset16(m.regs.hl(), -1))),
        _ => m,
    }
}

pub open spec fn byte_address(m: Machine, a: ByteAddress) -> u16 {
    match a {
        ByteAddress::A8 => word(0xFF, m.imm8()),
        ByteAddress::C => word(0xFF, m.regs.c),
        ByteAddress::A16 => m.imm16(),
    }
}

pub open spec fn load_effect(m: Machine, load: LoadType) -> Machine {
    match load {
        LoadType::Byte(t, s) => set_register(m, load_byte_register(t), load_byte_value(m, s)),
        LoadType::Word(t, s) => set_word_register(m, t, load_word_value(m, s)),
        LoadType::AFromIndirect(p) => step_hl(
            m.with_regs(Registers { a: m.read(indirect_address(m, p)), ..m.regs }),
            p,
        ),
        LoadType::IndirectFromA(p) => step_hl(m.write(indirect_address(m, p), m.regs.a), p),
        LoadType::AFromByteAddress(a) => m.with_regs(
            Registers { a: m.read(byte_address(m, a)), ..m.regs },
        ),
        LoadType::ByteAddressFromA(a) => m.write(byte_address(m, a), m.regs.a),
        LoadType::SPToAddress => {
            let address = m.imm16();
            m.write(address, low_byte(m.sp)).write(offset16(address, 1), high_byte(m.sp))
        },
    }
}

/// Everything that executing `i` changes but the program counter.
pub open spec fn effect(m: Machine, i: Instruction) -> Machine {
    let a = m.regs.a;
    let f = m.regs.f;
    match i {
        Instruction::ADD(t) => m.accumulate(add_bytes(a, arithmetic_operand(m, t), false)),
        Instruction::ADC(t) => m.accumulate(add_bytes(a, arithmetic_operand(m, t), f.carry)),
        Instruction::SUB(t) => m.accumulate(sub_bytes(a, arithmetic_operand(m, t), false)),
        Instruction::SBC(t) => m.accumulate(sub_bytes(a, arithmetic_operand(m, t), f.carry)),
        Instruction::CMP(t) => m.with_flags(sub_bytes(a, arithmetic_operand(m, t), false).1),
        Instruction::AND(t) => {
            let r = a & arithmetic_operand(m, t);
            m.accumulate((r, logic_flags(r)))
        },
        Instruction::OR(t) => {
            let r = a | arithmetic_operand(m, t);
            m.accumulate((r, logic_flags(r)))
        },
        Instruction::XOR(t) => {
            let r = a ^ arithmetic_operand(m, t);
            m.accumulate((r, logic_flags(r)))
        },
        Instruction::ADDL(t) => match t {
            ArithmeticTargetLong::S8 => {
                let out = add_words(m.sp, sign_extend(m.imm8()), f);
                Machine { sp: out.0, ..m.with_flags(out.1) }
            },
            _ => {
                let v = match t {
                    ArithmeticTargetLong::BC => m.regs.bc(),
                    ArithmeticTargetLong::DE => m.regs.de(),
                    ArithmeticTargetLong::HL => m.regs.hl(),
                    _ => m.sp,
                };
                let out = add_words(m.regs.hl(), v, f);
                m.with_regs(Registers { f: out.1, ..m.regs.with_hl(out.0) })
            },
        },
        Instruction::INC(t) => inc_dec_effect(m, t, true),
        Instruction::DEC(t) => inc_dec_effect(m, t, false),
        Instruction::RLCA => {
            let out = rotate_left_circular(a);
            m.accumulate((out.0, FlagRegister { carry: out.1, ..f }))
        },
        Instruction::RRCA => {
            let out = rotate_right_circular(a);
            m.accumulate((out.0, FlagRegister { carry: out.1, ..f }))
        },
        Instruction::RLA => {
            let out = rotate_left(a, f.carry);
            m.accumulate((out.0, FlagRegister { carry: out.1, ..f }))
        },
        Instruction::RRA => {
            let out = rotate_right(a, f.carry);
            m.accumulate((out.0, FlagRegister { carry: out.1, ..f }))
        },
        Instruction::RLC(t) => shift_effect(m, t, rotate_left_circular(register(m, t))),
        Instruction::RRC(t) => shift_effect(m, t, rotate_right_circular(register(m, t))),
        Instruction::RL(t) => shift_effect(m, t, rotate_left(register(m, t), f.carry)),
        Instruction::RR(t) => shift_effect(m, t, rotate_right(register(m, t), f.carry)),
        Instruction::SLA(t) => shift_effect(m, t, shift_left_arithmetic(register(m, t))),
        Instruction::SRA(t) => shift_effect(m, t, shift_right_arithmetic(register(m, t))),
        Instruction::SWAP(t) => shift_effect(m, t, swap_nibbles(register(m, t))),
        Instruction::SRL(t) => shift_effect(m, t, shift_right_logical(register(m, t))),
        Instruction::BIT(b, t) => m.with_flags(
            FlagRegister {
                zero: !bit_set(register(m, t), b),
                subtract: false,
                half_carry: true,
                carry: f.carry,
            },
        ),
        Instruction::RES(b, t) => set_register(m, t, reset_bit(register(m, t), b)),
        Instruction::SET(b, t) => set_register(m, t, set_bit(register(m, t), b)),
        Instruction::JP(_) | Instruction::JPL | Instruction::JR(_) | Instruction::NOP => m,
        Instruction::CALL(c) => if condition_holds(f, c) {
            push_word(m, offset16(m.pc, 3))
        } else {
            m
        },
        Instruction::RET(c) => if condition_holds(f, c) {
            pop_word(m)
        } else {
            m
        },
        Instruction::RETI => Machine { interrupts_enabled: true, ..pop_word(m) },
        Instruction::RST(_) => push_word(m, offset16(m.pc, 1)),
        Instruction::PUSH(r) => push_word(m, stack_register(m, r)),
        Instruction::POP(r) => set_stack_register(pop_word(m), r, popped_word(m)),
        Instruction::LD(load) => load_effect(m, load),
        Instruction::CCF => m.with_flags(
            FlagRegister { subtract: false, half_carry: false, carry: !f.carry, ..f },
        ),
        Instruction::SCF => m.with_flags(
            FlagRegister { subtract: false, half_carry: false, carry: true, ..f },
        ),
        Instruction::DAA => m.accumulate(decimal_adjust(a, f)),
        Instruction::CPL => m.accumulate((!a, FlagRegister { subtract: true, half_carry: true, ..f })),
        Instruction::HALT => Machine { halted: true, ..m },
        Instruction::STOP => Machine { stopped: true, ..m },
        Instruction::DI => Machine { interrupts_enabled: false, ..m },
        Instruction::EI => Machine { interrupts_enabled: true, ..m },
    }
}

/// The program counter after `i`: a branch target, or the address after its encoding.
pub open spec fn next_pc(m: Machine, i: Instruction) -> u16 {
    let f = m.regs.f;
    match i {
        Instruction::JP(c) => if condition_holds(f, c) {
            m.imm16()
        } else {
            offset16(m.pc, 3)
        },
        Instruction::JPL => m.regs.hl(),
        Instruction::JR(c) => if condition_holds(f, c) {
            offset16(m.pc, 2 + signed_byte(m.imm8()))
        } else {
            offset16(m.pc, 2)
        },
        Instruction::CALL(c) => if condition_holds(f, c) {
            m.imm16()
        } else {
            offset16(m.pc, 3)
        },
        Instruction::RET(c) => if condition_holds(f, c) {
            popped_word(m)
        } else {
            offset16(m.pc, 1)
        },
        Instruction::RETI => popped_word(m),
        Instruction::RST(n) => (n * 8) as u16,
        _ => offset16(m.pc, i.spec_length() as int),
    }
}

/// The whole machine after executing `i`.
pub open spec fn run(m: Machine, i: Instruction) -> Machine {
    Machine { pc: next_pc(m, i), ..effect(m, i) }
}

/// The opcode byte at PC, or the byte after it when PC holds the prefix 0xCB,
/// and whether it was prefixed.
pub open spec fn fetched_opcode(m: Machine) -> (u8, bool) {
    if m.read(m.pc) == 0xCB {
        (m.read(offset16(m.pc, 1)), true)
    } else {
        (m.read(m.pc), false)
    }
}

/// A word pushed is the word on top of the stack afterwards, and popping it
/// restores SP.
pub proof fn lemma_push_then_pop(m: Machine, v: u16)
    requires
        m.wf(),
    ensures
        popped_word(push_word(m, v)) == v,
        pop_word(push_word(m, v)).sp == m.sp,
        pop_word(push_word(m, v)).regs == m.regs,
{
    assert(offset16(offset16(m.sp, -2), 1) == offset16(m.sp, -1));
    assert(offset16(offset16(m.sp, -2), 2) == m.sp);
}

/// CALL followed by RET: CALL pushes the address after its three bytes, drops SP
/// by two and jumps; the RET that follows returns to that address with SP
/// restored.
pub proof fn lemma_call_ret_round_trip(m: Machine)
    requires
        m.wf(),
    ensures
        ({
            let called = run(m, Instruction::CALL(JumpType::Always));
            let returned = run(called, Instruction::RET(JumpType::Always));
            &&& called.sp == offset16(m.sp, -2)
            &&& popped_word(called) == offset16(m.pc, 3)
            &&& called.pc == m.imm16()
            &&& returned.pc == offset16(m.pc, 3)
            &&& returned.sp == m.sp
            &&& returned.regs == m.regs
        }),
{
    lemma_push_then_pop(m, offset16(m.pc, 3));
}

/// PUSH then POP of the same register pair leaves every register and SP as they
/// were.
pub proof fn lemma_push_pop_round_trip(m: Machine, r: StackRegisters)
    requires
        m.wf(),
    ensures
        ({
            let restored = run(run(m, Instruction::PUSH(r)), Instruction::POP(r));
            restored.regs == m.regs && restored.sp == m.sp
        }),
{
    let v = stack_register(m, r);
    lemma_push_then_pop(m, v);
    if r is AF {
        lemma_flags_to_byte_and_back(m.regs.f);
    }
}

/// POP AF keeps only the four flag bits of the low byte: whatever pair was
/// pushed, AF afterwards is that word with its low nibble cleared.
pub proof fn lemma_pop_af_clears_low_nibble(m: Machine, r: StackRegisters)
    requires
        m.wf(),
    ensures
        run(run(m, Instruction::PUSH(r)), Instruction::POP(StackRegisters::AF)).regs.af()
            == stack_register(m, r) & 0xFFF0,
{
    let v = stack_register(m, r);
    lemma_push_then_pop(m, v);
    let lo = low_byte(v);
    lemma_flags_byte_round_trip(lo);
    assert(high_byte(v) * 256 + (lo & 0xF0) == v & 0xFFF0) by (bit_vector)
        requires
            lo == (v % 256) as u8,
    ;
}

/// BIT reads its operand and writes only flags: memory, SP and every register
/// but F are unchanged, the carry is kept, and zero tells whether the bit is clear.
pub proof fn lemma_bit_is_read_only(m: Machine, b: u8, t: RegisterTarget)
    requires
        b < 8,
    ensures
        ({
            let after = run(m, Instruction::BIT(b, t));
            &&& after.mem == m.mem
            &&& after.sp == m.sp
            &&& Registers { f: m.regs.f, ..after.regs } == m.regs
            &&& after.regs.f.carry == m.regs.f.carry
            &&& after.regs.f.zero == !bit_set(register(m, t), b)
            &&& after.pc == offset16(m.pc, 2)
        }),
{
}

/// 16-bit INC and DEC never change the zero flag.
pub proof fn lemma_wide_inc_dec_keeps_zero(m: Machine, t: IncDecTarget)
    requires
        t is BC || t is DE || t is HL || t is SP,
    ensures
        run(m, Instruction::INC(t)).regs.f.zero == m.regs.f.zero,
        run(m, Instruction::DEC(t)).regs.f.zero == m.regs.f.zero,
{
}

} // verus!
