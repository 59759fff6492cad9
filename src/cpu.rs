//! The execution engine: fetch, decode and execute over the register file and memory.
use crate::alu::{
    add_bytes, add_words, daa, dec_byte, dec_word, inc_byte, inc_word, logic_flags, rl, rlc, rr,
    rrc, sign_extend_byte, signed_byte, sla, sra, srl, sub_bytes, swap,
};
use crate::instructions::{
    decode, ArithmeticTarget, ArithmeticTargetLong, ByteAddress, IncDecTarget, Indirect,
    Instruction, JumpType, LoadByteSource, LoadByteTarget, LoadType, LoadWordSource,
    LoadWordTarget, RegisterTarget, StackRegisters,
};
use crate::machine::{
    arithmetic_operand, byte_address, condition_holds, effect, fetched_opcode, inc_dec_effect,
    inc_dec_register, inc_dec_word_register, indirect_address, load_effect, next_pc, offset16,
    pop_word, popped_word, push_word, register, run, set_register, set_stack_register,
    set_word_register, shift_effect, stack_register, step_hl, word_register, Machine,
};
use crate::memory::MemoryBus;
use crate::registers::{FlagRegister, Registers};
use vstd::prelude::*;

verus! {

/// A failure of one step, reported to the host.
#[derive(Clone, Copy, Debug, PartialEq, Eq, Structural)]
pub enum CpuError {
    /// The fetched byte selects no instruction in its table.
    IllegalOpcode { byte: u8, prefixed: bool },
}

pub struct CPU {
    pub registers: Registers,
    pub pc: u16,
    pub sp: u16,
    pub bus: MemoryBus,
    /// Interrupt master enable, as set by DI, EI and RETI for the interrupt controller.
    pub interrupts_enabled: bool,
    /// Set by HALT; the host decides when to resume.
    pub halted: bool,
    /// Set by STOP; the host decides when to resume.
    pub stopped: bool,
}

impl View for CPU {
    type V = Machine;

    open spec fn view(&self) -> Machine {
        Machine {
            regs: self.registers,
            pc: self.pc,
            sp: self.sp,
            mem: self.bus@,
            interrupts_enabled: self.interrupts_enabled,
            halted: self.halted,
            stopped: self.stopped,
        }
    }
}

impl CPU {
    /// The state left by the boot program: AF = 0x01B0, BC = 0x0013, DE = 0x00D8,
    /// HL = 0x014D, SP = 0xFFFE, PC = 0x0100, interrupts disabled.
    pub fn new(bus: MemoryBus) -> (r: CPU)
        ensures
            r@ == (Machine {
                regs: Registers {
                    a: 0x01,
                    b: 0x00,
                    c: 0x13,
                    d: 0x00,
                    e: 0xD8,
                    f: FlagRegister { zero: true, subtract: false, half_carry: true, carry: true },
                    h: 0x01,
                    l: 0x4D,
                },
                pc: 0x0100,
                sp: 0xFFFE,
                mem: bus@,
                interrupts_enabled: false,
                halted: false,
                stopped: false,
            }),
    {
        CPU {
            registers: Registers {
                a: 0x01,
                b: 0x00,
                c: 0x13,
                d: 0x00,
                e: 0xD8,
                f: FlagRegister { zero: true, subtract: false, half_carry: true, carry: true },
                h: 0x01,
                l: 0x4D,
            },
            pc: 0x0100,
            sp: 0xFFFE,
            bus,
            interrupts_enabled: false,
            halted: false,
            stopped: false,
        }
    }

    /// PC advanced by `n` bytes.
    fn advance(&self, n: u16) -> (r: u16)
        ensures
            r == offset16(self.pc, n as int),
    {
        self.pc.wrapping_add(n)
    }

    fn read_imm8(&self) -> (r: u8)
        ensures
            r == self@.imm8(),
    {
        self.bus.read_byte(self.pc.wrapping_add(1))
    }

    fn read_word_at(&self, address: u16) -> (r: u16)
        ensures
            r == self@.read_word(address),
    {
        let low = self.bus.read_byte(address);
        let high = self.bus.read_byte(address.wrapping_add(1));
        (high as u16) * 256 + (low as u16)
    }

    fn read_imm16(&self) -> (r: u16)
        ensures
            r == self@.imm16(),
    {
        self.read_word_at(self.pc.wrapping_add(1))
    }

    fn read_register(&self, t: RegisterTarget) -> (r: u8)
        ensures
            r == register(self@, t),
    {
        match t {
            RegisterTarget::A => self.registers.a,
            RegisterTarget::B => self.registers.b,
            RegisterTarget::C => self.registers.c,
            RegisterTarget::D => self.registers.d,
            RegisterTarget::E => self.registers.e,
            RegisterTarget::H => self.registers.h,
            RegisterTarget::L => self.registers.l,
            RegisterTarget::HLI => self.bus.read_byte(self.registers.get_hl()),
        }
    }

    fn write_register(&mut self, t: RegisterTarget, v: u8)
        ensures
            final(self)@ == set_register(old(self)@, t, v),
    {
        match t {
            RegisterTarget::A => self.registers.a = v,
            RegisterTarget::B => self.registers.b = v,
            RegisterTarget::C => self.registers.c = v,
            RegisterTarget::D => self.registers.d = v,
            RegisterTarget::E => self.registers.e = v,
            RegisterTarget::H => self.registers.h = v,
            RegisterTarget::L => self.registers.l = v,
            RegisterTarget::HLI => {
                let address = self.registers.get_hl();
                self.bus.write_byte(address, v);
            },
        }
    }

    fn read_arithmetic_operand(&self, t: ArithmeticTarget) -> (r: u8)
        ensures
            r == arithmetic_operand(self@, t),
    {
        match t {
            ArithmeticTarget::A => self.registers.a,
            ArithmeticTarget::B => self.registers.b,
            ArithmeticTarget::C => self.registers.c,
            ArithmeticTarget::D => self.registers.d,
            ArithmeticTarget::E => self.registers.e,
            ArithmeticTarget::H => self.registers.h,
            ArithmeticTarget::L => self.registers.l,
            ArithmeticTarget::HLI => self.bus.read_byte(self.registers.get_hl()),
            ArithmeticTarget::D8 => self.read_imm8(),
        }
    }

    fn read_word_register(&self, t: LoadWordTarget) -> (r: u16)
        ensures
            r == word_register(self@, t),
    {
        match t {
            LoadWordTarget::BC => self.registers.get_bc(),
            LoadWordTarget::DE => self.registers.get_de(),
            LoadWordTarget::HL => self.registers.get_hl(),
            LoadWordTarget::SP => self.sp,
        }
    }

    fn write_word_register(&mut self, t: LoadWordTarget, v: u16)
        ensures
            final(self)@ == set_word_register(old(self)@, t, v),
    {
        match t {
            LoadWordTarget::BC => self.registers.set_bc(v),
            LoadWordTarget::DE => self.registers.set_de(v),
            LoadWordTarget::HL => self.registers.set_hl(v),
            LoadWordTarget::SP => self.sp = v,
        }
    }

    fn read_stack_register(&self, r: StackRegisters) -> (v: u16)
        ensures
            v == stack_register(self@, r),
    {
        match r {
            StackRegisters::AF => self.registers.get_af(),
            StackRegisters::BC => self.registers.get_bc(),
            StackRegisters::DE => self.registers.get_de(),
            StackRegisters::HL => self.registers.get_hl(),
        }
    }

    fn write_stack_register(&mut self, r: StackRegisters, v: u16)
        ensures
            final(self)@ == set_stack_register(old(self)@, r, v),
    {
        match r {
            StackRegisters::AF => self.registers.set_af(v),
            StackRegisters::BC => self.registers.set_bc(v),
            StackRegisters::DE => self.registers.set_de(v),
            StackRegisters::HL => self.registers.set_hl(v),
        }
    }

    /// Whether a branch with condition `c` is taken.
    pub fn condition(&self, c: JumpType) -> (r: bool)
        ensures
            r == condition_holds(self.registers.f, c),
    {
        match c {
            JumpType::NotZero => !self.registers.f.zero,
            JumpType::Zero => self.registers.f.zero,
            JumpType::NotCarry => !self.registers.f.carry,
            JumpType::Carry => self.registers.f.carry,
            JumpType::Always => true,
        }
    }

    /// A + `value`; sets the flags and returns the sum without storing it.
    pub fn add(&mut self, value: u8) -> (r: u8)
        ensures
            r == add_bytes(old(self).registers.a, value, false).0,
            final(self)@ == old(self)@.with_flags(add_bytes(old(self).registers.a, value, false).1),
    {
        let a = self.registers.a;
        let sum: u16 = a as u16 + value as u16;
        let new_value = (sum % 256) as u8;
        self.registers.f = FlagRegister {
            zero: new_value == 0,
            subtract: false,
            half_carry: a % 16 + value % 16 > 15,
            carry: sum > 255,
        };
        new_value
    }

    /// A + `value` + carry; sets the flags and returns the sum without storing it.
    pub fn add_carry(&mut self, value: u8) -> (r: u8)
        ensures
            r == add_bytes(old(self).registers.a, value, old(self).registers.f.carry).0,
            final(self)@ == old(self)@.with_flags(
                add_bytes(old(self).registers.a, value, old(self).registers.f.carry).1,
            ),
    {
        let a = self.registers.a;
        let carry: u8 = if self.registers.f.carry {
            1
        } else {
            0
        };
        let sum: u16 = a as u16 + value as u16 + carry as u16;
        let new_value = (sum % 256) as u8;
        self.registers.f = FlagRegister {
            zero: new_value == 0,
            subtract: false,
            half_carry: a % 16 + value % 16 + carry > 15,
            carry: sum > 255,
        };
        new_value
    }

    /// A - `value`; sets the flags and returns the difference without storing it.
    pub fn sub(&mut self, value: u8) -> (r: u8)
        ensures
            r == sub_bytes(old(self).registers.a, value, false).0,
            final(self)@ == old(self)@.with_flags(sub_bytes(old(self).registers.a, value, false).1),
    {
        let a = self.registers.a;
        let new_value = a.wrapping_sub(value);
        self.registers.f = FlagRegister {
            zero: new_value == 0,
            subtract: true,
            half_carry: a % 16 < value % 16,
            carry: a < value,
        };
        new_value
    }

    /// A - `value` - carry; sets the flags and returns the difference without storing it.
    pub fn sub_carry(&mut self, value: u8) -> (r: u8)
        ensures
            r == sub_bytes(old(self).registers.a, value, old(self).registers.f.carry).0,
            final(self)@ == old(self)@.with_flags(
                sub_bytes(old(self).registers.a, value, old(self).registers.f.carry).1,
            ),
    {
        let a = self.registers.a;
        let carry: u8 = if self.registers.f.carry {
            1
        } else {
            0
        };
        let subtrahend: u16 = value as u16 + carry as u16;
        let new_value = ((a as u16 + 256 - subtrahend) % 256) as u8;
        self.registers.f = FlagRegister {
            zero: new_value == 0,
            subtract: true,
            half_carry: a % 16 < value % 16 + carry,
            carry: (a as u16) < subtrahend,
        };
        new_value
    }

    pub fn and(&mut self, value: u8) -> (r: u8)
        ensures
            r == old(self).registers.a & value,
            final(self)@ == old(self)@.with_flags(logic_flags(old(self).registers.a & value)),
    {
        let new_value = self.registers.a & value;
        self.registers.f = FlagRegister {
            zero: new_value == 0,
            subtract: false,
            half_carry: false,
            carry: false,
        };
        new_value
    }

    pub fn or(&mut self, value: u8) -> (r: u8)
        ensures
            r == old(self).registers.a | value,
            final(self)@ == old(self)@.with_flags(logic_flags(old(self).registers.a | value)),
    {
        let new_value = self.registers.a | value;
        self.registers.f = FlagRegister {
            zero: new_value == 0,
            subtract: false,
            half_carry: false,
            carry: false,
        };
        new_value
    }

    pub fn xor(&mut self, value: u8) -> (r: u8)
        ensures
            r == old(self).registers.a ^ value,
            final(self)@ == old(self)@.with_flags(logic_flags(old(self).registers.a ^ value)),
    {
        let new_value = self.registers.a ^ value;
        self.registers.f = FlagRegister {
            zero: new_value == 0,
            subtract: false,
            half_carry: false,
            carry: false,
        };
        new_value
    }

    /// `value` plus or minus one; sets the flags (carry kept) and returns the result.
    pub fn inc_dec(&mut self, value: u8, is_inc: bool) -> (r: u8)
        ensures
            ({
                let out = if is_inc {
                    inc_byte(value, old(self).registers.f)
                } else {
                    dec_byte(value, old(self).registers.f)
                };
                r == out.0 && final(self)@ == old(self)@.with_flags(out.1)
            }),
    {
        let new_value = if is_inc {
            value.wrapping_add(1)
        } else {
            value.wrapping_sub(1)
        };
        self.registers.f = FlagRegister {
            zero: new_value == 0,
            subtract: !is_inc,
            half_carry: if is_inc {
                value % 16 == 15
            } else {
                value % 16 == 0
            },
            carry: self.registers.f.carry,
        };
        new_value
    }

    /// `value` plus or minus one; sets the flags (zero and carry kept) and returns the result.
    pub fn inc_dec_long(&mut self, value: u16, is_inc: bool) -> (r: u16)
        ensures
            ({
                let out = if is_inc {
                    inc_word(value, old(self).registers.f)
                } else {
                    dec_word(value, old(self).registers.f)
                };
                r == out.0 && final(self)@ == old(self)@.with_flags(out.1)
            }),
            final(self).registers.f.zero == old(self).registers.f.zero,
    {
        let new_value = if is_inc {
            value.wrapping_add(1)
        } else {
            value.wrapping_sub(1)
        };
        self.registers.f = FlagRegister {
            zero: self.registers.f.zero,
            subtract: !is_inc,
            half_carry: if is_inc {
                value % 0x1000 == 0xFFF
            } else {
                value % 0x1000 == 0
            },
            carry: self.registers.f.carry,
        };
        new_value
    }

    /// SP (when `is_sp`) or HL, plus `value`; sets the flags (zero kept) and returns the sum.
    pub fn add_long(&mut self, value: u16, is_sp: bool) -> (r: u16)
        ensures
            ({
                let base = if is_sp {
                    old(self).sp
                } else {
                    old(self).registers.hl()
                };
                let out = add_words(base, value, old(self).registers.f);
                r == out.0 && final(self)@ == old(self)@.with_flags(out.1)
            }),
    {
        let base: u16 = if is_sp {
            self.sp
        } else {
            self.registers.get_hl()
        };
        let sum: u32 = base as u32 + value as u32;
        self.registers.f = FlagRegister {
            zero: self.registers.f.zero,
            subtract: false,
            half_carry: base % 0x1000 + value % 0x1000 > 0xFFF,
            carry: sum > 0xFFFF,
        };
        (sum % 0x10000) as u16
    }

    /// Target of an absolute jump: the immediate word when `should_jump`, else the
    /// next instruction.
    pub fn jump(&self, should_jump: bool) -> (r: u16)
        ensures
            r == if should_jump {
                self@.imm16()
            } else {
                offset16(self.pc, 3)
            },
    {
        if should_jump {
            self.read_imm16()
        } else {
            self.advance(3)
        }
    }

    /// Target of a relative jump: the signed immediate added to the address after
    /// the instruction when `should_jump`, else that address.
    pub fn jump_relative(&self, should_jump: bool) -> (r: u16)
        ensures
            r == if should_jump {
                offset16(self.pc, 2 + signed_byte(self@.imm8()))
            } else {
                offset16(self.pc, 2)
            },
    {
        let after = self.advance(2);
        if should_jump {
            let offset = self.read_imm8();
            if offset < 128 {
                after.wrapping_add(offset as u16)
            } else {
                after.wrapping_sub(256 - offset as u16)
            }
        } else {
            after
        }
    }

    pub fn push(&mut self, value: u16)
        ensures
            final(self)@ == push_word(old(self)@, value),
    {
        self.sp = self.sp.wrapping_sub(1);
        self.bus.write_byte(self.sp, (value / 256) as u8);
        self.sp = self.sp.wrapping_sub(1);
        self.bus.write_byte(self.sp, (value % 256) as u8);
    }

    pub fn pop(&mut self) -> (r: u16)
        ensures
            r == popped_word(old(self)@),
            final(self)@ == pop_word(old(self)@),
    {
        let low = self.bus.read_byte(self.sp) as u16;
        self.sp = self.sp.wrapping_add(1);
        let high = self.bus.read_byte(self.sp) as u16;
        self.sp = self.sp.wrapping_add(1);
        high * 256 + low
    }

    /// CALL: when `should_jump`, pushes the address after the instruction and
    /// returns the immediate target; else returns that address.
    pub fn call(&mut self, should_jump: bool) -> (r: u16)
        ensures
            r == if should_jump {
                old(self)@.imm16()
            } else {
                offset16(old(self).pc, 3)
            },
            final(self)@ == if should_jump {
                push_word(old(self)@, offset16(old(self).pc, 3))
            } else {
                old(self)@
            },
    {
        let next = self.advance(3);
        if should_jump {
            let target = self.read_imm16();
            self.push(next);
            target
        } else {
            next
        }
    }

    /// RET: when `should_jump`, pops and returns the return address; else returns
    /// the address after the instruction.
    pub fn ret(&mut self, should_jump: bool) -> (r: u16)
        ensures
            r == if should_jump {
                popped_word(old(self)@)
            } else {
                offset16(old(self).pc, 1)
            },
            final(self)@ == if should_jump {
                pop_word(old(self)@)
            } else {
                old(self)@
            },
    {
        if should_jump {
            self.pop()
        } else {
            self.advance(1)
        }
    }

    fn inc_dec_byte_register(&mut self, t: RegisterTarget, is_inc: bool)
        ensures
            final(self)@ == inc_dec_register(old(self)@, t, is_inc),
    {
        let value = self.read_register(t);
        let new_value = self.inc_dec(value, is_inc);
        self.write_register(t, new_value);
    }

    fn inc_dec_wide_register(&mut self, t: LoadWordTarget, is_inc: bool)
        ensures
            final(self)@ == inc_dec_word_register(old(self)@, t, is_inc),
    {
        let value = self.read_word_register(t);
        let new_value = self.inc_dec_long(value, is_inc);
        self.write_word_register(t, new_value);
    }

    fn inc_dec_target(&mut self, t: IncDecTarget, is_inc: bool)
        ensures
            final(self)@ == inc_dec_effect(old(self)@, t, is_inc),
    {
        match t {
            IncDecTarget::A => self.inc_dec_byte_register(RegisterTarget::A, is_inc),
            IncDecTarget::B => self.inc_dec_byte_register(RegisterTarget::B, is_inc),
            IncDecTarget::C => self.inc_dec_byte_register(RegisterTarget::C, is_inc),
            IncDecTarget::D => self.inc_dec_byte_register(RegisterTarget::D, is_inc),
            IncDecTarget::E => self.inc_dec_byte_register(RegisterTarget::E, is_inc),
            IncDecTarget::H => self.inc_dec_byte_register(RegisterTarget::H, is_inc),
            IncDecTarget::L => self.inc_dec_byte_register(RegisterTarget::L, is_inc),
            IncDecTarget::HLI => self.inc_dec_byte_register(RegisterTarget::HLI, is_inc),
            IncDecTarget::BC => self.inc_dec_wide_register(LoadWordTarget::BC, is_inc),
            IncDecTarget::DE => self.inc_dec_wide_register(LoadWordTarget::DE, is_inc),
            IncDecTarget::HL => self.inc_dec_wide_register(LoadWordTarget::HL, is_inc),
            IncDecTarget::SP => self.inc_dec_wide_register(LoadWordTarget::SP, is_inc),
        }
    }

    /// Accumulator, 16-bit, increment/decrement and flag instructions.
    fn execute_arithmetic(&mut self, instruction: Instruction)
        requires
            instruction is ADD || instruction is ADC || instruction is SUB || instruction is SBC
                || instruction is CMP || instruction is AND || instruction is OR || instruction is XOR
                || instruction is ADDL || instruction is INC || instruction is DEC || instruction is DAA
                || instruction is CPL || instruction is CCF || instruction is SCF,
        ensures
            final(self)@ == effect(old(self)@, instruction),
    {
        match instruction {
            Instruction::ADD(t) => {
                let value = self.read_arithmetic_operand(t);
                let r = self.add(value);
                self.registers.a = r;
            },
            Instruction::ADC(t) => {
                let value = self.read_arithmetic_operand(t);
                let r = self.add_carry(value);
                self.registers.a = r;
            },
            Instruction::SUB(t) => {
                let value = self.read_arithmetic_operand(t);
                let r = self.sub(value);
                self.registers.a = r;
            },
            Instruction::SBC(t) => {
                let value = self.read_arithmetic_operand(t);
                let r = self.sub_carry(value);
                self.registers.a = r;
            },
            Instruction::CMP(t) => {
                let value = self.read_arithmetic_operand(t);
                self.sub(value);
            },
            Instruction::AND(t) => {
                let value = self.read_arithmetic_operand(t);
                let r = self.and(value);
                self.registers.a = r;
            },
            Instruction::OR(t) => {
                let value = self.read_arithmetic_operand(t);
                let r = self.or(value);
                self.registers.a = r;
            },
            Instruction::XOR(t) => {
                let value = self.read_arithmetic_operand(t);
                let r = self.xor(value);
                self.registers.a = r;
            },
            Instruction::ADDL(t) => match t {
                ArithmeticTargetLong::S8 => {
                    let offset = self.read_imm8();
                    let r = self.add_long(sign_extend_byte(offset), true);
                    self.sp = r;
                },
                _ => {
                    let value = match t {
                        ArithmeticTargetLong::BC => self.registers.get_bc(),
                        ArithmeticTargetLong::DE => self.registers.get_de(),
                        ArithmeticTargetLong::HL => self.registers.get_hl(),
                        _ => self.sp,
                    };
                    let r = self.add_long(value, false);
                    self.registers.set_hl(r);
                },
            },
            Instruction::INC(t) => self.inc_dec_target(t, true),
            Instruction::DEC(t) => self.inc_dec_target(t, false),
            Instruction::DAA => {
                let (r, flags) = daa(self.registers.a, self.registers.f);
                self.registers.a = r;
                self.registers.f = flags;
            },
            Instruction::CPL => {
                self.registers.a = !self.registers.a;
                self.registers.f.subtract = true;
                self.registers.f.half_carry = true;
            },
            Instruction::CCF => {
                self.registers.f.carry = !self.registers.f.carry;
                self.registers.f.subtract = false;
                self.registers.f.half_carry = false;
            },
            Instruction::SCF => {
                self.registers.f.carry = true;
                self.registers.f.subtract = false;
                self.registers.f.half_carry = false;
            },
            _ => {},
        }
    }

    /// Writes a rotation or shift result and its flags.
    fn shift_into(&mut self, t: RegisterTarget, out: (u8, bool))
        ensures
            final(self)@ == shift_effect(old(self)@, t, out),
    {
        self.registers.f = FlagRegister {
            zero: out.0 == 0,
            subtract: false,
            half_carry: false,
            carry: out.1,
        };
        self.write_register(t, out.0);
    }

    /// Rotations, shifts and single-bit instructions.
    fn execute_bits(&mut self, instruction: Instruction)
        requires
            instruction.wf(),
            instruction is RLCA || instruction is RRCA || instruction is RLA || instruction is RRA
                || instruction is RLC || instruction is RRC || instruction is RL || instruction is RR
                || instruction is SLA || instruction is SRA || instruction is SWAP || instruction is SRL
                || instruction is BIT || instruction is RES || instruction is SET,
        ensures
            final(self)@ == effect(old(self)@, instruction),
    {
        let carry = self.registers.f.carry;
        match instruction {
            Instruction::RLCA => {
                let (r, c) = rlc(self.registers.a);
                self.registers.a = r;
                self.registers.f.carry = c;
            },
            Instruction::RRCA => {
                let (r, c) = rrc(self.registers.a);
                self.registers.a = r;
                self.registers.f.carry = c;
            },
            Instruction::RLA => {
                let (r, c) = rl(self.registers.a, carry);
                self.registers.a = r;
                self.registers.f.carry = c;
            },
            Instruction::RRA => {
                let (r, c) = rr(self.registers.a, carry);
                self.registers.a = r;
                self.registers.f.carry = c;
            },
            Instruction::RLC(t) => {
                let value = self.read_register(t);
                self.shift_into(t, rlc(value));
            },
            Instruction::RRC(t) => {
                let value = self.read_register(t);
                self.shift_into(t, rrc(value));
            },
            Instruction::RL(t) => {
                let value = self.read_register(t);
                self.shift_into(t, rl(value, carry));
            },
            Instruction::RR(t) => {
                let value = self.read_register(t);
                self.shift_into(t, rr(value, carry));
            },
            Instruction::SLA(t) => {
                let value = self.read_register(t);
                self.shift_into(t, sla(value));
            },
            Instruction::SRA(t) => {
                let value = self.read_register(t);
                self.shift_into(t, sra(value));
            },
            Instruction::SWAP(t) => {
                let value = self.read_register(t);
                self.shift_into(t, swap(value));
            },
            Instruction::SRL(t) => {
                let value = self.read_register(t);
                self.shift_into(t, srl(value));
            },
            Instruction::BIT(bit, t) => {
                let value = self.read_register(t);
                self.registers.f.zero = !((value >> bit) & 1 == 1);
                self.registers.f.subtract = false;
                self.registers.f.half_carry = true;
            },
            Instruction::RES(bit, t) => {
                let value = self.read_register(t);
                self.write_register(t, value & !(1u8 << bit));
            },
            Instruction::SET(bit, t) => {
                let value = self.read_register(t);
                self.write_register(t, value | (1u8 << bit));
            },
            _ => {},
        }
    }

    /// Jumps, calls, returns and stack instructions; returns the next PC.
    fn execute_control(&mut self, instruction: Instruction) -> (next: u16)
        requires
            instruction is JP || instruction is JPL || instruction is JR || instruction is CALL
                || instruction is RET || instruction is RETI || instruction is RST
                || instruction is PUSH || instruction is POP,
        ensures
            final(self)@ == effect(old(self)@, instruction),
            next == next_pc(old(self)@, instruction),
    {
        match instruction {
            Instruction::JP(test) => {
                let should_jump = self.condition(test);
                self.jump(should_jump)
            },
            Instruction::JPL => self.registers.get_hl(),
            Instruction::JR(test) => {
                let should_jump = self.condition(test);
                self.jump_relative(should_jump)
            },
            Instruction::CALL(test) => {
                let should_jump = self.condition(test);
                self.call(should_jump)
            },
            Instruction::RET(test) => {
                let should_jump = self.condition(test);
                self.ret(should_jump)
            },
            Instruction::RETI => {
                let target = self.pop();
                self.interrupts_enabled = true;
                target
            },
            Instruction::RST(vector) => {
                let next = self.advance(1);
                self.push(next);
                (vector as u16) * 8
            },
            Instruction::PUSH(r) => {
                let value = self.read_stack_register(r);
                self.push(value);
                self.advance(1)
            },
            Instruction::POP(r) => {
                let value = self.pop();
                self.write_stack_register(r, value);
                self.advance(1)
            },
            _ => self.pc,
        }
    }

    fn indirect_address(&self, p: Indirect) -> (r: u16)
        ensures
            r == indirect_address(self@, p),
    {
        match p {
            Indirect::BCI => self.registers.get_bc(),
            Indirect::DEI => self.registers.get_de(),
            Indirect::HLINC | Indirect::HLDEC => self.registers.get_hl(),
        }
    }

    /// Steps HL after an access through `p`.
    fn step_hl(&mut self, p: Indirect)
        ensures
            final(self)@ == step_hl(old(self)@, p),
    {
        match p {
            Indirect::HLINC => {
                let hl = self.registers.get_hl();
                self.registers.set_hl(hl.wrapping_add(1));
            },
            Indirect::HLDEC => {
                let hl = self.registers.get_hl();
                self.registers.set_hl(hl.wrapping_sub(1));
            },
            _ => {},
        }
    }

    fn byte_address(&self, a: ByteAddress) -> (r: u16)
        ensures
            r == byte_address(self@, a),
    {
        match a {
            ByteAddress::A8 => 0xFF00 + self.read_imm8() as u16,
            ByteAddress::C => 0xFF00 + self.registers.c as u16,
            ByteAddress::A16 => self.read_imm16(),
        }
    }

    fn execute_load(&mut self, load: LoadType)
        ensures
            final(self)@ == load_effect(old(self)@, load),
    {
        match load {
            LoadType::Byte(target, source) => {
                let value = match source {
                    LoadByteSource::A => self.registers.a,
                    LoadByteSource::B => self.registers.b,
                    LoadByteSource::C => self.registers.c,
                    LoadByteSource::D => self.registers.d,
                    LoadByteSource::E => self.registers.e,
                    LoadByteSource::H => self.registers.h,
                    LoadByteSource::L => self.registers.l,
                    LoadByteSource::HLI => self.bus.read_byte(self.registers.get_hl()),
                    LoadByteSource::D8 => self.read_imm8(),
                };
                let register = match target {
                    LoadByteTarget::A => RegisterTarget::A,
                    LoadByteTarget::B => RegisterTarget::B,
                    LoadByteTarget::C => RegisterTarget::C,
                    LoadByteTarget::D => RegisterTarget::D,
                    LoadByteTarget::E => RegisterTarget::E,
                    LoadByteTarget::H => RegisterTarget::H,
                    LoadByteTarget::L => RegisterTarget::L,
                    LoadByteTarget::HLI => RegisterTarget::HLI,
                };
                self.write_register(register, value);
            },
            LoadType::Word(target, source) => {
                let value = match source {
                    LoadWordSource::BC => self.registers.get_bc(),
                    LoadWordSource::DE => self.registers.get_de(),
                    LoadWordSource::HL => self.registers.get_hl(),
                    LoadWordSource::SP => self.sp,
                    LoadWordSource::D16 => self.read_imm16(),
                };
                self.write_word_register(target, value);
            },
            LoadType::AFromIndirect(p) => {
                let address = self.indirect_address(p);
                self.registers.a = self.bus.read_byte(address);
                self.step_hl(p);
            },
            LoadType::IndirectFromA(p) => {
                let address = self.indirect_address(p);
                self.bus.write_byte(address, self.registers.a);
                self.step_hl(p);
            },
            LoadType::AFromByteAddress(a) => {
                let address = self.byte_address(a);
                self.registers.a = self.bus.read_byte(address);
            },
            LoadType::ByteAddressFromA(a) => {
                let address = self.byte_address(a);
                self.bus.write_byte(address, self.registers.a);
            },
            LoadType::SPToAddress => {
                let address = self.read_imm16();
                self.bus.write_byte(address, (self.sp % 256) as u8);
                self.bus.write_byte(address.wrapping_add(1), (self.sp / 256) as u8);
            },
        }
    }

    /// Executes `instruction` and returns the next PC, which it does not store.
    pub fn execute(&mut self, instruction: Instruction) -> (next: u16)
        requires
            instruction.wf(),
        ensures
            final(self)@ == effect(old(self)@, instruction),
            next == next_pc(old(self)@, instruction),
    {
        let after = self.advance(instruction.length());
        match instruction {
            Instruction::JP(_) | Instruction::JPL | Instruction::JR(_) | Instruction::CALL(_)
            | Instruction::RET(_) | Instruction::RETI | Instruction::RST(_) | Instruction::PUSH(_)
            | Instruction::POP(_) => self.execute_control(instruction),
            Instruction::RLCA | Instruction::RRCA | Instruction::RLA | Instruction::RRA
            | Instruction::RLC(_) | Instruction::RRC(_) | Instruction::RL(_) | Instruction::RR(_)
            | Instruction::SLA(_) | Instruction::SRA(_) | Instruction::SWAP(_) | Instruction::SRL(_)
            | Instruction::BIT(_, _) | Instruction::RES(_, _) | Instruction::SET(_, _) => {
                self.execute_bits(instruction);
                after
            },
            Instruction::LD(load) => {
                self.execute_load(load);
                after
            },
            Instruction::HALT => {
                self.halted = true;
                after
            },
            Instruction::STOP => {
                self.stopped = true;
                after
            },
            Instruction::DI => {
                self.interrupts_enabled = false;
                after
            },
            Instruction::EI => {
                self.interrupts_enabled = true;
                after
            },
            Instruction::NOP => after,
            _ => {
                self.execute_arithmetic(instruction);
                after
            },
        }
    }

    /// One fetch-decode-execute cycle. An opcode that decodes to nothing is
    /// returned as an error and leaves the state unchanged.
    pub fn step(&mut self) -> (r: Result<(), CpuError>)
        ensures
            match step_outcome(old(self)@) {
                Ok(m) => r is Ok && final(self)@ == m,
                Err(e) => r == Err::<(), CpuError>(e) && final(self)@ == old(self)@,
            },
    {
        let mut instruction_byte = self.bus.read_byte(self.pc);
        let prefixed = instruction_byte == 0xCB;
        if prefixed {
            instruction_byte = self.bus.read_byte(self.pc.wrapping_add(1));
        }
        match Instruction::from_byte(instruction_byte, prefixed) {
            Some(instruction) => {
                let next_pc = self.execute(instruction);
                self.pc = next_pc;
                Ok(())
            },
            None => Err(CpuError::IllegalOpcode { byte: instruction_byte, prefixed }),
        }
    }
}

/// What one step does to `m`: the machine after the instruction at PC, or the
/// illegal opcode found there.
pub open spec fn step_outcome(m: Machine) -> Result<Machine, CpuError> {
    let (byte, prefixed) = fetched_opcode(m);
    match decode(byte, prefixed) {
        Some(i) => Ok(run(m, i)),
        None => Err(CpuError::IllegalOpcode { byte, prefixed }),
    }
}

} // verus!
