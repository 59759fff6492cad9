//! Instruction-set interpreter for an LR35902-family 8-bit CPU: register file,
//! flag register, opcode decoding and bit-exact instruction semantics.
pub mod alu;
pub mod cpu;
pub mod instructions;
pub mod machine;
pub mod memory;
pub mod registers;

pub use registers::{FlagRegister, Registers};
pub use cpu::{CpuError, CPU};
pub use instructions::{
    ArithmeticTarget, ArithmeticTargetLong, ByteAddress, IncDecTarget, Indirect, Instruction,
    JumpType, LoadByteSource, LoadByteTarget, LoadType, LoadWordSource, LoadWordTarget,
    RegisterTarget, StackRegisters,
};
pub use memory::MemoryBus;
