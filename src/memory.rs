use vstd::prelude::*;

verus! {

/// Number of addressable bytes: the whole 16-bit address space.
pub const MEMORY_SIZE: usize = 0x10000;

/// Flat memory over the whole 16-bit address space, so that every read and
/// write is defined.
pub struct MemoryBus {
    memory: Vec<u8>,
}

impl View for MemoryBus {
    type V = Seq<u8>;

    closed spec fn view(&self) -> Seq<u8> {
        self.memory@
    }
}

impl MemoryBus {
    #[verifier::type_invariant]
    closed spec fn inv(self) -> bool {
        self.memory.len() == MEMORY_SIZE
    }

    /// Memory with every byte zero.
    pub fn new() -> (r: MemoryBus)
        ensures
            r@ == Seq::new(MEMORY_SIZE as nat, |i: int| 0u8),
    {
        let memory = vec![0u8; MEMORY_SIZE];
        let r = MemoryBus { memory };
        assert(r@ =~= Seq::new(MEMORY_SIZE as nat, |i: int| 0u8));
        r
    }

    pub fn read_byte(&self, address: u16) -> (r: u8)
        ensures
            r == self@[address as int],
            self@.len() == MEMORY_SIZE,
    {
        proof {
            use_type_invariant(self);
        }
        self.memory[address as usize]
    }

    pub fn write_byte(&mut self, address: u16, value: u8)
        ensures
            final(self)@ == old(self)@.update(address as int, value),
            final(self)@.len() == MEMORY_SIZE,
    {
        proof {
            use_type_invariant(&*self);
        }
        self.memory[address as usize] = value;
    }
}

} // verus!
