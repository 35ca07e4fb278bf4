use vstd::prelude::*;

verus! {

/// Size of the CPU's RAM: 2^16 bytes.
pub const CPU_MEMORY_SIZE: usize = 65536;

/// The CPU's own RAM, one byte per 16-bit address.
pub struct CpuMemory {
    ram: Vec<u8>,
}

impl View for CpuMemory {
    type V = Seq<u8>;

    closed spec fn view(&self) -> Seq<u8> {
        self.ram@
    }
}

impl CpuMemory {
    /// The RAM spans the whole 16-bit address space.
    pub open spec fn inv(&self) -> bool {
        self@.len() == CPU_MEMORY_SIZE
    }

    /// Creates a zeroed instance with the default NES memory size.
    pub fn new() -> (r: Self)
        ensures
            r.inv(),
            r@ == Seq::new(CPU_MEMORY_SIZE as nat, |i: int| 0u8),
    {
        let mut ram: Vec<u8> = Vec::new();
        let mut i: usize = 0;
        while i < CPU_MEMORY_SIZE
            invariant
                i <= CPU_MEMORY_SIZE,
                ram@ == Seq::new(i as nat, |j: int| 0u8),
            decreases CPU_MEMORY_SIZE - i,
        {
            ram.push(0);
            i = i + 1;
        }
        CpuMemory { ram }
    }

    /// Reads a byte from the given memory address.
    pub fn read(&self, address: u16) -> (r: u8)
        requires
            self.inv(),
        ensures
            r == self@[address as int],
    {
        self.ram[address as usize]
    }

    /// Writes a byte to the given memory address.
    pub fn write(&mut self, address: u16, value: u8)
        requires
            old(self).inv(),
        ensures
            final(self).inv(),
            final(self)@ == old(self)@.update(address as int, value),
    {
        self.ram.set(address as usize, value);
    }
}

/// A read gives back the last write to the same address, and a write leaves
/// every other address as it was.
pub proof fn lemma_read_after_write(m: Seq<u8>, address: u16, other: u16, value: u8)
    requires
        m.len() == CPU_MEMORY_SIZE,
    ensures
        m.update(address as int, value)[address as int] == value,
        other != address ==> m.update(address as int, value)[other as int] == m[other as int],
{
}

} // verus!
