//! The sixteen general-purpose registers and the two address registers.

use vstd::prelude::*;

use crate::memory::{Memory, TypeAddr, MEMORY_SIZE};

verus! {

/// The register that arithmetic, shift and draw instructions report their
/// flag in.
pub const FLAG_REGISTER: u8 = 0xF;

/// The registers `regs` after the registers 0 to `last` were loaded from
/// `bytes` at `addr`, register 0 first.
pub open spec fn loaded_registers(regs: Seq<u8>, bytes: Seq<u8>, addr: int, last: int) -> Seq<u8> {
    Seq::new(
        regs.len(),
        |r: int|
            if r <= last {
                bytes[addr + r]
            } else {
                regs[r]
            },
    )
}

/// Sixteen 8-bit registers, numbered 0 to 15.
pub struct Registers {
    registers: [u8; 16],
}

impl View for Registers {
    type V = Seq<u8>;

    /// The sixteen values, by register number.
    closed spec fn view(&self) -> Seq<u8> {
        self.registers@
    }
}

impl Registers {
    /// There are always sixteen registers.
    pub proof fn lemma_len(&self)
        ensures
            self@.len() == 16,
    {
    }

    pub fn new() -> (regs: Self)
        ensures
            regs@ == Seq::new(16, |i: int| 0u8),
    {
        Self { registers: [0;16] }
    }

    pub fn set_register(&mut self, reg_num: u8, value: u8)
        requires
            reg_num < 16,
        ensures
            final(self)@ == old(self)@.update(reg_num as int, value),
    {
        self.registers[reg_num as usize] = value;
    }

    /// Adds `value` to a register, modulo 256. No flag is touched.
    pub fn add_to_register(&mut self, reg_num: u8, value: u8)
        requires
            reg_num < 16,
        ensures
            final(self)@ == old(self)@.update(
                reg_num as int,
                ((old(self)@[reg_num as int] + value) % 256) as u8,
            ),
    {
        let total = self.registers[reg_num as usize].checked_add(value);
        if let Some(total) = total {
            self.registers[reg_num as usize] = total;
        } else {
            let wide: u16 = self.registers[reg_num as usize] as u16 + value as u16;
            self.registers[reg_num as usize] = (wide - 256) as u8;
        }
    }

    /// Loads the registers 0 to `last` from memory at the index register,
    /// register 0 first.
    pub fn load_registers(&mut self, mem: &Memory, last: u8)
        requires
            last < 16,
            mem.index.0 + last < MEMORY_SIZE,
        ensures
            final(self)@ == loaded_registers(old(self)@, mem@, mem.index.0 as int, last as int),
    {
        let mut reg: u8 = 0;
        while reg <= last
            invariant
                reg <= last + 1,
                last < 16,
                mem.index.0 + last < MEMORY_SIZE,
                self@ == loaded_registers(old(self)@, mem@, mem.index.0 as int, reg - 1),
            decreases last + 1 - reg,
        {
            let reg_val = mem.get(mem.index.0 + reg as u16);
            self.set_register(reg, reg_val);
            assert(self@ =~= loaded_registers(old(self)@, mem@, mem.index.0 as int, reg as int));
            reg += 1;
        }
    }

    pub fn get(&self, reg_num: u8) -> (value: u8)
        requires
            reg_num < 16,
        ensures
            value == self@[reg_num as int],
    {
        self.registers[reg_num as usize]
    }
}

/// The program counter: the current address and the address one past the
/// end of the loaded program.
#[derive(Debug)]
pub struct ProgramCounter(pub TypeAddr, pub TypeAddr);

impl ProgramCounter {
    /// Advances by one instruction, two bytes. The result tells whether the
    /// counter is still within the program: it is `false` once the counter
    /// has passed the end.
    pub fn increment(&mut self) -> (within: bool)
        requires
            old(self).0 + 2 <= u16::MAX,
        ensures
            final(self).0 == old(self).0 + 2,
            final(self).1 == old(self).1,
            within == (old(self).0 + 2 <= old(self).1),
    {
        self.0 += 2;
        self.0 <= self.1
    }

    /// Steps back by one instruction.
    pub fn decrement(&mut self)
        requires
            old(self).0 >= 2,
        ensures
            final(self).0 == old(self).0 - 2,
            final(self).1 == old(self).1,
    {
        self.0 -= 2;
    }

    /// Puts the end of the program `len` bytes after the current address.
    pub fn set_end(&mut self, len: usize)
        requires
            old(self).0 + len <= u16::MAX,
        ensures
            final(self).0 == old(self).0,
            final(self).1 == old(self).0 + len,
    {
        self.1 = self.0 + (len as u16);
    }

    pub fn set_addr(&mut self, addr: TypeAddr)
        ensures
            final(self).0 == addr,
            final(self).1 == old(self).1,
    {
        self.0 = addr;
    }
}

/// The index register, which memory-indexed instructions read their
/// address from.
pub struct IndexRegister(pub TypeAddr);

impl IndexRegister {
    pub fn set_addr(&mut self, addr: TypeAddr)
        ensures
            final(self).0 == addr,
    {
        self.0 = addr;
    }
}

} // verus!
