//! The byte-addressable store with its program counter, index register,
//! call stack and font table.

use vstd::prelude::*;

use crate::registers::{IndexRegister, ProgramCounter, Registers};

verus! {

/// An address. Sixteen bits wide; the machine uses the low twelve.
pub type TypeAddr = u16;

/// The number of bytes in memory.
pub const MEMORY_SIZE: usize = 4096;

/// Where a program is loaded and where execution starts.
pub const PROGRAM_START: TypeAddr = 0x200;

/// Where the font table lies.
pub const FONT_START: TypeAddr = 0x50;

/// The number of bytes in the glyph of one hexadecimal digit.
pub const GLYPH_BYTES: TypeAddr = 5;

/// The glyphs of the hexadecimal digits 0 to F, five rows each.
pub const DEFAULT_FONT: [u8; 80] = [
    0xF0, 0x90, 0x90, 0x90, 0xF0,
    0x20, 0x60, 0x20, 0x20, 0x70,
    0xF0, 0x10, 0xF0, 0x80, 0xF0,
    0xF0, 0x10, 0xF0, 0x10, 0xF0,
    0x90, 0x90, 0xF0, 0x10, 0x10,
    0xF0, 0x80, 0xF0, 0x10, 0xF0,
    0xF0, 0x80, 0xF0, 0x90, 0xF0,
    0xF0, 0x10, 0x20, 0x40, 0x40,
    0xF0, 0x90, 0xF0, 0x90, 0xF0,
    0xF0, 0x90, 0xF0, 0x10, 0xF0,
    0xF0, 0x90, 0xF0, 0x90, 0x90,
    0xE0, 0x90, 0xE0, 0x90, 0xE0,
    0xF0, 0x80, 0x80, 0x80, 0xF0,
    0xE0, 0x90, 0x90, 0x90, 0xE0,
    0xF0, 0x80, 0xF0, 0x80, 0xF0,
    0xF0, 0x80, 0xF0, 0x80, 0x80,
];

/// Why a program could not be loaded.
#[derive(Clone, Copy, Debug, PartialEq, Eq, Structural)]
pub enum RomError {
    /// The program does not fit between the load address and the end of
    /// memory.
    TooLarge,
}

/// The contents of a memory that holds the font table and nothing else.
pub open spec fn initial_bytes() -> Seq<u8> {
    Seq::new(
        MEMORY_SIZE as nat,
        |i: int|
            if FONT_START <= i < FONT_START + 80 {
                DEFAULT_FONT@[i - FONT_START]
            } else {
                0u8
            },
    )
}

/// The contents of memory `bytes` after `rom` was written at the load
/// address.
pub open spec fn with_program(bytes: Seq<u8>, rom: Seq<u8>) -> Seq<u8> {
    Seq::new(
        bytes.len(),
        |i: int|
            if PROGRAM_START <= i < PROGRAM_START + rom.len() {
                rom[i - PROGRAM_START]
            } else {
                bytes[i]
            },
    )
}

/// Loading a program changes nothing below the load address: the font
/// table stays where it was.
pub proof fn lemma_program_leaves_font(bytes: Seq<u8>, rom: Seq<u8>)
    ensures
        with_program(bytes, rom).len() == bytes.len(),
        forall|i: int|
            0 <= i < PROGRAM_START && i < bytes.len() ==> with_program(bytes, rom)[i] == bytes[i],
        bytes == initial_bytes() ==> forall|i: int|
            0 <= i < 80 ==> with_program(bytes, rom)[FONT_START + i] == DEFAULT_FONT@[i],
{
}

/// The big-endian 16-bit word at `addr`.
pub open spec fn word_at(bytes: Seq<u8>, addr: int) -> int {
    bytes[addr] * 0x100 + bytes[addr + 1]
}

/// The contents of `bytes` after the three decimal digits of `value` were
/// written at `addr`, hundreds first.
pub open spec fn with_decimal(bytes: Seq<u8>, addr: int, value: u8) -> Seq<u8> {
    bytes.update(addr, (value / 100) as u8).update(addr + 1, ((value / 10) % 10) as u8).update(
        addr + 2,
        (value % 10) as u8,
    )
}

/// The contents of `bytes` after the registers 0 to `last` of `regs` were
/// stored at `addr`, register 0 first.
pub open spec fn stored_registers(bytes: Seq<u8>, regs: Seq<u8>, addr: int, last: int) -> Seq<u8> {
    Seq::new(
        bytes.len(),
        |i: int|
            if addr <= i <= addr + last {
                regs[i - addr]
            } else {
                bytes[i]
            },
    )
}

/// The call stack: return addresses, the latest one last.
pub struct Stack {
    addresses: Vec<TypeAddr>,
}

impl View for Stack {
    type V = Seq<TypeAddr>;

    /// The return addresses, the oldest one first.
    closed spec fn view(&self) -> Seq<TypeAddr> {
        self.addresses@
    }
}

impl Stack {
    pub fn new() -> (stack: Self)
        ensures
            stack@ == Seq::<TypeAddr>::empty(),
    {
        Self { addresses: vec![] }
    }

    pub fn push(&mut self, addr: TypeAddr)
        ensures
            final(self)@ == old(self)@.push(addr),
    {
        self.addresses.push(addr)
    }

    /// Whether no address is on the stack.
    pub fn is_empty(&self) -> (empty: bool)
        ensures
            empty == (self@.len() == 0),
    {
        self.addresses.len() == 0
    }

    /// Takes the latest address off the stack; `None` if there is none.
    pub fn pop(&mut self) -> (top: Option<TypeAddr>)
        ensures
            old(self)@.len() == 0 ==> top is None && final(self)@ == old(self)@,
            old(self)@.len() > 0 ==> top == Some(old(self)@.last()) && final(self)@ == old(
                self,
            )@.drop_last(),
    {
        self.addresses.pop()
    }
}

/// The memory of the machine.
pub struct Memory {
    pub bytes: [u8; 4096],
    pub pc: ProgramCounter,
    pub index: IndexRegister,
    pub stack: Stack,
}

impl View for Memory {
    type V = Seq<u8>;

    /// The 4096 bytes, by address.
    open spec fn view(&self) -> Seq<u8> {
        self.bytes@
    }
}

impl Memory {
    /// The end of the program lies within memory.
    pub open spec fn wf(&self) -> bool {
        self.pc.1 <= MEMORY_SIZE
    }

    /// Both memories have the same program counter, index register and
    /// call stack.
    pub open spec fn same_registers(&self, other: &Memory) -> bool {
        &&& self.pc == other.pc
        &&& self.index == other.index
        &&& self.stack == other.stack
    }

    /// A memory always has 4096 bytes.
    pub proof fn lemma_len(&self)
        ensures
            self@.len() == MEMORY_SIZE,
    {
    }

    /// A memory with the font table in place, no program, the program
    /// counter at the load address and an empty stack.
    pub fn new() -> (mem: Self)
        ensures
            mem.wf(),
            mem@ == initial_bytes(),
            mem.pc.0 == PROGRAM_START,
            mem.pc.1 == 0,
            mem.index.0 == 0,
            mem.stack@ == Seq::<TypeAddr>::empty(),
    {
        let mut bytes = [0u8;4096];
        let mut i: usize = 0;
        while i < 80
            invariant
                i <= 80,
                forall|k: int|
                    0 <= k < MEMORY_SIZE ==> bytes@[k] == if FONT_START <= k < FONT_START + i {
                        DEFAULT_FONT@[k - FONT_START]
                    } else {
                        0u8
                    },
            decreases 80 - i,
        {
            bytes[FONT_START as usize + i] = DEFAULT_FONT[i];
            i += 1;
        }
        assert(bytes@ =~= initial_bytes());
        Self {
            bytes,
            pc: ProgramCounter(PROGRAM_START, 0),
            index: IndexRegister(0x0),
            stack: Stack::new(),
        }
    }

    pub fn set(&mut self, addr: TypeAddr, val: u8)
        requires
            addr < MEMORY_SIZE,
        ensures
            final(self)@ == old(self)@.update(addr as int, val),
            final(self).same_registers(old(self)),
    {
        self.bytes[addr as usize] = val;
    }

    pub fn get(&self, addr: TypeAddr) -> (val: u8)
        requires
            addr < MEMORY_SIZE,
        ensures
            val == self@[addr as int],
    {
        self.bytes[addr as usize]
    }

    /// Advances the program counter by one instruction, unless that would
    /// take it past the end of the program. The result is `false` in that
    /// case: the program has run to its end.
    pub fn increment_pc(&mut self) -> (within: bool)
        requires
            old(self).wf(),
        ensures
            within == (old(self).pc.0 + 2 <= old(self).pc.1),
            final(self).pc.0 == if within {
                old(self).pc.0 + 2
            } else {
                old(self).pc.0 as int
            },
            final(self).pc.1 == old(self).pc.1,
            final(self).index == old(self).index,
            final(self).stack == old(self).stack,
            final(self)@ == old(self)@,
    {
        if self.pc.0 as usize + 2 <= self.pc.1 as usize {
            self.pc.increment()
        } else {
            false
        }
    }

    /// Steps the program counter back by one instruction, so that the
    /// instruction just fetched is fetched again. At the bottom of memory
    /// the counter stays.
    pub fn decrement_pc(&mut self)
        ensures
            final(self).pc.0 == if old(self).pc.0 >= 2 {
                old(self).pc.0 - 2
            } else {
                old(self).pc.0 as int
            },
            final(self).pc.1 == old(self).pc.1,
            final(self).index == old(self).index,
            final(self).stack == old(self).stack,
            final(self)@ == old(self)@,
    {
        if self.pc.0 < 2 {
            return ;
        }
        self.pc.decrement();
    }

    /// Fetches the instruction at the program counter and advances the
    /// counter past it. `None` when that would take the counter past the
    /// end of the program: nothing is fetched then, and the program has
    /// run to its end.
    pub fn next_instruction(&mut self) -> (word: Option<u16>)
        requires
            old(self).wf(),
        ensures
            old(self).pc.0 + 2 <= old(self).pc.1 ==> word == Some(
                word_at(old(self)@, old(self).pc.0 as int) as u16,
            ) && final(self).pc.0 == old(self).pc.0 + 2,
            old(self).pc.0 + 2 > old(self).pc.1 ==> word is None && final(self).pc.0 == old(
                self,
            ).pc.0,
            final(self).pc.1 == old(self).pc.1,
            final(self).index == old(self).index,
            final(self).stack == old(self).stack,
            final(self)@ == old(self)@,
    {
        if self.pc.0 as usize + 2 > self.pc.1 as usize {
            return None;
        }
        let l: u8 = self.bytes[self.pc.0 as usize];
        let r: u8 = self.bytes[self.pc.0 as usize + 1];
        self.pc.increment();
        assert(((l as u16) << 8) | (r as u16) == l * 0x100 + r) by (bit_vector);
        Some(((l as u16) << 8) | r as u16)
    }

    pub fn set_pc(&mut self, addr: TypeAddr)
        ensures
            final(self).pc.0 == addr,
            final(self).pc.1 == old(self).pc.1,
            final(self).index == old(self).index,
            final(self).stack == old(self).stack,
            final(self)@ == old(self)@,
    {
        self.pc.set_addr(addr);
    }

    pub fn set_index(&mut self, addr: TypeAddr)
        ensures
            final(self).index.0 == addr,
            final(self).pc == old(self).pc,
            final(self).stack == old(self).stack,
            final(self)@ == old(self)@,
    {
        self.index.set_addr(addr);
    }

    /// Loads a program at the load address and points the program counter
    /// at its first instruction. A program that does not fit in memory is
    /// refused, and nothing changes.
    pub fn load_rom(&mut self, bytes: &[u8]) -> (loaded: Result<(), RomError>)
        requires
            old(self).wf(),
        ensures
            final(self).wf(),
            bytes@.len() <= MEMORY_SIZE - PROGRAM_START ==> {
                &&& loaded is Ok
                &&& final(self)@ == with_program(old(self)@, bytes@)
                &&& final(self).pc.0 == PROGRAM_START
                &&& final(self).pc.1 == PROGRAM_START + bytes@.len()
            },
            bytes@.len() > MEMORY_SIZE - PROGRAM_START ==> {
                &&& loaded == Err::<(), RomError>(RomError::TooLarge)
                &&& final(self)@ == old(self)@
                &&& final(self).pc == old(self).pc
            },
            final(self).index == old(self).index,
            final(self).stack == old(self).stack,
    {
        let start_index: usize = PROGRAM_START as usize;
        if bytes.len() > MEMORY_SIZE - start_index {
            return Err(RomError::TooLarge);
        }
        let mut i: usize = 0;
        while i < bytes.len()
            invariant
                i <= bytes@.len() <= MEMORY_SIZE - PROGRAM_START,
                start_index == PROGRAM_START,
                self.pc == old(self).pc,
                self.index == old(self).index,
                self.stack == old(self).stack,
                forall|k: int|
                    0 <= k < MEMORY_SIZE ==> self@[k] == if PROGRAM_START <= k < PROGRAM_START + i {
                        bytes@[k - PROGRAM_START]
                    } else {
                        old(self)@[k]
                    },
            decreases bytes@.len() - i,
        {
            let ghost before = self@;
            self.bytes[start_index + i] = bytes[i];
            assert(self@ == before.update(PROGRAM_START + i, bytes@[i as int]));
            i += 1;
        }
        assert(self@ =~= with_program(old(self)@, bytes@));
        self.pc.set_addr(PROGRAM_START);
        self.pc.set_end(bytes.len());
        Ok(())
    }

    /// The `height` bytes at the index register, as the rows of a sprite.
    pub fn sprite(&self, height: u8) -> (rows: Vec<u8>)
        requires
            self.index.0 + height <= MEMORY_SIZE,
        ensures
            rows@ == self@.subrange(self.index.0 as int, self.index.0 + height),
    {
        let mut rows: Vec<u8> = vec![];
        let mut k: u8 = 0;
        while k < height
            invariant
                k <= height,
                self.index.0 + height <= MEMORY_SIZE,
                rows@ == self@.subrange(self.index.0 as int, self.index.0 + k),
            decreases height - k,
        {
            let row = self.get(self.index.0 + k as u16);  // 8 pixels wide because u8
            rows.push(row);
            k += 1;
            assert(rows@ =~= self@.subrange(self.index.0 as int, self.index.0 + k));
        }
        rows
    }

    /// Stores the registers 0 to `last` at the index register, register 0
    /// first.
    pub fn store_registers(&mut self, regs: &Registers, last: u8)
        requires
            last < 16,
            old(self).index.0 + last < MEMORY_SIZE,
        ensures
            final(self)@ == stored_registers(
                old(self)@,
                regs@,
                old(self).index.0 as int,
                last as int,
            ),
            final(self).same_registers(old(self)),
    {
        let mut reg: u8 = 0;
        while reg <= last
            invariant
                reg <= last + 1,
                last < 16,
                self.index.0 + last < MEMORY_SIZE,
                self.same_registers(old(self)),
                self@ == stored_registers(old(self)@, regs@, self.index.0 as int, reg - 1),
            decreases last + 1 - reg,
        {
            let reg_val = regs.get(reg);
            self.set(self.index.0 + reg as u16, reg_val);
            assert(self@ =~= stored_registers(
                old(self)@,
                regs@,
                self.index.0 as int,
                reg as int,
            ));
            reg += 1;
        }
    }

    /// The address of the glyph of a hexadecimal digit.
    pub fn point_char(digit: u8) -> (addr: TypeAddr)
        requires
            digit <= 0xF,
        ensures
            addr == FONT_START + digit * GLYPH_BYTES,
    {
        FONT_START + digit as u16 * GLYPH_BYTES
    }

    /// Writes the three decimal digits of `value`, hundreds first, to the
    /// three bytes at the index register.
    pub fn to_decimal(&mut self, value: u8)
        requires
            old(self).index.0 + 2 < MEMORY_SIZE,
        ensures
            final(self)@ == with_decimal(old(self)@, old(self).index.0 as int, value),
            final(self).same_registers(old(self)),
    {
        let addr: usize = self.index.0 as usize;
        self.bytes[addr] = value / 100;
        self.bytes[addr + 1] = (value / 10) % 10;
        self.bytes[addr + 2] = value % 10;
    }
}

} // verus!
