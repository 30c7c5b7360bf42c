//! The instruction decoder: from a raw 16-bit word to a typed opcode.
//!
//! A word is four nibbles. The most significant one selects the opcode
//! family; the others hold, by a fixed layout per family, a 12-bit address,
//! register numbers, an 8-bit constant or a 4-bit constant.

use vstd::prelude::*;

use crate::memory::TypeAddr;

verus! {

/// `value` without its `count` least significant nibbles.
pub open spec fn drop_nibbles(value: int, count: int) -> int {
    if count <= 0 {
        value
    } else if count == 1 {
        value / 0x10
    } else if count == 2 {
        value / 0x100
    } else if count == 3 {
        value / 0x1000
    } else {
        value / 0x1_0000
    }
}

/// The `count` least significant nibbles of `value`.
pub open spec fn low_nibbles(value: int, count: int) -> int {
    if count <= 0 {
        0
    } else if count == 1 {
        value % 0x10
    } else if count == 2 {
        value % 0x100
    } else if count == 3 {
        value % 0x1000
    } else {
        value % 0x1_0000
    }
}

/// The number held by `count` nibbles of `code`, the first of them being
/// nibble `start`. Nibbles are numbered from 1, the most significant one.
pub open spec fn field(code: u16, start: int, count: int) -> int {
    low_nibbles(drop_nibbles(code as int, 5 - start - count), count)
}

/// A raw instruction together with a cursor that walks over its nibbles.
pub struct RawInstruction {
    code: u16,
    i: u8,
}

impl RawInstruction {
    /// The 16-bit word.
    pub closed spec fn code(&self) -> u16 {
        self.code
    }

    /// The nibble that the next cursor read starts at.
    pub closed spec fn cursor(&self) -> int {
        self.i as int
    }

    #[verifier::type_invariant]
    spec fn cursor_in_word(&self) -> bool {
        1 <= self.i <= 5
    }

    pub fn new(code: u16) -> (raw: Self)
        ensures
            raw.code() == code,
            raw.cursor() == 1,
    {
        RawInstruction { code, i: 1 }
    }

    /// Reads `m` nibbles starting at nibble `n`, without moving the cursor.
    pub fn nth_m_digits(&self, n: u8, m: u8) -> (digits: u16)
        requires
            1 <= n,
            n + m <= 5,
        ensures
            digits == field(self.code(), n as int, m as int),
    {
        if m == 0 {
            return 0;
        }
        let shift_places: u16 = ((5 - n - m) * 4) as u16;
        let mask: u16 = if m == 1 {
            0xF
        } else if m == 2 {
            0xFF
        } else if m == 3 {
            0xFFF
        } else {
            0xFFFF
        };
        let code = self.code;
        assert({
            &&& (code & (0xFu16 << 12u16)) >> 12u16 == (code / 0x1000) % 0x10
            &&& (code & (0xFu16 << 8u16)) >> 8u16 == (code / 0x100) % 0x10
            &&& (code & (0xFu16 << 4u16)) >> 4u16 == (code / 0x10) % 0x10
            &&& (code & (0xFu16 << 0u16)) >> 0u16 == code % 0x10
            &&& (code & (0xFFu16 << 8u16)) >> 8u16 == (code / 0x100) % 0x100
            &&& (code & (0xFFu16 << 4u16)) >> 4u16 == (code / 0x10) % 0x100
            &&& (code & (0xFFu16 << 0u16)) >> 0u16 == code % 0x100
            &&& (code & (0xFFFu16 << 4u16)) >> 4u16 == (code / 0x10) % 0x1000
            &&& (code & (0xFFFu16 << 0u16)) >> 0u16 == code % 0x1000
            &&& (code & (0xFFFFu16 << 0u16)) >> 0u16 == code
        }) by (bit_vector);
        (code & (mask << shift_places)) >> shift_places
    }

    /// Reads the family nibble. The cursor must stand at the start.
    pub fn start_identifier(&mut self) -> (id: u8)
        requires
            old(self).cursor() == 1,
        ensures
            id == field(old(self).code(), 1, 1),
            final(self).code() == old(self).code(),
            final(self).cursor() == 2,
    {
        let id = self.nth_m_digits(self.i, 1);
        self.i += 1;
        id as u8
    }

    /// Reads one nibble as a register number and moves the cursor past it.
    pub fn next_register(&mut self) -> (reg: u8)
        requires
            old(self).cursor() <= 4,
        ensures
            reg == field(old(self).code(), old(self).cursor(), 1),
            reg < 16,
            final(self).code() == old(self).code(),
            final(self).cursor() == old(self).cursor() + 1,
    {
        proof {
            use_type_invariant(&*self);
        }
        let reg = self.nth_m_digits(self.i, 1);
        self.i += 1;
        reg as u8
    }

    /// Reads three nibbles as an address and moves the cursor past them.
    pub fn next_address(&mut self) -> (addr: TypeAddr)
        requires
            old(self).cursor() <= 2,
        ensures
            addr == field(old(self).code(), old(self).cursor(), 3),
            addr < 0x1000,
            final(self).code() == old(self).code(),
            final(self).cursor() == old(self).cursor() + 3,
    {
        proof {
            use_type_invariant(&*self);
        }
        let addr = self.nth_m_digits(self.i, 3);
        self.i += 3;
        addr
    }

    /// Reads two nibbles as an 8-bit constant and moves the cursor past them.
    pub fn next_u8(&mut self) -> (byte: u8)
        requires
            old(self).cursor() <= 3,
        ensures
            byte == field(old(self).code(), old(self).cursor(), 2),
            final(self).code() == old(self).code(),
            final(self).cursor() == old(self).cursor() + 2,
    {
        proof {
            use_type_invariant(&*self);
        }
        let byte = self.nth_m_digits(self.i, 2);
        self.i += 2;
        byte as u8
    }

    /// Reads one nibble as a 4-bit constant and moves the cursor past it.
    pub fn next_u4(&mut self) -> (nibble: u8)
        requires
            old(self).cursor() <= 4,
        ensures
            nibble == field(old(self).code(), old(self).cursor(), 1),
            nibble < 16,
            final(self).code() == old(self).code(),
            final(self).cursor() == old(self).cursor() + 1,
    {
        self.next_register()
    }
}

impl PartialEq<u16> for RawInstruction {
    /// A raw instruction equals a number when that number is its word.
    fn eq(&self, ins: &u16) -> (same: bool) {
        *ins == self.code
    }
}

impl vstd::std_specs::cmp::PartialEqSpecImpl<u16> for RawInstruction {
    open spec fn obeys_eq_spec() -> bool {
        true
    }

    open spec fn eq_spec(&self, ins: &u16) -> bool {
        self.code() == *ins
    }
}

/// One decoded instruction with its operands. `X` and `Y` in the layouts
/// below are register numbers, `NNN` an address, `NN` an 8-bit constant and
/// `N` a 4-bit constant.
#[derive(Clone, Copy, Debug, PartialEq, Eq, Structural)]
pub enum OpCodes {
    /// `00E0`: turn every pixel off.
    ClearScreen,
    /// `1NNN`: continue at address `NNN`.
    Jump(TypeAddr),
    /// `6XNN`: set register `X` to `NN`.
    SetRegister(u8, u8),
    /// `7XNN`: add `NN` to register `X`, without touching the flag.
    AddToRegister(u8, u8),
    /// `ANNN`: set the index register to `NNN`.
    SetIndexRegister(TypeAddr),
    /// `DXYN`: draw the `N` rows at the index register as a sprite at the
    /// coordinates held by registers `X` and `Y`.
    Display(u8, u8, u8),
    /// `2NNN`: call the subroutine at `NNN`.
    PushSubroutine(TypeAddr),
    /// `00EE`: return from a subroutine.
    PopSubroutine,
    /// `3XNN`: skip the next instruction if register `X` equals `NN`.
    SkipEqualConstant(u8, u8),
    /// `4XNN`: skip the next instruction if register `X` differs from `NN`.
    SkipNotEqualConstant(u8, u8),
    /// `5XY0`: skip the next instruction if registers `X` and `Y` are equal.
    SkipEqualRegister(u8, u8),
    /// `9XY0`: skip the next instruction if registers `X` and `Y` differ.
    SkipNotEqualRegister(u8, u8),
    /// `8XY0`: copy register `Y` to register `X`.
    CopyRegister(u8, u8),
    /// `8XY1`: bitwise or of registers `X` and `Y`, into `X`.
    Or(u8, u8),
    /// `8XY2`: bitwise and of registers `X` and `Y`, into `X`.
    And(u8, u8),
    /// `8XY3`: bitwise exclusive or of registers `X` and `Y`, into `X`.
    XOr(u8, u8),
    /// `8XY4`: add register `Y` to register `X`; the flag tells of a carry.
    Add(u8, u8),
    /// `8XY5`: register `X` minus register `Y`, into `X`; the flag is 1
    /// when nothing was borrowed.
    SubtractForward(u8, u8),
    /// `8XY7`: register `Y` minus register `X`, into `X`; the flag is 1
    /// when nothing was borrowed.
    SubtractBackward(u8, u8),
    /// `8XYE`: shift register `X` left by one; the flag gets the bit
    /// shifted out.
    LeftShift(u8, u8),
    /// `8XY6`: shift register `X` right by one; the flag gets the bit
    /// shifted out.
    RightShift(u8, u8),
    /// `BNNN`: continue at `NNN` plus register 0. The offset is always that
    /// of register 0, whatever the first nibble of `NNN` is.
    JumpWithOffset(TypeAddr),
    /// `CXNN`: set register `X` to a random number masked by `NN`.
    Random(u8, u8),
    /// `EX9E`: skip the next instruction if the key named by register `X`
    /// is down.
    SkipIfPressed(u8),
    /// `EXA1`: skip the next instruction if the key named by register `X`
    /// is up.
    SkipIfNotPressed(u8),
    /// `FX07`: copy the delay timer to register `X`.
    CopyDelayToRegister(u8),
    /// `FX15`: copy register `X` to the delay timer.
    CopyRegisterToDelay(u8),
    /// `FX18`: copy register `X` to the sound timer.
    CopyRegisterToSound(u8),
    /// `FX1E`: add register `X` to the index register.
    AddToIndex(u8),
    /// `FX0A`: wait for a key and store its number in register `X`.
    GetKey(u8),
    /// `FX29`: point the index register at the glyph of the hexadecimal
    /// digit in register `X`.
    PointChar(u8),
    /// `FX33`: write the three decimal digits of register `X` at the index
    /// register.
    ToDecimal(u8),
    /// `FX65`: load registers 0 to `X` from memory at the index register.
    LoadRegisterFromMemory(u8),
    /// `FX55`: store registers 0 to `X` to memory at the index register.
    StoreRegisterToMemory(u8),
    /// Any word the instruction set gives no meaning to. Executing it does
    /// nothing.
    Unimplemented,
}

/// The opcode of a register-to-register operation, family 8, chosen by the
/// last nibble.
pub open spec fn decode_alu(x: u8, y: u8, kind: u8) -> OpCodes {
    if kind == 0x0 {
        OpCodes::CopyRegister(x, y)
    } else if kind == 0x1 {
        OpCodes::Or(x, y)
    } else if kind == 0x2 {
        OpCodes::And(x, y)
    } else if kind == 0x3 {
        OpCodes::XOr(x, y)
    } else if kind == 0x4 {
        OpCodes::Add(x, y)
    } else if kind == 0x5 {
        OpCodes::SubtractForward(x, y)
    } else if kind == 0x6 {
        OpCodes::RightShift(x, y)
    } else if kind == 0x7 {
        OpCodes::SubtractBackward(x, y)
    } else if kind == 0xE {
        OpCodes::LeftShift(x, y)
    } else {
        OpCodes::Unimplemented
    }
}

/// The opcode of a keypad skip, family E, chosen by the low byte.
pub open spec fn decode_key(x: u8, kind: u8) -> OpCodes {
    if kind == 0x9E {
        OpCodes::SkipIfPressed(x)
    } else if kind == 0xA1 {
        OpCodes::SkipIfNotPressed(x)
    } else {
        OpCodes::Unimplemented
    }
}

/// The opcode of a timer, index or memory transfer, family F, chosen by the
/// low byte.
pub open spec fn decode_misc(x: u8, kind: u8) -> OpCodes {
    if kind == 0x07 {
        OpCodes::CopyDelayToRegister(x)
    } else if kind == 0x0A {
        OpCodes::GetKey(x)
    } else if kind == 0x15 {
        OpCodes::CopyRegisterToDelay(x)
    } else if kind == 0x18 {
        OpCodes::CopyRegisterToSound(x)
    } else if kind == 0x1E {
        OpCodes::AddToIndex(x)
    } else if kind == 0x29 {
        OpCodes::PointChar(x)
    } else if kind == 0x33 {
        OpCodes::ToDecimal(x)
    } else if kind == 0x55 {
        OpCodes::StoreRegisterToMemory(x)
    } else if kind == 0x65 {
        OpCodes::LoadRegisterFromMemory(x)
    } else {
        OpCodes::Unimplemented
    }
}

/// What a 16-bit word means. The first nibble selects the family; the
/// operands are read from fixed positions: `X` is the second nibble, `Y` the
/// third, `N` the fourth, `NN` the low byte and `NNN` the low twelve bits.
/// A word that fits no layout of the instruction set is `Unimplemented`.
pub open spec fn decode(ins: u16) -> OpCodes {
    let family = field(ins, 1, 1);
    let x = field(ins, 2, 1) as u8;
    let y = field(ins, 3, 1) as u8;
    let n = field(ins, 4, 1) as u8;
    let nn = field(ins, 3, 2) as u8;
    let nnn = field(ins, 2, 3) as u16;
    if family == 0x0 {
        if ins == 0x00E0 {
            OpCodes::ClearScreen
        } else if ins == 0x00EE {
            OpCodes::PopSubroutine
        } else {
            OpCodes::Unimplemented
        }
    } else if family == 0x1 {
        OpCodes::Jump(nnn)
    } else if family == 0x2 {
        OpCodes::PushSubroutine(nnn)
    } else if family == 0x3 {
        OpCodes::SkipEqualConstant(x, nn)
    } else if family == 0x4 {
        OpCodes::SkipNotEqualConstant(x, nn)
    } else if family == 0x5 {
        if n == 0 {
            OpCodes::SkipEqualRegister(x, y)
        } else {
            OpCodes::Unimplemented
        }
    } else if family == 0x6 {
        OpCodes::SetRegister(x, nn)
    } else if family == 0x7 {
        OpCodes::AddToRegister(x, nn)
    } else if family == 0x8 {
        decode_alu(x, y, n)
    } else if family == 0x9 {
        if n == 0 {
            OpCodes::SkipNotEqualRegister(x, y)
        } else {
            OpCodes::Unimplemented
        }
    } else if family == 0xA {
        OpCodes::SetIndexRegister(nnn)
    } else if family == 0xB {
        OpCodes::JumpWithOffset(nnn)
    } else if family == 0xC {
        OpCodes::Random(x, nn)
    } else if family == 0xD {
        OpCodes::Display(x, y, n)
    } else if family == 0xE {
        decode_key(x, nn)
    } else {
        decode_misc(x, nn)
    }
}

impl OpCodes {
    /// Every register operand names one of the sixteen registers, every
    /// 4-bit constant fits in four bits and every address in twelve.
    pub open spec fn well_formed(&self) -> bool {
        match *self {
            OpCodes::ClearScreen | OpCodes::PopSubroutine | OpCodes::Unimplemented => true,
            OpCodes::Jump(addr)
            | OpCodes::SetIndexRegister(addr)
            | OpCodes::PushSubroutine(addr)
            | OpCodes::JumpWithOffset(addr) => addr < 0x1000,
            OpCodes::SetRegister(x, _)
            | OpCodes::AddToRegister(x, _)
            | OpCodes::SkipEqualConstant(x, _)
            | OpCodes::SkipNotEqualConstant(x, _)
            | OpCodes::Random(x, _) => x < 16,
            OpCodes::Display(x, y, n) => x < 16 && y < 16 && n < 16,
            OpCodes::SkipEqualRegister(x, y)
            | OpCodes::SkipNotEqualRegister(x, y)
            | OpCodes::CopyRegister(x, y)
            | OpCodes::Or(x, y)
            | OpCodes::And(x, y)
            | OpCodes::XOr(x, y)
            | OpCodes::Add(x, y)
            | OpCodes::SubtractForward(x, y)
            | OpCodes::SubtractBackward(x, y)
            | OpCodes::LeftShift(x, y)
            | OpCodes::RightShift(x, y) => x < 16 && y < 16,
            OpCodes::SkipIfPressed(x)
            | OpCodes::SkipIfNotPressed(x)
            | OpCodes::CopyDelayToRegister(x)
            | OpCodes::CopyRegisterToDelay(x)
            | OpCodes::CopyRegisterToSound(x)
            | OpCodes::AddToIndex(x)
            | OpCodes::GetKey(x)
            | OpCodes::PointChar(x)
            | OpCodes::ToDecimal(x)
            | OpCodes::LoadRegisterFromMemory(x)
            | OpCodes::StoreRegisterToMemory(x) => x < 16,
        }
    }

    /// Whether the instruction changes where the program continues: a
    /// jump, a call, a return or a skip on registers.
    pub open spec fn is_flow(&self) -> bool {
        *self is Jump || *self is PushSubroutine || *self is PopSubroutine
            || *self is JumpWithOffset || *self is SkipEqualConstant
            || *self is SkipNotEqualConstant || *self is SkipEqualRegister
            || *self is SkipNotEqualRegister
    }

    /// Whether the instruction computes on registers alone.
    pub open spec fn is_alu(&self) -> bool {
        *self is SetRegister || *self is AddToRegister || *self is CopyRegister || *self is Or
            || *self is And || *self is XOr || *self is Add || *self is SubtractForward
            || *self is SubtractBackward || *self is LeftShift || *self is RightShift
            || *self is Random
    }

    /// Whether the instruction draws.
    pub open spec fn is_draw(&self) -> bool {
        *self is ClearScreen || *self is Display
    }

    /// Whether the instruction reads the keypad or works with a timer.
    pub open spec fn is_io(&self) -> bool {
        *self is SkipIfPressed || *self is SkipIfNotPressed || *self is GetKey
            || *self is CopyDelayToRegister || *self is CopyRegisterToDelay
            || *self is CopyRegisterToSound
    }

    /// Whether the instruction works with the index register.
    pub open spec fn is_indexed(&self) -> bool {
        *self is SetIndexRegister || *self is AddToIndex || *self is PointChar
            || *self is ToDecimal || *self is LoadRegisterFromMemory
            || *self is StoreRegisterToMemory
    }

    /// Decodes one instruction. Every word decodes: one without a meaning
    /// gives `Unimplemented`.
    pub fn decode_raw(ins: u16) -> (op: Self)
        ensures
            op == decode(ins),
            op.well_formed(),
    {
        let raw = RawInstruction::new(ins);
        let family = raw.nth_m_digits(1, 1);
        let x = raw.nth_m_digits(2, 1) as u8;
        let y = raw.nth_m_digits(3, 1) as u8;
        let n = raw.nth_m_digits(4, 1) as u8;
        let nn = raw.nth_m_digits(3, 2) as u8;
        let nnn = raw.nth_m_digits(2, 3);
        match family {
            0x0 => match ins {
                0x00E0 => Self::ClearScreen,
                0x00EE => Self::PopSubroutine,
                _ => Self::Unimplemented,
            },
            0x1 => Self::Jump(nnn),
            0x2 => Self::PushSubroutine(nnn),
            0x3 => Self::SkipEqualConstant(x, nn),
            0x4 => Self::SkipNotEqualConstant(x, nn),
            0x5 => match n {
                0x0 => Self::SkipEqualRegister(x, y),
                _ => Self::Unimplemented,
            },
            0x6 => Self::SetRegister(x, nn),
            0x7 => Self::AddToRegister(x, nn),
            0x8 => match n {
                0x0 => Self::CopyRegister(x, y),
                0x1 => Self::Or(x, y),
                0x2 => Self::And(x, y),
                0x3 => Self::XOr(x, y),
                0x4 => Self::Add(x, y),
                0x5 => Self::SubtractForward(x, y),
                0x6 => Self::RightShift(x, y),
                0x7 => Self::SubtractBackward(x, y),
                0xE => Self::LeftShift(x, y),
                _ => Self::Unimplemented,
            },
            0x9 => match n {
                0x0 => Self::SkipNotEqualRegister(x, y),
                _ => Self::Unimplemented,
            },
            0xA => Self::SetIndexRegister(nnn),
            0xB => Self::JumpWithOffset(nnn),
            0xC => Self::Random(x, nn),
            0xD => Self::Display(x, y, n),
            0xE => match nn {
                0x9E => Self::SkipIfPressed(x),
                0xA1 => Self::SkipIfNotPressed(x),
                _ => Self::Unimplemented,
            },
            0xF => match nn {
                0x07 => Self::CopyDelayToRegister(x),
                0x0A => Self::GetKey(x),
                0x15 => Self::CopyRegisterToDelay(x),
                0x18 => Self::CopyRegisterToSound(x),
                0x1E => Self::AddToIndex(x),
                0x29 => Self::PointChar(x),
                0x33 => Self::ToDecimal(x),
                0x55 => Self::StoreRegisterToMemory(x),
                0x65 => Self::LoadRegisterFromMemory(x),
                _ => Self::Unimplemented,
            },
            _ => Self::Unimplemented,
        }
    }
}

/// Whatever the word, the operands of its opcode are in range: register
/// numbers and 4-bit constants below 16, addresses below 4096.
pub proof fn lemma_decode_well_formed(ins: u16)
    ensures
        decode(ins).well_formed(),
{
}

} // verus!
