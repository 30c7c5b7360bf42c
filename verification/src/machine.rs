//! What the instructions do, stated on a mathematical model of the machine.

use vstd::prelude::*;

use crate::alu::{add_with_carry, shift_left, shift_right, subtract_with_borrow};
use crate::decode::{decode, OpCodes};
use crate::display::{any_on, changes, collides, painted};
use crate::keyboard::first_down;
use crate::memory::{stored_registers, with_decimal, word_at, TypeAddr, PROGRAM_START};
use crate::registers::loaded_registers;

verus! {

/// Why a program cannot go on. Each of these tells of a malformed program.
#[derive(Clone, Copy, Debug, PartialEq, Eq, Structural)]
pub enum Fault {
    /// A return without a call: the call stack was empty.
    StackUnderflow,
    /// An instruction reached beyond the end of memory through the index
    /// register.
    AddressOutOfRange,
    /// A register that should name a key held a number above 15.
    UnknownKey,
    /// A register that should name a hexadecimal digit held a number
    /// above 15.
    UnknownGlyph,
}

/// The machine as instructions see it.
#[verifier::ext_equal]
pub struct Machine {
    /// The sixteen registers.
    pub regs: Seq<u8>,
    /// The 4096 bytes of memory.
    pub bytes: Seq<u8>,
    /// The program counter.
    pub pc: TypeAddr,
    /// The address one past the end of the program.
    pub end: TypeAddr,
    /// The index register.
    pub index: TypeAddr,
    /// The return addresses, the oldest one first.
    pub stack: Seq<TypeAddr>,
    /// The count of the delay timer.
    pub delay: u8,
    /// The count of the sound timer.
    pub sound: u8,
    /// The 64 by 32 pixels, row by row.
    pub screen: Seq<bool>,
    /// Whether a pixel has changed since the screen was last shown.
    pub redraw: bool,
    /// For each key number 0 to 15, whether that key is down.
    pub keys: Seq<bool>,
    /// Whether adding to the index register reports in the flag register
    /// that the sum left the 12-bit address range.
    pub index_overflow_flag: bool,
}

/// What an instruction leaves behind: the machine after it, and whether the
/// program goes on (`Ok(true)`), has run to its end (`Ok(false)`) or is
/// broken.
pub type Outcome = (Machine, Result<bool, Fault>);

impl Machine {
    /// The model has sixteen registers, 4096 bytes, 2048 pixels and sixteen
    /// keys, and the program ends within memory.
    pub open spec fn wf(self) -> bool {
        &&& self.regs.len() == 16
        &&& self.bytes.len() == 4096
        &&& self.end <= 4096
        &&& self.screen.len() == 2048
        &&& self.keys.len() == 16
    }

    /// The machine with register `x` set to `value`.
    pub open spec fn with_register(self, x: u8, value: u8) -> Machine {
        Machine { regs: self.regs.update(x as int, value), ..self }
    }

    /// The machine with register `x` set to the value of `result` and then
    /// the flag register set to its flag. Where `x` is the flag register,
    /// the flag stays.
    pub open spec fn with_flagged(self, x: u8, result: (u8, u8)) -> Machine {
        Machine { regs: self.regs.update(x as int, result.0).update(0xF, result.1), ..self }
    }

    /// The machine with the program counter at `addr`.
    pub open spec fn at(self, addr: TypeAddr) -> Machine {
        Machine { pc: addr, ..self }
    }

    /// Skips the next instruction if `condition` holds. Where the skip
    /// would take the program counter past the end of the program, the
    /// counter stays and the program has run to its end.
    pub open spec fn skip_if(self, condition: bool) -> Outcome {
        if !condition {
            (self, Ok(true))
        } else if self.pc + 2 <= self.end {
            (self.at((self.pc + 2) as u16), Ok(true))
        } else {
            (self, Ok(false))
        }
    }

    /// Skips the next instruction if the key named by register `x` is down,
    /// where `down` is set, or up, where it is not.
    pub open spec fn skip_if_key(self, x: u8, down: bool) -> Outcome {
        let key = self.regs[x as int];
        if key > 0xF {
            (self, Err(Fault::UnknownKey))
        } else {
            self.skip_if(self.keys[key as int] == down)
        }
    }

    /// Draws the `height` bytes at the index register as a sprite at the
    /// coordinates in registers `x` and `y`, and sets the flag register to 1
    /// if a pixel went off, else to 0. The screen is to be shown again if
    /// a pixel changed.
    pub open spec fn draw(self, x: u8, y: u8, height: u8) -> Outcome {
        if self.index + height > 4096 {
            (self, Err(Fault::AddressOutOfRange))
        } else {
            let sprite = self.bytes.subrange(self.index as int, self.index + height);
            let (col, row) = (self.regs[x as int], self.regs[y as int]);
            let flag = if collides(self.screen, col, row, sprite) {
                1u8
            } else {
                0u8
            };
            (
                Machine {
                    screen: painted(self.screen, col, row, sprite),
                    redraw: self.redraw || changes(self.screen, col, row, sprite),
                    regs: self.regs.update(0xF, flag),
                    ..self
                },
                Ok(true),
            )
        }
    }

    /// Adds register `x` to the index register, modulo 65536. Where the
    /// machine is configured so, the flag register is set to 1 if the sum
    /// is beyond the 12-bit address range, else to 0.
    pub open spec fn add_to_index(self, x: u8) -> Machine {
        let sum = self.index + self.regs[x as int];
        let regs = if self.index_overflow_flag {
            self.regs.update(
                0xF,
                if sum > 0xFFF {
                    1u8
                } else {
                    0u8
                },
            )
        } else {
            self.regs
        };
        Machine { index: (sum % 0x1_0000) as u16, regs, ..self }
    }

    /// Stores the number of the lowest key that is down in register `x`.
    /// While no key is down, steps the program counter back instead, so
    /// that the same instruction runs again.
    pub open spec fn get_key(self, x: u8) -> Machine {
        match first_down(self.keys) {
            Some(key) => self.with_register(x, key),
            None => if self.pc >= 2 {
                self.at((self.pc - 2) as u16)
            } else {
                self
            },
        }
    }
}

/// Whether the machine `m` can execute `ins` at all: a return needs a call
/// to return from. A return on an empty call stack is fatal; a cycle
/// reports it as a fault and does not execute it.
pub open spec fn executable(m: Machine, ins: OpCodes) -> bool {
    ins is PopSubroutine ==> m.stack.len() > 0
}

/// What executing `ins` does to the machine `m`. `rnd` is the random number
/// that `Random` draws; no other instruction looks at it.
pub open spec fn execute(m: Machine, ins: OpCodes, rnd: u8) -> Outcome {
    match ins {
        OpCodes::ClearScreen => (
            Machine {
                screen: Seq::new(2048, |i: int| false),
                redraw: m.redraw || any_on(m.screen),
                ..m
            },
            Ok(true),
        ),
        OpCodes::Jump(addr) => (m.at(addr), Ok(true)),
        OpCodes::SetRegister(x, nn) => (m.with_register(x, nn), Ok(true)),
        OpCodes::AddToRegister(x, nn) => (
            m.with_register(x, add_with_carry(m.regs[x as int], nn).0),
            Ok(true),
        ),
        OpCodes::SetIndexRegister(addr) => (Machine { index: addr, ..m }, Ok(true)),
        OpCodes::Display(x, y, n) => m.draw(x, y, n),
        OpCodes::PushSubroutine(addr) => (
            Machine { stack: m.stack.push(m.pc), pc: addr, ..m },
            Ok(true),
        ),
        OpCodes::PopSubroutine => if m.stack.len() == 0 {
            (m, Err(Fault::StackUnderflow))
        } else {
            (Machine { stack: m.stack.drop_last(), pc: m.stack.last(), ..m }, Ok(true))
        },
        OpCodes::SkipEqualConstant(x, nn) => m.skip_if(m.regs[x as int] == nn),
        OpCodes::SkipNotEqualConstant(x, nn) => m.skip_if(m.regs[x as int] != nn),
        OpCodes::SkipEqualRegister(x, y) => m.skip_if(m.regs[x as int] == m.regs[y as int]),
        OpCodes::SkipNotEqualRegister(x, y) => m.skip_if(m.regs[x as int] != m.regs[y as int]),
        OpCodes::CopyRegister(x, y) => (m.with_register(x, m.regs[y as int]), Ok(true)),
        OpCodes::Or(x, y) => (m.with_register(x, m.regs[y as int] | m.regs[x as int]), Ok(true)),
        OpCodes::And(x, y) => (m.with_register(x, m.regs[y as int] & m.regs[x as int]), Ok(true)),
        OpCodes::XOr(x, y) => (m.with_register(x, m.regs[y as int] ^ m.regs[x as int]), Ok(true)),
        OpCodes::Add(x, y) => (
            m.with_flagged(x, add_with_carry(m.regs[x as int], m.regs[y as int])),
            Ok(true),
        ),
        OpCodes::SubtractForward(x, y) => (
            m.with_flagged(x, subtract_with_borrow(m.regs[x as int], m.regs[y as int])),
            Ok(true),
        ),
        OpCodes::SubtractBackward(x, y) => (
            m.with_flagged(x, subtract_with_borrow(m.regs[y as int], m.regs[x as int])),
            Ok(true),
        ),
        OpCodes::LeftShift(x, _) => (m.with_flagged(x, shift_left(m.regs[x as int])), Ok(true)),
        OpCodes::RightShift(x, _) => (m.with_flagged(x, shift_right(m.regs[x as int])), Ok(true)),
        OpCodes::JumpWithOffset(addr) => (m.at((addr + m.regs[0]) as u16), Ok(true)),
        OpCodes::Random(x, nn) => (m.with_register(x, nn & rnd), Ok(true)),
        OpCodes::SkipIfPressed(x) => m.skip_if_key(x, true),
        OpCodes::SkipIfNotPressed(x) => m.skip_if_key(x, false),
        OpCodes::CopyDelayToRegister(x) => (m.with_register(x, m.delay), Ok(true)),
        OpCodes::CopyRegisterToDelay(x) => (Machine { delay: m.regs[x as int], ..m }, Ok(true)),
        OpCodes::CopyRegisterToSound(x) => (Machine { sound: m.regs[x as int], ..m }, Ok(true)),
        OpCodes::AddToIndex(x) => (m.add_to_index(x), Ok(true)),
        OpCodes::GetKey(x) => (m.get_key(x), Ok(true)),
        OpCodes::PointChar(x) => if m.regs[x as int] > 0xF {
            (m, Err(Fault::UnknownGlyph))
        } else {
            (Machine { index: (0x50 + m.regs[x as int] * 5) as u16, ..m }, Ok(true))
        },
        OpCodes::ToDecimal(x) => if m.index + 2 >= 4096 {
            (m, Err(Fault::AddressOutOfRange))
        } else {
            (
                Machine { bytes: with_decimal(m.bytes, m.index as int, m.regs[x as int]), ..m },
                Ok(true),
            )
        },
        OpCodes::LoadRegisterFromMemory(x) => if m.index + x >= 4096 {
            (m, Err(Fault::AddressOutOfRange))
        } else {
            (
                Machine {
                    regs: loaded_registers(m.regs, m.bytes, m.index as int, x as int),
                    ..m
                },
                Ok(true),
            )
        },
        OpCodes::StoreRegisterToMemory(x) => if m.index + x >= 4096 {
            (m, Err(Fault::AddressOutOfRange))
        } else {
            (
                Machine {
                    bytes: stored_registers(m.bytes, m.regs, m.index as int, x as int),
                    ..m
                },
                Ok(true),
            )
        },
        OpCodes::Unimplemented => (m, Ok(true)),
    }
}

/// Whether `rnd` is a number that executing `ins` may draw: for `Random`
/// any number up to its mask, for every other instruction just 0.
pub open spec fn draws(ins: OpCodes, rnd: u8) -> bool {
    match ins {
        OpCodes::Random(_, nn) => rnd <= nn,
        _ => rnd == 0,
    }
}

/// The instruction at the program counter, with the machine after the
/// counter has moved past it. `None`, and the machine as it was, when that
/// would take the counter past the end of the program.
pub open spec fn fetch(m: Machine) -> (Machine, Option<OpCodes>) {
    if m.pc + 2 <= m.end {
        (m.at((m.pc + 2) as u16), Some(decode(word_at(m.bytes, m.pc as int) as u16)))
    } else {
        (m, None)
    }
}

/// One cycle: fetch, decode, execute. A program whose counter cannot move
/// on has run to its end.
pub open spec fn cycle(m: Machine, rnd: u8) -> Outcome {
    match fetch(m) {
        (fetched, Some(ins)) => execute(fetched, ins, rnd),
        (_, None) => (m, Ok(false)),
    }
}

/// Whether one cycle takes the machine `before` to the machine `after`
/// with the result `outcome`, for one of the random numbers that the
/// instruction fetched may draw.
pub open spec fn ran_cycle(before: Machine, after: Machine, outcome: Result<bool, Fault>) -> bool {
    exists|rnd: u8|
        (fetch(before).1 matches Some(ins) ==> draws(ins, rnd)) && (after, outcome)
            == #[trigger] cycle(before, rnd)
}

/// Only `Random` looks at the random number: every other instruction does
/// the same whatever the number is.
pub proof fn lemma_execute_ignores_random(m: Machine, ins: OpCodes, r1: u8, r2: u8)
    requires
        !(ins is Random),
    ensures
        execute(m, ins, r1) == execute(m, ins, r2),
{
}

/// An instruction that cannot be executed leaves the machine as it was.
pub proof fn lemma_fault_changes_nothing(m: Machine, ins: OpCodes, rnd: u8)
    requires
        execute(m, ins, rnd).1 is Err,
    ensures
        execute(m, ins, rnd).0 == m,
{
}

/// Executing a well-formed instruction on a well-formed machine gives a
/// well-formed machine, with the same end of the program and the same
/// configuration.
pub proof fn lemma_execute_keeps_wf(m: Machine, ins: OpCodes, rnd: u8)
    requires
        m.wf(),
        ins.well_formed(),
    ensures
        execute(m, ins, rnd).0.wf(),
        execute(m, ins, rnd).0.end == m.end,
        execute(m, ins, rnd).0.index_overflow_flag == m.index_overflow_flag,
{
}

/// Fetching keeps the program counter in step with the program: from an
/// even address at or above the load address it moves to an even address
/// at or above the load address, and where an instruction was fetched, it
/// was fetched from within the program and the counter is not past its end.
pub proof fn lemma_fetch_stays_in_program(m: Machine)
    requires
        m.pc % 2 == 0,
        m.pc >= PROGRAM_START,
    ensures
        fetch(m).0.pc % 2 == 0,
        fetch(m).0.pc >= PROGRAM_START,
        fetch(m).1 is Some ==> m.pc < m.end && fetch(m).0.pc <= m.end,
{
}

/// The program runs to its end exactly when the program counter would
/// advance beyond the end of the program, and not before. Where not even
/// the fetch can advance the counter, the cycle ends the program and
/// changes nothing. Where a cycle ends the program, the counter stands
/// where no further instruction can be passed. Where the counter can
/// advance twice, over the instruction and over one that is skipped, the
/// cycle does not end the program.
pub proof fn lemma_finishes_at_end(m: Machine, rnd: u8)
    ensures
        m.pc + 2 > m.end ==> cycle(m, rnd) == (m, Ok::<bool, Fault>(false)),
        cycle(m, rnd).1 == Ok::<bool, Fault>(false) ==> cycle(m, rnd).0.pc + 2 > m.end && cycle(
            m,
            rnd,
        ).0.end == m.end,
        m.pc + 4 <= m.end ==> cycle(m, rnd).1 != Ok::<bool, Fault>(false),
{
}

/// A program that has run to its end stays there: the next cycle ends it
/// again and changes nothing.
pub proof fn lemma_finished_stays_finished(m: Machine, r1: u8, r2: u8)
    requires
        cycle(m, r1).1 == Ok::<bool, Fault>(false),
    ensures
        cycle(cycle(m, r1).0, r2) == (cycle(m, r1).0, Ok::<bool, Fault>(false)),
{
    lemma_finishes_at_end(m, r1);
}

/// While no key is down, waiting for a key neither moves on nor changes
/// anything: after the cycle the machine is as it was, and the same
/// instruction is fetched again.
pub proof fn lemma_get_key_waits(m: Machine, rnd: u8)
    requires
        fetch(m).1 matches Some(ins) && ins is GetKey,
        first_down(m.keys) is None,
    ensures
        cycle(m, rnd) == (m, Ok::<bool, Fault>(true)),
{
    assert(cycle(m, rnd).0 =~= m);
}

/// Once a key is down, waiting for a key stores the number of the lowest
/// such key and moves on.
pub proof fn lemma_get_key_takes_key(m: Machine, x: u8, rnd: u8)
    requires
        fetch(m).1 == Some(OpCodes::GetKey(x)),
        first_down(m.keys) is Some,
    ensures
        cycle(m, rnd) == (
            fetch(m).0.with_register(x, first_down(m.keys)->Some_0),
            Ok::<bool, Fault>(true),
        ),
{
}

/// Where the destination of an arithmetic or shift instruction is the flag
/// register itself, the flag is what the register holds afterwards, and it
/// was computed from the operands as they were before.
pub proof fn lemma_flag_written_last(m: Machine, result: (u8, u8))
    requires
        m.regs.len() == 16,
    ensures
        m.with_flagged(0xF, result).regs[0xF] == result.1,
        forall|x: u8| x < 0xF ==> #[trigger] m.with_flagged(x, result).regs[x as int] == result.0,
{
}

} // verus!
