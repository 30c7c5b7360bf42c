//! The machine itself: it fetches, decodes and executes instructions and
//! paces the instructions, the timers and the screen.

use rand::Rng;
use std::time::Instant;
use vstd::prelude::*;

use crate::alu;
use crate::clock::{due_after, is_due};
use crate::decode::OpCodes;
use crate::display::FrameBuffer;
use crate::machine::{cycle, draws, executable, execute, fetch, ran_cycle, Fault, Machine};
use crate::memory::{initial_bytes, with_program, Memory, RomError, PROGRAM_START};
use crate::registers::{Registers, FLAG_REGISTER};
use crate::timer::Timer;

verus! {

/// How many instructions are executed per second, unless the machine is
/// told otherwise.
pub const INS_PER_SECOND: u64 = 3000;

/// How many times per second the screen is shown.
pub const FPS: u64 = 60;

/// `rand::thread_rng` and, on the generator it gives, `rand::Rng::gen_range`
/// with the range `0..=max`: a number drawn at random. Whichever number is
/// drawn, it is at most `max`. The call fails only where the operating
/// system has no random numbers to seed the generator with.
#[verifier::external_body]
fn random_up_to(max: u8) -> (rnd: u8)
    ensures
        rnd <= max,
{
    rand::thread_rng().gen_range(0..=max)
}

/// The machine: its state, and for each paced activity the time it last
/// ran.
pub struct Emulator {
    pub fb: FrameBuffer,
    pub regs: Registers,
    pub mem: Memory,
    pub delay_timer: Timer,
    pub sound_timer: Timer,
    pub last_delay: Instant,
    pub last_sound: Instant,
    pub last_ins: Instant,
    pub last_fb: Instant,
    /// How many instructions are executed per second.
    pub ins_per_second: u64,
    /// Whether adding to the index register reports in the flag register
    /// that the sum left the 12-bit address range.
    pub index_overflow_flag: bool,
}

impl View for Emulator {
    type V = Machine;

    open spec fn view(&self) -> Machine {
        Machine {
            regs: self.regs@,
            bytes: self.mem@,
            pc: self.mem.pc.0,
            end: self.mem.pc.1,
            index: self.mem.index.0,
            stack: self.mem.stack@,
            delay: self.delay_timer.count,
            sound: self.sound_timer.count,
            screen: self.fb@,
            redraw: self.fb.should_update,
            keys: self.fb.keyboard@,
            index_overflow_flag: self.index_overflow_flag,
        }
    }
}

impl Emulator {
    /// The frame buffer and the memory are well formed.
    pub open spec fn wf(&self) -> bool {
        &&& self.fb.wf()
        &&& self.mem.wf()
    }

    /// Both machines have the same pacing: the same instruction rate, and
    /// each activity last ran at the same time.
    pub open spec fn same_pacing(&self, other: &Emulator) -> bool {
        &&& self.last_delay == other.last_delay
        &&& self.last_sound == other.last_sound
        &&& self.last_ins == other.last_ins
        &&& self.last_fb == other.last_fb
        &&& self.ins_per_second == other.ins_per_second
    }

    /// The model of a well-formed machine is well formed.
    pub proof fn lemma_view_wf(&self)
        requires
            self.wf(),
        ensures
            self@.wf(),
    {
        self.regs.lemma_len();
        self.mem.lemma_len();
        self.fb.keyboard.lemma_len();
    }

    /// A machine with the program `rom` loaded and everything else at
    /// rest. A program that does not fit in memory is refused.
    pub fn init(rom: &[u8]) -> (emu: Result<Self, RomError>)
        ensures
            rom@.len() > 4096 - PROGRAM_START ==> emu == Err::<Self, RomError>(RomError::TooLarge),
            rom@.len() <= 4096 - PROGRAM_START ==> emu is Ok && {
                let emu = emu->Ok_0;
                &&& emu.wf()
                &&& emu.ins_per_second == INS_PER_SECOND
                &&& emu@ == Machine {
                    regs: Seq::new(16, |i: int| 0u8),
                    bytes: with_program(initial_bytes(), rom@),
                    pc: PROGRAM_START,
                    end: (PROGRAM_START + rom@.len()) as u16,
                    index: 0,
                    stack: Seq::empty(),
                    delay: 0,
                    sound: 0,
                    screen: Seq::new(2048, |i: int| false),
                    redraw: false,
                    keys: Seq::new(16, |n: int| false),
                    index_overflow_flag: false,
                }
            },
    {
        let regs = Registers::new();
        let mut mem = Memory::new();

        match mem.load_rom(rom) {
            Err(e) => {
                return Err(e);
            },
            Ok(()) => {},
        }

        let fb = FrameBuffer::new();

        let delay_timer = Timer::new(0);
        let sound_timer = Timer::new(0);

        let last_delay = Instant::now();
        let last_sound = Instant::now();
        let last_ins = Instant::now();
        let last_fb = Instant::now();

        Ok(
            Self {
                regs,
                mem,
                fb,
                delay_timer,
                sound_timer,
                last_delay,
                last_sound,
                last_ins,
                last_fb,
                ins_per_second: INS_PER_SECOND,
                index_overflow_flag: false,
            },
        )
    }

    /// Whether the machine is to go on: it is while its window is open and
    /// the escape key is up.
    pub fn is_running(&self, window_open: bool, escape_pressed: bool) -> (running: bool)
        ensures
            running == (window_open && !escape_pressed),
    {
        window_open && !escape_pressed
    }

    /// Fetches the instruction at the program counter and decodes it.
    /// `None` when the program has run to its end.
    pub fn fetch_decode(&mut self) -> (ins: Option<OpCodes>)
        requires
            old(self).wf(),
        ensures
            final(self).wf(),
            final(self).same_pacing(old(self)),
            (final(self)@, ins) == fetch(old(self)@),
            ins matches Some(op) ==> op.well_formed(),
    {
        let word = self.mem.next_instruction();
        let ins = match word {
            Some(word) => Some(OpCodes::decode_raw(word)),
            None => None,
        };
        assert(self@ =~= fetch(old(self)@).0);
        ins
    }

    /// Advances the program counter past the next instruction if
    /// `condition` holds. `false` if that would take the counter past the
    /// end of the program.
    fn skip_if(&mut self, condition: bool) -> (running: bool)
        requires
            old(self).wf(),
        ensures
            final(self).wf(),
            final(self).same_pacing(old(self)),
            (final(self)@, Ok::<bool, Fault>(running)) == old(self)@.skip_if(condition),
    {
        let running = if condition {
            self.mem.increment_pc()
        } else {
            true
        };
        assert(self@ =~= old(self)@.skip_if(condition).0);
        running
    }

    /// The instructions that change where the program continues.
    fn execute_flow(&mut self, ins: OpCodes) -> (outcome: Result<bool, Fault>)
        requires
            old(self).wf(),
            ins.well_formed(),
            ins.is_flow(),
            executable(old(self)@, ins),
        ensures
            final(self).wf(),
            final(self).same_pacing(old(self)),
            forall|rnd: u8| (final(self)@, outcome) == #[trigger] execute(old(self)@, ins, rnd),
    {
        proof {
            self.lemma_view_wf();
        }
        let outcome = match ins {
            OpCodes::Jump(addr) => {
                self.mem.set_pc(addr);
                Ok(true)
            },
            OpCodes::PushSubroutine(addr) => {
                self.mem.stack.push(self.mem.pc.0);  // store current instruction to return back
                self.mem.set_pc(addr);
                Ok(true)
            },
            OpCodes::PopSubroutine => {
                match self.mem.stack.pop() {
                    Some(addr) => {
                        self.mem.set_pc(addr);
                        Ok(true)
                    },
                    None => unreached(),
                }
            },
            OpCodes::JumpWithOffset(addr) => {
                let offset = self.regs.get(0);
                self.mem.set_pc(addr + offset as u16);
                Ok(true)
            },
            OpCodes::SkipEqualConstant(vx, nn) => {
                let x = self.regs.get(vx);
                Ok(self.skip_if(x == nn))
            },
            OpCodes::SkipNotEqualConstant(vx, nn) => {
                let x = self.regs.get(vx);
                Ok(self.skip_if(x != nn))
            },
            OpCodes::SkipEqualRegister(vx, vy) => {
                let (x, y) = (self.regs.get(vx), self.regs.get(vy));
                Ok(self.skip_if(x == y))
            },
            OpCodes::SkipNotEqualRegister(vx, vy) => {
                let (x, y) = (self.regs.get(vx), self.regs.get(vy));
                Ok(self.skip_if(x != y))
            },
            _ => unreached(),
        };
        assert(self@ =~= execute(old(self)@, ins, 0).0);
        outcome
    }

    /// Sets register `vx` to a result and then the flag register to the
    /// flag that came with it.
    fn set_flagged(&mut self, vx: u8, result: (u8, u8))
        requires
            old(self).wf(),
            vx < 16,
        ensures
            final(self).wf(),
            final(self).same_pacing(old(self)),
            final(self)@ == old(self)@.with_flagged(vx, result),
    {
        self.regs.set_register(vx, result.0);
        self.regs.set_register(FLAG_REGISTER, result.1);
    }

    /// The instructions that compute on registers alone.
    fn execute_alu(&mut self, ins: OpCodes, rnd: u8)
        requires
            old(self).wf(),
            ins.well_formed(),
            ins.is_alu(),
        ensures
            final(self).wf(),
            final(self).same_pacing(old(self)),
            (final(self)@, Ok::<bool, Fault>(true)) == execute(old(self)@, ins, rnd),
    {
        proof {
            self.lemma_view_wf();
        }
        match ins {
            OpCodes::SetRegister(vx, nn) => {
                self.regs.set_register(vx, nn);
            },
            OpCodes::AddToRegister(vx, nn) => {
                self.regs.add_to_register(vx, nn);
            },
            OpCodes::CopyRegister(vx, vy) => {
                let y = self.regs.get(vy);
                self.regs.set_register(vx, y);
            },
            OpCodes::Or(vx, vy) => {
                let (x, y) = (self.regs.get(vx), self.regs.get(vy));
                self.regs.set_register(vx, y | x);
            },
            OpCodes::And(vx, vy) => {
                let (x, y) = (self.regs.get(vx), self.regs.get(vy));
                self.regs.set_register(vx, y & x);
            },
            OpCodes::XOr(vx, vy) => {
                let (x, y) = (self.regs.get(vx), self.regs.get(vy));
                self.regs.set_register(vx, y ^ x);
            },
            OpCodes::Add(vx, vy) => {
                let (x, y) = (self.regs.get(vx), self.regs.get(vy));
                self.set_flagged(vx, alu::sum(x, y));
            },
            OpCodes::SubtractForward(vx, vy) => {
                let (x, y) = (self.regs.get(vx), self.regs.get(vy));
                self.set_flagged(vx, alu::difference(x, y));
            },
            OpCodes::SubtractBackward(vx, vy) => {
                let (x, y) = (self.regs.get(vx), self.regs.get(vy));
                self.set_flagged(vx, alu::difference(y, x));
            },
            OpCodes::LeftShift(vx, _) => {
                let vx_value = self.regs.get(vx);
                self.set_flagged(vx, alu::left_shift(vx_value));
            },
            OpCodes::RightShift(vx, _) => {
                let vx_value = self.regs.get(vx);
                self.set_flagged(vx, alu::right_shift(vx_value));
            },
            OpCodes::Random(vx, nn) => {
                self.regs.set_register(vx, nn & rnd);
            },
            _ => unreached(),
        }
        assert(self@ =~= execute(old(self)@, ins, rnd).0);
    }

    /// The instructions that draw.
    fn execute_draw(&mut self, ins: OpCodes) -> (outcome: Result<bool, Fault>)
        requires
            old(self).wf(),
            ins.well_formed(),
            ins.is_draw(),
        ensures
            final(self).wf(),
            final(self).same_pacing(old(self)),
            forall|rnd: u8| (final(self)@, outcome) == #[trigger] execute(old(self)@, ins, rnd),
    {
        proof {
            self.lemma_view_wf();
        }
        let outcome = match ins {
            OpCodes::ClearScreen => {
                self.fb.clear_buffer();
                Ok(true)
            },
            OpCodes::Display(reg_x, reg_y, height) => {
                let (x, y) = (self.regs.get(reg_x), self.regs.get(reg_y));
                // From I to I + N, plot I at VX, VY
                // Simply XOR with existing fb data
                if self.mem.index.0 as usize + height as usize > 4096 {
                    Err(Fault::AddressOutOfRange)
                } else {
                    let sprite = self.mem.sprite(height);
                    let vf = self.fb.paint(x, y, sprite);
                    self.regs.set_register(
                        FLAG_REGISTER,
                        if vf {
                            1
                        } else {
                            0
                        },
                    );
                    Ok(true)
                }
            },
            _ => unreached(),
        };
        assert(self@ =~= execute(old(self)@, ins, 0).0);
        outcome
    }

    /// The instructions that read the keypad or the timers.
    fn execute_io(&mut self, ins: OpCodes) -> (outcome: Result<bool, Fault>)
        requires
            old(self).wf(),
            ins.well_formed(),
            ins.is_io(),
        ensures
            final(self).wf(),
            final(self).same_pacing(old(self)),
            forall|rnd: u8| (final(self)@, outcome) == #[trigger] execute(old(self)@, ins, rnd),
    {
        proof {
            self.lemma_view_wf();
        }
        let outcome = match ins {
            OpCodes::SkipIfPressed(vx) => {
                let key = self.regs.get(vx);
                if key > 0xF {
                    Err(Fault::UnknownKey)
                } else {
                    let down = self.fb.keyboard.get_key_status_from_num(key);
                    Ok(self.skip_if(down))
                }
            },
            OpCodes::SkipIfNotPressed(vx) => {
                let key = self.regs.get(vx);
                if key > 0xF {
                    Err(Fault::UnknownKey)
                } else {
                    let down = self.fb.keyboard.get_key_status_from_num(key);
                    Ok(self.skip_if(!down))
                }
            },
            OpCodes::GetKey(vx) => {
                match self.fb.keyboard.first_pressed() {
                    Some(key) => {
                        self.regs.set_register(vx, key);
                    },
                    None => {
                        self.mem.decrement_pc();
                    },
                }
                Ok(true)
            },
            OpCodes::CopyDelayToRegister(vx) => {
                self.regs.set_register(vx, self.delay_timer.count);
                Ok(true)
            },
            OpCodes::CopyRegisterToDelay(vx) => {
                let x = self.regs.get(vx);
                self.delay_timer.set(x);
                Ok(true)
            },
            OpCodes::CopyRegisterToSound(vx) => {
                let x = self.regs.get(vx);
                self.sound_timer.set(x);
                Ok(true)
            },
            _ => unreached(),
        };
        assert(self@ =~= execute(old(self)@, ins, 0).0);
        outcome
    }

    /// The instructions that work with the index register.
    fn execute_indexed(&mut self, ins: OpCodes) -> (outcome: Result<bool, Fault>)
        requires
            old(self).wf(),
            ins.well_formed(),
            ins.is_indexed(),
        ensures
            final(self).wf(),
            final(self).same_pacing(old(self)),
            forall|rnd: u8| (final(self)@, outcome) == #[trigger] execute(old(self)@, ins, rnd),
    {
        proof {
            self.lemma_view_wf();
        }
        let outcome = match ins {
            OpCodes::SetIndexRegister(addr) => {
                self.mem.set_index(addr);
                Ok(true)
            },
            OpCodes::AddToIndex(vx) => {
                // Most interpreters leave the flag alone here; one sets it
                // when the sum leaves the address range, and at least one
                // game depends on each behaviour.
                let sum: u32 = self.mem.index.0 as u32 + self.regs.get(vx) as u32;
                self.mem.set_index((sum % 0x1_0000) as u16);
                if self.index_overflow_flag {
                    self.regs.set_register(
                        FLAG_REGISTER,
                        if sum > 0xFFF {
                            1
                        } else {
                            0
                        },
                    );
                }
                Ok(true)
            },
            OpCodes::PointChar(vx) => {
                let char = self.regs.get(vx);
                if char > 0xF {
                    Err(Fault::UnknownGlyph)
                } else {
                    self.mem.set_index(Memory::point_char(char));
                    Ok(true)
                }
            },
            OpCodes::ToDecimal(vx) => {
                if self.mem.index.0 as usize + 2 >= 4096 {
                    Err(Fault::AddressOutOfRange)
                } else {
                    let value = self.regs.get(vx);
                    self.mem.to_decimal(value);
                    Ok(true)
                }
            },
            OpCodes::LoadRegisterFromMemory(vx) => {
                if self.mem.index.0 as usize + vx as usize >= 4096 {
                    Err(Fault::AddressOutOfRange)
                } else {
                    self.regs.load_registers(&self.mem, vx);
                    Ok(true)
                }
            },
            OpCodes::StoreRegisterToMemory(vx) => {
                if self.mem.index.0 as usize + vx as usize >= 4096 {
                    Err(Fault::AddressOutOfRange)
                } else {
                    self.mem.store_registers(&self.regs, vx);
                    Ok(true)
                }
            },
            _ => unreached(),
        };
        assert(self@ =~= execute(old(self)@, ins, 0).0);
        outcome
    }

    /// Executes one instruction. `rnd` is the random number that `Random`
    /// draws. The result is `Ok(true)` where the program goes on,
    /// `Ok(false)` where it has run to its end, and the fault where the
    /// instruction cannot be executed; the machine is then as it was. A
    /// return needs a call to return from: on an empty call stack it must
    /// not be executed.
    pub fn execute_with(&mut self, ins: OpCodes, rnd: u8) -> (outcome: Result<bool, Fault>)
        requires
            old(self).wf(),
            ins.well_formed(),
            executable(old(self)@, ins),
        ensures
            final(self).wf(),
            final(self).same_pacing(old(self)),
            (final(self)@, outcome) == execute(old(self)@, ins, rnd),
    {
        match ins {
            OpCodes::Jump(_)
            | OpCodes::PushSubroutine(_)
            | OpCodes::PopSubroutine
            | OpCodes::JumpWithOffset(_)
            | OpCodes::SkipEqualConstant(_, _)
            | OpCodes::SkipNotEqualConstant(_, _)
            | OpCodes::SkipEqualRegister(_, _)
            | OpCodes::SkipNotEqualRegister(_, _) => self.execute_flow(ins),
            OpCodes::SetRegister(_, _)
            | OpCodes::AddToRegister(_, _)
            | OpCodes::CopyRegister(_, _)
            | OpCodes::Or(_, _)
            | OpCodes::And(_, _)
            | OpCodes::XOr(_, _)
            | OpCodes::Add(_, _)
            | OpCodes::SubtractForward(_, _)
            | OpCodes::SubtractBackward(_, _)
            | OpCodes::LeftShift(_, _)
            | OpCodes::RightShift(_, _)
            | OpCodes::Random(_, _) => {
                self.execute_alu(ins, rnd);
                Ok(true)
            },
            OpCodes::ClearScreen | OpCodes::Display(_, _, _) => self.execute_draw(ins),
            OpCodes::SkipIfPressed(_)
            | OpCodes::SkipIfNotPressed(_)
            | OpCodes::GetKey(_)
            | OpCodes::CopyDelayToRegister(_)
            | OpCodes::CopyRegisterToDelay(_)
            | OpCodes::CopyRegisterToSound(_) => self.execute_io(ins),
            OpCodes::SetIndexRegister(_)
            | OpCodes::AddToIndex(_)
            | OpCodes::PointChar(_)
            | OpCodes::ToDecimal(_)
            | OpCodes::LoadRegisterFromMemory(_)
            | OpCodes::StoreRegisterToMemory(_) => self.execute_indexed(ins),
            OpCodes::Unimplemented => Ok(true),
        }
    }

    /// Executes one instruction. Where the instruction is `Random`, a
    /// number is drawn from the thread's random number generator: the
    /// machine is then as `execute_with` leaves it for one of the numbers
    /// that could be drawn. Every other instruction leaves it as
    /// `execute_with` does. A return needs a call to return from: on an
    /// empty call stack it must not be executed.
    pub fn execute_ins(&mut self, ins: OpCodes) -> (outcome: Result<bool, Fault>)
        requires
            old(self).wf(),
            ins.well_formed(),
            executable(old(self)@, ins),
        ensures
            final(self).wf(),
            final(self).same_pacing(old(self)),
            exists|rnd: u8|
                draws(ins, rnd) && (final(self)@, outcome) == #[trigger] execute(
                    old(self)@,
                    ins,
                    rnd,
                ),
    {
        let rnd = match ins {
            OpCodes::Random(_, nn) => random_up_to(nn),
            _ => 0,
        };
        self.execute_with(ins, rnd)
    }

    /// One cycle: fetches the next instruction, decodes and executes it.
    /// The result is `Ok(false)` when the program has run to its end. A
    /// return on an empty call stack is not executed: the cycle ends with
    /// the fault, and the program cannot go on.
    pub fn step(&mut self) -> (outcome: Result<bool, Fault>)
        requires
            old(self).wf(),
        ensures
            final(self).wf(),
            final(self).same_pacing(old(self)),
            ran_cycle(old(self)@, final(self)@, outcome),
    {
        match self.fetch_decode() {
            Some(OpCodes::PopSubroutine) if self.mem.stack.is_empty() => {
                assert((self@, Err::<bool, Fault>(Fault::StackUnderflow)) == cycle(old(self)@, 0));
                Err(Fault::StackUnderflow)
            },
            Some(ins) => {
                let ghost fetched = self@;
                let outcome = self.execute_ins(ins);
                proof {
                    let rnd = choose|rnd: u8|
                        draws(ins, rnd) && (self@, outcome) == #[trigger] execute(
                            fetched,
                            ins,
                            rnd,
                        );
                    assert((self@, outcome) == cycle(old(self)@, rnd));
                }
                outcome
            },
            None => {
                assert((self@, Ok::<bool, Fault>(false)) == cycle(old(self)@, 0));
                Ok(false)
            },
        }
    }

    /// Whether the next instruction is due when `elapsed_us` microseconds
    /// have passed since the last one: whether these are at least the part
    /// of a second that the machine's instruction rate gives each
    /// instruction.
    pub fn instruction_due(&self, elapsed_us: u128) -> (due: bool)
        ensures
            due == due_after(elapsed_us, self.ins_per_second),
    {
        is_due(elapsed_us, self.ins_per_second)
    }

    /// Tells whether the next instruction is due, and if it is, takes note
    /// of the time. At a rate of zero no instruction is ever due.
    pub fn can_execute(&mut self) -> (due: bool)
        requires
            old(self).wf(),
        ensures
            final(self).wf(),
            final(self)@ == old(self)@,
            final(self).last_delay == old(self).last_delay,
            final(self).last_sound == old(self).last_sound,
            final(self).last_fb == old(self).last_fb,
            final(self).ins_per_second == old(self).ins_per_second,
            old(self).ins_per_second == 0 ==> !due,
            !due ==> final(self).last_ins == old(self).last_ins,
    {
        let result = self.instruction_due(self.last_ins.elapsed().as_micros());
        if result {
            self.last_ins = Instant::now();
        }
        result
    }

    /// One cycle, if the next instruction is due; nothing otherwise, and
    /// the program goes on. At a rate of zero no instruction is ever due,
    /// and no tick is a cycle.
    pub fn tick(&mut self) -> (outcome: Result<bool, Fault>)
        requires
            old(self).wf(),
        ensures
            final(self).wf(),
            final(self).last_delay == old(self).last_delay,
            final(self).last_sound == old(self).last_sound,
            final(self).last_fb == old(self).last_fb,
            final(self).ins_per_second == old(self).ins_per_second,
            ran_cycle(old(self)@, final(self)@, outcome) || (final(self)@ == old(self)@ && outcome
                == Ok::<bool, Fault>(true) && final(self).last_ins == old(self).last_ins),
            old(self).ins_per_second == 0 ==> final(self)@ == old(self)@ && outcome == Ok::<
                bool,
                Fault,
            >(true) && final(self).last_ins == old(self).last_ins,
    {
        if self.can_execute() {
            self.step()
        } else {
            Ok(true)
        }
    }

    /// Counts each timer down by one if its next step is due. The result
    /// tells whether the sound timer counted: the tone is to sound then.
    pub fn sync_timers(&mut self) -> (beep: bool)
        requires
            old(self).wf(),
        ensures
            final(self).wf(),
            final(self)@ == (Machine {
                delay: final(self).delay_timer.count,
                sound: final(self).sound_timer.count,
                ..old(self)@
            }),
            final(self).delay_timer.count == old(self).delay_timer.count || (old(
                self,
            ).delay_timer.count > 0 && final(self).delay_timer.count == old(self).delay_timer.count
                - 1),
            final(self).delay_timer.count == old(self).delay_timer.count ==> final(self).last_delay
                == old(self).last_delay,
            beep ==> old(self).sound_timer.count > 0,
            final(self).sound_timer.count == if beep {
                old(self).sound_timer.count - 1
            } else {
                old(self).sound_timer.count as int
            },
            !beep ==> final(self).last_sound == old(self).last_sound,
            final(self).last_ins == old(self).last_ins,
            final(self).last_fb == old(self).last_fb,
            final(self).ins_per_second == old(self).ins_per_second,
    {
        if self.delay_timer.sync(self.last_delay) {
            self.last_delay = Instant::now();
        }
        let beep = self.sound_timer.sync(self.last_sound);
        if beep {
            self.last_sound = Instant::now();
        }
        beep
    }

    /// Decides on the next frame when `elapsed_us` microseconds have passed
    /// since the last one. The first result tells whether the frame is
    /// due: whether these are at least a sixtieth of a second. The second
    /// tells whether the screen is to be shown: it is when the frame is due
    /// and a pixel has changed since the screen was last shown. A due frame
    /// takes note that the screen will be shown.
    pub fn frame_after(&mut self, elapsed_us: u128) -> (frame: (bool, bool))
        requires
            old(self).wf(),
        ensures
            final(self).wf(),
            final(self).same_pacing(old(self)),
            frame.0 == due_after(elapsed_us, FPS),
            frame.1 == (due_after(elapsed_us, FPS) && old(self).fb.should_update),
            final(self)@ == (Machine {
                redraw: old(self)@.redraw && !due_after(elapsed_us, FPS),
                ..old(self)@
            }),
    {
        if is_due(elapsed_us, FPS) {
            let show = self.fb.sync();
            (true, show)
        } else {
            (false, false)
        }
    }

    /// Tells whether the screen is to be shown now: it is when the next
    /// frame is due and a pixel has changed since the screen was last shown.
    /// A due frame takes note of the time.
    pub fn sync_display(&mut self) -> (show: bool)
        requires
            old(self).wf(),
        ensures
            final(self).wf(),
            show ==> old(self).fb.should_update,
            final(self)@ == (Machine { redraw: old(self)@.redraw && !show, ..old(self)@ }),
            final(self).last_delay == old(self).last_delay,
            final(self).last_sound == old(self).last_sound,
            final(self).last_ins == old(self).last_ins,
            final(self).ins_per_second == old(self).ins_per_second,
    {
        let (due, show) = self.frame_after(self.last_fb.elapsed().as_micros());
        if due {
            self.last_fb = Instant::now();
        }
        show
    }
}

} // verus!
