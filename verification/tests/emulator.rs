use emuchip::decode::OpCodes;
use emuchip::emulator::{Emulator, FPS, INS_PER_SECOND};
use emuchip::keyboard::Key;
use emuchip::machine::Fault;
use emuchip::memory::RomError;
use std::time::{Duration, Instant};

fn machine(rom: &[u8]) -> Emulator {
    match Emulator::init(rom) {
        Ok(emu) => emu,
        Err(e) => panic!("{:?}", e),
    }
}

fn millis_ago(ms: u64) -> Instant {
    Instant::now().checked_sub(Duration::from_millis(ms)).unwrap()
}

fn far_ahead() -> Instant {
    Instant::now() + Duration::from_secs(3600)
}

fn registers(emu: &Emulator) -> Vec<u8> {
    (0..16).map(|r| emu.regs.get(r)).collect()
}

#[test]
fn init_loads_the_program() {
    let mut emu = machine(&[0x60, 0x07, 0x12, 0x00]);
    assert_eq!(emu.mem.get(0x200), 0x60);
    assert_eq!(emu.mem.get(0x203), 0x00);
    assert_eq!(emu.mem.get(0x50), 0xF0);
    assert_eq!(emu.mem.pc.0, 0x200);
    assert_eq!(emu.mem.pc.1, 0x204);
    assert_eq!(emu.mem.index.0, 0);
    assert_eq!(emu.mem.stack.pop(), None);
    assert_eq!(registers(&emu), vec![0; 16]);
    assert_eq!(emu.delay_timer.count, 0);
    assert_eq!(emu.sound_timer.count, 0);
    assert_eq!(emu.fb.bit_buffer, vec![0; 2048]);
    assert!(!emu.fb.should_update);
    assert_eq!(emu.ins_per_second, INS_PER_SECOND);
    assert_eq!(INS_PER_SECOND, 3000);
    assert_eq!(FPS, 60);
    assert!(!emu.index_overflow_flag);
}

#[test]
fn init_refuses_a_program_that_does_not_fit() {
    let rom = vec![0u8; 3585];
    assert_eq!(Emulator::init(&rom).err(), Some(RomError::TooLarge));
    let rom = vec![0u8; 3584];
    assert!(Emulator::init(&rom).is_ok());
}

#[test]
fn fetch_decode_reads_the_program() {
    let mut emu = machine(&[0x6A, 0x07, 0x1A, 0xBC]);
    assert_eq!(emu.fetch_decode(), Some(OpCodes::SetRegister(0xA, 0x07)));
    assert_eq!(emu.mem.pc.0, 0x202);
    assert_eq!(emu.fetch_decode(), Some(OpCodes::Jump(0xABC)));
    assert_eq!(emu.mem.pc.0, 0x204);
    assert_eq!(emu.fetch_decode(), None);
    assert_eq!(emu.mem.pc.0, 0x204);
}

#[test]
fn add_sets_carry() {
    let mut emu = machine(&[]);
    emu.regs.set_register(1, 0xFF);
    emu.regs.set_register(2, 0x01);
    assert_eq!(emu.execute_ins(OpCodes::Add(1, 2)), Ok(true));
    assert_eq!(emu.regs.get(1), 0x00);
    assert_eq!(emu.regs.get(2), 0x01);
    assert_eq!(emu.regs.get(0xF), 1);
}

#[test]
fn add_clears_carry() {
    let mut emu = machine(&[]);
    emu.regs.set_register(1, 0x01);
    emu.regs.set_register(2, 0x01);
    emu.regs.set_register(0xF, 1);
    assert_eq!(emu.execute_ins(OpCodes::Add(1, 2)), Ok(true));
    assert_eq!(emu.regs.get(1), 0x02);
    assert_eq!(emu.regs.get(0xF), 0);
}

#[test]
fn subtract_forward_with_borrow() {
    let mut emu = machine(&[]);
    emu.regs.set_register(1, 0x01);
    emu.regs.set_register(2, 0x02);
    assert_eq!(emu.execute_ins(OpCodes::SubtractForward(1, 2)), Ok(true));
    assert_eq!(emu.regs.get(1), 0xFF);
    assert_eq!(emu.regs.get(2), 0x02);
    assert_eq!(emu.regs.get(0xF), 0);
}

#[test]
fn subtract_forward_without_borrow() {
    let mut emu = machine(&[]);
    emu.regs.set_register(1, 5);
    emu.regs.set_register(2, 2);
    assert_eq!(emu.execute_ins(OpCodes::SubtractForward(1, 2)), Ok(true));
    assert_eq!(emu.regs.get(1), 3);
    assert_eq!(emu.regs.get(0xF), 1);
}

#[test]
fn subtract_backward_swaps_the_operands() {
    let mut emu = machine(&[]);
    emu.regs.set_register(1, 2);
    emu.regs.set_register(2, 5);
    assert_eq!(emu.execute_ins(OpCodes::SubtractBackward(1, 2)), Ok(true));
    assert_eq!(emu.regs.get(1), 3);
    assert_eq!(emu.regs.get(2), 5);
    assert_eq!(emu.regs.get(0xF), 1);
    emu.regs.set_register(1, 5);
    emu.regs.set_register(2, 2);
    assert_eq!(emu.execute_ins(OpCodes::SubtractBackward(1, 2)), Ok(true));
    assert_eq!(emu.regs.get(1), 0xFD);
    assert_eq!(emu.regs.get(0xF), 0);
}

#[test]
fn right_shift_takes_the_low_bit() {
    let mut emu = machine(&[]);
    emu.regs.set_register(1, 0x03);
    emu.regs.set_register(2, 0x55);
    assert_eq!(emu.execute_ins(OpCodes::RightShift(1, 2)), Ok(true));
    assert_eq!(emu.regs.get(1), 1);
    assert_eq!(emu.regs.get(2), 0x55);
    assert_eq!(emu.regs.get(0xF), 1);
}

#[test]
fn left_shift_takes_the_high_bit() {
    let mut emu = machine(&[]);
    emu.regs.set_register(1, 0xC1);
    assert_eq!(emu.execute_ins(OpCodes::LeftShift(1, 0)), Ok(true));
    assert_eq!(emu.regs.get(1), 0x82);
    assert_eq!(emu.regs.get(0xF), 1);
    emu.regs.set_register(1, 0x41);
    assert_eq!(emu.execute_ins(OpCodes::LeftShift(1, 0)), Ok(true));
    assert_eq!(emu.regs.get(1), 0x82);
    assert_eq!(emu.regs.get(0xF), 0);
}

#[test]
fn flag_register_as_destination_keeps_the_flag() {
    let mut emu = machine(&[]);
    emu.regs.set_register(0xF, 0xFF);
    emu.regs.set_register(2, 0x02);
    assert_eq!(emu.execute_ins(OpCodes::Add(0xF, 2)), Ok(true));
    assert_eq!(emu.regs.get(0xF), 1);
    emu.regs.set_register(0xF, 0x03);
    assert_eq!(emu.execute_ins(OpCodes::RightShift(0xF, 0)), Ok(true));
    assert_eq!(emu.regs.get(0xF), 1);
    emu.regs.set_register(0xF, 0x02);
    assert_eq!(emu.execute_ins(OpCodes::RightShift(0xF, 0)), Ok(true));
    assert_eq!(emu.regs.get(0xF), 0);
}

#[test]
fn flag_register_as_source_is_read_first() {
    let mut emu = machine(&[]);
    emu.regs.set_register(1, 0xFE);
    emu.regs.set_register(0xF, 0x03);
    assert_eq!(emu.execute_ins(OpCodes::Add(1, 0xF)), Ok(true));
    assert_eq!(emu.regs.get(1), 0x01);
    assert_eq!(emu.regs.get(0xF), 1);
}

#[test]
fn bitwise_operations_leave_the_flag() {
    let mut emu = machine(&[]);
    emu.regs.set_register(0xF, 7);
    emu.regs.set_register(1, 0b1100);
    emu.regs.set_register(2, 0b1010);
    assert_eq!(emu.execute_ins(OpCodes::Or(1, 2)), Ok(true));
    assert_eq!(emu.regs.get(1), 0b1110);
    emu.regs.set_register(1, 0b1100);
    assert_eq!(emu.execute_ins(OpCodes::And(1, 2)), Ok(true));
    assert_eq!(emu.regs.get(1), 0b1000);
    emu.regs.set_register(1, 0b1100);
    assert_eq!(emu.execute_ins(OpCodes::XOr(1, 2)), Ok(true));
    assert_eq!(emu.regs.get(1), 0b0110);
    assert_eq!(emu.execute_ins(OpCodes::CopyRegister(3, 2)), Ok(true));
    assert_eq!(emu.regs.get(3), 0b1010);
    assert_eq!(emu.regs.get(2), 0b1010);
    assert_eq!(emu.regs.get(0xF), 7);
}

#[test]
fn set_and_add_to_register() {
    let mut emu = machine(&[]);
    assert_eq!(emu.execute_ins(OpCodes::SetRegister(4, 0xF0)), Ok(true));
    assert_eq!(emu.execute_ins(OpCodes::AddToRegister(4, 0x20)), Ok(true));
    assert_eq!(emu.regs.get(4), 0x10);
    assert_eq!(emu.regs.get(0xF), 0);
}

#[test]
fn jump_and_jump_with_offset() {
    let mut emu = machine(&[]);
    assert_eq!(emu.execute_ins(OpCodes::Jump(0xABC)), Ok(true));
    assert_eq!(emu.mem.pc.0, 0xABC);
    emu.regs.set_register(0, 0xFF);
    assert_eq!(emu.execute_ins(OpCodes::JumpWithOffset(0xFFF)), Ok(true));
    assert_eq!(emu.mem.pc.0, 0x10FE);
    emu.regs.set_register(0, 0x02);
    emu.regs.set_register(3, 0x77);
    assert_eq!(emu.execute_ins(OpCodes::JumpWithOffset(0x300)), Ok(true));
    assert_eq!(emu.mem.pc.0, 0x302);
}

#[test]
fn call_and_return() {
    let mut emu = machine(&[0; 16]);
    emu.mem.set_pc(0x202);
    assert_eq!(emu.execute_ins(OpCodes::PushSubroutine(0x20A)), Ok(true));
    assert_eq!(emu.mem.pc.0, 0x20A);
    assert_eq!(emu.execute_ins(OpCodes::PushSubroutine(0x20E)), Ok(true));
    assert_eq!(emu.mem.pc.0, 0x20E);
    assert_eq!(emu.execute_ins(OpCodes::PopSubroutine), Ok(true));
    assert_eq!(emu.mem.pc.0, 0x20A);
    assert_eq!(emu.execute_ins(OpCodes::PopSubroutine), Ok(true));
    assert_eq!(emu.mem.pc.0, 0x202);
}

#[test]
fn return_without_call_is_a_fault() {
    let mut emu = machine(&[0x00, 0xEE, 0x61, 0x09]);
    emu.regs.set_register(1, 9);
    assert_eq!(emu.step(), Err(Fault::StackUnderflow));
    assert_eq!(emu.mem.pc.0, 0x202);
    assert_eq!(emu.regs.get(1), 9);
    assert!(emu.mem.stack.is_empty());
}

#[test]
fn skips_advance_by_one_instruction() {
    let mut emu = machine(&[0; 64]);
    emu.regs.set_register(1, 0x42);
    emu.regs.set_register(2, 0x42);
    emu.regs.set_register(3, 0x43);
    assert_eq!(emu.execute_ins(OpCodes::SkipEqualConstant(1, 0x42)), Ok(true));
    assert_eq!(emu.mem.pc.0, 0x202);
    assert_eq!(emu.execute_ins(OpCodes::SkipEqualConstant(1, 0x43)), Ok(true));
    assert_eq!(emu.mem.pc.0, 0x202);
    assert_eq!(emu.execute_ins(OpCodes::SkipNotEqualConstant(1, 0x43)), Ok(true));
    assert_eq!(emu.mem.pc.0, 0x204);
    assert_eq!(emu.execute_ins(OpCodes::SkipNotEqualConstant(1, 0x42)), Ok(true));
    assert_eq!(emu.mem.pc.0, 0x204);
    assert_eq!(emu.execute_ins(OpCodes::SkipEqualRegister(1, 2)), Ok(true));
    assert_eq!(emu.mem.pc.0, 0x206);
    assert_eq!(emu.execute_ins(OpCodes::SkipEqualRegister(1, 3)), Ok(true));
    assert_eq!(emu.mem.pc.0, 0x206);
    assert_eq!(emu.execute_ins(OpCodes::SkipNotEqualRegister(1, 3)), Ok(true));
    assert_eq!(emu.mem.pc.0, 0x208);
    assert_eq!(emu.execute_ins(OpCodes::SkipNotEqualRegister(1, 2)), Ok(true));
    assert_eq!(emu.mem.pc.0, 0x208);
}

#[test]
fn skip_past_the_end_finishes_the_program() {
    let mut emu = machine(&[0x30, 0x00, 0x00, 0x00]);
    assert_eq!(emu.fetch_decode(), Some(OpCodes::SkipEqualConstant(0, 0)));
    assert_eq!(emu.execute_ins(OpCodes::SkipEqualConstant(0, 0)), Ok(true));
    assert_eq!(emu.mem.pc.0, 0x204);
    assert_eq!(emu.execute_ins(OpCodes::SkipEqualConstant(0, 0)), Ok(false));
    assert_eq!(emu.mem.pc.0, 0x204);
    assert_eq!(emu.execute_ins(OpCodes::SkipEqualConstant(0, 1)), Ok(true));
}

#[test]
fn index_register_instructions() {
    let mut emu = machine(&[]);
    assert_eq!(emu.execute_ins(OpCodes::SetIndexRegister(0x123)), Ok(true));
    assert_eq!(emu.mem.index.0, 0x123);
    emu.regs.set_register(5, 0x10);
    assert_eq!(emu.execute_ins(OpCodes::AddToIndex(5)), Ok(true));
    assert_eq!(emu.mem.index.0, 0x133);
    emu.regs.set_register(6, 0xB);
    assert_eq!(emu.execute_ins(OpCodes::PointChar(6)), Ok(true));
    assert_eq!(emu.mem.index.0, 0x50 + 55);
}

#[test]
fn add_to_index_leaves_the_flag_by_default() {
    let mut emu = machine(&[]);
    emu.regs.set_register(0xF, 9);
    emu.regs.set_register(1, 0xFF);
    emu.mem.set_index(0xFFF);
    assert_eq!(emu.execute_ins(OpCodes::AddToIndex(1)), Ok(true));
    assert_eq!(emu.mem.index.0, 0x10FE);
    assert_eq!(emu.regs.get(0xF), 9);
}

#[test]
fn add_to_index_sets_the_flag_when_configured() {
    let mut emu = machine(&[]);
    emu.index_overflow_flag = true;
    emu.regs.set_register(0xF, 9);
    emu.regs.set_register(1, 0x01);
    emu.mem.set_index(0xFFE);
    assert_eq!(emu.execute_ins(OpCodes::AddToIndex(1)), Ok(true));
    assert_eq!(emu.mem.index.0, 0xFFF);
    assert_eq!(emu.regs.get(0xF), 0);
    assert_eq!(emu.execute_ins(OpCodes::AddToIndex(1)), Ok(true));
    assert_eq!(emu.mem.index.0, 0x1000);
    assert_eq!(emu.regs.get(0xF), 1);
}

#[test]
fn add_to_index_wraps_at_sixteen_bits() {
    let mut emu = machine(&[]);
    emu.regs.set_register(1, 0x02);
    emu.mem.set_index(0xFFFF);
    assert_eq!(emu.execute_ins(OpCodes::AddToIndex(1)), Ok(true));
    assert_eq!(emu.mem.index.0, 0x0001);
}

#[test]
fn point_char_needs_a_digit() {
    let mut emu = machine(&[]);
    emu.mem.set_index(0x222);
    emu.regs.set_register(1, 0x10);
    assert_eq!(emu.execute_ins(OpCodes::PointChar(1)), Err(Fault::UnknownGlyph));
    assert_eq!(emu.mem.index.0, 0x222);
    emu.regs.set_register(1, 0x0F);
    assert_eq!(emu.execute_ins(OpCodes::PointChar(1)), Ok(true));
    assert_eq!(emu.mem.index.0, 0x9B);
}

#[test]
fn to_decimal_writes_at_index() {
    let mut emu = machine(&[]);
    emu.mem.set_index(0x300);
    emu.regs.set_register(2, 7);
    assert_eq!(emu.execute_ins(OpCodes::ToDecimal(2)), Ok(true));
    assert_eq!(
        [emu.mem.get(0x300), emu.mem.get(0x301), emu.mem.get(0x302)],
        [0, 0, 7]
    );
    emu.regs.set_register(2, 255);
    assert_eq!(emu.execute_ins(OpCodes::ToDecimal(2)), Ok(true));
    assert_eq!(
        [emu.mem.get(0x300), emu.mem.get(0x301), emu.mem.get(0x302)],
        [2, 5, 5]
    );
    assert_eq!(emu.regs.get(2), 255);
    assert_eq!(emu.mem.index.0, 0x300);
}

#[test]
fn to_decimal_beyond_memory_is_a_fault() {
    let mut emu = machine(&[]);
    emu.regs.set_register(2, 123);
    emu.mem.set_index(4094);
    assert_eq!(emu.execute_ins(OpCodes::ToDecimal(2)), Err(Fault::AddressOutOfRange));
    assert_eq!(emu.mem.get(4094), 0);
    assert_eq!(emu.mem.get(4095), 0);
    emu.mem.set_index(4093);
    assert_eq!(emu.execute_ins(OpCodes::ToDecimal(2)), Ok(true));
    assert_eq!(emu.mem.get(4095), 3);
}

#[test]
fn store_and_load_registers() {
    let mut emu = machine(&[]);
    for r in 0..16u8 {
        emu.regs.set_register(r, 0x30 + r);
    }
    emu.mem.set_index(0x400);
    assert_eq!(emu.execute_ins(OpCodes::StoreRegisterToMemory(3)), Ok(true));
    assert_eq!(emu.mem.get(0x400), 0x30);
    assert_eq!(emu.mem.get(0x403), 0x33);
    assert_eq!(emu.mem.get(0x404), 0);
    assert_eq!(emu.mem.index.0, 0x400);
    for r in 0..16u8 {
        emu.regs.set_register(r, 0);
    }
    assert_eq!(emu.execute_ins(OpCodes::LoadRegisterFromMemory(2)), Ok(true));
    let mut expected = vec![0u8; 16];
    expected[0] = 0x30;
    expected[1] = 0x31;
    expected[2] = 0x32;
    assert_eq!(registers(&emu), expected);
    assert_eq!(emu.execute_ins(OpCodes::StoreRegisterToMemory(0)), Ok(true));
    assert_eq!(emu.execute_ins(OpCodes::LoadRegisterFromMemory(0)), Ok(true));
    assert_eq!(registers(&emu), expected);
}

#[test]
fn store_and_load_beyond_memory_are_faults() {
    let mut emu = machine(&[]);
    emu.regs.set_register(0, 0x11);
    emu.regs.set_register(1, 0x22);
    emu.mem.set_index(4095);
    assert_eq!(
        emu.execute_ins(OpCodes::StoreRegisterToMemory(1)),
        Err(Fault::AddressOutOfRange)
    );
    assert_eq!(emu.mem.get(4095), 0);
    assert_eq!(
        emu.execute_ins(OpCodes::LoadRegisterFromMemory(1)),
        Err(Fault::AddressOutOfRange)
    );
    assert_eq!(emu.regs.get(0), 0x11);
    assert_eq!(emu.execute_ins(OpCodes::StoreRegisterToMemory(0)), Ok(true));
    assert_eq!(emu.mem.get(4095), 0x11);
    emu.mem.set_index(0xFFFF);
    assert_eq!(
        emu.execute_ins(OpCodes::LoadRegisterFromMemory(0)),
        Err(Fault::AddressOutOfRange)
    );
}

#[test]
fn display_draws_the_sprite_at_index() {
    let mut emu = machine(&[]);
    emu.regs.set_register(1, 3);
    emu.regs.set_register(2, 4);
    emu.regs.set_register(0xF, 9);
    emu.mem.set_index(0x50 + 5);
    assert_eq!(emu.execute_ins(OpCodes::Display(1, 2, 5)), Ok(true));
    let rows = [0x20u8, 0x60, 0x20, 0x20, 0x70];
    for y in 0..32usize {
        for x in 0..64usize {
            let on = (4..9).contains(&y)
                && (3..11).contains(&x)
                && (rows[y - 4] >> (7 - (x - 3))) & 1 == 1;
            assert_eq!(emu.fb.bit_buffer[y * 64 + x] == 1, on);
        }
    }
    assert_eq!(emu.regs.get(0xF), 0);
    assert!(emu.fb.should_update);
    assert_eq!(emu.mem.index.0, 0x55);
}

#[test]
fn display_twice_restores_and_sets_the_flag() {
    let mut emu = machine(&[]);
    emu.regs.set_register(1, 62);
    emu.regs.set_register(2, 30);
    emu.mem.set_index(0x50);
    assert_eq!(emu.execute_ins(OpCodes::Display(1, 2, 5)), Ok(true));
    assert_eq!(emu.regs.get(0xF), 0);
    assert_eq!(emu.fb.bit_buffer.iter().filter(|bit| **bit == 1).count(), 3);
    assert_eq!(emu.execute_ins(OpCodes::Display(1, 2, 5)), Ok(true));
    assert_eq!(emu.regs.get(0xF), 1);
    assert_eq!(emu.fb.bit_buffer, vec![0; 2048]);
}

#[test]
fn display_takes_coordinates_from_the_flag_register_first() {
    let mut emu = machine(&[]);
    emu.regs.set_register(0xF, 8);
    emu.regs.set_register(2, 1);
    emu.mem.set_index(0x50);
    assert_eq!(emu.execute_ins(OpCodes::Display(0xF, 2, 1)), Ok(true));
    assert_eq!(emu.fb.bit_buffer[64 + 8], 1);
    assert_eq!(emu.regs.get(0xF), 0);
}

#[test]
fn display_beyond_memory_is_a_fault() {
    let mut emu = machine(&[]);
    emu.mem.set(4095, 0xFF);
    emu.mem.set_index(4095);
    assert_eq!(emu.execute_ins(OpCodes::Display(0, 0, 2)), Err(Fault::AddressOutOfRange));
    assert_eq!(emu.fb.bit_buffer, vec![0; 2048]);
    assert!(!emu.fb.should_update);
    assert_eq!(emu.execute_ins(OpCodes::Display(0, 0, 1)), Ok(true));
    assert_eq!(emu.fb.bit_buffer[0..9], [1, 1, 1, 1, 1, 1, 1, 1, 0]);
    emu.mem.set_index(4096);
    assert_eq!(emu.execute_ins(OpCodes::Display(0, 0, 0)), Ok(true));
}

#[test]
fn display_of_nothing_needs_no_showing() {
    let mut emu = machine(&[]);
    emu.mem.set_index(0x300);
    assert_eq!(emu.execute_ins(OpCodes::Display(0, 0, 5)), Ok(true));
    assert!(!emu.fb.should_update);
    assert_eq!(emu.regs.get(0xF), 0);
    assert_eq!(emu.execute_ins(OpCodes::ClearScreen), Ok(true));
    assert!(!emu.fb.should_update);
}

#[test]
fn clear_screen() {
    let mut emu = machine(&[]);
    emu.mem.set_index(0x50);
    emu.execute_ins(OpCodes::Display(0, 0, 5)).unwrap();
    emu.fb.sync();
    assert_eq!(emu.execute_ins(OpCodes::ClearScreen), Ok(true));
    assert_eq!(emu.fb.bit_buffer, vec![0; 2048]);
    assert!(emu.fb.should_update);
}

#[test]
fn key_skips() {
    let mut emu = machine(&[0; 64]);
    emu.fb.check_for_keys(&[Key::W]);
    emu.regs.set_register(1, 0x5);
    emu.regs.set_register(2, 0x6);
    assert_eq!(emu.execute_ins(OpCodes::SkipIfPressed(1)), Ok(true));
    assert_eq!(emu.mem.pc.0, 0x202);
    assert_eq!(emu.execute_ins(OpCodes::SkipIfPressed(2)), Ok(true));
    assert_eq!(emu.mem.pc.0, 0x202);
    assert_eq!(emu.execute_ins(OpCodes::SkipIfNotPressed(1)), Ok(true));
    assert_eq!(emu.mem.pc.0, 0x202);
    assert_eq!(emu.execute_ins(OpCodes::SkipIfNotPressed(2)), Ok(true));
    assert_eq!(emu.mem.pc.0, 0x204);
}

#[test]
fn key_skips_need_a_key_number() {
    let mut emu = machine(&[0; 64]);
    emu.regs.set_register(1, 0x10);
    assert_eq!(emu.execute_ins(OpCodes::SkipIfPressed(1)), Err(Fault::UnknownKey));
    assert_eq!(emu.execute_ins(OpCodes::SkipIfNotPressed(1)), Err(Fault::UnknownKey));
    assert_eq!(emu.mem.pc.0, 0x200);
}

#[test]
fn get_key_waits_without_advancing() {
    let mut emu = machine(&[0xF3, 0x0A, 0x00, 0x00]);
    emu.regs.set_register(3, 0x77);
    for _ in 0..3 {
        assert_eq!(emu.step(), Ok(true));
        assert_eq!(emu.mem.pc.0, 0x200);
        assert_eq!(emu.regs.get(3), 0x77);
    }
    emu.fb.check_for_keys(&[Key::V, Key::R]);
    assert_eq!(emu.step(), Ok(true));
    assert_eq!(emu.mem.pc.0, 0x202);
    assert_eq!(emu.regs.get(3), 0xD);
}

#[test]
fn timer_transfers() {
    let mut emu = machine(&[]);
    emu.regs.set_register(1, 0x20);
    emu.regs.set_register(2, 0x30);
    assert_eq!(emu.execute_ins(OpCodes::CopyRegisterToDelay(1)), Ok(true));
    assert_eq!(emu.execute_ins(OpCodes::CopyRegisterToSound(2)), Ok(true));
    assert_eq!(emu.delay_timer.count, 0x20);
    assert_eq!(emu.sound_timer.count, 0x30);
    assert_eq!(emu.execute_ins(OpCodes::CopyDelayToRegister(5)), Ok(true));
    assert_eq!(emu.regs.get(5), 0x20);
    assert_eq!(emu.delay_timer.count, 0x20);
}

#[test]
fn unimplemented_does_nothing() {
    let mut emu = machine(&[1, 2, 3, 4]);
    emu.regs.set_register(1, 5);
    assert_eq!(emu.execute_ins(OpCodes::Unimplemented), Ok(true));
    assert_eq!(emu.mem.pc.0, 0x200);
    assert_eq!(emu.regs.get(1), 5);
    assert_eq!(emu.fb.bit_buffer, vec![0; 2048]);
    assert!(!emu.fb.should_update);
}

#[test]
fn random_is_masked() {
    let mut emu = machine(&[]);
    for _ in 0..200 {
        assert_eq!(emu.execute_ins(OpCodes::Random(1, 0x0F)), Ok(true));
        assert!(emu.regs.get(1) <= 0x0F);
        assert_eq!(emu.execute_ins(OpCodes::Random(2, 0xA0)), Ok(true));
        assert_eq!(emu.regs.get(2) & !0xA0, 0);
        assert_eq!(emu.execute_ins(OpCodes::Random(3, 0)), Ok(true));
        assert_eq!(emu.regs.get(3), 0);
    }
}

#[test]
fn random_draws_different_numbers() {
    let mut emu = machine(&[]);
    let mut seen = [false; 256];
    for _ in 0..4000 {
        assert_eq!(emu.execute_ins(OpCodes::Random(1, 0xFF)), Ok(true));
        seen[emu.regs.get(1) as usize] = true;
    }
    assert!(seen.iter().filter(|s| **s).count() > 128);
    assert!(seen[..255].iter().any(|s| *s));
}

#[test]
fn execute_with_takes_the_random_number() {
    let mut emu = machine(&[]);
    assert_eq!(emu.execute_with(OpCodes::Random(1, 0xF0), 0x3C), Ok(true));
    assert_eq!(emu.regs.get(1), 0x30);
    assert_eq!(emu.execute_with(OpCodes::SetRegister(1, 0x12), 0xFF), Ok(true));
    assert_eq!(emu.regs.get(1), 0x12);
}

#[test]
fn program_runs_to_its_end_and_not_before() {
    let mut emu = machine(&[0x60, 0x05, 0x70, 0x03, 0x81, 0x00]);
    assert_eq!(emu.step(), Ok(true));
    assert_eq!(emu.regs.get(0), 5);
    assert_eq!(emu.step(), Ok(true));
    assert_eq!(emu.regs.get(0), 8);
    assert_eq!(emu.step(), Ok(true));
    assert_eq!(emu.regs.get(1), 8);
    assert_eq!(emu.mem.pc.0, 0x206);
    assert_eq!(emu.step(), Ok(false));
    assert_eq!(emu.step(), Ok(false));
    assert_eq!(emu.mem.pc.0, 0x206);
    assert_eq!(registers(&emu)[..2], [8, 8]);
}

#[test]
fn empty_program_is_finished_at_once() {
    let mut emu = machine(&[]);
    assert_eq!(emu.step(), Ok(false));
    assert_eq!(emu.mem.pc.0, 0x200);
}

#[test]
fn loop_with_subroutine() {
    // 0x200: call 0x206; 0x202: jump 0x202 (never reached fully); 0x204: filler
    // 0x206: v1 += 1; 0x208: return
    let rom = [0x22, 0x06, 0x12, 0x02, 0x00, 0x00, 0x71, 0x01, 0x00, 0xEE];
    let mut emu = machine(&rom);
    assert_eq!(emu.step(), Ok(true));
    assert_eq!(emu.mem.pc.0, 0x206);
    assert_eq!(emu.step(), Ok(true));
    assert_eq!(emu.regs.get(1), 1);
    assert_eq!(emu.step(), Ok(true));
    assert_eq!(emu.mem.pc.0, 0x202);
    for _ in 0..5 {
        assert_eq!(emu.step(), Ok(true));
        assert_eq!(emu.mem.pc.0, 0x202);
    }
}

#[test]
fn step_reports_faults() {
    let mut emu = machine(&[0x00, 0xEE]);
    assert_eq!(emu.step(), Err(Fault::StackUnderflow));
    assert_eq!(emu.mem.pc.0, 0x202);
}

#[test]
fn jump_out_of_the_program_finishes_it() {
    let mut emu = machine(&[0x1F, 0xFF]);
    assert_eq!(emu.step(), Ok(true));
    assert_eq!(emu.mem.pc.0, 0xFFF);
    assert_eq!(emu.step(), Ok(false));
    assert_eq!(emu.mem.pc.0, 0xFFF);
}

#[test]
fn can_execute_when_due() {
    let mut emu = machine(&[]);
    emu.last_ins = millis_ago(10_000);
    assert!(emu.can_execute());
    assert!(emu.last_ins.elapsed() < Duration::from_millis(5_000));
    emu.last_ins = far_ahead();
    assert!(!emu.can_execute());
    emu.ins_per_second = 1;
    emu.last_ins = millis_ago(500);
    assert!(!emu.can_execute());
    emu.last_ins = millis_ago(1500);
    assert!(emu.can_execute());
    assert!(!emu.can_execute());
}

#[test]
fn paced_above_a_thousand_per_second() {
    let mut emu = machine(&[]);
    emu.ins_per_second = 1001;
    emu.last_ins = far_ahead();
    assert!(!emu.can_execute());
    emu.last_ins = millis_ago(1);
    assert!(emu.can_execute());
    emu.ins_per_second = u64::MAX;
    emu.last_ins = far_ahead();
    assert!(!emu.can_execute());
}

#[test]
fn never_due_at_rate_zero() {
    let mut emu = machine(&[0x60, 0x05]);
    emu.ins_per_second = 0;
    emu.last_ins = millis_ago(5000);
    assert!(!emu.can_execute());
    assert_eq!(emu.tick(), Ok(true));
    assert_eq!(emu.regs.get(0), 0);
    assert_eq!(emu.mem.pc.0, 0x200);
}

#[test]
fn every_due_tick_is_a_cycle() {
    let mut rom = Vec::new();
    for _ in 0..20 {
        rom.push(0x70);
        rom.push(0x01);
    }
    let mut emu = machine(&rom);
    for done in 1..=20u8 {
        emu.last_ins = far_ahead();
        assert_eq!(emu.tick(), Ok(true));
        assert_eq!(emu.regs.get(0), done - 1);
        emu.last_ins = millis_ago(1);
        assert_eq!(emu.tick(), Ok(true));
        assert_eq!(emu.regs.get(0), done);
    }
    emu.last_ins = millis_ago(1);
    assert_eq!(emu.tick(), Ok(false));
}

#[test]
fn tick_executes_when_due() {
    let mut emu = machine(&[0x60, 0x05, 0x61, 0x06]);
    emu.last_ins = millis_ago(1);
    assert_eq!(emu.tick(), Ok(true));
    assert_eq!(emu.regs.get(0), 5);
    emu.ins_per_second = 1;
    emu.last_ins = far_ahead();
    assert_eq!(emu.tick(), Ok(true));
    assert_eq!(emu.regs.get(1), 0);
    assert_eq!(emu.mem.pc.0, 0x202);
    emu.last_ins = millis_ago(1500);
    assert_eq!(emu.tick(), Ok(true));
    assert_eq!(emu.regs.get(1), 6);
    emu.last_ins = millis_ago(1500);
    assert_eq!(emu.tick(), Ok(false));
}

#[test]
fn sync_timers_counts_both_timers() {
    let mut emu = machine(&[]);
    emu.delay_timer.set(2);
    emu.sound_timer.set(1);
    emu.last_delay = millis_ago(100);
    emu.last_sound = millis_ago(100);
    assert!(emu.sync_timers());
    assert_eq!(emu.delay_timer.count, 1);
    assert_eq!(emu.sound_timer.count, 0);
    emu.last_delay = millis_ago(100);
    emu.last_sound = millis_ago(100);
    assert!(!emu.sync_timers());
    assert_eq!(emu.delay_timer.count, 0);
    assert_eq!(emu.sound_timer.count, 0);
    emu.last_delay = millis_ago(100);
    assert!(!emu.sync_timers());
    assert_eq!(emu.delay_timer.count, 0);
}

#[test]
fn sync_timers_waits_for_each_timer() {
    let mut emu = machine(&[]);
    emu.delay_timer.set(2);
    emu.sound_timer.set(2);
    emu.last_delay = far_ahead();
    emu.last_sound = millis_ago(100);
    assert!(emu.sync_timers());
    assert_eq!(emu.delay_timer.count, 2);
    assert_eq!(emu.sound_timer.count, 1);
    emu.last_delay = millis_ago(100);
    emu.last_sound = far_ahead();
    assert!(!emu.sync_timers());
    assert_eq!(emu.delay_timer.count, 1);
    assert_eq!(emu.sound_timer.count, 1);
}

#[test]
fn sync_timers_takes_note_of_the_time() {
    let mut emu = machine(&[]);
    emu.delay_timer.set(9);
    emu.sound_timer.set(9);
    emu.last_delay = millis_ago(10_000);
    emu.last_sound = millis_ago(10_000);
    assert!(emu.sync_timers());
    assert!(emu.last_delay.elapsed() < Duration::from_millis(5_000));
    assert!(emu.last_sound.elapsed() < Duration::from_millis(5_000));
}

#[test]
fn sync_display_shows_a_changed_screen_when_due() {
    let mut emu = machine(&[]);
    emu.last_fb = millis_ago(100);
    assert!(!emu.sync_display());
    emu.mem.set_index(0x50);
    emu.execute_ins(OpCodes::Display(0, 0, 5)).unwrap();
    emu.last_fb = far_ahead();
    assert!(!emu.sync_display());
    assert!(emu.fb.should_update);
    emu.last_fb = millis_ago(100);
    assert!(emu.sync_display());
    assert!(!emu.fb.should_update);
    emu.last_fb = millis_ago(100);
    assert!(!emu.sync_display());
}

#[test]
fn instruction_due_follows_the_rate() {
    let mut emu = machine(&[]);
    assert!(!emu.instruction_due(0));
    assert!(!emu.instruction_due(333));
    assert!(emu.instruction_due(334));
    emu.ins_per_second = 700;
    assert!(!emu.instruction_due(1428));
    assert!(emu.instruction_due(1429));
    emu.ins_per_second = 1;
    assert!(!emu.instruction_due(999_999));
    assert!(emu.instruction_due(1_000_000));
    emu.ins_per_second = 0;
    assert!(!emu.instruction_due(u128::MAX));
}

#[test]
fn frame_after_shows_a_changed_screen_when_due() {
    let mut emu = machine(&[]);
    assert_eq!(emu.frame_after(16_667), (true, false));
    assert_eq!(emu.frame_after(16_666), (false, false));
    emu.mem.set_index(0x50);
    emu.execute_ins(OpCodes::Display(0, 0, 5)).unwrap();
    let drawn = emu.fb.bit_buffer.clone();
    assert_eq!(emu.frame_after(16_666), (false, false));
    assert!(emu.fb.should_update);
    assert_eq!(emu.frame_after(0), (false, false));
    assert!(emu.fb.should_update);
    assert_eq!(emu.frame_after(16_667), (true, true));
    assert!(!emu.fb.should_update);
    assert_eq!(emu.frame_after(1_000_000), (true, false));
    assert_eq!(emu.fb.bit_buffer, drawn);
}
