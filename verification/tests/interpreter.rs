use chip8::ChipState;
use chip8::Fault;

fn no_keys() -> [bool; 16] {
    [false; 16]
}

#[test]
fn new_zeroes_all_state() {
    let s = ChipState::new(700);
    assert_eq!(s.program_counter(), 0x200);
    assert_eq!(s.stack_pointer(), 0);
    assert_eq!(s.index(), 0);
    assert_eq!(s.delay_timer(), 0);
    assert_eq!(s.sound_timer(), 0);
    assert!(!s.buzzer_active());
    for x in 0..16 {
        assert_eq!(s.register(x), 0);
    }
    assert_eq!(s.memory_at(0), 0);
    assert_eq!(s.memory_at(0x200), 0);
    assert_eq!(s.memory_at(4095), 0);
    for row in 0..32 {
        for col in 0..64 {
            assert!(!s.display().pixel(row, col));
        }
    }
}

#[test]
fn speed_is_nanoseconds_per_cycle() {
    assert_eq!(ChipState::new(700).speed(), 1_428_571);
    assert_eq!(ChipState::new(1).speed(), 1_000_000_000);
    assert_eq!(ChipState::new(60).speed(), 16_666_666);
}

#[test]
fn load_copies_program_at_origin() {
    let s = ChipState::new(700)
        .load(&vec![0x12, 0x34, 0x56])
        .unwrap();
    assert_eq!(s.memory_at(0x1FF), 0);
    assert_eq!(s.memory_at(0x200), 0x12);
    assert_eq!(s.memory_at(0x201), 0x34);
    assert_eq!(s.memory_at(0x202), 0x56);
    assert_eq!(s.memory_at(0x203), 0);
}

#[test]
fn load_rejects_oversized_program() {
    let r = ChipState::new(700).load(&vec![0xAA; 3585]);
    assert!(matches!(r, Err(Fault::OutOfBounds)));
    let s = ChipState::new(700).load(&vec![0xAA; 3584]).unwrap();
    assert_eq!(s.memory_at(4095), 0xAA);
}

#[test]
fn load_imm_sets_register_exactly() {
    let mut s = ChipState::new(700);
    assert!(matches!(s.execute(0x6A42, &no_keys()), Ok(None)));
    assert_eq!(s.register(0xA), 0x42);
    for x in 0..16 {
        if x != 0xA {
            assert_eq!(s.register(x), 0);
        }
    }
}

#[test]
fn add_imm_wraps_modulo_256() {
    let mut s = ChipState::new(700);
    s.execute(0x64FA, &no_keys()).unwrap();
    s.execute(0x7410, &no_keys()).unwrap();
    assert_eq!(s.register(4), 10);
}

#[test]
fn add_imm_leaves_flag_alone() {
    let mut s = ChipState::new(700);
    s.execute(0x6F01, &no_keys()).unwrap();
    s.execute(0x630A, &no_keys()).unwrap();
    s.execute(0x7305, &no_keys()).unwrap();
    assert_eq!(s.register(3), 15);
    assert_eq!(s.register(0xF), 1);
}

#[test]
fn jump_sets_program_counter() {
    let mut s = ChipState::new(700);
    assert!(matches!(s.execute(0x1ABC, &no_keys()), Ok(None)));
    assert_eq!(s.program_counter(), 0xABC);
}

#[test]
fn call_then_ret_round_trips() {
    let mut s = ChipState::new(700);
    assert!(matches!(s.execute(0x2400, &no_keys()), Ok(None)));
    assert_eq!(s.program_counter(), 0x400);
    assert_eq!(s.stack_pointer(), 1);
    assert!(matches!(s.execute(0x00EE, &no_keys()), Ok(None)));
    assert_eq!(s.program_counter(), 0x200);
    assert_eq!(s.stack_pointer(), 0);
}

#[test]
fn ret_on_empty_stack_is_fatal() {
    let mut s = ChipState::new(700);
    let r = s.execute(0x00EE, &no_keys());
    assert!(matches!(r, Err(Fault::StackUnderflow)));
    assert_eq!(s.stack_pointer(), 0);
    assert_eq!(s.program_counter(), 0x200);
}

#[test]
fn call_beyond_stack_depth_is_fatal() {
    let mut s = ChipState::new(700);
    for _ in 0..15 {
        s.execute(0x2300, &no_keys()).unwrap();
    }
    assert_eq!(s.stack_pointer(), 15);
    let r = s.execute(0x2300, &no_keys());
    assert!(matches!(r, Err(Fault::StackOverflow)));
    assert_eq!(s.stack_pointer(), 15);
}

#[test]
fn skip_eq_imm_skips_only_on_equal() {
    let mut s = ChipState::new(700);
    s.execute(0x6305, &no_keys()).unwrap();
    s.execute(0x3305, &no_keys()).unwrap();
    assert_eq!(s.program_counter(), 0x202);
    s.execute(0x3306, &no_keys()).unwrap();
    assert_eq!(s.program_counter(), 0x202);
}

#[test]
fn skip_ne_imm_skips_only_on_different() {
    let mut s = ChipState::new(700);
    s.execute(0x6305, &no_keys()).unwrap();
    s.execute(0x4305, &no_keys()).unwrap();
    assert_eq!(s.program_counter(), 0x200);
    s.execute(0x4306, &no_keys()).unwrap();
    assert_eq!(s.program_counter(), 0x202);
}

#[test]
fn alu_move_or_and_xor() {
    let mut s = ChipState::new(700);
    s.execute(0x6133, &no_keys()).unwrap();
    s.execute(0x8210, &no_keys()).unwrap();
    assert_eq!(s.register(2), 0x33);
    s.execute(0x630F, &no_keys()).unwrap();
    s.execute(0x64F0, &no_keys()).unwrap();
    s.execute(0x8341, &no_keys()).unwrap();
    assert_eq!(s.register(3), 0xFF);
    s.execute(0x650F, &no_keys()).unwrap();
    s.execute(0x663C, &no_keys()).unwrap();
    s.execute(0x8562, &no_keys()).unwrap();
    assert_eq!(s.register(5), 0x0C);
    s.execute(0x670F, &no_keys()).unwrap();
    s.execute(0x683C, &no_keys()).unwrap();
    s.execute(0x8783, &no_keys()).unwrap();
    assert_eq!(s.register(7), 0x33);
}

#[test]
fn alu_add_sets_carry_flag() {
    let mut s = ChipState::new(700);
    s.execute(0x61C8, &no_keys()).unwrap();
    s.execute(0x6264, &no_keys()).unwrap();
    s.execute(0x8124, &no_keys()).unwrap();
    assert_eq!(s.register(1), 44);
    assert_eq!(s.register(0xF), 1);
    s.execute(0x630A, &no_keys()).unwrap();
    s.execute(0x6414, &no_keys()).unwrap();
    s.execute(0x8344, &no_keys()).unwrap();
    assert_eq!(s.register(3), 30);
    assert_eq!(s.register(0xF), 0);
}

#[test]
fn alu_sub_sets_no_borrow_flag() {
    let mut s = ChipState::new(700);
    s.execute(0x611E, &no_keys()).unwrap();
    s.execute(0x620A, &no_keys()).unwrap();
    s.execute(0x8125, &no_keys()).unwrap();
    assert_eq!(s.register(1), 20);
    assert_eq!(s.register(0xF), 1);
    s.execute(0x630A, &no_keys()).unwrap();
    s.execute(0x641E, &no_keys()).unwrap();
    s.execute(0x8345, &no_keys()).unwrap();
    assert_eq!(s.register(3), 236);
    assert_eq!(s.register(0xF), 0);
}

#[test]
fn alu_subn_subtracts_reversed() {
    let mut s = ChipState::new(700);
    s.execute(0x610A, &no_keys()).unwrap();
    s.execute(0x621E, &no_keys()).unwrap();
    s.execute(0x8127, &no_keys()).unwrap();
    assert_eq!(s.register(1), 20);
    assert_eq!(s.register(0xF), 1);
    s.execute(0x631E, &no_keys()).unwrap();
    s.execute(0x640A, &no_keys()).unwrap();
    s.execute(0x8347, &no_keys()).unwrap();
    assert_eq!(s.register(3), 236);
    assert_eq!(s.register(0xF), 0);
}

#[test]
fn alu_shift_right_keeps_dropped_bit() {
    let mut s = ChipState::new(700);
    s.execute(0x6105, &no_keys()).unwrap();
    s.execute(0x8106, &no_keys()).unwrap();
    assert_eq!(s.register(1), 2);
    assert_eq!(s.register(0xF), 1);
    s.execute(0x6204, &no_keys()).unwrap();
    s.execute(0x8206, &no_keys()).unwrap();
    assert_eq!(s.register(2), 2);
    assert_eq!(s.register(0xF), 0);
}

#[test]
fn alu_shift_left_keeps_dropped_bit() {
    let mut s = ChipState::new(700);
    s.execute(0x6181, &no_keys()).unwrap();
    s.execute(0x810E, &no_keys()).unwrap();
    assert_eq!(s.register(1), 2);
    assert_eq!(s.register(0xF), 1);
    s.execute(0x6241, &no_keys()).unwrap();
    s.execute(0x820E, &no_keys()).unwrap();
    assert_eq!(s.register(2), 0x82);
    assert_eq!(s.register(0xF), 0);
}

#[test]
fn load_index_and_add_index() {
    let mut s = ChipState::new(700);
    s.execute(0xA123, &no_keys()).unwrap();
    assert_eq!(s.index(), 0x123);
    s.execute(0x6305, &no_keys()).unwrap();
    s.execute(0xF31E, &no_keys()).unwrap();
    assert_eq!(s.index(), 0x128);
}

#[test]
fn font_addr_points_at_glyph() {
    let mut s = ChipState::new(700);
    s.execute(0x6307, &no_keys()).unwrap();
    s.execute(0xF329, &no_keys()).unwrap();
    assert_eq!(s.index(), 35);
    s.execute(0x63AB, &no_keys()).unwrap();
    s.execute(0xF329, &no_keys()).unwrap();
    assert_eq!(s.index(), 55);
}

#[test]
fn bcd_decomposes_decimal_digits() {
    let mut s = ChipState::new(700);
    s.execute(0x63EA, &no_keys()).unwrap();
    s.execute(0xA300, &no_keys()).unwrap();
    assert!(matches!(s.execute(0xF333, &no_keys()), Ok(None)));
    assert_eq!(s.memory_at(0x300), 2);
    assert_eq!(s.memory_at(0x301), 3);
    assert_eq!(s.memory_at(0x302), 4);
}

#[test]
fn store_and_load_register_block() {
    let mut s = ChipState::new(700);
    s.execute(0x6011, &no_keys()).unwrap();
    s.execute(0x6122, &no_keys()).unwrap();
    s.execute(0x6233, &no_keys()).unwrap();
    s.execute(0xA400, &no_keys()).unwrap();
    s.execute(0xF255, &no_keys()).unwrap();
    assert_eq!(s.memory_at(0x400), 0x11);
    assert_eq!(s.memory_at(0x401), 0x22);
    assert_eq!(s.memory_at(0x402), 0x33);
    assert_eq!(s.memory_at(0x403), 0);
    s.execute(0x6000, &no_keys()).unwrap();
    s.execute(0x6100, &no_keys()).unwrap();
    s.execute(0x6200, &no_keys()).unwrap();
    s.execute(0xF265, &no_keys()).unwrap();
    assert_eq!(s.register(0), 0x11);
    assert_eq!(s.register(1), 0x22);
    assert_eq!(s.register(2), 0x33);
    assert_eq!(s.register(3), 0);
}

#[test]
fn register_block_past_memory_end_is_fatal() {
    let mut s = ChipState::new(700);
    s.execute(0xAFFF, &no_keys()).unwrap();
    assert!(matches!(s.execute(0xF155, &no_keys()), Err(Fault::OutOfBounds)));
    assert!(matches!(s.execute(0xF165, &no_keys()), Err(Fault::OutOfBounds)));
    assert_eq!(s.memory_at(0xFFF), 0);
}

#[test]
fn bcd_past_memory_end_is_fatal() {
    let mut s = ChipState::new(700);
    s.execute(0xAFFE, &no_keys()).unwrap();
    assert!(matches!(s.execute(0xF333, &no_keys()), Err(Fault::OutOfBounds)));
}

#[test]
fn timers_set_read_and_tick_down() {
    let mut s = ChipState::new(700);
    s.execute(0x6302, &no_keys()).unwrap();
    s.execute(0xF315, &no_keys()).unwrap();
    assert_eq!(s.delay_timer(), 2);
    s.execute(0xF407, &no_keys()).unwrap();
    assert_eq!(s.register(4), 2);
    s.execute(0xF318, &no_keys()).unwrap();
    assert_eq!(s.sound_timer(), 2);
    assert!(s.buzzer_active());
    s.tick_timers();
    assert_eq!(s.delay_timer(), 1);
    assert!(s.buzzer_active());
    s.tick_timers();
    assert_eq!(s.delay_timer(), 0);
    assert_eq!(s.sound_timer(), 0);
    assert!(!s.buzzer_active());
    s.tick_timers();
    assert_eq!(s.delay_timer(), 0);
    assert_eq!(s.sound_timer(), 0);
}

#[test]
fn key_skips_follow_key_state() {
    let mut keys = [false; 16];
    keys[5] = true;
    let mut s = ChipState::new(700);
    s.execute(0x6305, &no_keys()).unwrap();
    s.execute(0xE39E, &keys).unwrap();
    assert_eq!(s.program_counter(), 0x202);
    s.execute(0xE3A1, &keys).unwrap();
    assert_eq!(s.program_counter(), 0x202);
    s.execute(0xE39E, &no_keys()).unwrap();
    assert_eq!(s.program_counter(), 0x202);
    s.execute(0xE3A1, &no_keys()).unwrap();
    assert_eq!(s.program_counter(), 0x204);
}

#[test]
fn key_skip_uses_low_nibble_of_register() {
    let mut keys = [false; 16];
    keys[2] = true;
    let mut s = ChipState::new(700);
    s.execute(0x6312, &no_keys()).unwrap();
    s.execute(0xE39E, &keys).unwrap();
    assert_eq!(s.program_counter(), 0x202);
}

#[test]
fn unknown_instruction_is_fatal_and_carries_the_word() {
    let mut s = ChipState::new(700);
    assert!(matches!(s.execute(0x5120, &no_keys()), Err(Fault::UnknownInstruction(0x5120))));
    assert!(matches!(s.execute(0xFFFF, &no_keys()), Err(Fault::UnknownInstruction(0xFFFF))));
    assert!(matches!(s.execute(0x0001, &no_keys()), Err(Fault::UnknownInstruction(0x0001))));
    assert_eq!(s.program_counter(), 0x200);
}

#[test]
fn nop_changes_nothing() {
    let mut s = ChipState::new(700);
    assert!(matches!(s.execute(0x0000, &no_keys()), Ok(None)));
    assert_eq!(s.program_counter(), 0x200);
    assert_eq!(s.stack_pointer(), 0);
}

#[test]
fn step_fetches_big_endian_and_advances() {
    let mut s = ChipState::new(700).load(&vec![0x6A, 0x42]).unwrap();
    let r = s.step(&no_keys());
    assert!(matches!(r, Ok(None)));
    assert_eq!(s.program_counter(), 0x202);
    assert_eq!(s.register(0xA), 0x42);
}

#[test]
fn step_scenario_clear_then_jump_loops() {
    let mut s = ChipState::new(700)
        .load(&vec![0x00, 0xE0, 0x12, 0x00])
        .unwrap();
    let first = s.step(&no_keys());
    assert!(matches!(first, Ok(Some(_))));
    assert_eq!(s.program_counter(), 0x202);
    for row in 0..32 {
        for col in 0..64 {
            assert!(!s.display().pixel(row, col));
        }
    }
    let second = s.step(&no_keys());
    assert!(matches!(second, Ok(None)));
    assert_eq!(s.program_counter(), 0x200);
}

#[test]
fn step_past_memory_end_is_fatal() {
    let mut s = ChipState::new(700);
    s.execute(0x1FFF, &no_keys()).unwrap();
    let r = s.step(&no_keys());
    assert!(matches!(r, Err(Fault::OutOfBounds)));
    assert_eq!(s.program_counter(), 0xFFF);
}

#[test]
fn step_surfaces_execute_faults() {
    let mut s = ChipState::new(700).load(&vec![0x00, 0xEE]).unwrap();
    let r = s.step(&no_keys());
    assert!(matches!(r, Err(Fault::StackUnderflow)));
    assert_eq!(s.program_counter(), 0x202);
}
