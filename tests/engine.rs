use chip8::{decode, Address, Cpu, Fault, Instruction, Key, Nibble, Quirks, Byte};

fn machine(program: &[u8]) -> Cpu {
    let mut cpu = Cpu::new(Quirks::new());
    assert_eq!(cpu.load_program(program), Ok(()));
    cpu
}

fn machine_with(quirks: Quirks, program: &[u8]) -> Cpu {
    let mut cpu = Cpu::new(quirks);
    assert_eq!(cpu.load_program(program), Ok(()));
    cpu
}

#[test]
fn decode_base_instructions() {
    assert_eq!(decode(0x00E0), Ok(Instruction::CLS));
    assert_eq!(decode(0x00EE), Ok(Instruction::RET));
    assert_eq!(decode(0x0123), Ok(Instruction::SYS(Address::new(0x123))));
    assert_eq!(decode(0x1234), Ok(Instruction::JP(Address::new(0x234))));
    assert_eq!(decode(0x2ABC), Ok(Instruction::CALL(Address::new(0xABC))));
    assert_eq!(decode(0x3A12), Ok(Instruction::SE(10, Byte(0x12))));
    assert_eq!(decode(0x5AB0), Ok(Instruction::SEV(10, 11)));
    assert_eq!(decode(0x8AB4), Ok(Instruction::ADDV(10, 11)));
    assert_eq!(decode(0x8ABE), Ok(Instruction::SHL(10, 11)));
    assert_eq!(decode(0xA123), Ok(Instruction::LDI(Address::new(0x123))));
    assert_eq!(decode(0xB123), Ok(Instruction::JPVX(1, Address::new(0x123))));
    assert_eq!(decode(0xC3FF), Ok(Instruction::RND(3, Byte(0xFF))));
    assert_eq!(decode(0xD125), Ok(Instruction::DRW(1, 2, Nibble(5))));
    assert_eq!(decode(0xE19E), Ok(Instruction::SKP(1)));
    assert_eq!(decode(0xE1A1), Ok(Instruction::SKNP(1)));
    assert_eq!(decode(0xF00A), Ok(Instruction::LDK(0)));
    assert_eq!(decode(0xF733), Ok(Instruction::LDB(7)));
    assert_eq!(decode(0xF765), Ok(Instruction::LDVI(7)));
}

#[test]
fn decode_extended_instructions() {
    assert_eq!(decode(0x00C4), Ok(Instruction::SCU(Nibble(4))));
    assert_eq!(decode(0x00FB), Ok(Instruction::SCR));
    assert_eq!(decode(0x00FF), Ok(Instruction::HIGH));
    assert_eq!(decode(0xD120), Ok(Instruction::DRW0(1, 2)));
    assert_eq!(decode(0xF130), Ok(Instruction::LDHF(1)));
    assert_eq!(decode(0xF285), Ok(Instruction::LDRV(2)));
}

#[test]
fn decode_rejects_malformed_words() {
    assert_eq!(decode(0x8AB8), Err(Fault::InvalidOpcode(0x8AB8)));
    assert_eq!(decode(0xE1FF), Err(Fault::InvalidOpcode(0xE1FF)));
    assert_eq!(decode(0xFFFF), Err(Fault::InvalidOpcode(0xFFFF)));
}

#[test]
fn end_to_end_add_registers() {
    let mut cpu = machine(&[0x60, 0x0A, 0x61, 0x05, 0x80, 0x14]);
    for _ in 0..3 {
        assert_eq!(cpu.cycle(), Ok(()));
    }
    assert_eq!(cpu.register(0), 0x0F);
    assert_eq!(cpu.register(15), 0);
    assert_eq!(cpu.program_counter(), 0x206);
}

#[test]
fn end_to_end_repeated_calls_overflow_the_stack() {
    let mut cpu = machine(&[0x22, 0x00, 0x22, 0x00]);
    for _ in 0..16 {
        assert_eq!(cpu.cycle(), Ok(()));
        assert_eq!(cpu.program_counter(), 0x200);
    }
    assert_eq!(cpu.cycle(), Err(Fault::StackOverflow));
}

#[test]
fn end_to_end_return_past_calls_underflows() {
    let mut cpu = machine(&[0x22, 0x04, 0x00, 0xEE, 0x00, 0xEE]);
    assert_eq!(cpu.cycle(), Ok(()));
    assert_eq!(cpu.program_counter(), 0x204);
    assert_eq!(cpu.cycle(), Ok(()));
    assert_eq!(cpu.program_counter(), 0x202);
    assert_eq!(cpu.cycle(), Err(Fault::StackUnderflow));
}

#[test]
fn return_on_empty_stack_underflows() {
    let mut cpu = machine(&[0x00, 0xEE]);
    assert_eq!(cpu.cycle(), Err(Fault::StackUnderflow));
}

#[test]
fn key_wait_parks_then_resumes() {
    let mut cpu = machine(&[0xF2, 0x0A, 0x60, 0x01]);
    assert_eq!(cpu.cycle(), Ok(()));
    assert_eq!(cpu.program_counter(), 0x202);
    assert!(cpu.is_waiting_for_key());
    assert_eq!(cpu.cycle(), Ok(()));
    assert_eq!(cpu.program_counter(), 0x202);
    assert!(cpu.is_waiting_for_key());
    assert_eq!(cpu.register(2), 0);
    cpu.press_key(Key::Key3);
    assert_eq!(cpu.cycle(), Ok(()));
    assert_eq!(cpu.register(2), 3);
    assert!(!cpu.is_waiting_for_key());
    assert_eq!(cpu.program_counter(), 0x202);
    assert_eq!(cpu.cycle(), Ok(()));
    assert_eq!(cpu.register(0), 1);
    assert_eq!(cpu.program_counter(), 0x204);
}

#[test]
fn key_wait_takes_lowest_key() {
    let mut cpu = machine(&[0xF5, 0x0A]);
    cpu.press_key(Key::KeyE);
    cpu.press_key(Key::Key7);
    assert_eq!(cpu.cycle(), Ok(()));
    assert_eq!(cpu.register(5), 7);
    assert!(!cpu.is_waiting_for_key());
    cpu.release_key(Key::Key7);
}

#[test]
fn add_with_carry_sets_flag() {
    let mut cpu = machine(&[0x60, 0xFF, 0x61, 0x01, 0x80, 0x14]);
    for _ in 0..3 {
        assert_eq!(cpu.cycle(), Ok(()));
    }
    assert_eq!(cpu.register(0), 0);
    assert_eq!(cpu.register(15), 1);
}

#[test]
fn add_byte_leaves_flag_alone() {
    let mut cpu = machine(&[0x6F, 0x01, 0x60, 0x02, 0x70, 0xFF]);
    for _ in 0..3 {
        assert_eq!(cpu.cycle(), Ok(()));
    }
    assert_eq!(cpu.register(0), 1);
    assert_eq!(cpu.register(15), 1);
}

#[test]
fn subtract_flags_report_no_borrow() {
    let mut cpu = machine(&[0x60, 0x05, 0x61, 0x03, 0x80, 0x15, 0x62, 0x01, 0x63, 0x02, 0x82, 0x35]);
    for _ in 0..3 {
        assert_eq!(cpu.cycle(), Ok(()));
    }
    assert_eq!(cpu.register(0), 2);
    assert_eq!(cpu.register(15), 1);
    for _ in 0..3 {
        assert_eq!(cpu.cycle(), Ok(()));
    }
    assert_eq!(cpu.register(2), 0xFF);
    assert_eq!(cpu.register(15), 0);
}

#[test]
fn reverse_subtract() {
    let mut cpu = machine(&[0x60, 0x03, 0x61, 0x05, 0x80, 0x17]);
    for _ in 0..3 {
        assert_eq!(cpu.cycle(), Ok(()));
    }
    assert_eq!(cpu.register(0), 2);
    assert_eq!(cpu.register(15), 1);
}

#[test]
fn shifts_read_second_register_by_default() {
    let mut cpu = machine(&[0x60, 0x00, 0x61, 0x03, 0x80, 0x16, 0x62, 0x81, 0x83, 0x2E]);
    for _ in 0..3 {
        assert_eq!(cpu.cycle(), Ok(()));
    }
    assert_eq!(cpu.register(0), 1);
    assert_eq!(cpu.register(15), 1);
    for _ in 0..2 {
        assert_eq!(cpu.cycle(), Ok(()));
    }
    assert_eq!(cpu.register(3), 0x02);
    assert_eq!(cpu.register(15), 1);
}

#[test]
fn shifts_read_own_register_when_configured() {
    let quirks = Quirks { shift_reads_vy: false, ..Quirks::new() };
    let mut cpu = machine_with(quirks, &[0x60, 0x04, 0x61, 0x03, 0x80, 0x16]);
    for _ in 0..3 {
        assert_eq!(cpu.cycle(), Ok(()));
    }
    assert_eq!(cpu.register(0), 2);
    assert_eq!(cpu.register(15), 0);
}

#[test]
fn logic_ops_and_flag_quirk() {
    let program = [0x6F, 0x07, 0x60, 0x0C, 0x61, 0x0A, 0x80, 0x11];
    let mut cpu = machine(&program);
    for _ in 0..4 {
        assert_eq!(cpu.cycle(), Ok(()));
    }
    assert_eq!(cpu.register(0), 0x0E);
    assert_eq!(cpu.register(15), 7);
    let quirks = Quirks { logic_clears_flag: true, ..Quirks::default() };
    let mut cpu = machine_with(quirks, &program);
    for _ in 0..4 {
        assert_eq!(cpu.cycle(), Ok(()));
    }
    assert_eq!(cpu.register(0), 0x0E);
    assert_eq!(cpu.register(15), 0);
}

#[test]
fn jump_with_offset_and_quirk() {
    let program = [0x60, 0x04, 0x61, 0x10, 0xB1, 0x00];
    let mut cpu = machine(&program);
    for _ in 0..3 {
        assert_eq!(cpu.cycle(), Ok(()));
    }
    assert_eq!(cpu.program_counter(), 0x104);
    let quirks = Quirks { jump_uses_vx: true, ..Quirks::new() };
    let mut cpu = machine_with(quirks, &program);
    for _ in 0..3 {
        assert_eq!(cpu.cycle(), Ok(()));
    }
    assert_eq!(cpu.program_counter(), 0x110);
}

#[test]
fn skips_compare_registers_and_bytes() {
    let mut cpu = machine(&[0x60, 0x05, 0x30, 0x05, 0x00, 0x00, 0x40, 0x05, 0x61, 0x05, 0x50, 0x10]);
    assert_eq!(cpu.cycle(), Ok(()));
    assert_eq!(cpu.cycle(), Ok(()));
    assert_eq!(cpu.program_counter(), 0x206);
    assert_eq!(cpu.cycle(), Ok(()));
    assert_eq!(cpu.program_counter(), 0x208);
    assert_eq!(cpu.cycle(), Ok(()));
    assert_eq!(cpu.cycle(), Ok(()));
    assert_eq!(cpu.program_counter(), 0x20E);
}

#[test]
fn key_skips() {
    let mut cpu = machine(&[0x60, 0x03, 0xE0, 0x9E, 0x00, 0x00, 0xE0, 0xA1]);
    cpu.press_key(Key::Key3);
    assert_eq!(cpu.cycle(), Ok(()));
    assert_eq!(cpu.cycle(), Ok(()));
    assert_eq!(cpu.program_counter(), 0x206);
    assert_eq!(cpu.cycle(), Ok(()));
    assert_eq!(cpu.program_counter(), 0x208);
}

#[test]
fn random_byte_is_masked() {
    let mut cpu = machine(&[0xC0, 0x0F, 0xC1, 0xF0]);
    assert_eq!(cpu.step(0x35), Ok(()));
    assert_eq!(cpu.register(0), 0x05);
    assert_eq!(cpu.step(0xFF), Ok(()));
    assert_eq!(cpu.register(1), 0xF0);
    let mut cpu = machine(&[0xC0, 0x0F]);
    assert_eq!(cpu.cycle(), Ok(()));
    assert!(cpu.register(0) <= 0x0F);
}

#[test]
fn font_sprite_draw_and_collision() {
    let mut cpu = machine(&[0x60, 0x00, 0xF0, 0x29, 0xD0, 0x05, 0xD0, 0x05, 0x00, 0xE0]);
    assert_eq!(cpu.cycle(), Ok(()));
    assert_eq!(cpu.cycle(), Ok(()));
    assert_eq!(cpu.index_register(), 0x50);
    assert_eq!(cpu.cycle(), Ok(()));
    assert_eq!(cpu.register(15), 0);
    let screen = cpu.get_display();
    assert_eq!(&screen[0..8], &[1, 1, 1, 1, 0, 0, 0, 0]);
    assert_eq!(&screen[64..72], &[1, 0, 0, 1, 0, 0, 0, 0]);
    assert_eq!(cpu.cycle(), Ok(()));
    assert_eq!(cpu.register(15), 1);
    assert!(cpu.get_display().iter().all(|&p| p == 0));
    assert_eq!(cpu.cycle(), Ok(()));
    assert!(cpu.get_display().iter().all(|&p| p == 0));
}

#[test]
fn timers_through_instructions() {
    let mut cpu = machine(&[0x60, 0x05, 0xF0, 0x15, 0xF0, 0x18, 0xF1, 0x07]);
    for _ in 0..4 {
        assert_eq!(cpu.cycle(), Ok(()));
    }
    assert_eq!(cpu.register(1), 5);
    assert!(cpu.should_beep());
    cpu.update_timers();
    assert_eq!(cpu.delay_timer(), 4);
    assert_eq!(cpu.sound_timer(), 4);
    for _ in 0..10 {
        cpu.update_timers();
    }
    assert_eq!(cpu.delay_timer(), 0);
    assert!(!cpu.should_beep());
}

#[test]
fn bcd_and_register_transfer() {
    let mut cpu = machine(&[
        0x60, 0xFE, 0xA3, 0x00, 0xF0, 0x33, 0xF2, 0x65, 0xA3, 0x10, 0xF2, 0x55,
    ]);
    for _ in 0..4 {
        assert_eq!(cpu.cycle(), Ok(()));
    }
    assert_eq!(cpu.read_memory(0x300), 2);
    assert_eq!(cpu.read_memory(0x301), 5);
    assert_eq!(cpu.read_memory(0x302), 4);
    assert_eq!(cpu.register(0), 2);
    assert_eq!(cpu.register(1), 5);
    assert_eq!(cpu.register(2), 4);
    assert_eq!(cpu.index_register(), 0x303);
    assert_eq!(cpu.cycle(), Ok(()));
    assert_eq!(cpu.cycle(), Ok(()));
    assert_eq!(cpu.read_memory(0x310), 2);
    assert_eq!(cpu.read_memory(0x312), 4);
    assert_eq!(cpu.read_memory(0x313), 0);
    assert_eq!(cpu.index_register(), 0x313);
}

#[test]
fn index_add_wraps() {
    let mut cpu = machine(&[0xAF, 0xFF, 0x60, 0x02, 0xF0, 0x1E]);
    for _ in 0..3 {
        assert_eq!(cpu.cycle(), Ok(()));
    }
    assert_eq!(cpu.index_register(), 0x001);
}

#[test]
fn extended_and_malformed_opcodes_are_fatal() {
    let mut cpu = machine(&[0x00, 0xFB]);
    assert_eq!(cpu.cycle(), Err(Fault::Unsupported(Instruction::SCR)));
    let mut cpu = machine(&[0xFF, 0xFF]);
    assert_eq!(cpu.cycle(), Err(Fault::InvalidOpcode(0xFFFF)));
}

#[test]
fn program_too_large_is_refused() {
    let mut cpu = Cpu::new(Quirks::new());
    let big = vec![0u8; 4096 - 0x200 + 1];
    assert_eq!(cpu.load_program(&big), Err(Fault::ProgramTooLarge));
}

#[test]
fn fetch_at_end_of_memory_wraps() {
    let mut cpu = machine(&[0x1F, 0xFF]);
    assert_eq!(cpu.cycle(), Ok(()));
    assert_eq!(cpu.program_counter(), 0xFFF);
    assert_eq!(cpu.cycle(), Ok(()));
    assert_eq!(cpu.program_counter(), 0x000);
}

#[test]
fn return_at_program_start_underflows() {
    let mut cpu = machine(&[0x00, 0xEE, 0x22, 0x00, 0x22, 0x00]);
    assert_eq!(cpu.cycle(), Err(Fault::StackUnderflow));
}
