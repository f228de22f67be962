use chip8::{Address, Byte, ChipSettings, Display, Fault, Key, Keyboard, Ram, Register, RegisterFile, Stack, Timers};
use chip8::{IndexRegister, ProgramCounter};

#[test]
fn stack_is_last_in_first_out() {
    let mut stack = Stack::new();
    for k in 0..16u16 {
        assert_eq!(stack.push(Address::new(0x100 + k * 2)), Ok(()));
    }
    assert_eq!(stack.len(), 16);
    for k in (0..16u16).rev() {
        let a = stack.pop().expect("an address");
        assert_eq!(a.as_u16(), 0x100 + k * 2);
    }
    assert!(stack.pop().is_none());
}

#[test]
fn stack_seventeenth_push_fails() {
    let mut stack = Stack::new();
    for k in 0..16u16 {
        assert_eq!(stack.push(Address::new(k)), Ok(()));
    }
    assert_eq!(stack.push(Address::new(0x300)), Err(Fault::StackOverflow));
    assert_eq!(stack.len(), 16);
    assert_eq!(stack.pop().map(|a| a.as_u16()), Some(15));
}

#[test]
fn stack_pop_on_empty_fails() {
    let mut stack = Stack::new();
    assert!(stack.pop().is_none());
    assert_eq!(stack.push(Address::new(0)), Ok(()));
    assert_eq!(stack.pop().map(|a| a.as_u16()), Some(0));
    assert!(stack.pop().is_none());
}

#[test]
fn timers_count_down_to_zero() {
    let mut timers = Timers::new();
    timers.decrement();
    assert_eq!(timers.get_delay_timer(), 0);
    assert_eq!(timers.get_sound_timer(), 0);
    timers.set_delay_timer(5);
    timers.set_sound_timer(1);
    assert!(timers.is_sound_active());
    timers.decrement();
    assert_eq!(timers.get_delay_timer(), 4);
    assert_eq!(timers.get_sound_timer(), 0);
    assert!(!timers.is_sound_active());
    timers.decrement();
    assert_eq!(timers.get_sound_timer(), 0);
    assert_eq!(Timers::default().get_delay_timer(), 0);
}

#[test]
fn registers_wrap_and_keep_index() {
    let mut r = Register::new(3);
    assert_eq!(r.index(), 3);
    assert_eq!(r.value(), Byte(0));
    r.decrement();
    assert_eq!(r.value(), Byte(255));
    r.increment();
    assert_eq!(r.value(), Byte(0));
    r.load(Byte(42));
    assert_eq!(r.value(), Byte(42));
    assert_eq!(r.index(), 3);
}

#[test]
fn register_file_and_flag() {
    let mut regs = RegisterFile::new();
    regs.set(4, Byte(9));
    regs.set_flag();
    assert_eq!(regs.get(4), Byte(9));
    assert_eq!(regs.get(15), Byte(1));
    regs.clear_flag();
    assert_eq!(regs.get(15), Byte(0));
}

#[test]
fn index_register_and_program_counter_wrap() {
    let mut i = IndexRegister::new();
    assert_eq!(i.value().as_u16(), 0);
    i.load(Address::new(0xFFF));
    i.increment();
    assert_eq!(i.value().as_u16(), 0);
    let mut pc = ProgramCounter::new();
    assert_eq!(pc.value().as_u16(), 0x200);
    pc.jump(Address::new(0xFFE));
    pc.increment();
    assert_eq!(pc.as_usize(), 0);
}

#[test]
fn keyboard_press_and_release() {
    let mut kb = Keyboard::new();
    assert_eq!(kb.first_pressed(), None);
    kb.press_key(Key::KeyC);
    kb.press_key(Key::Key3);
    assert!(kb.is_pressed(3));
    assert!(kb.is_pressed(12));
    assert!(!kb.is_pressed(4));
    assert!(!kb.is_pressed(16));
    assert!(!kb.is_pressed(255));
    assert_eq!(kb.first_pressed(), Some(3));
    kb.release_key(Key::Key3);
    assert_eq!(kb.first_pressed(), Some(12));
    assert_eq!(Key::KeyF.index(), 15);
}

#[test]
fn ram_has_font_at_its_offset() {
    let ram = Ram::new();
    assert_eq!(ram.read(Address::new(0x50)), Byte(0xF0));
    assert_eq!(ram.read(Address::new(0x51)), Byte(0x90));
    assert_eq!(ram.read(Address::new(0x50 + 5 * 15 + 4)), Byte(0x80));
    assert_eq!(ram.read(Address::new(0x4F)), Byte(0));
    assert_eq!(ram.read(Address::new(0xA0)), Byte(0));
    assert_eq!(ram.read_word(&Address::new(0x50)), 0xF090);
    assert_eq!(ram.read_word_as_bytes(&Address::new(0x55)), (Byte(0x20), Byte(0x60)));
}

#[test]
fn ram_word_read_wraps_at_end() {
    let mut ram = Ram::new();
    ram.load(Address::new(0xFFF), Byte(0x12));
    ram.load(Address::new(0x000), Byte(0x34));
    assert_eq!(ram.read_word(&Address::new(0xFFF)), 0x1234);
}

#[test]
fn ram_program_load_and_size_limit() {
    let mut ram = Ram::new();
    assert_eq!(ram.load_program(&[1, 2, 3]), Ok(()));
    assert_eq!(ram.read(Address::new(0x200)), Byte(1));
    assert_eq!(ram.read(Address::new(0x202)), Byte(3));
    assert_eq!(ram.read(Address::new(0x203)), Byte(0));
    let full = vec![7u8; 4096 - 0x200];
    assert_eq!(ram.load_program(&full), Ok(()));
    assert_eq!(ram.read(Address::new(0xFFF)), Byte(7));
    let too_big = vec![9u8; 4096 - 0x200 + 1];
    assert_eq!(ram.load_program(&too_big), Err(Fault::ProgramTooLarge));
    assert_eq!(ram.read(Address::new(0x200)), Byte(7));
}

#[test]
fn draw_twice_restores_screen() {
    let mut d = Display::new();
    d.set_pixel(3, 2);
    d.set_pixel(10, 10);
    let before = d.get_display_as_bytes();
    let sprite = [0xF0, 0x90, 0x90, 0x90, 0xF0];
    d.draw_sprite(1, 1, &sprite);
    assert_ne!(d.get_display_as_bytes(), before);
    d.draw_sprite(1, 1, &sprite);
    assert_eq!(d.get_display_as_bytes(), before);
}

#[test]
fn clear_then_draw_reports_no_collision() {
    let mut d = Display::new();
    d.draw_sprite(0, 0, &[0xFF, 0xFF]);
    d.clear();
    assert!(d.get_display().iter().all(|&p| p == 0));
    assert!(!d.draw_sprite(0, 0, &[0xFF, 0xFF]));
}

#[test]
fn draw_reports_collision_on_overlap() {
    let mut d = Display::new();
    assert!(!d.draw_sprite(0, 0, &[0x80]));
    assert_eq!(d.get_pixel(0, 0), 1);
    assert!(d.draw_sprite(0, 0, &[0xC0]));
    assert_eq!(d.get_pixel(0, 0), 0);
    assert_eq!(d.get_pixel(1, 0), 1);
}

#[test]
fn draw_clips_at_edges_by_default() {
    let mut d = Display::new();
    d.draw_sprite(60, 31, &[0xFF, 0xFF]);
    for x in 60..64 {
        assert_eq!(d.get_pixel(x, 31), 1);
    }
    for x in 0..4 {
        assert_eq!(d.get_pixel(x, 31), 0);
        assert_eq!(d.get_pixel(x, 0), 0);
    }
    assert_eq!(d.get_pixel(60, 0), 0);
}

#[test]
fn draw_wraps_when_configured() {
    let mut d = Display::with_wrap(true);
    d.draw_sprite(60, 31, &[0xFF, 0xFF]);
    for x in 60..64 {
        assert_eq!(d.get_pixel(x, 31), 1);
        assert_eq!(d.get_pixel(x, 0), 1);
    }
    for x in 0..4 {
        assert_eq!(d.get_pixel(x, 31), 1);
        assert_eq!(d.get_pixel(x, 0), 1);
    }
    assert_eq!(d.get_pixel(4, 31), 0);
}

#[test]
fn draw_position_is_taken_modulo_screen() {
    let mut d = Display::new();
    d.draw_sprite(64 + 2, 32 + 1, &[0x80]);
    assert_eq!(d.get_pixel(2, 1), 1);
    d.unset_pixel(2, 1);
    assert_eq!(d.get_pixel(2, 1), 0);
}

#[test]
fn settings_complete_window_size() {
    assert_eq!(ChipSettings::fix_size((0, 0)), (640, 320));
    assert_eq!(ChipSettings::fix_size((100, 0)), (64, 32));
    assert_eq!(ChipSettings::fix_size((0, 100)), (192, 96));
    assert_eq!(ChipSettings::fix_size((300, 200)), (300, 200));
    assert_eq!(ChipSettings::fix_colors(1, 1), (1, 1));
    let s = ChipSettings::new(String::from("game.ch8"), (0, 64), 500, 60, (0xFFFFFF, 0), true, false);
    assert_eq!(s.size(), (128, 64));
    assert_eq!(s.rom(), "game.ch8");
    assert_eq!(s.cpu_rate(), 500);
    assert_eq!(s.timers_rate(), 60);
    assert_eq!(s.colors(), (0xFFFFFF, 0));
    assert!(s.swap_yz());
    assert!(!s.beep());
}
