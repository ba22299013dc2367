use chip8::bus::Bus;
use chip8::keyboard::Keyboard;
use chip8::ram::Ram;

#[test]
fn memory_starts_with_the_font() {
    let ram = Ram::new();
    let font: [u8; 80] = [
        0xF0, 0x90, 0x90, 0x90, 0xF0, 0x20, 0x60, 0x20, 0x20, 0x70, 0xF0, 0x10, 0xF0, 0x80, 0xF0,
        0xF0, 0x10, 0xF0, 0x10, 0xF0, 0x90, 0x90, 0xF0, 0x10, 0x10, 0xF0, 0x80, 0xF0, 0x10, 0xF0,
        0xF0, 0x80, 0xF0, 0x90, 0xF0, 0xF0, 0x10, 0x20, 0x40, 0x40, 0xF0, 0x90, 0xF0, 0x90, 0xF0,
        0xF0, 0x90, 0xF0, 0x10, 0xF0, 0xF0, 0x90, 0xF0, 0x90, 0x90, 0xE0, 0x90, 0xE0, 0x90, 0xE0,
        0xF0, 0x80, 0x80, 0x80, 0xF0, 0xE0, 0x90, 0x90, 0x90, 0xE0, 0xF0, 0x80, 0xF0, 0x80, 0xF0,
        0xF0, 0x80, 0xF0, 0x80, 0x80,
    ];
    assert_eq!(ram.mem[..80], font);
    assert!(ram.mem[80..].iter().all(|b| *b == 0));
}

#[test]
fn memory_reads_back_what_was_written() {
    let mut ram = Ram::new();
    ram.write_byte(0x000, 0x12);
    ram.write_byte(0x200, 0x34);
    ram.write_byte(0xFFF, 0x56);
    assert_eq!(ram.read_byte(0x000), 0x12);
    assert_eq!(ram.read_byte(0x200), 0x34);
    assert_eq!(ram.read_byte(0xFFF), 0x56);
    assert_eq!(ram.read_byte(0x001), 0x90);
    assert_eq!(ram.read_byte(0x201), 0x00);
}

#[test]
fn bus_memory_reads_back_what_was_written() {
    let mut bus = Bus::new();
    bus.ram_write_byte(0x456, 0x9A);
    assert_eq!(bus.ram_read_byte(0x456), 0x9A);
    assert_eq!(bus.ram_read_byte(0x457), 0);
    assert_eq!(bus.ram_read_byte(50), 0xF0);
}

#[test]
fn keys_start_released() {
    let keyboard = Keyboard::new();
    for key in 0..=255u8 {
        assert!(!keyboard.is_key_pressed(key));
    }
    assert_eq!(keyboard.get_key_pressed(), None);
}

#[test]
fn keys_are_held_and_released() {
    let mut keyboard = Keyboard::new();
    keyboard.set_key(0x7, true);
    assert!(keyboard.is_key_pressed(0x7));
    assert!(!keyboard.is_key_pressed(0x6));
    assert_eq!(keyboard.get_key_pressed(), Some(0x7));
    keyboard.set_key(0x2, true);
    assert_eq!(keyboard.get_key_pressed(), Some(0x2));
    keyboard.set_key(0x2, false);
    assert_eq!(keyboard.get_key_pressed(), Some(0x7));
    keyboard.set_key(0x7, false);
    assert_eq!(keyboard.get_key_pressed(), None);
}

#[test]
fn a_key_number_above_fifteen_names_no_key() {
    let mut keyboard = Keyboard::new();
    keyboard.set_key(16, true);
    keyboard.set_key(255, true);
    assert_eq!(keyboard.keys, [false; 16]);
    assert!(!keyboard.is_key_pressed(16));
    assert!(!keyboard.is_key_pressed(255));
    assert_eq!(keyboard.get_key_pressed(), None);
}

#[test]
fn last_key_is_found() {
    let mut bus = Bus::new();
    bus.set_key(0xF, true);
    assert!(bus.key_pressed(0xF));
    assert_eq!(bus.get_key_pressed(), Some(0xF));
}

#[test]
fn timers_count_down_and_stop_at_zero() {
    let mut bus = Bus::new();
    bus.set_delay_timer(2);
    bus.set_sound_timer(1);
    bus.tick_timers();
    assert_eq!((bus.get_delay_timer(), bus.get_sound_timer()), (1, 0));
    bus.tick_timers();
    assert_eq!((bus.get_delay_timer(), bus.get_sound_timer()), (0, 0));
    bus.tick_timers();
    assert_eq!((bus.get_delay_timer(), bus.get_sound_timer()), (0, 0));
    bus.set_delay_timer(255);
    bus.tick_timers();
    assert_eq!(bus.get_delay_timer(), 254);
}

#[test]
fn frame_signal_is_raised_by_present_and_taken_once() {
    let mut bus = Bus::new();
    assert!(!bus.take_frame());
    bus.present_screen();
    bus.present_screen();
    assert!(bus.take_frame());
    assert!(!bus.take_frame());
}

#[test]
fn bus_operations_leave_the_other_parts_alone() {
    let mut bus = Bus::new();
    bus.set_delay_timer(9);
    bus.set_key(4, true);
    bus.ram_write_byte(0x222, 0x11);
    bus.draw_byte(0xFF, 0, 0);
    bus.clear_screen();
    assert_eq!(bus.get_delay_timer(), 9);
    assert!(bus.key_pressed(4));
    assert_eq!(bus.ram_read_byte(0x222), 0x11);
    assert!(bus.get_display_buffer().iter().all(|p| !*p));
    assert!(!bus.frame_ready);
}
