use chip8::bus::Bus;
use chip8::cpu::Cpu;
use chip8::instruction::Instruction;
use chip8::semantics::Fault;

fn fresh() -> (Cpu, Bus) {
    (Cpu::new(), Bus::new())
}

fn run(cpu: &mut Cpu, bus: &mut Bus, instr: Instruction) {
    assert_eq!(cpu.execute(bus, instr, 0), Ok(()));
}

#[test]
fn registers_read_back_what_was_written() {
    let mut cpu = Cpu::new();
    for index in 0..16u8 {
        cpu.write_reg_vx(index, index * 3 + 1);
    }
    for index in 0..16u8 {
        assert_eq!(cpu.read_reg_vx(index), index * 3 + 1);
    }
    cpu.write_reg_vx(7, 0xEE);
    assert_eq!(cpu.read_reg_vx(7), 0xEE);
    assert_eq!(cpu.read_reg_vx(6), 19);
    assert_eq!(cpu.read_reg_vx(8), 25);
}

#[test]
fn clear_screen_blanks_and_moves_on() {
    let (mut cpu, mut bus) = fresh();
    bus.draw_byte(0xFF, 3, 4);
    run(&mut cpu, &mut bus, Instruction::ClearScreen);
    assert!(bus.get_display_buffer().iter().all(|p| !*p));
    assert_eq!(cpu.pc, 0x202);
}

#[test]
fn jump_sets_the_program_counter() {
    let (mut cpu, mut bus) = fresh();
    run(&mut cpu, &mut bus, Instruction::Jump { nnn: 0xABC });
    assert_eq!(cpu.pc, 0xABC);
    assert!(cpu.ret_stack.is_empty());
}

#[test]
fn call_pushes_the_address_after_the_call() {
    let (mut cpu, mut bus) = fresh();
    run(&mut cpu, &mut bus, Instruction::Call { nnn: 0x400 });
    assert_eq!(cpu.pc, 0x400);
    assert_eq!(cpu.ret_stack, vec![0x202]);
    run(&mut cpu, &mut bus, Instruction::Call { nnn: 0x500 });
    assert_eq!(cpu.ret_stack, vec![0x202, 0x402]);
    run(&mut cpu, &mut bus, Instruction::Return);
    assert_eq!(cpu.pc, 0x402);
    run(&mut cpu, &mut bus, Instruction::Return);
    assert_eq!(cpu.pc, 0x202);
    assert!(cpu.ret_stack.is_empty());
}

#[test]
fn return_without_call_faults_and_changes_nothing() {
    let (mut cpu, mut bus) = fresh();
    cpu.pc = 0x345;
    cpu.vx[2] = 9;
    assert_eq!(
        cpu.execute(&mut bus, Instruction::Return, 0),
        Err(Fault::StackUnderflow { pc: 0x345 })
    );
    assert_eq!(cpu.pc, 0x345);
    assert_eq!(cpu.vx[2], 9);
}

#[test]
fn skip_if_equal_to_constant() {
    let (mut cpu, mut bus) = fresh();
    cpu.vx[3] = 0x42;
    run(&mut cpu, &mut bus, Instruction::SkipEqImm { x: 3, nn: 0x42 });
    assert_eq!(cpu.pc, 0x204);
    run(&mut cpu, &mut bus, Instruction::SkipEqImm { x: 3, nn: 0x43 });
    assert_eq!(cpu.pc, 0x206);
}

#[test]
fn skip_if_not_equal_to_constant() {
    let (mut cpu, mut bus) = fresh();
    cpu.vx[3] = 0x42;
    run(&mut cpu, &mut bus, Instruction::SkipNeImm { x: 3, nn: 0x42 });
    assert_eq!(cpu.pc, 0x202);
    run(&mut cpu, &mut bus, Instruction::SkipNeImm { x: 3, nn: 0x43 });
    assert_eq!(cpu.pc, 0x206);
}

#[test]
fn skip_on_register_comparison() {
    let (mut cpu, mut bus) = fresh();
    cpu.vx[1] = 7;
    cpu.vx[2] = 7;
    cpu.vx[3] = 8;
    run(&mut cpu, &mut bus, Instruction::SkipEqReg { x: 1, y: 2 });
    assert_eq!(cpu.pc, 0x204);
    run(&mut cpu, &mut bus, Instruction::SkipEqReg { x: 1, y: 3 });
    assert_eq!(cpu.pc, 0x206);
    run(&mut cpu, &mut bus, Instruction::SkipNeReg { x: 1, y: 2 });
    assert_eq!(cpu.pc, 0x208);
    run(&mut cpu, &mut bus, Instruction::SkipNeReg { x: 1, y: 3 });
    assert_eq!(cpu.pc, 0x20C);
}

#[test]
fn load_constant() {
    let (mut cpu, mut bus) = fresh();
    run(&mut cpu, &mut bus, Instruction::LoadImm { x: 0xE, nn: 0x99 });
    assert_eq!(cpu.vx[0xE], 0x99);
    assert_eq!(cpu.pc, 0x202);
}

#[test]
fn add_constant_wraps_and_leaves_the_flag() {
    let (mut cpu, mut bus) = fresh();
    cpu.vx[1] = 250;
    cpu.vx[0xF] = 0x55;
    run(&mut cpu, &mut bus, Instruction::AddImm { x: 1, nn: 10 });
    assert_eq!(cpu.vx[1], 4);
    assert_eq!(cpu.vx[0xF], 0x55);
    assert_eq!(cpu.pc, 0x202);
}

#[test]
fn adding_zero_after_a_load_changes_nothing() {
    for x in 0..16u8 {
        for nn in [0u8, 1, 0x7F, 0x80, 0xFF] {
            let (mut cpu, mut bus) = fresh();
            run(&mut cpu, &mut bus, Instruction::LoadImm { x, nn });
            let before = cpu.vx;
            run(&mut cpu, &mut bus, Instruction::AddImm { x, nn: 0 });
            assert_eq!(cpu.vx, before);
            assert_eq!(cpu.vx[x as usize], nn);
        }
    }
}

#[test]
fn move_and_bitwise_operations() {
    let (mut cpu, mut bus) = fresh();
    cpu.vx[1] = 0b1100_1010;
    cpu.vx[2] = 0b1010_0110;
    run(&mut cpu, &mut bus, Instruction::Or { x: 1, y: 2 });
    assert_eq!(cpu.vx[1], 0b1110_1110);
    cpu.vx[1] = 0b1100_1010;
    run(&mut cpu, &mut bus, Instruction::And { x: 1, y: 2 });
    assert_eq!(cpu.vx[1], 0b1000_0010);
    cpu.vx[1] = 0b1100_1010;
    run(&mut cpu, &mut bus, Instruction::Xor { x: 1, y: 2 });
    assert_eq!(cpu.vx[1], 0b0110_1100);
    run(&mut cpu, &mut bus, Instruction::Move { x: 1, y: 2 });
    assert_eq!(cpu.vx[1], 0b1010_0110);
    assert_eq!(cpu.vx[2], 0b1010_0110);
    assert_eq!(cpu.vx[0xF], 0);
    assert_eq!(cpu.pc, 0x208);
}

#[test]
fn add_sets_carry_exactly_on_overflow() {
    for a in 0..=255u8 {
        for b in [0u8, 1, 2, 100, 127, 128, 200, 254, 255] {
            let (mut cpu, mut bus) = fresh();
            cpu.vx[1] = a;
            cpu.vx[2] = b;
            run(&mut cpu, &mut bus, Instruction::Add { x: 1, y: 2 });
            let sum = a as u16 + b as u16;
            assert_eq!(cpu.vx[0xF], if sum > 255 { 1 } else { 0 });
            assert_eq!(cpu.vx[1] as u16, sum % 256);
            assert_eq!(cpu.vx[2], b);
        }
    }
}

#[test]
fn add_exact_values() {
    let (mut cpu, mut bus) = fresh();
    cpu.vx[1] = 200;
    cpu.vx[2] = 100;
    run(&mut cpu, &mut bus, Instruction::Add { x: 1, y: 2 });
    assert_eq!(cpu.vx[1], 44);
    assert_eq!(cpu.vx[0xF], 1);
    cpu.vx[3] = 255;
    cpu.vx[4] = 0;
    run(&mut cpu, &mut bus, Instruction::Add { x: 3, y: 4 });
    assert_eq!(cpu.vx[3], 255);
    assert_eq!(cpu.vx[0xF], 0);
}

#[test]
fn add_into_the_flag_register_keeps_the_flag() {
    let (mut cpu, mut bus) = fresh();
    cpu.vx[0xF] = 200;
    cpu.vx[2] = 100;
    run(&mut cpu, &mut bus, Instruction::Add { x: 0xF, y: 2 });
    assert_eq!(cpu.vx[0xF], 1);
    cpu.vx[0xF] = 20;
    run(&mut cpu, &mut bus, Instruction::Add { x: 0xF, y: 2 });
    assert_eq!(cpu.vx[0xF], 0);
}

#[test]
fn sub_clears_the_flag_exactly_on_borrow() {
    for a in 0..=255u8 {
        for b in [0u8, 1, 2, 100, 127, 128, 200, 254, 255] {
            let (mut cpu, mut bus) = fresh();
            cpu.vx[1] = a;
            cpu.vx[2] = b;
            run(&mut cpu, &mut bus, Instruction::Sub { x: 1, y: 2 });
            assert_eq!(cpu.vx[0xF], if a < b { 0 } else { 1 });
            assert_eq!(cpu.vx[1] as i32, (a as i32 - b as i32).rem_euclid(256));
        }
    }
}

#[test]
fn sub_exact_values() {
    let (mut cpu, mut bus) = fresh();
    cpu.vx[1] = 5;
    cpu.vx[2] = 7;
    run(&mut cpu, &mut bus, Instruction::Sub { x: 1, y: 2 });
    assert_eq!(cpu.vx[1], 254);
    assert_eq!(cpu.vx[0xF], 0);
    cpu.vx[1] = 7;
    cpu.vx[2] = 7;
    run(&mut cpu, &mut bus, Instruction::Sub { x: 1, y: 2 });
    assert_eq!(cpu.vx[1], 0);
    assert_eq!(cpu.vx[0xF], 1);
    cpu.vx[1] = 200;
    cpu.vx[2] = 100;
    run(&mut cpu, &mut bus, Instruction::Sub { x: 1, y: 2 });
    assert_eq!(cpu.vx[1], 100);
    assert_eq!(cpu.vx[0xF], 1);
}

#[test]
fn reverse_sub() {
    let (mut cpu, mut bus) = fresh();
    cpu.vx[1] = 5;
    cpu.vx[2] = 7;
    run(&mut cpu, &mut bus, Instruction::SubFrom { x: 1, y: 2 });
    assert_eq!(cpu.vx[1], 2);
    assert_eq!(cpu.vx[2], 7);
    assert_eq!(cpu.vx[0xF], 1);
    cpu.vx[1] = 9;
    run(&mut cpu, &mut bus, Instruction::SubFrom { x: 1, y: 2 });
    assert_eq!(cpu.vx[1], 254);
    assert_eq!(cpu.vx[0xF], 0);
}

#[test]
fn shift_right_takes_the_second_register() {
    let (mut cpu, mut bus) = fresh();
    cpu.vx[1] = 0xFF;
    cpu.vx[2] = 0b0000_0101;
    run(&mut cpu, &mut bus, Instruction::ShiftRight { x: 1, y: 2 });
    assert_eq!(cpu.vx[1], 0b0000_0010);
    assert_eq!(cpu.vx[2], 0b0000_0101);
    assert_eq!(cpu.vx[0xF], 1);
    cpu.vx[2] = 0b1000_0100;
    run(&mut cpu, &mut bus, Instruction::ShiftRight { x: 1, y: 2 });
    assert_eq!(cpu.vx[1], 0b0100_0010);
    assert_eq!(cpu.vx[0xF], 0);
}

#[test]
fn shift_right_into_the_flag_register_keeps_the_shifted_value() {
    let (mut cpu, mut bus) = fresh();
    cpu.vx[2] = 0b0000_0111;
    run(&mut cpu, &mut bus, Instruction::ShiftRight { x: 0xF, y: 2 });
    assert_eq!(cpu.vx[0xF], 0b0000_0011);
}

#[test]
fn shift_left_takes_the_first_register() {
    let (mut cpu, mut bus) = fresh();
    cpu.vx[1] = 0b1000_0101;
    cpu.vx[2] = 0xFF;
    run(&mut cpu, &mut bus, Instruction::ShiftLeft { x: 1, y: 2 });
    assert_eq!(cpu.vx[1], 0b0000_1010);
    assert_eq!(cpu.vx[2], 0xFF);
    assert_eq!(cpu.vx[0xF], 1);
    cpu.vx[1] = 0b0100_0001;
    run(&mut cpu, &mut bus, Instruction::ShiftLeft { x: 1, y: 2 });
    assert_eq!(cpu.vx[1], 0b1000_0010);
    assert_eq!(cpu.vx[0xF], 0);
}

#[test]
fn index_register_operations() {
    let (mut cpu, mut bus) = fresh();
    run(&mut cpu, &mut bus, Instruction::LoadIndex { nnn: 0xFFF });
    assert_eq!(cpu.i, 0xFFF);
    cpu.vx[4] = 0x10;
    run(&mut cpu, &mut bus, Instruction::AddIndex { x: 4 });
    assert_eq!(cpu.i, 0x100F);
    assert_eq!(cpu.vx[0xF], 0);
    assert_eq!(cpu.pc, 0x204);
}

#[test]
fn index_register_wraps_at_sixteen_bits() {
    let (mut cpu, mut bus) = fresh();
    cpu.i = 0xFFFF;
    cpu.vx[4] = 2;
    run(&mut cpu, &mut bus, Instruction::AddIndex { x: 4 });
    assert_eq!(cpu.i, 1);
}

#[test]
fn jump_with_offset() {
    let (mut cpu, mut bus) = fresh();
    cpu.vx[0] = 0x10;
    run(&mut cpu, &mut bus, Instruction::JumpOffset { nnn: 0x300 });
    assert_eq!(cpu.pc, 0x310);
    cpu.vx[0] = 0xFF;
    run(&mut cpu, &mut bus, Instruction::JumpOffset { nnn: 0xFFF });
    assert_eq!(cpu.pc, 0x10FE);
}

#[test]
fn random_is_masked_by_the_constant() {
    let (mut cpu, mut bus) = fresh();
    assert_eq!(cpu.execute(&mut bus, Instruction::Random { x: 5, nn: 0x0F }, 0xAB), Ok(()));
    assert_eq!(cpu.vx[5], 0x0B);
    assert_eq!(cpu.execute(&mut bus, Instruction::Random { x: 5, nn: 0xFF }, 0xAB), Ok(()));
    assert_eq!(cpu.vx[5], 0xAB);
    assert_eq!(cpu.execute(&mut bus, Instruction::Random { x: 5, nn: 0x00 }, 0xAB), Ok(()));
    assert_eq!(cpu.vx[5], 0x00);
    assert_eq!(cpu.pc, 0x206);
}

#[test]
fn glyph_address_is_five_times_the_digit() {
    for digit in 0..16u8 {
        let (mut cpu, mut bus) = fresh();
        cpu.vx[2] = digit;
        run(&mut cpu, &mut bus, Instruction::LoadGlyph { x: 2 });
        assert_eq!(cpu.i, digit as u16 * 5);
    }
    let (mut cpu, mut bus) = fresh();
    cpu.vx[2] = 0xFF;
    run(&mut cpu, &mut bus, Instruction::LoadGlyph { x: 2 });
    assert_eq!(cpu.i, 1275);
}

#[test]
fn decimal_digits_are_stored_at_the_index() {
    let (mut cpu, mut bus) = fresh();
    cpu.i = 0x300;
    for (value, digits) in [(234u8, [2u8, 3, 4]), (0, [0, 0, 0]), (255, [2, 5, 5]), (9, [0, 0, 9]), (100, [1, 0, 0])] {
        cpu.vx[1] = value;
        run(&mut cpu, &mut bus, Instruction::StoreBcd { x: 1 });
        assert_eq!(bus.ram.mem[0x300..0x303], digits);
        assert_eq!(cpu.i, 0x300);
    }
    assert_eq!(bus.ram.mem[0x2FF], 0);
    assert_eq!(bus.ram.mem[0x303], 0);
}

#[test]
fn decimal_digits_wrap_at_the_end_of_memory() {
    let (mut cpu, mut bus) = fresh();
    cpu.i = 0xFFF;
    cpu.vx[1] = 123;
    run(&mut cpu, &mut bus, Instruction::StoreBcd { x: 1 });
    assert_eq!(bus.ram.mem[0xFFF], 1);
    assert_eq!(bus.ram.mem[0x000], 2);
    assert_eq!(bus.ram.mem[0x001], 3);
}

#[test]
fn store_registers_is_inclusive_and_moves_the_index() {
    let (mut cpu, mut bus) = fresh();
    for r in 0..16u8 {
        cpu.vx[r as usize] = 0x10 + r;
    }
    cpu.i = 0x400;
    run(&mut cpu, &mut bus, Instruction::StoreRegs { x: 3 });
    assert_eq!(bus.ram.mem[0x400..0x404], [0x10, 0x11, 0x12, 0x13]);
    assert_eq!(bus.ram.mem[0x404], 0);
    assert_eq!(bus.ram.mem[0x3FF], 0);
    assert_eq!(cpu.i, 0x404);
    assert_eq!(cpu.pc, 0x202);
}

#[test]
fn store_register_zero_alone() {
    let (mut cpu, mut bus) = fresh();
    cpu.vx[0] = 0x77;
    cpu.vx[1] = 0x88;
    cpu.i = 0x400;
    run(&mut cpu, &mut bus, Instruction::StoreRegs { x: 0 });
    assert_eq!(bus.ram.mem[0x400], 0x77);
    assert_eq!(bus.ram.mem[0x401], 0);
    assert_eq!(cpu.i, 0x401);
}

#[test]
fn load_registers_is_inclusive_and_moves_the_index() {
    let (mut cpu, mut bus) = fresh();
    for k in 0..16u16 {
        bus.ram_write_byte(0x500 + k, 0xA0 + k as u8);
    }
    cpu.i = 0x500;
    cpu.vx[5] = 0x33;
    run(&mut cpu, &mut bus, Instruction::LoadRegs { x: 4 });
    assert_eq!(cpu.vx[0..5], [0xA0, 0xA1, 0xA2, 0xA3, 0xA4]);
    assert_eq!(cpu.vx[5], 0x33);
    assert_eq!(cpu.i, 0x505);
    assert_eq!(cpu.pc, 0x202);
}

#[test]
fn store_then_load_restores_the_registers() {
    for x in 0..16u8 {
        let (mut cpu, mut bus) = fresh();
        for r in 0..16u8 {
            cpu.vx[r as usize] = 0xC0 ^ (r * 7);
        }
        let saved = cpu.vx;
        cpu.i = 0x600;
        run(&mut cpu, &mut bus, Instruction::StoreRegs { x });
        assert_eq!(cpu.i, 0x600 + x as u16 + 1);
        cpu.vx = [0; 16];
        cpu.i = 0x600;
        run(&mut cpu, &mut bus, Instruction::LoadRegs { x });
        assert_eq!(cpu.i, 0x600 + x as u16 + 1);
        assert_eq!(cpu.vx[..=x as usize], saved[..=x as usize]);
        assert!(cpu.vx[x as usize + 1..].iter().all(|v| *v == 0));
    }
}

#[test]
fn store_and_load_wrap_at_the_end_of_memory() {
    let (mut cpu, mut bus) = fresh();
    cpu.vx[0] = 0x11;
    cpu.vx[1] = 0x22;
    cpu.vx[2] = 0x33;
    cpu.i = 0xFFE;
    run(&mut cpu, &mut bus, Instruction::StoreRegs { x: 2 });
    assert_eq!(bus.ram.mem[0xFFE], 0x11);
    assert_eq!(bus.ram.mem[0xFFF], 0x22);
    assert_eq!(bus.ram.mem[0x000], 0x33);
    assert_eq!(cpu.i, 0x1001);
    cpu.vx = [0; 16];
    cpu.i = 0xFFE;
    run(&mut cpu, &mut bus, Instruction::LoadRegs { x: 2 });
    assert_eq!(cpu.vx[0..3], [0x11, 0x22, 0x33]);
}

#[test]
fn timers_are_read_and_set() {
    let (mut cpu, mut bus) = fresh();
    cpu.vx[1] = 60;
    run(&mut cpu, &mut bus, Instruction::SetDelay { x: 1 });
    assert_eq!(bus.get_delay_timer(), 60);
    assert_eq!(bus.get_sound_timer(), 0);
    cpu.vx[2] = 30;
    run(&mut cpu, &mut bus, Instruction::SetSound { x: 2 });
    assert_eq!(bus.get_sound_timer(), 30);
    assert_eq!(bus.get_delay_timer(), 60);
    bus.tick_timers();
    run(&mut cpu, &mut bus, Instruction::ReadDelay { x: 3 });
    assert_eq!(cpu.vx[3], 59);
    assert_eq!(cpu.pc, 0x206);
}

#[test]
fn instructions_do_not_tick_the_timers() {
    let (mut cpu, mut bus) = fresh();
    bus.set_delay_timer(10);
    bus.set_sound_timer(20);
    for _ in 0..50 {
        run(&mut cpu, &mut bus, Instruction::AddImm { x: 1, nn: 1 });
    }
    assert_eq!(bus.get_delay_timer(), 10);
    assert_eq!(bus.get_sound_timer(), 20);
}

#[test]
fn key_skips() {
    let (mut cpu, mut bus) = fresh();
    cpu.vx[1] = 0xA;
    run(&mut cpu, &mut bus, Instruction::SkipKeyDown { x: 1 });
    assert_eq!(cpu.pc, 0x202);
    run(&mut cpu, &mut bus, Instruction::SkipKeyUp { x: 1 });
    assert_eq!(cpu.pc, 0x206);
    bus.set_key(0xA, true);
    run(&mut cpu, &mut bus, Instruction::SkipKeyDown { x: 1 });
    assert_eq!(cpu.pc, 0x20A);
    run(&mut cpu, &mut bus, Instruction::SkipKeyUp { x: 1 });
    assert_eq!(cpu.pc, 0x20C);
}

#[test]
fn key_skips_with_a_value_that_names_no_key() {
    let (mut cpu, mut bus) = fresh();
    for key in 0..16u8 {
        bus.set_key(key, true);
    }
    cpu.vx[1] = 0x10;
    run(&mut cpu, &mut bus, Instruction::SkipKeyDown { x: 1 });
    assert_eq!(cpu.pc, 0x202);
    run(&mut cpu, &mut bus, Instruction::SkipKeyUp { x: 1 });
    assert_eq!(cpu.pc, 0x206);
}

#[test]
fn wait_for_key_polls_until_a_key_is_held() {
    let (mut cpu, mut bus) = fresh();
    cpu.vx[6] = 0xEE;
    for _ in 0..10 {
        run(&mut cpu, &mut bus, Instruction::WaitKey { x: 6 });
        assert_eq!(cpu.pc, 0x200);
        assert_eq!(cpu.vx[6], 0xEE);
    }
    bus.set_key(0xC, true);
    run(&mut cpu, &mut bus, Instruction::WaitKey { x: 6 });
    assert_eq!(cpu.pc, 0x202);
    assert_eq!(cpu.vx[6], 0xC);
}

#[test]
fn wait_for_key_takes_the_lowest_held_key() {
    let (mut cpu, mut bus) = fresh();
    bus.set_key(0xC, true);
    bus.set_key(0x3, true);
    bus.set_key(0xF, true);
    run(&mut cpu, &mut bus, Instruction::WaitKey { x: 6 });
    assert_eq!(cpu.vx[6], 0x3);
}

#[test]
fn program_counter_wraps_at_sixteen_bits() {
    let (mut cpu, mut bus) = fresh();
    cpu.pc = 0xFFFE;
    run(&mut cpu, &mut bus, Instruction::LoadImm { x: 0, nn: 1 });
    assert_eq!(cpu.pc, 0x0000);
    cpu.pc = 0xFFFE;
    run(&mut cpu, &mut bus, Instruction::SkipEqImm { x: 0, nn: 1 });
    assert_eq!(cpu.pc, 0x0002);
}
