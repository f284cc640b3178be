use rusty_chip8::font::CHIP8_FONT_SET;
use rusty_chip8::machine::{MAX_ROM_SIZE, PROGRAM_START, STACK_LIMIT};
use rusty_chip8::{Chip8Error, Cpu, Instruction};

fn machine(rom: &[u8]) -> Cpu {
    Cpu::new(Some(rom.to_vec())).unwrap()
}

fn with_registers(values: &[(u8, u8)]) -> Cpu {
    let mut cpu = Cpu::new(None).unwrap();
    for &(x, val) in values {
        cpu.ld_vx(x, val);
    }
    cpu
}

fn keys(down: &[usize]) -> [bool; 16] {
    let mut state = [false; 16];
    for &k in down {
        state[k] = true;
    }
    state
}

#[test]
fn new_machine_is_in_its_initial_state() {
    let cpu = Cpu::new(None).unwrap();
    assert_eq!(cpu.pc(), 0x200);
    assert_eq!(cpu.i_register(), 0);
    assert_eq!(cpu.stack_depth(), 0);
    assert_eq!(cpu.delay_timer(), 0);
    assert_eq!(cpu.sound_timer(), 0);
    assert_eq!(cpu.awaiting_key(), None);
    for x in 0..16u8 {
        assert_eq!(cpu.register(x), 0);
        assert!(!cpu.key(x));
    }
    assert_eq!(cpu.get_framebuffer(), [false; 2048]);
    for a in 80..4096u16 {
        assert_eq!(cpu.memory(a), 0);
    }
}

#[test]
fn limits_have_their_documented_values() {
    assert_eq!(PROGRAM_START, 0x200);
    assert_eq!(MAX_ROM_SIZE, 4096 - 0x200);
    assert_eq!(STACK_LIMIT, 16);
}

#[test]
fn font_sits_at_the_bottom_of_memory() {
    let cpu = machine(&[0x12, 0x34]);
    for a in 0..80u16 {
        assert_eq!(cpu.memory(a), CHIP8_FONT_SET[a as usize]);
    }
    assert_eq!(cpu.memory(0), 0xF0);
    assert_eq!(cpu.memory(5), 0x20);
    assert_eq!(cpu.memory(79), 0x80);
    assert_eq!(cpu.memory(80), 0x00);
}

#[test]
fn rom_is_placed_at_0x200() {
    let cpu = machine(&[0xAA, 0xBB, 0xCC]);
    assert_eq!(cpu.memory(0x1FF), 0);
    assert_eq!(cpu.memory(0x200), 0xAA);
    assert_eq!(cpu.memory(0x201), 0xBB);
    assert_eq!(cpu.memory(0x202), 0xCC);
    assert_eq!(cpu.memory(0x203), 0);
}

#[test]
fn rom_of_3584_bytes_loads_and_3585_does_not() {
    let mut rom = vec![0x11u8; 3584];
    rom[3583] = 0x77;
    let cpu = Cpu::new(Some(rom.clone())).unwrap();
    assert_eq!(cpu.memory(0x200), 0x11);
    assert_eq!(cpu.memory(4095), 0x77);
    assert!(matches!(Cpu::new(Some(vec![0u8; 3585])), Err(Chip8Error::RomTooLarge)));

    let mut other = Cpu::new(None).unwrap();
    assert_eq!(other.load(&rom), Ok(()));
    assert_eq!(other.memory(4095), 0x77);
    assert_eq!(other.load(&vec![0u8; 3585]), Err(Chip8Error::RomTooLarge));
}

#[test]
fn refused_load_keeps_the_machine_as_it_was() {
    let mut cpu = machine(&[0x60, 0x2A]);
    cpu.run().unwrap();
    assert_eq!(cpu.load(&vec![0xFFu8; 4000]), Err(Chip8Error::RomTooLarge));
    assert_eq!(cpu.register(0), 0x2A);
    assert_eq!(cpu.pc(), 0x202);
    assert_eq!(cpu.memory(0x200), 0x60);
}

#[test]
fn load_builds_the_whole_machine_anew() {
    let mut cpu = machine(&[0x60, 0x2A, 0x22, 0x08, 0x00, 0x00, 0x00, 0x00, 0xD0, 0x05]);
    cpu.run().unwrap();
    cpu.run().unwrap();
    cpu.run().unwrap();
    cpu.set_keys(keys(&[3]));
    assert_eq!(cpu.load(&[0x12, 0x00]), Ok(()));
    assert_eq!(cpu.pc(), 0x200);
    assert_eq!(cpu.register(0), 0);
    assert_eq!(cpu.stack_depth(), 0);
    assert_eq!(cpu.get_framebuffer(), [false; 2048]);
    assert!(!cpu.key(3));
    assert_eq!(cpu.memory(0x202), 0);
    assert_eq!(cpu.memory(0x200), 0x12);
}

#[test]
fn three_steps_set_and_overwrite_v0() {
    let mut cpu = machine(&[0x60, 0x05, 0xA2, 0x30, 0xF0, 0x07]);
    assert_eq!(cpu.run(), Ok(()));
    assert_eq!(cpu.register(0), 5);
    assert_eq!(cpu.run(), Ok(()));
    assert_eq!(cpu.i_register(), 0x230);
    assert_eq!(cpu.run(), Ok(()));
    assert_eq!(cpu.register(0), 0);
    assert_eq!(cpu.i_register(), 0x230);
    assert_eq!(cpu.pc(), 0x206);
}

#[test]
fn clear_draw_clear_leaves_every_pixel_off() {
    // CLS; I = 0 (glyph 0); DRW V0, V0, 5; CLS
    let mut cpu = machine(&[0x00, 0xE0, 0xA0, 0x00, 0xD0, 0x05, 0x00, 0xE0]);
    cpu.run().unwrap();
    cpu.run().unwrap();
    cpu.run().unwrap();
    assert!(cpu.pixel(0, 0));
    assert!(cpu.get_framebuffer().iter().any(|&p| p));
    cpu.run().unwrap();
    assert_eq!(cpu.get_framebuffer(), [false; 2048]);
}

#[test]
fn fetch_reads_big_endian_and_advances() {
    let mut cpu = machine(&[0xAB, 0xCD]);
    assert_eq!(cpu.fetch(0x200), Ok(()));
    assert_eq!(cpu.curr_opcode(), 0xABCD);
    assert_eq!(cpu.pc(), 0x202);
}

#[test]
fn fetch_past_the_end_of_memory_fails() {
    let mut cpu = Cpu::new(None).unwrap();
    assert_eq!(cpu.fetch(4094), Ok(()));
    assert_eq!(cpu.pc(), 0x202);
    assert_eq!(cpu.fetch(4095), Err(Chip8Error::OutOfBounds));
    assert_eq!(cpu.fetch(0xFFFF), Err(Chip8Error::OutOfBounds));
    assert_eq!(cpu.pc(), 0x202);
    assert_eq!(cpu.curr_opcode(), 0);
}

#[test]
fn run_fails_when_pc_leaves_memory() {
    let mut cpu = machine(&[0x1F, 0xFF]);
    assert_eq!(cpu.run(), Ok(()));
    assert_eq!(cpu.pc(), 0xFFF);
    assert_eq!(cpu.run(), Err(Chip8Error::OutOfBounds));
    assert_eq!(cpu.pc(), 0xFFF);
}

#[test]
fn unknown_opcode_is_reported_with_word_and_address() {
    let mut cpu = machine(&[0x60, 0x01, 0xE0, 0x00]);
    cpu.run().unwrap();
    assert_eq!(cpu.run(), Err(Chip8Error::UnknownOpcode { opcode: 0xE000, pc: 0x202 }));
    assert_eq!(cpu.pc(), 0x204);
    assert_eq!(cpu.curr_opcode(), 0xE000);
    assert_eq!(cpu.register(0), 1);
}

#[test]
fn decode_and_execute_runs_the_current_word() {
    let mut cpu = machine(&[0x6A, 0x7B]);
    cpu.fetch(0x200).unwrap();
    assert_eq!(cpu.decode_and_execute(), Ok(()));
    assert_eq!(cpu.register(0xA), 0x7B);
}

#[test]
fn sys_and_jump_set_the_program_counter() {
    let mut cpu = Cpu::new(None).unwrap();
    cpu.execute(Instruction::Jmp { addr: 0x345 }, 0).unwrap();
    assert_eq!(cpu.pc(), 0x345);
    cpu.execute(Instruction::Sys { addr: 0x123 }, 0).unwrap();
    assert_eq!(cpu.pc(), 0x123);
}

#[test]
fn jump_with_offset_adds_v0() {
    let mut cpu = with_registers(&[(0, 0xFF)]);
    cpu.jp_v0(0xFFF);
    assert_eq!(cpu.pc(), 0x10FE);
    cpu.ld_vx(0, 4);
    cpu.jp_v0(0x300);
    assert_eq!(cpu.pc(), 0x304);
}

#[test]
fn call_then_return_restores_pc_and_depth() {
    let mut rom = vec![0u8; 0x102];
    rom[0] = 0x23;
    rom[1] = 0x00;
    rom[0x100] = 0x00;
    rom[0x101] = 0xEE;
    let mut cpu = machine(&rom);
    assert_eq!(cpu.run(), Ok(()));
    assert_eq!(cpu.pc(), 0x300);
    assert_eq!(cpu.stack_depth(), 1);
    assert_eq!(cpu.run(), Ok(()));
    assert_eq!(cpu.pc(), 0x202);
    assert_eq!(cpu.stack_depth(), 0);
}

#[test]
fn nested_calls_return_in_reverse_order() {
    let mut cpu = Cpu::new(None).unwrap();
    cpu.call(0x300).unwrap();
    cpu.call(0x400).unwrap();
    assert_eq!(cpu.stack_depth(), 2);
    cpu.ret().unwrap();
    assert_eq!(cpu.pc(), 0x300);
    cpu.ret().unwrap();
    assert_eq!(cpu.pc(), 0x200);
}

#[test]
fn return_on_empty_stack_underflows() {
    let mut cpu = machine(&[0x00, 0xEE]);
    assert_eq!(cpu.run(), Err(Chip8Error::StackUnderflow));
    assert_eq!(cpu.stack_depth(), 0);
    assert_eq!(cpu.pc(), 0x202);
}

#[test]
fn seventeenth_call_overflows() {
    let mut cpu = Cpu::new(None).unwrap();
    for depth in 0..16 {
        assert_eq!(cpu.stack_depth(), depth);
        assert_eq!(cpu.call(0x200), Ok(()));
    }
    cpu.jmp(0x280);
    assert_eq!(cpu.call(0x300), Err(Chip8Error::StackOverflow));
    assert_eq!(cpu.stack_depth(), 16);
    assert_eq!(cpu.pc(), 0x280);
}

#[test]
fn skips_advance_by_two_only_when_they_hold() {
    let mut cpu = with_registers(&[(1, 7), (2, 7), (3, 9)]);
    cpu.se_vx(1, 7);
    assert_eq!(cpu.pc(), 0x202);
    cpu.se_vx(1, 8);
    assert_eq!(cpu.pc(), 0x202);
    cpu.sne_vx(1, 8);
    assert_eq!(cpu.pc(), 0x204);
    cpu.sne_vx(1, 7);
    assert_eq!(cpu.pc(), 0x204);
    cpu.se_vx_vy(1, 2);
    assert_eq!(cpu.pc(), 0x206);
    cpu.se_vx_vy(1, 3);
    assert_eq!(cpu.pc(), 0x206);
    cpu.sne_vx_vy(1, 3);
    assert_eq!(cpu.pc(), 0x208);
    cpu.sne_vx_vy(1, 2);
    assert_eq!(cpu.pc(), 0x208);
}

#[test]
fn skip_in_a_program_passes_over_one_instruction() {
    // V0 = 1; SE V0, 1; V1 = 0xAA (skipped); V2 = 0xBB
    let mut cpu = machine(&[0x60, 0x01, 0x30, 0x01, 0x61, 0xAA, 0x62, 0xBB]);
    cpu.run().unwrap();
    cpu.run().unwrap();
    cpu.run().unwrap();
    assert_eq!(cpu.register(1), 0);
    assert_eq!(cpu.register(2), 0xBB);
}

#[test]
fn add_immediate_wraps_without_touching_vf() {
    let mut cpu = with_registers(&[(3, 0xF0), (0xF, 0x55)]);
    cpu.add_vx(3, 0x20);
    assert_eq!(cpu.register(3), 0x10);
    assert_eq!(cpu.register(0xF), 0x55);
    cpu.add_vx(3, 5);
    assert_eq!(cpu.register(3), 0x15);
}

#[test]
fn logic_operations_combine_registers() {
    let mut cpu = with_registers(&[(1, 0b1100), (2, 0b1010)]);
    cpu.or_vx_vy(1, 2);
    assert_eq!(cpu.register(1), 0b1110);
    cpu.ld_vx(1, 0b1100);
    cpu.and_vx_vy(1, 2);
    assert_eq!(cpu.register(1), 0b1000);
    cpu.ld_vx(1, 0b1100);
    cpu.xor_vx_vy(1, 2);
    assert_eq!(cpu.register(1), 0b0110);
    cpu.ld_vx_vy(1, 2);
    assert_eq!(cpu.register(1), 0b1010);
    assert_eq!(cpu.register(2), 0b1010);
}

#[test]
fn add_sets_carry_exactly_above_255() {
    for &(a, b, sum, carry) in
        &[(1u8, 2u8, 3u8, 0u8), (200, 55, 255, 0), (200, 56, 0, 1), (255, 255, 254, 1), (0, 0, 0, 0)]
    {
        let mut cpu = with_registers(&[(4, a), (5, b), (0xF, 9)]);
        cpu.add_vx_vy(4, 5);
        assert_eq!(cpu.register(4), sum);
        assert_eq!(cpu.register(0xF), carry);
        assert_eq!(cpu.register(5), b);
    }
}

#[test]
fn add_over_all_bytes_matches_the_formula() {
    for a in 0..=255u16 {
        for b in 0..=255u16 {
            let mut cpu = with_registers(&[(0, a as u8), (1, b as u8)]);
            cpu.add_vx_vy(0, 1);
            assert_eq!(cpu.register(0) as u16, (a + b) % 256);
            assert_eq!(cpu.register(0xF) == 1, a + b > 255);
        }
    }
}

#[test]
fn sub_sets_flag_only_when_strictly_greater() {
    for &(a, b, diff, flag) in
        &[(5u8, 3u8, 2u8, 1u8), (3, 5, 254, 0), (7, 7, 0, 0), (0, 1, 255, 0), (255, 0, 255, 1)]
    {
        let mut cpu = with_registers(&[(4, a), (5, b), (0xF, 9)]);
        cpu.sub_vx_vy(4, 5);
        assert_eq!(cpu.register(4), diff);
        assert_eq!(cpu.register(0xF), flag);
    }
}

#[test]
fn reverse_sub_mirrors_sub() {
    for &(a, b, diff, flag) in &[(3u8, 5u8, 2u8, 1u8), (5, 3, 254, 0), (7, 7, 0, 0)] {
        let mut cpu = with_registers(&[(4, a), (5, b)]);
        cpu.subn_vx_vy(4, 5);
        assert_eq!(cpu.register(4), diff);
        assert_eq!(cpu.register(0xF), flag);
    }
}

#[test]
fn shift_right_halves_and_keeps_the_low_bit_in_vf() {
    for v in 0..=255u8 {
        let mut cpu = with_registers(&[(6, v)]);
        cpu.shr_vx(6);
        assert_eq!(cpu.register(6), v >> 1);
        assert_eq!(cpu.register(0xF), v & 1);
    }
}

#[test]
fn shift_left_doubles_and_keeps_the_high_bit_in_vf() {
    for v in 0..=255u8 {
        let mut cpu = with_registers(&[(6, v)]);
        cpu.shl_vx(6);
        assert_eq!(cpu.register(6), v.wrapping_mul(2));
        assert_eq!(cpu.register(0xF), v >> 7);
    }
}

#[test]
fn result_wins_where_the_target_is_vf() {
    let mut cpu = with_registers(&[(0xF, 200), (1, 100)]);
    cpu.add_vx_vy(0xF, 1);
    assert_eq!(cpu.register(0xF), 44);
    let mut cpu = with_registers(&[(0xF, 0x81)]);
    cpu.shr_vx(0xF);
    assert_eq!(cpu.register(0xF), 0x40);
    let mut cpu = with_registers(&[(0xF, 9), (1, 4)]);
    cpu.sub_vx_vy(0xF, 1);
    assert_eq!(cpu.register(0xF), 5);
}

#[test]
fn operand_in_vf_is_read_before_the_flag_is_written() {
    let mut cpu = with_registers(&[(1, 250), (0xF, 10)]);
    cpu.add_vx_vy(1, 0xF);
    assert_eq!(cpu.register(1), 4);
    assert_eq!(cpu.register(0xF), 1);
    let mut cpu = with_registers(&[(1, 10), (0xF, 3)]);
    cpu.sub_vx_vy(1, 0xF);
    assert_eq!(cpu.register(1), 7);
    assert_eq!(cpu.register(0xF), 1);
}

#[test]
fn random_byte_is_masked() {
    let mut cpu = Cpu::new(None).unwrap();
    cpu.execute(Instruction::RndVx { x: 2, val: 0x0F }, 0xAB).unwrap();
    assert_eq!(cpu.register(2), 0x0B);
    cpu.rnd_vx(3, 0xF0, 0xAB);
    assert_eq!(cpu.register(3), 0xA0);
}

#[test]
fn random_instruction_in_a_program_respects_its_mask() {
    // C0 00, C1 0F, C2 FF, then jump back
    let mut cpu = machine(&[0xC0, 0x00, 0xC1, 0x0F, 0xC2, 0xFF, 0x12, 0x00]);
    let mut seen = [false; 256];
    for _ in 0..400 {
        cpu.run().unwrap();
        assert_eq!(cpu.register(0), 0);
        assert!(cpu.register(1) <= 0x0F);
        seen[cpu.register(2) as usize] = true;
    }
    assert!(seen.iter().filter(|&&s| s).count() > 1);
}

#[test]
fn draw_instruction_toggles_and_reports_collision() {
    let mut cpu = with_registers(&[(1, 60), (2, 0)]);
    cpu.ld_i(0);
    assert_eq!(cpu.drw_vx_vy(1, 2, 1), Ok(()));
    assert_eq!(cpu.register(0xF), 0);
    for col in [60u8, 61, 62, 63] {
        assert!(cpu.pixel(col, 0));
    }
    for col in 0..60u8 {
        assert!(!cpu.pixel(col, 0));
    }
    assert_eq!(cpu.drw_vx_vy(1, 2, 1), Ok(()));
    assert_eq!(cpu.register(0xF), 1);
    assert_eq!(cpu.get_framebuffer(), [false; 2048]);
}

#[test]
fn draw_wraps_a_full_width_sprite_from_column_60() {
    // V0 = 60, V1 = 0, I = 0x20A, DRW V0, V1, 1; data 0xFF
    let mut cpu = machine(&[0x60, 0x3C, 0x61, 0x00, 0xA2, 0x0A, 0xD0, 0x11, 0x00, 0x00, 0xFF]);
    for _ in 0..4 {
        cpu.run().unwrap();
    }
    let fb = cpu.get_framebuffer();
    for col in 0..64usize {
        assert_eq!(fb[col], col < 4 || col >= 60);
    }
    assert!(fb[64..].iter().all(|&p| !p));
    assert_eq!(cpu.register(0xF), 0);
}

#[test]
fn draw_of_height_zero_clears_the_flag() {
    let mut cpu = with_registers(&[(0xF, 1)]);
    assert_eq!(cpu.drw_vx_vy(0, 0, 0), Ok(()));
    assert_eq!(cpu.register(0xF), 0);
    assert_eq!(cpu.get_framebuffer(), [false; 2048]);
}

#[test]
fn draw_past_the_end_of_memory_fails_and_changes_nothing() {
    let mut cpu = with_registers(&[(0xF, 7)]);
    cpu.ld_i(4090);
    assert_eq!(cpu.drw_vx_vy(0, 0, 6), Ok(()));
    cpu.ld_vx(0xF, 7);
    assert_eq!(cpu.drw_vx_vy(0, 0, 7), Err(Chip8Error::OutOfBounds));
    assert_eq!(cpu.register(0xF), 7);
    cpu.ld_i(0xFFFF);
    assert_eq!(cpu.drw_vx_vy(0, 0, 0), Err(Chip8Error::OutOfBounds));
    cpu.ld_i(4096);
    assert_eq!(cpu.drw_vx_vy(0, 0, 0), Ok(()));
}

#[test]
fn key_skips_follow_the_keypad() {
    let mut cpu = with_registers(&[(1, 5), (2, 6), (3, 200)]);
    cpu.set_keys(keys(&[5]));
    cpu.skp_vx(1);
    assert_eq!(cpu.pc(), 0x202);
    cpu.skp_vx(2);
    assert_eq!(cpu.pc(), 0x202);
    cpu.sknp_vx(2);
    assert_eq!(cpu.pc(), 0x204);
    cpu.sknp_vx(1);
    assert_eq!(cpu.pc(), 0x204);
    cpu.skp_vx(3);
    assert_eq!(cpu.pc(), 0x204);
    cpu.sknp_vx(3);
    assert_eq!(cpu.pc(), 0x206);
}

#[test]
fn key_skip_in_a_program_never_rewinds() {
    // V0 = 2; SKP V0; SKNP V0
    let mut cpu = machine(&[0x60, 0x02, 0xE0, 0x9E, 0xE0, 0xA1]);
    cpu.run().unwrap();
    cpu.run().unwrap();
    assert_eq!(cpu.pc(), 0x204);
    cpu.run().unwrap();
    assert_eq!(cpu.pc(), 0x208);
}

#[test]
fn set_keys_replaces_the_whole_snapshot() {
    let mut cpu = Cpu::new(None).unwrap();
    cpu.set_keys(keys(&[0, 15]));
    assert!(cpu.key(0) && cpu.key(15) && !cpu.key(7));
    cpu.set_keys(keys(&[7]));
    assert!(!cpu.key(0) && !cpu.key(15) && cpu.key(7));
}

#[test]
fn wait_for_key_holds_the_program_counter() {
    let mut cpu = machine(&[0xF3, 0x0A, 0x64, 0x01]);
    assert_eq!(cpu.run(), Ok(()));
    assert_eq!(cpu.pc(), 0x200);
    assert_eq!(cpu.awaiting_key(), Some(3));
    for _ in 0..5 {
        assert_eq!(cpu.run(), Ok(()));
        assert_eq!(cpu.pc(), 0x200);
        assert_eq!(cpu.awaiting_key(), Some(3));
    }
    cpu.set_keys(keys(&[9]));
    assert_eq!(cpu.run(), Ok(()));
    assert_eq!(cpu.register(3), 9);
    assert_eq!(cpu.pc(), 0x202);
    assert_eq!(cpu.awaiting_key(), None);
    assert_eq!(cpu.run(), Ok(()));
    assert_eq!(cpu.register(4), 1);
}

#[test]
fn wait_for_key_needs_a_key_to_go_down() {
    let mut cpu = machine(&[0xF3, 0x0A]);
    cpu.set_keys(keys(&[4]));
    cpu.run().unwrap();
    cpu.run().unwrap();
    assert_eq!(cpu.awaiting_key(), Some(3));
    cpu.set_keys(keys(&[]));
    cpu.run().unwrap();
    assert_eq!(cpu.awaiting_key(), Some(3));
    cpu.set_keys(keys(&[4]));
    cpu.run().unwrap();
    assert_eq!(cpu.awaiting_key(), None);
    assert_eq!(cpu.register(3), 4);
    assert_eq!(cpu.pc(), 0x202);
}

#[test]
fn wait_for_key_takes_the_lowest_new_key() {
    let mut cpu = machine(&[0xF0, 0x0A]);
    cpu.set_keys(keys(&[1]));
    cpu.run().unwrap();
    cpu.set_keys(keys(&[1, 12, 6]));
    cpu.run().unwrap();
    assert_eq!(cpu.register(0), 6);
}

#[test]
fn poll_key_without_a_wait_changes_nothing_seen() {
    let mut cpu = with_registers(&[(0, 0x33)]);
    cpu.set_keys(keys(&[2]));
    cpu.poll_key();
    assert_eq!(cpu.pc(), 0x200);
    assert_eq!(cpu.register(0), 0x33);
    assert_eq!(cpu.awaiting_key(), None);
}

#[test]
fn timers_move_between_registers_and_tick_down_to_zero() {
    let mut cpu = with_registers(&[(1, 2), (2, 1)]);
    cpu.ld_dt_vx(1);
    cpu.ld_st_vx(2);
    assert_eq!(cpu.delay_timer(), 2);
    assert_eq!(cpu.sound_timer(), 1);
    cpu.ld_vx_dt(5);
    assert_eq!(cpu.register(5), 2);
    cpu.tick_timers();
    assert_eq!((cpu.delay_timer(), cpu.sound_timer()), (1, 0));
    cpu.tick_timers();
    assert_eq!((cpu.delay_timer(), cpu.sound_timer()), (0, 0));
    cpu.tick_timers();
    assert_eq!((cpu.delay_timer(), cpu.sound_timer()), (0, 0));
}

#[test]
fn steps_do_not_tick_the_timers() {
    // V0 = 0xFF; DT = V0; then jump to self
    let mut cpu = machine(&[0x60, 0xFF, 0xF0, 0x15, 0x12, 0x04]);
    for _ in 0..50 {
        cpu.run().unwrap();
    }
    assert_eq!(cpu.delay_timer(), 0xFF);
}

#[test]
fn add_to_index_wraps_at_sixteen_bits() {
    let mut cpu = with_registers(&[(1, 0x10), (2, 0xFF)]);
    cpu.ld_i(0x0FF8);
    cpu.add_i_vx(1);
    assert_eq!(cpu.i_register(), 0x1008);
    cpu.ld_i(0xFFFF);
    cpu.add_i_vx(2);
    assert_eq!(cpu.i_register(), 0x00FE);
}

#[test]
fn font_address_is_five_times_the_digit() {
    let mut cpu = with_registers(&[(1, 0), (2, 0xA), (3, 0xF)]);
    cpu.ld_f_vx(1);
    assert_eq!(cpu.i_register(), 0);
    cpu.ld_f_vx(2);
    assert_eq!(cpu.i_register(), 50);
    cpu.ld_f_vx(3);
    assert_eq!(cpu.i_register(), 75);
    assert_eq!(cpu.memory(75), 0xF0);
}

#[test]
fn bcd_stores_hundreds_tens_units() {
    let mut cpu = with_registers(&[(1, 234), (2, 7), (3, 255), (4, 0)]);
    cpu.ld_i(0x300);
    assert_eq!(cpu.ld_b_vx(1), Ok(()));
    assert_eq!((cpu.memory(0x300), cpu.memory(0x301), cpu.memory(0x302)), (2, 3, 4));
    assert_eq!(cpu.ld_b_vx(2), Ok(()));
    assert_eq!((cpu.memory(0x300), cpu.memory(0x301), cpu.memory(0x302)), (0, 0, 7));
    assert_eq!(cpu.ld_b_vx(3), Ok(()));
    assert_eq!((cpu.memory(0x300), cpu.memory(0x301), cpu.memory(0x302)), (2, 5, 5));
    assert_eq!(cpu.ld_b_vx(4), Ok(()));
    assert_eq!((cpu.memory(0x300), cpu.memory(0x301), cpu.memory(0x302)), (0, 0, 0));
    assert_eq!(cpu.memory(0x303), 0);
    assert_eq!(cpu.i_register(), 0x300);
}

#[test]
fn bcd_at_the_end_of_memory() {
    let mut cpu = with_registers(&[(1, 123)]);
    cpu.ld_i(4093);
    assert_eq!(cpu.ld_b_vx(1), Ok(()));
    assert_eq!(cpu.memory(4095), 3);
    cpu.ld_i(4094);
    assert_eq!(cpu.ld_b_vx(1), Err(Chip8Error::OutOfBounds));
    assert_eq!(cpu.memory(4094), 2);
    assert_eq!(cpu.memory(4095), 3);
}

#[test]
fn store_and_load_register_ranges() {
    let mut cpu = with_registers(&[(0, 10), (1, 11), (2, 12), (3, 13)]);
    cpu.ld_i(0x400);
    assert_eq!(cpu.ld_i_vx(2), Ok(()));
    assert_eq!((cpu.memory(0x400), cpu.memory(0x401), cpu.memory(0x402)), (10, 11, 12));
    assert_eq!(cpu.memory(0x403), 0);
    assert_eq!(cpu.i_register(), 0x400);

    let mut other = with_registers(&[(3, 99)]);
    other.load(&[1, 2, 3, 4]).unwrap();
    other.ld_vx(3, 99);
    other.ld_i(0x200);
    assert_eq!(other.ld_vx_i(2), Ok(()));
    assert_eq!((other.register(0), other.register(1), other.register(2)), (1, 2, 3));
    assert_eq!(other.register(3), 99);
    assert_eq!(other.ld_vx_i(0), Ok(()));
    assert_eq!(other.register(0), 1);
}

#[test]
fn store_and_load_past_the_end_of_memory_fail() {
    let mut cpu = with_registers(&[(0, 1), (1, 2)]);
    cpu.ld_i(4094);
    assert_eq!(cpu.ld_i_vx(1), Ok(()));
    assert_eq!((cpu.memory(4094), cpu.memory(4095)), (1, 2));
    cpu.ld_i(4095);
    assert_eq!(cpu.ld_i_vx(1), Err(Chip8Error::OutOfBounds));
    assert_eq!(cpu.memory(4095), 2);
    assert_eq!(cpu.ld_vx_i(1), Err(Chip8Error::OutOfBounds));
    assert_eq!((cpu.register(0), cpu.register(1)), (1, 2));
    assert_eq!(cpu.ld_vx_i(0), Ok(()));
    assert_eq!(cpu.register(0), 2);
}

#[test]
fn store_all_sixteen_registers() {
    let mut cpu = Cpu::new(None).unwrap();
    for x in 0..16u8 {
        cpu.ld_vx(x, 0xA0 + x);
    }
    cpu.ld_i(0x500);
    cpu.ld_i_vx(15).unwrap();
    for x in 0..16u16 {
        assert_eq!(cpu.memory(0x500 + x), 0xA0 + x as u8);
    }
}

#[test]
fn grid_export_matches_the_flat_framebuffer() {
    let mut cpu = with_registers(&[(0, 3), (1, 2)]);
    cpu.ld_i(5);
    cpu.drw_vx_vy(0, 1, 5).unwrap();
    let flat = cpu.get_framebuffer();
    let grid = cpu.get_scree_buffer();
    assert_eq!(grid.len(), 64);
    for col in 0..64usize {
        assert_eq!(grid[col].len(), 32);
        for row in 0..32usize {
            assert_eq!(grid[col][row], flat[row * 64 + col]);
            assert_eq!(grid[col][row], cpu.pixel(col as u8, row as u8));
        }
    }
    // glyph "1" is 0x20 0x60 0x20 0x20 0x70
    assert!(grid[3 + 2][2]);
    assert!(grid[3 + 1][3] && grid[3 + 2][3]);
    assert!(!grid[3][2]);
}

#[test]
fn framebuffer_export_is_a_copy() {
    let cpu = Cpu::new(None).unwrap();
    let mut fb = cpu.get_framebuffer();
    fb[0] = true;
    let mut grid = cpu.get_scree_buffer();
    grid[0][0] = true;
    assert!(!cpu.pixel(0, 0));
    assert_eq!(cpu.get_framebuffer(), [false; 2048]);
}

#[test]
fn execute_dispatches_every_instruction() {
    let mut cpu = with_registers(&[(1, 8), (2, 3)]);
    cpu.execute(Instruction::LdVx { x: 5, val: 9 }, 0).unwrap();
    cpu.execute(Instruction::AddVx { x: 5, val: 1 }, 0).unwrap();
    assert_eq!(cpu.register(5), 10);
    cpu.execute(Instruction::SubVxVy { x: 1, y: 2 }, 0).unwrap();
    assert_eq!((cpu.register(1), cpu.register(0xF)), (5, 1));
    cpu.execute(Instruction::SubnVxVy { x: 1, y: 2 }, 0).unwrap();
    assert_eq!((cpu.register(1), cpu.register(0xF)), (254, 0));
    cpu.execute(Instruction::ShlVx { x: 2 }, 0).unwrap();
    assert_eq!(cpu.register(2), 6);
    cpu.execute(Instruction::LdI { addr: 0x321 }, 0).unwrap();
    assert_eq!(cpu.i_register(), 0x321);
    cpu.execute(Instruction::LdBVx { x: 5 }, 0).unwrap();
    assert_eq!(cpu.memory(0x322), 1);
    cpu.execute(Instruction::Call { addr: 0x400 }, 0).unwrap();
    cpu.execute(Instruction::Ret, 0).unwrap();
    assert_eq!(cpu.pc(), 0x200);
    assert_eq!(cpu.execute(Instruction::Ret, 0), Err(Chip8Error::StackUnderflow));
    cpu.execute(Instruction::LdVxK { x: 1 }, 0).unwrap();
    assert_eq!(cpu.awaiting_key(), Some(1));
    assert_eq!(cpu.pc(), 0x1FE);
}
