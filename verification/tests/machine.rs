use chip8::cpu::Cpu;
use chip8::screen::render;

const FONT: [u8; 80] = [
    0xF0, 0x90, 0x90, 0x90, 0xF0, 0x20, 0x60, 0x20, 0x20, 0x70, 0xF0, 0x10, 0xF0, 0x80, 0xF0,
    0xF0, 0x10, 0xF0, 0x10, 0xF0, 0x90, 0x90, 0xF0, 0x10, 0x10, 0xF0, 0x80, 0xF0, 0x10, 0xF0,
    0xF0, 0x80, 0xF0, 0x90, 0xF0, 0xF0, 0x10, 0x20, 0x40, 0x40, 0xF0, 0x90, 0xF0, 0x90, 0xF0,
    0xF0, 0x90, 0xF0, 0x10, 0xF0, 0xF0, 0x90, 0xF0, 0x90, 0x90, 0xE0, 0x90, 0xE0, 0x90, 0xE0,
    0xF0, 0x80, 0x80, 0x80, 0xF0, 0xE0, 0x90, 0x90, 0x90, 0xE0, 0xF0, 0x80, 0xF0, 0x80, 0xF0,
    0xF0, 0x80, 0xF0, 0x80, 0x80,
];

#[test]
fn new_machine_holds_font_and_starts_at_program() {
    let cpu = Cpu::new();
    assert_eq!(&cpu.memory[0..80], &FONT[..]);
    assert!(cpu.memory[80..].iter().all(|&b| b == 0));
    assert_eq!(cpu.pc, 0x200);
    assert_eq!(cpu.i, 0);
    assert_eq!(cpu.sp, 0);
    assert!(cpu.v.iter().all(|&r| r == 0));
    assert!(cpu.display.iter().all(|&p| !p));
    assert!(!cpu.draw_flag);
}

#[test]
fn load_rom_then_fetch_reads_big_endian() {
    let mut cpu = Cpu::new();
    cpu.load_rom(&[0x12, 0x34, 0xAB]);
    assert_eq!(cpu.memory[0x200], 0x12);
    assert_eq!(cpu.memory[0x202], 0xAB);
    assert_eq!(cpu.memory[0x203], 0);
    assert_eq!(cpu.fetch(), 0x1234);
    assert_eq!(cpu.pc, 0x202);
    assert_eq!(cpu.fetch(), 0xAB00);
    assert_eq!(cpu.pc, 0x204);
}

#[test]
fn load_rom_fills_memory_to_the_end() {
    let mut cpu = Cpu::new();
    let rom = vec![7u8; 4096 - 0x200];
    cpu.load_rom(&rom);
    assert_eq!(cpu.memory[4095], 7);
    assert_eq!(cpu.memory[0x1FF], 0);
}

#[test]
fn execute_clear_jump_call_return() {
    let mut cpu = Cpu::new();
    cpu.display[5] = true;
    cpu.execute(0x00E0);
    assert!(!cpu.display[5]);
    assert!(cpu.draw_flag);
    cpu.execute(0x1ABC);
    assert_eq!(cpu.pc, 0xABC);
    cpu.execute(0x2345);
    assert_eq!(cpu.pc, 0x345);
    assert_eq!(cpu.stack[0], 0xABC);
    assert_eq!(cpu.sp, 1);
    cpu.execute(0x00EE);
    assert_eq!(cpu.pc, 0xABC);
    assert_eq!(cpu.sp, 0);
}

#[test]
fn execute_set_byte_groups_six_and_seven_both_set() {
    let mut cpu = Cpu::new();
    cpu.execute(0x6A05);
    assert_eq!(cpu.v[0xA], 5);
    cpu.execute(0x7A03);
    assert_eq!(cpu.v[0xA], 3);
}

#[test]
fn execute_arithmetic_group() {
    let mut cpu = Cpu::new();
    cpu.v[0] = 200;
    cpu.v[1] = 100;
    cpu.execute(0x8014);
    assert_eq!(cpu.v[0], 44);
    assert_eq!(cpu.v[0xF], 1);
    cpu.execute(0x8015);
    assert_eq!(cpu.v[0], 200);
    assert_eq!(cpu.v[0xF], 0);
    cpu.execute(0x8017);
    assert_eq!(cpu.v[0], 156);
    assert_eq!(cpu.v[0xF], 0);
    cpu.execute(0x8016);
    assert_eq!(cpu.v[0], 78);
    assert_eq!(cpu.v[0xF], 0);
    cpu.execute(0x801E);
    assert_eq!(cpu.v[0], 156);
    assert_eq!(cpu.v[0xF], 0);
    cpu.execute(0x8011);
    assert_eq!(cpu.v[0], 156 | 100);
    cpu.execute(0x8012);
    assert_eq!(cpu.v[0], (156 | 100) & 100);
    cpu.execute(0x8013);
    assert_eq!(cpu.v[0], 0);
    cpu.execute(0x8010);
    assert_eq!(cpu.v[0], 100);
}

#[test]
fn execute_unknown_opcodes_change_nothing() {
    let mut cpu = Cpu::new();
    cpu.v[3] = 9;
    for opcode in [0x0123u16, 0x0000, 0x8008, 0x800F, 0xE000, 0xF0FF, 0xF000] {
        cpu.execute(opcode);
    }
    assert_eq!(cpu.pc, 0x200);
    assert_eq!(cpu.v[3], 9);
    assert_eq!(cpu.i, 0);
    assert!(!cpu.draw_flag);
}

#[test]
fn execute_index_and_memory_group() {
    let mut cpu = Cpu::new();
    cpu.execute(0xA300);
    assert_eq!(cpu.i, 0x300);
    cpu.v[2] = 254;
    cpu.execute(0xF233);
    assert_eq!(&cpu.memory[0x300..0x303], &[2, 5, 4]);
    cpu.v[0] = 1;
    cpu.v[1] = 2;
    cpu.execute(0xF255);
    assert_eq!(&cpu.memory[0x300..0x303], &[1, 2, 254]);
    cpu.v = [0; 16];
    cpu.execute(0xF165);
    assert_eq!(cpu.v[0], 1);
    assert_eq!(cpu.v[1], 2);
    assert_eq!(cpu.v[2], 0);
    cpu.v[4] = 0x20;
    cpu.execute(0xF41E);
    assert_eq!(cpu.i, 0x320);
    cpu.v[4] = 0xF;
    cpu.execute(0xF429);
    assert_eq!(cpu.i, 75);
}

#[test]
fn execute_jump_plus_v0() {
    let mut cpu = Cpu::new();
    cpu.v[0] = 0xFF;
    cpu.execute(0xBFFF);
    assert_eq!(cpu.pc, 0xFFF + 0xFF);
}

#[test]
fn execute_timers_and_keys() {
    let mut cpu = Cpu::new();
    cpu.v[5] = 30;
    cpu.execute(0xF515);
    cpu.execute(0xF618);
    assert_eq!(cpu.delay_timer, 30);
    assert_eq!(cpu.sound_timer, 0);
    cpu.execute(0xF707);
    assert_eq!(cpu.v[7], 30);
    cpu.v[1] = 0xC;
    cpu.keypad[0xC] = true;
    cpu.execute(0xE19E);
    assert_eq!(cpu.pc, 0x202);
    cpu.execute(0xE1A1);
    assert_eq!(cpu.pc, 0x202);
    cpu.keypad[0xC] = false;
    cpu.execute(0xE1A1);
    assert_eq!(cpu.pc, 0x204);
}

#[test]
fn execute_skips_on_register_comparisons() {
    let mut cpu = Cpu::new();
    cpu.v[1] = 4;
    cpu.v[2] = 4;
    cpu.execute(0x3104);
    assert_eq!(cpu.pc, 0x202);
    cpu.execute(0x4104);
    assert_eq!(cpu.pc, 0x202);
    cpu.execute(0x5120);
    assert_eq!(cpu.pc, 0x204);
    cpu.execute(0x9120);
    assert_eq!(cpu.pc, 0x204);
    cpu.v[2] = 5;
    cpu.execute(0x9120);
    assert_eq!(cpu.pc, 0x206);
}

#[test]
fn execute_random_respects_mask() {
    let mut cpu = Cpu::new();
    for _ in 0..200 {
        cpu.execute(0xC30F);
        assert_eq!(cpu.v[3] & 0xF0, 0);
    }
    cpu.execute(0xC300);
    assert_eq!(cpu.v[3], 0);
}

#[test]
fn op_rand_with_masks_the_given_byte() {
    let mut cpu = Cpu::new();
    cpu.op_rand_with(2, 0b1010_1010, 0b1111_0000);
    assert_eq!(cpu.v[2], 0b1010_0000);
    for _ in 0..100 {
        cpu.op_rand(2, 0x81);
        assert_eq!(cpu.v[2] & !0x81, 0);
    }
}

#[test]
fn wait_key_takes_lowest_pressed_key() {
    let mut cpu = Cpu::new();
    cpu.keypad[7] = true;
    cpu.keypad[3] = true;
    cpu.op_wait_key(4);
    assert_eq!(cpu.v[4], 3);
    assert_eq!(cpu.pc, 0x200);
}

#[test]
fn wait_key_without_key_repeats_instruction() {
    let mut cpu = Cpu::new();
    cpu.load_rom(&[0xF2, 0x0A]);
    assert!(cpu.cycle());
    assert_eq!(cpu.pc, 0x200);
    assert_eq!(cpu.v[2], 0);
    cpu.keypad[0xE] = true;
    assert!(cpu.cycle());
    assert_eq!(cpu.pc, 0x202);
    assert_eq!(cpu.v[2], 0xE);
}

#[test]
fn cycle_fetches_and_runs() {
    let mut cpu = Cpu::new();
    cpu.load_rom(&[0x60, 0x05, 0x70, 0x09, 0x12, 0x00]);
    assert!(cpu.cycle());
    assert_eq!(cpu.v[0], 5);
    assert!(cpu.cycle());
    assert_eq!(cpu.v[0], 9);
    assert!(cpu.cycle());
    assert_eq!(cpu.pc, 0x200);
}

#[test]
fn cycle_refuses_what_would_overflow() {
    let mut cpu = Cpu::new();
    cpu.load_rom(&[0x00, 0xEE]);
    assert!(!cpu.cycle());
    assert_eq!(cpu.pc, 0x200);
    cpu.pc = 4095;
    assert!(!cpu.cycle());
    assert_eq!(cpu.pc, 4095);
    cpu.pc = 4094;
    assert!(cpu.cycle());
}

#[test]
fn can_execute_checks_limits() {
    let mut cpu = Cpu::new();
    assert!(!cpu.can_execute(0x00EE));
    cpu.sp = 16;
    assert!(!cpu.can_execute(0x2200));
    assert!(cpu.can_execute(0x00EE));
    cpu.i = 4094;
    assert!(!cpu.can_execute(0xF033));
    assert!(cpu.can_execute(0xF155));
    assert!(!cpu.can_execute(0xF255));
    cpu.i = 0xFFFF;
    cpu.v[1] = 1;
    assert!(!cpu.can_execute(0xF11E));
    cpu.v[1] = 16;
    assert!(!cpu.can_execute(0xE19E));
    assert!(cpu.can_execute(0x1000));
}

#[test]
fn draw_limits_follow_eight_bit_index() {
    let mut cpu = Cpu::new();
    cpu.i = 0x300;
    cpu.memory[0x300] = 0x80;
    cpu.v[0] = 63;
    cpu.v[1] = 3;
    assert!(cpu.can_execute(0xD011));
    cpu.op_draw(0, 1, 1);
    assert!(cpu.display[3 * 64 + 63]);
    cpu.v[1] = 4;
    assert!(!cpu.can_execute(0xD011));
    cpu.v[1] = 2;
    assert!(cpu.can_execute(0xD012));
    assert!(!cpu.can_execute(0xD013));
    cpu.v[0] = 249;
    cpu.v[1] = 0;
    assert!(!cpu.can_execute(0xD011));
    cpu.v[0] = 248;
    assert!(cpu.can_execute(0xD011));
    assert!(cpu.can_execute(0xD010));
}

#[test]
fn draw_wraps_columns_and_reports_collision_only_on_lit_pixels() {
    let mut cpu = Cpu::new();
    cpu.i = 0x300;
    cpu.memory[0x300] = 0b1000_0001;
    cpu.v[0] = 60;
    cpu.v[1] = 1;
    cpu.op_draw(0, 1, 1);
    assert!(cpu.display[64 + 60]);
    assert!(cpu.display[64 + 3]);
    assert_eq!(cpu.display.iter().filter(|&&p| p).count(), 2);
    assert_eq!(cpu.v[0xF], 0);
    cpu.memory[0x300] = 0b0100_0000;
    cpu.op_draw(0, 1, 1);
    assert_eq!(cpu.v[0xF], 0);
    assert!(cpu.display[64 + 61]);
}

#[test]
fn draw_twice_restores_display() {
    let mut cpu = Cpu::new();
    cpu.display[7] = true;
    cpu.display[70] = true;
    let before = cpu.display;
    cpu.i = 0; // glyph 0 of the font, five rows
    cpu.v[2] = 5;
    cpu.v[3] = 0;
    assert!(!cpu.can_execute(0xD235));
    assert!(cpu.can_execute(0xD234));
    cpu.op_draw(2, 3, 4);
    assert_ne!(cpu.display, before);
    cpu.op_draw(2, 3, 4);
    assert_eq!(cpu.display, before);
    assert_eq!(cpu.v[0xF], 1);
}

#[test]
fn draw_with_vf_as_coordinate_reads_the_cleared_flag() {
    let mut cpu = Cpu::new();
    cpu.i = 0x300;
    cpu.memory[0x300] = 0x80;
    cpu.v[0xF] = 40;
    cpu.v[1] = 0;
    cpu.op_draw(0xF, 1, 1);
    assert!(cpu.display[0]);
    assert!(!cpu.display[40]);
}

#[test]
fn arithmetic_laws_on_values() {
    let mut cpu = Cpu::new();
    for (a, b) in [(0u8, 0u8), (255, 1), (128, 128), (17, 200), (255, 255)] {
        cpu.v[1] = a;
        cpu.v[2] = b;
        cpu.op_add_reg(1, 2);
        assert_eq!(cpu.v[1] as u16 + 256 * cpu.v[0xF] as u16, a as u16 + b as u16);
        cpu.v[1] = a;
        cpu.op_sub(1, 2);
        assert_eq!(cpu.v[1] as i32 - 256 * (1 - cpu.v[0xF] as i32), a as i32 - b as i32);
        cpu.v[1] = a;
        cpu.op_subn(1, 2);
        assert_eq!(cpu.v[1] as i32 - 256 * (1 - cpu.v[0xF] as i32), b as i32 - a as i32);
        cpu.v[1] = a;
        cpu.op_shr(1);
        assert_eq!(2 * cpu.v[1] as u16 + cpu.v[0xF] as u16, a as u16);
        cpu.v[1] = a;
        cpu.op_shl(1);
        assert_eq!(cpu.v[1] as u16 + 256 * cpu.v[0xF] as u16, 2 * a as u16);
    }
}

#[test]
fn flag_register_as_destination_keeps_the_flag() {
    let mut cpu = Cpu::new();
    cpu.v[0xF] = 200;
    cpu.v[1] = 100;
    cpu.op_add_reg(0xF, 1);
    assert_eq!(cpu.v[0xF], 1);
    cpu.v[0xF] = 3;
    cpu.op_sub(0xF, 1);
    assert_eq!(cpu.v[0xF], 0);
}

#[test]
fn bcd_of_extremes() {
    let mut cpu = Cpu::new();
    cpu.i = 0x400;
    for (val, digits) in [(0u8, [0u8, 0, 0]), (9, [0, 0, 9]), (10, [0, 1, 0]), (255, [2, 5, 5])] {
        cpu.v[6] = val;
        cpu.op_bcd(6);
        assert_eq!(&cpu.memory[0x400..0x403], &digits);
    }
}

#[test]
fn font_points_at_glyph() {
    let mut cpu = Cpu::new();
    cpu.v[0] = 0xA;
    cpu.op_font(0);
    let i = cpu.i as usize;
    assert_eq!(&cpu.memory[i..i + 5], &[0xF0, 0x90, 0xF0, 0x90, 0x90]);
}

#[test]
fn store_only_writes_its_block() {
    let mut cpu = Cpu::new();
    cpu.i = 0x300;
    cpu.memory[0x2FF] = 0x11;
    cpu.memory[0x302] = 0x22;
    cpu.v = [0xEE; 16];
    cpu.op_store(1);
    assert_eq!(&cpu.memory[0x2FF..0x303], &[0x11, 0xEE, 0xEE, 0x22]);
}

#[test]
fn add_wraps_and_leaves_flag() {
    let mut cpu = Cpu::new();
    cpu.v[0] = 250;
    cpu.v[0xF] = 7;
    cpu.op_add(0, 10);
    assert_eq!(cpu.v[0], 4);
    assert_eq!(cpu.v[0xF], 7);
}

#[test]
fn timers_count_down_to_zero() {
    let mut cpu = Cpu::new();
    cpu.delay_timer = 2;
    cpu.sound_timer = 1;
    cpu.tick_timers();
    assert_eq!((cpu.delay_timer, cpu.sound_timer), (1, 0));
    cpu.tick_timers();
    assert_eq!((cpu.delay_timer, cpu.sound_timer), (0, 0));
    cpu.tick_timers();
    assert_eq!((cpu.delay_timer, cpu.sound_timer), (0, 0));
}

#[test]
fn render_scales_each_pixel_to_a_square() {
    let mut display = [false; 2048];
    display[0] = true;
    display[31 * 64 + 63] = true;
    display[64 + 2] = true;
    let frame = render(&display);
    assert_eq!(frame.len(), 640 * 320);
    assert_eq!(frame[0], 0x00FF_FFFF);
    assert_eq!(frame[9 * 640 + 9], 0x00FF_FFFF);
    assert_eq!(frame[10], 0);
    assert_eq!(frame[10 * 640], 0);
    assert_eq!(frame[319 * 640 + 639], 0x00FF_FFFF);
    assert_eq!(frame[(10 + 4) * 640 + 20 + 7], 0x00FF_FFFF);
    assert_eq!(frame.iter().filter(|&&c| c != 0).count(), 300);
}

#[test]
fn take_frame_only_when_display_changed() {
    let mut cpu = Cpu::new();
    assert!(cpu.take_frame().is_none());
    cpu.op_clear_screen();
    let frame = cpu.take_frame();
    assert!(frame.is_some());
    assert!(frame.unwrap().iter().all(|&c| c == 0));
    assert!(!cpu.draw_flag);
    assert!(cpu.take_frame().is_none());
}

#[test]
fn instructions_leave_keypad_alone_and_memory_to_store_and_bcd() {
    let mut cpu = Cpu::new();
    cpu.keypad[5] = true;
    cpu.i = 0x300;
    cpu.memory[0x300] = 0xF0;
    let memory = cpu.memory;
    let keypad = cpu.keypad;
    for opcode in [0x00E0u16, 0x6105, 0x8124, 0x8126, 0xA300, 0xD001, 0xF107, 0xF115, 0xF11E, 0xF029, 0xC1FF] {
        cpu.execute(opcode);
        assert_eq!(cpu.keypad, keypad);
        assert_eq!(cpu.memory, memory);
    }
    cpu.execute(0xA400);
    cpu.execute(0xF133);
    assert_ne!(cpu.memory, memory);
    assert_eq!(cpu.keypad, keypad);
}
