use chip8::machine::{PIXEL_OFF, PIXEL_ON};
use chip8::{decode, Action, Chip8, EmulationError, Event, Instruction};

fn machine_with(program: &[u8]) -> Chip8 {
    Chip8::new(program)
}

fn lit_pixels(cpu: &Chip8) -> Vec<usize> {
    (0..2048).filter(|&p| cpu.screen[p] == PIXEL_ON).collect()
}

#[test]
fn new_loads_font_and_program() {
    let cpu = machine_with(&[0x12, 0x34, 0x56]);
    assert_eq!(cpu.memory[0], 0xf0);
    assert_eq!(cpu.memory[5], 0x20);
    assert_eq!(cpu.memory[79], 0x80);
    assert_eq!(cpu.memory[80], 0);
    assert_eq!(cpu.memory[0x200], 0x12);
    assert_eq!(cpu.memory[0x201], 0x34);
    assert_eq!(cpu.memory[0x202], 0x56);
    assert_eq!(cpu.memory[0x203], 0);
    assert_eq!(cpu.pc, 0x200);
    assert_eq!(cpu.sp, 0);
    assert_eq!(cpu.I, 0);
    assert!(cpu.screen.iter().all(|&p| p == PIXEL_OFF));
}

#[test]
fn new_truncates_oversized_program() {
    let program = vec![0xab; 5000];
    let cpu = machine_with(&program);
    assert_eq!(cpu.memory[0x200], 0xab);
    assert_eq!(cpu.memory[4095], 0xab);
    assert_eq!(cpu.memory[0x1ff], 0);
}

#[test]
fn timers_tick_down_and_stop_at_zero() {
    let mut cpu = machine_with(&[]);
    cpu.DT = 2;
    cpu.ST = 1;
    cpu.decreament_timer();
    assert_eq!((cpu.DT, cpu.ST), (1, 0));
    cpu.decreament_timer();
    assert_eq!((cpu.DT, cpu.ST), (0, 0));
    cpu.decreament_timer();
    assert_eq!((cpu.DT, cpu.ST), (0, 0));
}

#[test]
fn decode_known_and_unknown_words() {
    assert_eq!(decode(0x00e0), Some(Instruction::Cls));
    assert_eq!(decode(0x00ee), Some(Instruction::Ret));
    assert_eq!(decode(0xd12f), Some(Instruction::Drw { x: 1, y: 2, n: 0xf }));
    assert_eq!(decode(0x8a3e), Some(Instruction::Shl { x: 0xa, y: 3 }));
    assert_eq!(decode(0xf20a), Some(Instruction::LdVxK { x: 2 }));
    assert_eq!(decode(0x5121), None);
    assert_eq!(decode(0x8128), None);
    assert_eq!(decode(0xe1ff), None);
    assert_eq!(decode(0xffff), None);
}

#[test]
fn unknown_opcode_is_an_error_and_changes_nothing() {
    let mut cpu = machine_with(&[0xff, 0xff]);
    assert_eq!(cpu.emulate_op(None), Err(EmulationError::UnknownOpcode(0xffff)));
    assert_eq!(cpu.pc, 0x200);
}

#[test]
fn call_with_full_stack_overflows() {
    let mut cpu = machine_with(&[0x23, 0x00]);
    cpu.sp = 15;
    assert_eq!(cpu.emulate_op(None), Err(EmulationError::StackOverflow));
    assert_eq!(cpu.pc, 0x200);
    assert_eq!(cpu.sp, 15);
}

#[test]
fn return_with_empty_stack_underflows() {
    let mut cpu = machine_with(&[0x00, 0xee]);
    assert_eq!(cpu.emulate_op(None), Err(EmulationError::StackUnderflow));
    assert_eq!(cpu.pc, 0x200);
}

#[test]
fn call_then_return_resumes_after_call() {
    let mut program = vec![0u8; 0x102];
    program[0] = 0x23;
    program[1] = 0x00;
    program[0x100] = 0x00;
    program[0x101] = 0xee;
    let mut cpu = machine_with(&program);
    assert_eq!(cpu.emulate_op(None), Ok(None));
    assert_eq!(cpu.pc, 0x300);
    assert_eq!(cpu.emulate_op(None), Ok(None));
    assert_eq!(cpu.pc, 0x202);
    assert_eq!(cpu.sp, 0);
}

#[test]
fn clear_screen_redraws_blank() {
    let mut cpu = machine_with(&[0x00, 0xe0]);
    cpu.screen[10] = PIXEL_ON;
    match cpu.emulate_op(None) {
        Ok(Some(Action::DisplayScreen(buf))) => assert!(buf.iter().all(|&p| p == PIXEL_OFF)),
        other => panic!("unexpected {:?}", other.map(|a| a.is_some())),
    }
    assert!(lit_pixels(&cpu).is_empty());
}

#[test]
fn add_sets_carry_and_wraps() {
    let mut cpu = machine_with(&[0x81, 0x24]);
    cpu.v[1] = 200;
    cpu.v[2] = 100;
    cpu.emulate_op(None).unwrap();
    assert_eq!(cpu.v[1], 44);
    assert_eq!(cpu.v[0xf], 1);
}

#[test]
fn add_without_carry_clears_flag() {
    let mut cpu = machine_with(&[0x81, 0x24]);
    cpu.v[1] = 20;
    cpu.v[2] = 10;
    cpu.v[0xf] = 1;
    cpu.emulate_op(None).unwrap();
    assert_eq!(cpu.v[1], 30);
    assert_eq!(cpu.v[0xf], 0);
}

#[test]
fn sub_with_borrow_wraps_and_clears_flag() {
    let mut cpu = machine_with(&[0x81, 0x25]);
    cpu.v[1] = 1;
    cpu.v[2] = 2;
    cpu.emulate_op(None).unwrap();
    assert_eq!(cpu.v[1], 0xff);
    assert_eq!(cpu.v[0xf], 0);
}

#[test]
fn sub_of_equal_values_clears_flag() {
    let mut cpu = machine_with(&[0x81, 0x25]);
    cpu.v[1] = 7;
    cpu.v[2] = 7;
    cpu.emulate_op(None).unwrap();
    assert_eq!(cpu.v[1], 0);
    assert_eq!(cpu.v[0xf], 0);
}

#[test]
fn shl_of_high_bit_sets_flag() {
    let mut cpu = machine_with(&[0x81, 0x0e]);
    cpu.v[1] = 0x81;
    cpu.emulate_op(None).unwrap();
    assert_eq!(cpu.v[1], 0x02);
    assert_eq!(cpu.v[0xf], 1);
}

#[test]
fn flag_register_as_target_holds_the_flag() {
    let mut cpu = machine_with(&[0x8f, 0x14]);
    cpu.v[0xf] = 0xff;
    cpu.v[1] = 0x02;
    cpu.emulate_op(None).unwrap();
    assert_eq!(cpu.v[0xf], 1);
}

#[test]
fn add_byte_wraps_without_touching_flag() {
    let mut cpu = machine_with(&[0x71, 0x10]);
    cpu.v[1] = 0xf8;
    cpu.v[0xf] = 5;
    cpu.emulate_op(None).unwrap();
    assert_eq!(cpu.v[1], 0x08);
    assert_eq!(cpu.v[0xf], 5);
}

#[test]
fn skip_not_taken_advances_two() {
    let mut cpu = machine_with(&[0x30, 0x55]);
    cpu.v[0] = 0x54;
    cpu.emulate_op(None).unwrap();
    assert_eq!(cpu.pc, 0x202);
}

#[test]
fn skip_if_key_pressed() {
    let mut cpu = machine_with(&[0xe3, 0x9e]);
    cpu.v[3] = 0x07;
    cpu.emulate_op(Some(Event::KeyPress(7))).unwrap();
    assert_eq!(cpu.pc, 0x204);
    let mut cpu = machine_with(&[0xe3, 0x9e]);
    cpu.v[3] = 0x07;
    cpu.emulate_op(Some(Event::KeyPress(8))).unwrap();
    assert_eq!(cpu.pc, 0x202);
    let mut cpu = machine_with(&[0xe3, 0x9e]);
    cpu.v[3] = 0x17;
    cpu.emulate_op(Some(Event::KeyPress(7))).unwrap();
    assert_eq!(cpu.pc, 0x204);
}

#[test]
fn skip_if_key_not_pressed() {
    let mut cpu = machine_with(&[0xe3, 0xa1]);
    cpu.v[3] = 0x07;
    cpu.emulate_op(None).unwrap();
    assert_eq!(cpu.pc, 0x204);
    let mut cpu = machine_with(&[0xe3, 0xa1]);
    cpu.v[3] = 0x07;
    cpu.emulate_op(Some(Event::KeyPress(7))).unwrap();
    assert_eq!(cpu.pc, 0x202);
}

#[test]
fn draw_full_row_twice_restores_blank_screen() {
    let mut cpu = machine_with(&[0xd0, 0x11, 0xd0, 0x11]);
    cpu.I = 0x300;
    cpu.memory[0x300] = 0xff;
    cpu.v[0] = 10;
    cpu.v[1] = 5;
    match cpu.emulate_op(None) {
        Ok(Some(Action::DisplayScreen(buf))) => {
            let lit: Vec<usize> = (0..2048).filter(|&p| buf[p] == PIXEL_ON).collect();
            assert_eq!(lit, (330..338).collect::<Vec<usize>>());
        }
        _ => panic!("expected a redraw"),
    }
    assert_eq!(cpu.v[0xf], 0);
    cpu.emulate_op(None).unwrap();
    assert!(lit_pixels(&cpu).is_empty());
    assert_eq!(cpu.v[0xf], 1);
}

#[test]
fn draw_wraps_around_right_edge() {
    let mut cpu = machine_with(&[0xd0, 0x11]);
    cpu.I = 0x300;
    cpu.memory[0x300] = 0xff;
    cpu.v[0] = 63;
    cpu.v[1] = 0;
    cpu.emulate_op(None).unwrap();
    assert_eq!(lit_pixels(&cpu), vec![0, 1, 2, 3, 4, 5, 6, 63]);
}

#[test]
fn draw_wraps_around_bottom_edge() {
    let mut cpu = machine_with(&[0xd0, 0x12]);
    cpu.I = 0x300;
    cpu.memory[0x300] = 0x80;
    cpu.memory[0x301] = 0x80;
    cpu.v[0] = 0;
    cpu.v[1] = 31;
    cpu.emulate_op(None).unwrap();
    assert_eq!(lit_pixels(&cpu), vec![0, 31 * 64]);
}

#[test]
fn draw_partial_overlap_reports_collision() {
    let mut cpu = machine_with(&[0xd0, 0x11]);
    cpu.I = 0x300;
    cpu.memory[0x300] = 0xc0;
    cpu.screen[1] = PIXEL_ON;
    cpu.screen[2] = PIXEL_ON;
    cpu.emulate_op(None).unwrap();
    assert_eq!(lit_pixels(&cpu), vec![0, 2]);
    assert_eq!(cpu.v[0xf], 1);
}

#[test]
fn draw_onto_unlit_pixels_clears_flag() {
    let mut cpu = machine_with(&[0xd0, 0x11]);
    cpu.I = 0x300;
    cpu.memory[0x300] = 0x80;
    cpu.screen[1] = PIXEL_ON;
    cpu.v[0xf] = 1;
    cpu.emulate_op(None).unwrap();
    assert_eq!(lit_pixels(&cpu), vec![0, 1]);
    assert_eq!(cpu.v[0xf], 0);
}

#[test]
fn await_key_holds_until_resolved() {
    let mut cpu = machine_with(&[0xf4, 0x0a]);
    for _ in 0..3 {
        assert_eq!(cpu.emulate_op(None), Ok(Some(Action::WaitForKeyPress)));
        assert_eq!(cpu.pc, 0x200);
    }
    assert_eq!(cpu.emulate_op(Some(Event::KeyPress(3))), Ok(Some(Action::WaitForKeyPress)));
    assert_eq!(cpu.pc, 0x200);
    assert_eq!(cpu.emulate_op(Some(Event::WaitingKeyPress(0x7))), Ok(None));
    assert_eq!(cpu.v[4], 0x7);
    assert_eq!(cpu.pc, 0x202);
}

#[test]
fn bcd_of_small_and_large_values() {
    let mut cpu = machine_with(&[0xf0, 0x33, 0xf0, 0x33]);
    cpu.I = 0x300;
    cpu.v[0] = 7;
    cpu.emulate_op(None).unwrap();
    assert_eq!(&cpu.memory[0x300..0x303], &[0, 0, 7]);
    cpu.v[0] = 255;
    cpu.emulate_op(None).unwrap();
    assert_eq!(&cpu.memory[0x300..0x303], &[2, 5, 5]);
}

#[test]
fn bcd_wraps_at_end_of_memory() {
    let mut cpu = machine_with(&[0xf0, 0x33]);
    cpu.I = 0x0ffe;
    cpu.v[0] = 123;
    cpu.emulate_op(None).unwrap();
    assert_eq!(cpu.memory[0xffe], 1);
    assert_eq!(cpu.memory[0xfff], 2);
    assert_eq!(cpu.memory[0], 3);
}

#[test]
fn store_then_load_round_trip() {
    let mut cpu = machine_with(&[0xf5, 0x55, 0x60, 0x00, 0x61, 0x00, 0xf5, 0x65]);
    cpu.I = 0x400;
    let regs: [u8; 8] = [9, 8, 7, 6, 5, 4, 0xaa, 0xbb];
    cpu.v[..8].copy_from_slice(&regs);
    cpu.emulate_op(None).unwrap();
    assert_eq!(&cpu.memory[0x400..0x406], &regs[..6]);
    assert_eq!(cpu.memory[0x406], 0);
    cpu.emulate_op(None).unwrap();
    cpu.emulate_op(None).unwrap();
    assert_eq!((cpu.v[0], cpu.v[1]), (0, 0));
    cpu.emulate_op(None).unwrap();
    assert_eq!(&cpu.v[..8], &regs);
    assert_eq!(cpu.I, 0x400);
}

#[test]
fn add_to_index_wraps_at_sixteen_bits() {
    let mut cpu = machine_with(&[0xf1, 0x1e]);
    cpu.I = 0xfff0;
    cpu.v[1] = 0x20;
    cpu.emulate_op(None).unwrap();
    assert_eq!(cpu.I, 0x0010);
}

#[test]
fn font_location_uses_low_nibble() {
    let mut cpu = machine_with(&[0xf1, 0x29]);
    cpu.v[1] = 0x1a;
    cpu.emulate_op(None).unwrap();
    assert_eq!(cpu.I, 50);
}

#[test]
fn jump_with_offset_wraps_within_memory() {
    let mut cpu = machine_with(&[0xbf, 0xff]);
    cpu.v[0] = 0x02;
    cpu.emulate_op(None).unwrap();
    assert_eq!(cpu.pc, 0x001);
}

#[test]
fn random_is_masked_by_byte() {
    let mut cpu = machine_with(&[0xc2, 0x0f]);
    assert_eq!(cpu.execute(Instruction::Rnd { x: 2, kk: 0x0f }, None, 0xab), Ok(None));
    assert_eq!(cpu.v[2], 0x0b);
    assert_eq!(cpu.pc, 0x202);
    let mut cpu = machine_with(&[0xc2, 0x0f]);
    assert_eq!(cpu.step(None, 0x35), Ok(None));
    assert_eq!(cpu.v[2], 0x05);
    let mut cpu = machine_with(&[0xc2, 0x00]);
    cpu.v[2] = 0x44;
    cpu.emulate_op(None).unwrap();
    assert_eq!(cpu.v[2], 0);
}

#[test]
fn timer_transfers() {
    let mut cpu = machine_with(&[0xf3, 0x15, 0xf4, 0x07]);
    cpu.v[3] = 42;
    cpu.emulate_op(None).unwrap();
    assert_eq!(cpu.DT, 42);
    cpu.decreament_timer();
    cpu.emulate_op(None).unwrap();
    assert_eq!(cpu.v[4], 41);
}
