use chip8::Chip8;

#[test]
fn sys_addr() {
    let mut memory = [0x00; 4096];
    memory[0x200] = 0x03;
    memory[0x201] = 0x01;
    let mut cpu = Chip8::new(&[]);
    cpu.memory = memory;
    cpu.emulate_op(None).unwrap();
    assert_eq!(cpu.pc, 0x301);
}

#[test]
fn ret() {
    let mut memory = [0x00; 4096];
    memory[0x200] = 0x00;
    memory[0x201] = 0xee;
    let mut cpu = Chip8::new(&[]);
    cpu.memory = memory;
    cpu.sp = 3;
    cpu.stack[3] = 0x0301;
    cpu.emulate_op(None).unwrap();
    assert_eq!(cpu.pc, 0x0301);
    assert_eq!(cpu.sp, 2);
}

#[test]
fn jp_addr() {
    let mut memory = [0x00; 4096];
    memory[0x200] = 0x14;
    memory[0x201] = 0x55;
    let mut cpu = Chip8::new(&[]);
    cpu.memory = memory;
    cpu.emulate_op(None).unwrap();
    assert_eq!(cpu.pc, 0x0455);
}

#[test]
fn call() {
    let mut memory = [0x00; 4096];
    memory[0x200] = 0x24;
    memory[0x201] = 0x55;
    let mut cpu = Chip8::new(&[]);
    let mut stack = [0; 16];
    stack[1] = 0x202;
    cpu.memory = memory;
    cpu.emulate_op(None).unwrap();
    assert_eq!(cpu.pc, 0x0455);
    assert_eq!(cpu.sp, 1);
    assert_eq!(cpu.stack, stack);
}

#[test]
fn se() {
    let mut memory = [0x00; 4096];
    memory[0x200] = 0x30;
    memory[0x201] = 0x55;
    let mut cpu = Chip8::new(&[]);
    cpu.memory = memory;
    cpu.v[0] = 0x55;
    cpu.emulate_op(None).unwrap();
    assert_eq!(cpu.pc, 0x204);
}

#[test]
fn sne_vx_byte() {
    let mut memory = [0x00; 4096];
    memory[0x200] = 0x40;
    memory[0x201] = 0x54;
    let mut cpu = Chip8::new(&[]);
    cpu.memory = memory;
    cpu.v[0] = 0x55;
    cpu.emulate_op(None).unwrap();
    assert_eq!(cpu.pc, 0x204);
}

#[test]
fn se_vx_vy() {
    let mut memory = [0x00; 4096];
    memory[0x200] = 0x50;
    memory[0x201] = 0x10;
    let mut cpu = Chip8::new(&[]);
    cpu.memory = memory;
    cpu.v[0] = 0x55;
    cpu.v[1] = 0x55;
    cpu.emulate_op(None).unwrap();
    assert_eq!(cpu.pc, 0x204);
}

#[test]
fn ld_vx_byte() {
    let mut memory = [0x00; 4096];
    memory[0x200] = 0x60;
    memory[0x201] = 0x10;
    let mut cpu = Chip8::new(&[]);
    cpu.memory = memory;
    cpu.emulate_op(None).unwrap();
    assert_eq!(cpu.v[0], 0x10);
}

#[test]
fn add_vx_byte() {
    let mut memory = [0x00; 4096];
    memory[0x200] = 0x70;
    memory[0x201] = 0x01;
    let mut cpu = Chip8::new(&[]);
    cpu.memory = memory;
    cpu.v[0] = 0x01;
    cpu.emulate_op(None).unwrap();
    assert_eq!(cpu.v[0], 0x02);
}

#[test]
fn ld_vx_vy() {
    let mut memory = [0x00; 4096];
    memory[0x200] = 0x80;
    memory[0x201] = 0x10;
    let mut cpu = Chip8::new(&[]);
    cpu.memory = memory;
    cpu.v[1] = 0x01;
    cpu.emulate_op(None).unwrap();
    assert_eq!(cpu.v[0], 0x01);
}

#[test]
fn or() {
    let mut memory = [0x00; 4096];
    memory[0x200] = 0x80;
    memory[0x201] = 0x11;
    let mut cpu = Chip8::new(&[]);
    cpu.memory = memory;
    cpu.v[0] = 0x02;
    cpu.v[1] = 0x01;
    cpu.emulate_op(None).unwrap();
    assert_eq!(cpu.v[0], 0x03);
}

#[test]
fn and() {
    let mut memory = [0x00; 4096];
    memory[0x200] = 0x80;
    memory[0x201] = 0x12;
    let mut cpu = Chip8::new(&[]);
    cpu.memory = memory;
    cpu.v[0] = 0x03;
    cpu.v[1] = 0x01;
    cpu.emulate_op(None).unwrap();
    assert_eq!(cpu.v[0], 0x01);
}

#[test]
fn xor() {
    let mut memory = [0x00; 4096];
    memory[0x200] = 0x80;
    memory[0x201] = 0x13;
    let mut cpu = Chip8::new(&[]);
    cpu.memory = memory;
    cpu.v[0] = 0x03;
    cpu.v[1] = 0x01;
    cpu.emulate_op(None).unwrap();
    assert_eq!(cpu.v[0], 0x02);
}

#[test]
fn add_vx_vy() {
    let mut memory = [0x00; 4096];
    memory[0x200] = 0x80;
    memory[0x201] = 0x14;
    let mut cpu = Chip8::new(&[]);
    cpu.memory = memory;
    cpu.v[0] = 0xff;
    cpu.v[1] = 0x01;
    cpu.emulate_op(None).unwrap();
    assert_eq!(cpu.v[0], 0x00);
    assert_eq!(cpu.v[0xf], 0x01);
}

#[test]
fn sub_vx_vy() {
    let mut memory = [0x00; 4096];
    memory[0x200] = 0x80;
    memory[0x201] = 0x15;
    let mut cpu = Chip8::new(&[]);
    cpu.memory = memory;
    cpu.v[0] = 0xff;
    cpu.v[1] = 0x01;
    cpu.emulate_op(None).unwrap();
    assert_eq!(cpu.v[0], 0xfe);
    assert_eq!(cpu.v[0xf], 0x01);
}

#[test]
fn shr() {
    let mut memory = [0x00; 4096];
    memory[0x200] = 0x80;
    memory[0x201] = 0x16;
    let mut cpu = Chip8::new(&[]);
    cpu.memory = memory;
    cpu.v[0] = 0xff;
    cpu.emulate_op(None).unwrap();
    assert_eq!(cpu.v[0], 0x7f);
    assert_eq!(cpu.v[0xf], 0x01);
}

#[test]
fn subn() {
    let mut memory = [0x00; 4096];
    memory[0x200] = 0x80;
    memory[0x201] = 0x17;
    let mut cpu = Chip8::new(&[]);
    cpu.memory = memory;
    cpu.v[0] = 0x01;
    cpu.v[1] = 0xff;
    cpu.emulate_op(None).unwrap();
    assert_eq!(cpu.v[0], 0xfe);
    assert_eq!(cpu.v[0xf], 0x01);
}

#[test]
fn shl() {
    let mut memory = [0x00; 4096];
    memory[0x200] = 0x80;
    memory[0x201] = 0x1e;
    let mut cpu = Chip8::new(&[]);
    cpu.memory = memory;
    cpu.v[0] = 0x7f;
    cpu.emulate_op(None).unwrap();
    assert_eq!(cpu.v[0], 0xfe);
    assert_eq!(cpu.v[0xf], 0x00);
}

#[test]
fn sne_vx_vy() {
    let mut memory = [0x00; 4096];
    memory[0x200] = 0x90;
    memory[0x201] = 0x10;
    let mut cpu = Chip8::new(&[]);
    cpu.memory = memory;
    cpu.v[0] = 0xff;
    cpu.v[1] = 0x01;
    cpu.emulate_op(None).unwrap();
    assert_eq!(cpu.pc, 0x204);
}

#[test]
fn ld_i_addr() {
    let mut memory = [0x00; 4096];
    memory[0x200] = 0xaf;
    memory[0x201] = 0xff;
    let mut cpu = Chip8::new(&[]);
    cpu.memory = memory;
    cpu.emulate_op(None).unwrap();
    assert_eq!(cpu.I, 0xfff);
}

#[test]
fn jp_v0_addr() {
    let mut memory = [0x00; 4096];
    memory[0x200] = 0xb3;
    memory[0x201] = 0x00;
    let mut cpu = Chip8::new(&[]);
    cpu.memory = memory;
    cpu.v[0] = 0x1;
    cpu.emulate_op(None).unwrap();
    assert_eq!(cpu.pc, 0x301);
}

#[test]
fn ld_dt_vx() {
    let mut memory = [0x00; 4096];
    memory[0x200] = 0xf0;
    memory[0x201] = 0x15;
    let mut cpu = Chip8::new(&[]);
    cpu.memory = memory;
    cpu.v[0] = 0x5;
    cpu.emulate_op(None).unwrap();
    assert_eq!(cpu.DT, 0x5);
}

#[test]
fn ld_st_vx() {
    let mut memory = [0x00; 4096];
    memory[0x200] = 0xf0;
    memory[0x201] = 0x18;
    let mut cpu = Chip8::new(&[]);
    cpu.memory = memory;
    cpu.v[0] = 0x5;
    cpu.emulate_op(None).unwrap();
    assert_eq!(cpu.ST, 0x5);
}

#[test]
fn add_i_vx() {
    let mut memory = [0x00; 4096];
    memory[0x200] = 0xf0;
    memory[0x201] = 0x1e;
    let mut cpu = Chip8::new(&[]);
    cpu.memory = memory;
    cpu.v[0] = 0x5;
    cpu.emulate_op(None).unwrap();
    assert_eq!(cpu.I, 0x5);
}

#[test]
fn ld_f_vx() {
    let mut memory = [0x00; 4096];
    memory[0x200] = 0xf0;
    memory[0x201] = 0x29;
    let mut cpu = Chip8::new(&[]);
    cpu.memory = memory;
    cpu.v[0] = 0xf;
    cpu.I = 0x300;
    cpu.emulate_op(None).unwrap();
    assert_eq!(cpu.I, 75);
}

#[test]
fn ld_b_vx() {
    let mut memory = [0x00; 4096];
    memory[0x200] = 0xf0;
    memory[0x201] = 0x33;
    let mut cpu = Chip8::new(&[]);
    cpu.memory = memory;
    cpu.v[0] = 123;
    cpu.I = 0x300;
    cpu.emulate_op(None).unwrap();
    assert_eq!(cpu.memory[0x300], 1);
    assert_eq!(cpu.memory[0x301], 2);
    assert_eq!(cpu.memory[0x302], 3);
}

#[test]
fn ld_mem_i_vx() {
    let mut memory = [0x00; 4096];
    memory[0x200] = 0xf3;
    memory[0x201] = 0x55;
    let mut cpu = Chip8::new(&[]);
    cpu.memory = memory;
    cpu.v[0] = 0x01;
    cpu.v[1] = 0x02;
    cpu.v[2] = 0x03;
    cpu.I = 0x300;
    cpu.emulate_op(None).unwrap();
    assert_eq!(cpu.memory[0x300], 0x1);
    assert_eq!(cpu.memory[0x301], 0x2);
    assert_eq!(cpu.memory[0x302], 0x3);
}

#[test]
fn ld_vx_mem_i() {
    let mut memory = [0x00; 4096];
    memory[0x200] = 0xf3;
    memory[0x201] = 0x65;
    let mut cpu = Chip8::new(&[]);
    cpu.memory = memory;
    cpu.memory[0x300] = 0x1;
    cpu.memory[0x301] = 0x2;
    cpu.memory[0x302] = 0x3;
    cpu.I = 0x300;
    cpu.emulate_op(None).unwrap();
    assert_eq!(cpu.v[0], 1);
    assert_eq!(cpu.v[1], 2);
    assert_eq!(cpu.v[2], 3);
}
