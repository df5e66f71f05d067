use chip8_emulator::emulator::Emulator;
use chip8_emulator::instruction::Instruction;
use chip8_emulator::keyboard::{Key, Keyboard};
use chip8_emulator::screen::Screen;

fn set_up(opcode: u16, instruction: Instruction) -> (Emulator, Keyboard) {
    assert_eq!(Instruction::parse_opcode(opcode), instruction);
    let e = Emulator::new();
    let k = Keyboard::new();
    (e, k)
}

fn no_screen_test(opcode: u16, e: &mut Emulator, k: &Keyboard) {
    let mut s = Screen::new(1, 1);
    e.emulate(opcode, k, &mut s).expect("execution failed");
}

#[test]
fn jp_addr() {
    let opcode = 0x12F3;
    let (mut e, k) = set_up(opcode, Instruction::JP_addr);
    no_screen_test(opcode, &mut e, &k);
    assert_eq!(e.pc, 0x2F3);
}

#[test]
fn cls() {
    let opcode = 0x00E0;
    let (mut e, k) = set_up(opcode, Instruction::CLS);
    let mut s = Screen::new(8, 8);
    s.set_pixel(1, 1);
    s.set_pixel(3, 2);
    e.emulate(opcode, &k, &mut s).expect("execution failed");
    let rendered = s.screen_to_render();
    assert!(rendered.iter().all(|cell| *cell == [0, 0, 0, 0]));
}

#[test]
fn ret() {
    let opcode = 0x00EE;
    let (mut e, k) = set_up(opcode, Instruction::RET);
    e.stack[1] = 0x123;
    e.sp = 1;
    no_screen_test(opcode, &mut e, &k);
    assert_eq!(e.pc, 0x123);
    assert_eq!(e.sp, 0);
}

#[test]
fn call_addr() {
    let opcode: u16 = 0x23E4;
    let (mut e, k) = set_up(opcode, Instruction::CALL_addr);
    e.pc = 0x123;
    no_screen_test(opcode, &mut e, &k);
    assert_eq!(e.sp, 1);
    assert_eq!(e.stack[1], 0x123);
    assert_eq!(e.pc, 0x3E4);
}

#[test]
fn se_vx() {
    let opcode: u16 = 0x3123;
    let (mut e, k) = set_up(opcode, Instruction::SE_Vx);
    e.registers[1] = 0x23;
    no_screen_test(opcode, &mut e, &k);
    assert_eq!(e.pc, (e.program_memory_index + 2) as u16);
    no_screen_test(0x3111, &mut e, &k);
    assert_eq!(e.pc, (e.program_memory_index + 2) as u16);
}

#[test]
fn sne_vx() {
    let opcode: u16 = 0x4123;
    let (mut e, k) = set_up(opcode, Instruction::SNE_Vx);
    e.registers[1] = 0x23;
    no_screen_test(opcode, &mut e, &k);
    assert_eq!(e.pc, (e.program_memory_index) as u16);
    no_screen_test(0x4111, &mut e, &k);
    assert_eq!(e.pc, (e.program_memory_index + 2) as u16);
}

#[test]
fn se_vx_vy() {
    let opcode: u16 = 0x5120;
    let (mut e, k) = set_up(opcode, Instruction::SE_Vx_Vy);
    e.registers[1] = 0xF1;
    e.registers[2] = 0xF1;
    no_screen_test(opcode, &mut e, &k);
    assert_eq!(e.pc, (e.program_memory_index + 2) as u16);
    e.registers[2] = 0xFF;
    no_screen_test(0x5120, &mut e, &k);
    assert_eq!(e.pc, (e.program_memory_index + 2) as u16);
}

#[test]
fn ld_vx() {
    let opcode: u16 = 0x6123;
    let (mut e, k) = set_up(opcode, Instruction::LD_Vx);
    no_screen_test(opcode, &mut e, &k);
    assert_eq!(e.registers[1], 0x23);
}

#[test]
fn add_vx() {
    let opcode: u16 = 0x7123;
    let (mut e, k) = set_up(opcode, Instruction::ADD_Vx);
    e.registers[1] = 15;
    no_screen_test(opcode, &mut e, &k);
    assert_eq!(e.registers[1], 15 + 0x23);
}

#[test]
fn ld_vx_vy() {
    let opcode: u16 = 0x8120;
    let (mut e, k) = set_up(opcode, Instruction::LD_Vx_Vy);
    e.registers[2] = 0xF3;
    no_screen_test(opcode, &mut e, &k);
    assert_eq!(e.registers[1], e.registers[2]);
}

#[test]
fn or_vx_vy() {
    let opcode: u16 = 0x8121;
    let (mut e, k) = set_up(opcode, Instruction::OR_Vx_Vy);
    e.registers[1] = 0xF0;
    e.registers[2] = 0x0F;
    no_screen_test(opcode, &mut e, &k);
    assert_eq!(e.registers[1], 0xFF);
}

#[test]
fn and_vx_vy() {
    let opcode: u16 = 0x8122;
    let (mut e, k) = set_up(opcode, Instruction::AND_Vx_Vy);
    e.registers[1] = 0xA0;
    e.registers[2] = 0xDF;
    no_screen_test(opcode, &mut e, &k);
    assert_eq!(e.registers[1], 0x80);
}

#[test]
fn xor_vx_vy() {
    let opcode: u16 = 0x8123;
    let (mut e, k) = set_up(opcode, Instruction::XOR_Vx_Vy);
    e.registers[1] = 0xA0;
    e.registers[2] = 0xDF;
    no_screen_test(opcode, &mut e, &k);
    assert_eq!(e.registers[1], 0x7F);
}

#[test]
fn add_vx_vy() {
    let opcode: u16 = 0x8124;
    let (mut e, k) = set_up(opcode, Instruction::ADD_Vx_Vy);
    e.registers[1] = 12;
    e.registers[2] = 24;
    no_screen_test(opcode, &mut e, &k);
    assert_eq!(e.registers[1], 36);
    assert_eq!(e.registers[e.flag_register_index], 0);
    e.registers[1] = 254;
    e.registers[2] = 2;
    no_screen_test(opcode, &mut e, &k);
    assert_eq!(e.registers[1], 0);
    assert_eq!(e.registers[e.flag_register_index], 1);
}

#[test]
fn sub_vx_vy() {
    let opcode: u16 = 0x8125;
    let (mut e, k) = set_up(opcode, Instruction::SUB_Vx_Vy);
    e.registers[1] = 12;
    e.registers[2] = 6;
    no_screen_test(opcode, &mut e, &k);
    assert_eq!(e.registers[1], 6);
    assert_eq!(e.registers[e.flag_register_index], 1);
    e.registers[2] = 12;
    no_screen_test(opcode, &mut e, &k);
    assert_eq!(e.registers[1], 250);
    assert_eq!(e.registers[e.flag_register_index], 0);
}

#[test]
fn shr_vx() {
    let opcode: u16 = 0x8126;
    let (mut e, k) = set_up(opcode, Instruction::SHR_Vx);
    e.registers[1] = 0x0D;
    no_screen_test(opcode, &mut e, &k);
    assert_eq!(e.registers[1], 0x06);
    assert_eq!(e.registers[e.flag_register_index], 1);
    e.registers[1] = 0xFE;
    no_screen_test(opcode, &mut e, &k);
    assert_eq!(e.registers[1], 0x7F);
    assert_eq!(e.registers[e.flag_register_index], 0);
}

#[test]
fn subn_vx_vy() {
    let opcode: u16 = 0x8127;
    let (mut e, k) = set_up(opcode, Instruction::SUBN_Vx_Vy);
    e.registers[1] = 6;
    e.registers[2] = 12;
    no_screen_test(opcode, &mut e, &k);
    assert_eq!(e.registers[1], 6);
    assert_eq!(e.registers[e.flag_register_index], 1);
    e.registers[2] = 1;
    no_screen_test(opcode, &mut e, &k);
    assert_eq!(e.registers[1], 251);
    assert_eq!(e.registers[e.flag_register_index], 0);
}

#[test]
fn shl_vx() {
    let opcode: u16 = 0x812E;
    let (mut e, k) = set_up(opcode, Instruction::SHL_Vx);
    e.registers[1] = 0xF0;
    no_screen_test(opcode, &mut e, &k);
    assert_eq!(e.registers[1], 0xE0);
    assert_eq!(e.registers[e.flag_register_index], 1);
    e.registers[1] = 0x7E;
    no_screen_test(opcode, &mut e, &k);
    assert_eq!(e.registers[1], 0xFC);
    assert_eq!(e.registers[e.flag_register_index], 0);
}

#[test]
fn sne_vx_vy() {
    let opcode: u16 = 0x9120;
    let (mut e, k) = set_up(opcode, Instruction::SNE_Vx_Vy);
    e.registers[1] = 0xF0;
    e.registers[2] = 0xF0;
    no_screen_test(opcode, &mut e, &k);
    assert_eq!(e.pc, e.program_memory_index as u16);
    e.registers[2] = 0xFF;
    no_screen_test(opcode, &mut e, &k);
    assert_eq!(e.pc, (e.program_memory_index as u16) + 2);
}

#[test]
fn ld_i() {
    let opcode: u16 = 0xA111;
    let (mut e, k) = set_up(opcode, Instruction::LD_I);
    no_screen_test(opcode, &mut e, &k);
    assert_eq!(e.address_register, 0x0111);
    no_screen_test(0xAF02, &mut e, &k);
    assert_eq!(e.address_register, 0x0F02);
}

#[test]
fn jp_v0() {
    let opcode: u16 = 0xB111;
    let (mut e, k) = set_up(opcode, Instruction::JP_V0);
    e.registers[0] = 0x72;
    no_screen_test(opcode, &mut e, &k);
    assert_eq!(e.pc, 0x0183);
    no_screen_test(0xB100, &mut e, &k);
    assert_eq!(e.pc, 0x0172);
}

#[test]
fn drw_vx_vy() {
    let opcode: u16 = 0xD015;
    let (mut e, k) = set_up(opcode, Instruction::DRW_Vx_Vy);
    let mut s = Screen::new(64, 32);
    // Draw the 5-row font glyph for digit 0 (at the font base address,
    // where the address register starts) at coordinates (0, 0).
    e.registers[0] = 0;
    e.registers[1] = 0;
    e.emulate(opcode, &k, &mut s).expect("execution failed");
    let rendered = s.screen_to_render();
    // Glyph 0 rows: 0xF0 0x90 0x90 0x90 0xF0.
    let rows: [u8; 5] = [0xF0, 0x90, 0x90, 0x90, 0xF0];
    for y in 0..5usize {
        for x in 0..8usize {
            let lit = (rows[y] << x) & 0x80 == 0x80;
            let expected = if lit { s.color } else { [0, 0, 0, 0] };
            assert_eq!(rendered[y * 64 + x], expected);
        }
    }
    // No pixel was lit beforehand, so no collision was reported.
    assert_eq!(e.registers[e.flag_register_index], 0);
    // Drawing the same sprite again toggles every pixel off and
    // reports the collision.
    e.emulate(opcode, &k, &mut s).expect("execution failed");
    let rendered = s.screen_to_render();
    assert!(rendered.iter().all(|cell| *cell == [0, 0, 0, 0]));
    assert_eq!(e.registers[e.flag_register_index], 1);
}

#[test]
fn skp_vx() {
    let opcode: u16 = 0xE19E;
    let (mut e, mut k) = set_up(opcode, Instruction::SKP_Vx);
    e.registers[1] = 0x03;
    k.set_key(3, Key::Down);
    no_screen_test(opcode, &mut e, &k);
    assert_eq!(e.pc, (e.program_memory_index as u16) + 2);
    no_screen_test(0xE29, &mut e, &k);
    assert_eq!(e.pc, (e.program_memory_index as u16) + 2);
    k.set_key(3, Key::Up);
    no_screen_test(opcode, &mut e, &k);
    assert_eq!(e.pc, (e.program_memory_index as u16) + 2);
}

#[test]
fn sknp_vx() {
    let opcode: u16 = 0xE1A1;
    let (mut e, mut k) = set_up(opcode, Instruction::SKNP_Vx);
    e.registers[1] = 0x03;
    k.set_key(3, Key::Down);
    no_screen_test(opcode, &mut e, &k);
    assert_eq!(e.pc, e.program_memory_index as u16);
    no_screen_test(0xE2A1, &mut e, &k);
    assert_eq!(e.pc, (e.program_memory_index as u16) + 2);
    k.set_key(3, Key::Up);
    no_screen_test(opcode, &mut e, &k);
    assert_eq!(e.pc, (e.program_memory_index as u16) + 4);
}

#[test]
fn ld_vx_dt() {
    let opcode: u16 = 0xF107;
    let (mut e, k) = set_up(opcode, Instruction::LD_Vx_DT);
    e.delay_timer_register = 0x11;
    no_screen_test(opcode, &mut e, &k);
    assert_eq!(e.registers[1], 0x11);
    e.delay_timer_register = 0xF3;
    no_screen_test(0xF207, &mut e, &k);
    assert_eq!(e.registers[1], 0x11);
    assert_eq!(e.registers[2], 0xF3);
}

#[test]
fn ld_vx_k() {
    // execution is paused in the host loop until a key is down
    let opcode: u16 = 0xF10A;
    let (mut e, mut k) = set_up(opcode, Instruction::LD_Vx_K);
    k.set_key(3, Key::Down);
    no_screen_test(opcode, &mut e, &k);
    assert_eq!(e.registers[1], 3);
    k.set_key(3, Key::Up);
    k.set_key(10, Key::Down);
    no_screen_test(opcode, &mut e, &k);
    assert_eq!(e.registers[1], 0x0A);
}

#[test]
fn ld_dt_vx() {
    let opcode: u16 = 0xF115;
    let (mut e, k) = set_up(opcode, Instruction::LD_DT_Vx);
    e.registers[1] = 0xFF;
    no_screen_test(opcode, &mut e, &k);
    assert_eq!(e.delay_timer_register, 0xFF);
    e.registers[0] = 0xAB;
    no_screen_test(0xF015, &mut e, &k);
    assert_eq!(e.delay_timer_register, 0xAB);
}

#[test]
fn ld_st_vx() {
    let opcode: u16 = 0xF118;
    let (mut e, k) = set_up(opcode, Instruction::LD_ST_Vx);
    e.registers[1] = 0x1C;
    no_screen_test(opcode, &mut e, &k);
    assert_eq!(e.sound_timer_register, 0x1C);
    e.registers[0xA] = 0x02;
    no_screen_test(0xFA18, &mut e, &k);
    assert_eq!(e.sound_timer_register, 0x02);
}

#[test]
fn add_i_vx() {
    let opcode: u16 = 0xF11E;
    let (mut e, k) = set_up(opcode, Instruction::ADD_I_Vx);
    e.address_register = 0xF12;
    e.registers[1] = 0x3A;
    no_screen_test(opcode, &mut e, &k);
    assert_eq!(e.address_register, 0xF4C);
    e.registers[2] = 0x11;
    no_screen_test(0xF21E, &mut e, &k);
    assert_eq!(e.address_register, 0xF5D);
}

#[test]
fn ld_f_xv() {
    let opcode: u16 = 0xF129;
    let (mut e, k) = set_up(opcode, Instruction::LD_F_Vx);
    e.registers[1] = 0x03;
    no_screen_test(opcode, &mut e, &k);
    assert_eq!(e.address_register, 15);
    e.registers[3] = 0x0A;
    no_screen_test(0xF329, &mut e, &k);
    assert_eq!(e.address_register, 50);
}

#[test]
fn ld_b_vx() {
    let opcode: u16 = 0xF133;
    let (mut e, k) = set_up(opcode, Instruction::LD_B_Vx);
    e.registers[1] = 0xFF; //255
    e.address_register = 0xF12;
    no_screen_test(opcode, &mut e, &k);
    assert_eq!(e.memory[e.address_register as usize], 2);
    assert_eq!(e.memory[e.address_register as usize + 1], 5);
    assert_eq!(e.memory[e.address_register as usize + 2], 5);
    e.registers[1] = 0x4C;
    no_screen_test(opcode, &mut e, &k);
    assert_eq!(e.memory[e.address_register as usize], 0);
    assert_eq!(e.memory[e.address_register as usize + 1], 7);
    assert_eq!(e.memory[e.address_register as usize + 2], 6);
    e.registers[1] = 0x02;
    no_screen_test(opcode, &mut e, &k);
    assert_eq!(e.memory[e.address_register as usize], 0);
    assert_eq!(e.memory[e.address_register as usize + 1], 0);
    assert_eq!(e.memory[e.address_register as usize + 2], 2);
}

#[test]
fn ld_i_vx() {
    let opcode: u16 = 0xFE55;
    let (mut e, k) = set_up(opcode, Instruction::LD_I_Vx);
    e.address_register = 0xF13;
    e.registers[0] = 0x12;
    e.registers[1] = 0xFF;
    e.registers[2] = 0x01;
    e.registers[3] = 0xAB;
    e.registers[4] = 0x77;
    e.registers[5] = 0x23;
    e.registers[6] = 0xB7;
    e.registers[7] = 0x4B;
    e.registers[8] = 0xBB;
    e.registers[9] = 0x2B;
    e.registers[0xA] = 0xBB;
    e.registers[0xB] = 0xA2;
    e.registers[0xC] = 0xBB;
    e.registers[0xD] = 0xBB;
    e.registers[0xE] = 0xBB;

    no_screen_test(opcode, &mut e, &k);
    assert_eq!(e.memory[e.address_register as usize + 0], 0x12);
    assert_eq!(e.memory[e.address_register as usize + 1], 0xFF);
    assert_eq!(e.memory[e.address_register as usize + 2], 0x01);
    assert_eq!(e.memory[e.address_register as usize + 3], 0xAB);
    assert_eq!(e.memory[e.address_register as usize + 4], 0x77);
    assert_eq!(e.memory[e.address_register as usize + 5], 0x23);
    assert_eq!(e.memory[e.address_register as usize + 6], 0xB7);
    assert_eq!(e.memory[e.address_register as usize + 7], 0x4B);
    assert_eq!(e.memory[e.address_register as usize + 8], 0xBB);
    assert_eq!(e.memory[e.address_register as usize + 9], 0x2B);
    assert_eq!(e.memory[e.address_register as usize + 10], 0xBB);
    assert_eq!(e.memory[e.address_register as usize + 11], 0xA2);
    assert_eq!(e.memory[e.address_register as usize + 12], 0xBB);
    assert_eq!(e.memory[e.address_register as usize + 13], 0xBB);
    assert_eq!(e.memory[e.address_register as usize + 14], 0xBB);
}

#[test]
fn ld_vx_i() {
    let opcode: u16 = 0xFE65;
    let (mut e, k) = set_up(opcode, Instruction::LD_Vx_I);
    e.address_register = 0xF42;
    e.memory[e.address_register as usize + 0] = 0x11;
    e.memory[e.address_register as usize + 1] = 0x12;
    e.memory[e.address_register as usize + 2] = 0x13;
    e.memory[e.address_register as usize + 3] = 0x14;
    e.memory[e.address_register as usize + 4] = 0x15;
    e.memory[e.address_register as usize + 5] = 0x16;
    e.memory[e.address_register as usize + 6] = 0x17;
    e.memory[e.address_register as usize + 7] = 0x18;
    e.memory[e.address_register as usize + 8] = 0x19;
    e.memory[e.address_register as usize + 9] = 0x1A;
    e.memory[e.address_register as usize + 10] = 0x75;
    e.memory[e.address_register as usize + 11] = 0x65;
    e.memory[e.address_register as usize + 12] = 0x45;
    e.memory[e.address_register as usize + 13] = 0x35;
    e.memory[e.address_register as usize + 14] = 0x34;
    no_screen_test(opcode, &mut e, &k);
    assert_eq!(e.registers[0], 0x11);
    assert_eq!(e.registers[1], 0x12);
    assert_eq!(e.registers[2], 0x13);
    assert_eq!(e.registers[3], 0x14);
    assert_eq!(e.registers[4], 0x15);
    assert_eq!(e.registers[5], 0x16);
    assert_eq!(e.registers[6], 0x17);
    assert_eq!(e.registers[7], 0x18);
    assert_eq!(e.registers[8], 0x19);
    assert_eq!(e.registers[9], 0x1A);
    assert_eq!(e.registers[10], 0x75);
    assert_eq!(e.registers[11], 0x65);
    assert_eq!(e.registers[12], 0x45);
    assert_eq!(e.registers[13], 0x35);
    assert_eq!(e.registers[14], 0x34);
}
