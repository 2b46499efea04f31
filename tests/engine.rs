use gbc_emulator_core::alu::{apply_flag_effects, AluOut};
use gbc_emulator_core::cartridge::Cartridge;
use gbc_emulator_core::cpu::{decode, decode_cb, CbInstr, Instr, CPU};
use gbc_emulator_core::error::CoreError;
use gbc_emulator_core::opcode::{
    flag_effect, key_code, FlagEffect, Flags, Mnemonic, Opcode, OpcodeTable, OpcodeTables,
};

fn flags(s: &str) -> Flags {
    let c: Vec<char> = s.chars().collect();
    Flags { z: c[0], n: c[1], h: c[2], c: c[3] }
}

fn op(mnemonic: Mnemonic, bytes: u8, cycles: &[u8], fl: &str) -> Opcode {
    Opcode {
        code: 0,
        mnemonic,
        bytes,
        cycles: cycles.to_vec(),
        operands: Vec::new(),
        is_immediate: true,
        flags: flags(fl),
    }
}

fn descriptor(code: u8) -> Opcode {
    match code {
        0x00 => op(Mnemonic::Nop, 1, &[4], "----"),
        0x18 => op(Mnemonic::Jr, 2, &[12], "----"),
        0x20 | 0x28 | 0x30 | 0x38 => op(Mnemonic::Jr, 2, &[8, 12], "----"),
        0xC3 => op(Mnemonic::Jp, 3, &[16], "----"),
        0xC2 | 0xCA | 0xD2 | 0xDA => op(Mnemonic::Jp, 3, &[12, 16], "----"),
        0x3E | 0x06 | 0x0E => op(Mnemonic::Ld, 2, &[8], "----"),
        0x36 => op(Mnemonic::Ld, 2, &[12], "----"),
        0x04 | 0x0C | 0x3C => op(Mnemonic::Inc, 1, &[4], "Z0H-"),
        0x05 | 0x3D => op(Mnemonic::Dec, 1, &[4], "Z1H-"),
        0x80..=0x87 => op(Mnemonic::Add, 1, &[4], "Z0HC"),
        0x90..=0x97 => op(Mnemonic::Sub, 1, &[4], "Z1HC"),
        0xA0..=0xA7 => op(Mnemonic::And, 1, &[4], "Z010"),
        0xFE => op(Mnemonic::Cp, 2, &[8], "Z1HC"),
        0x37 => op(Mnemonic::Scf, 1, &[4], "-001"),
        0x3F => op(Mnemonic::Ccf, 1, &[4], "-00C"),
        0x2F => op(Mnemonic::Cpl, 1, &[4], "-11-"),
        0x76 => op(Mnemonic::Halt, 1, &[4], "----"),
        0x27 => op(Mnemonic::Daa, 1, &[4], "Z-0C"),
        0x10 => op(Mnemonic::Stop, 2, &[4], "----"),
        0x08 => op(Mnemonic::Ld, 3, &[20], "----"),
        0xE8 => op(Mnemonic::Add, 2, &[16], "00HC"),
        0xF8 => op(Mnemonic::Ld, 2, &[12], "00HC"),
        0x01 | 0x11 | 0x21 | 0x31 => op(Mnemonic::Ld, 3, &[12], "----"),
        0x03 | 0x13 | 0x23 | 0x33 => op(Mnemonic::Inc, 1, &[8], "----"),
        0x0B | 0x1B | 0x2B | 0x3B => op(Mnemonic::Dec, 1, &[8], "----"),
        0x09 | 0x19 | 0x29 | 0x39 => op(Mnemonic::Add, 1, &[8], "-0HC"),
        0x02 | 0x12 | 0x22 | 0x32 | 0x0A | 0x1A | 0x2A | 0x3A => op(Mnemonic::Ld, 1, &[8], "----"),
        0x07 => op(Mnemonic::Rlca, 1, &[4], "000C"),
        0x0F => op(Mnemonic::Rrca, 1, &[4], "000C"),
        0x17 => op(Mnemonic::Rla, 1, &[4], "000C"),
        0x1F => op(Mnemonic::Rra, 1, &[4], "000C"),
        0xE9 => op(Mnemonic::Jp, 1, &[4], "----"),
        0xF9 => op(Mnemonic::Ld, 1, &[8], "----"),
        0xC9 => op(Mnemonic::Ret, 1, &[16], "----"),
        0xC0 | 0xC8 | 0xD0 | 0xD8 => op(Mnemonic::Ret, 1, &[8, 20], "----"),
        0xD9 => op(Mnemonic::Reti, 1, &[16], "----"),
        0xF1 => op(Mnemonic::Pop, 1, &[12], "ZNHC"),
        0xC1 | 0xD1 | 0xE1 => op(Mnemonic::Pop, 1, &[12], "----"),
        0xC5 | 0xD5 | 0xE5 | 0xF5 => op(Mnemonic::Push, 1, &[16], "----"),
        0xCD => op(Mnemonic::Call, 3, &[24], "----"),
        0xC4 | 0xCC | 0xD4 | 0xDC => op(Mnemonic::Call, 3, &[12, 24], "----"),
        0xC7 | 0xCF | 0xD7 | 0xDF | 0xE7 | 0xEF | 0xF7 | 0xFF => op(Mnemonic::Rst, 1, &[16], "----"),
        0xE0 | 0xF0 => op(Mnemonic::Ldh, 2, &[12], "----"),
        0xE2 | 0xF2 => op(Mnemonic::Ld, 1, &[8], "----"),
        0xEA | 0xFA => op(Mnemonic::Ld, 3, &[16], "----"),
        0xCB => op(Mnemonic::Prefix, 1, &[4], "----"),
        0xD3 => op(Mnemonic::Illegal_d3, 1, &[4], "----"),
        0x40..=0x7F => op(Mnemonic::Ld, 1, &[4], "----"),
        _ => op(Mnemonic::Nop, 1, &[4], "----"),
    }
}

fn entries() -> Vec<(String, Opcode)> {
    (0..=255u8).map(|c| (format!("0x{:02X}", c), descriptor(c))).collect()
}

fn cb_descriptor(code: u8) -> Opcode {
    let hl = code % 8 == 6;
    match code {
        0x30..=0x37 => op(Mnemonic::Swap, 2, &[if hl { 16 } else { 8 }], "Z000"),
        0x00..=0x3F => op(Mnemonic::Rlc, 2, &[if hl { 16 } else { 8 }], "Z00C"),
        0x40..=0x7F => op(Mnemonic::Bit, 2, &[if hl { 12 } else { 8 }], "Z01-"),
        0x80..=0xBF => op(Mnemonic::Res, 2, &[if hl { 16 } else { 8 }], "----"),
        _ => op(Mnemonic::SetBit, 2, &[if hl { 16 } else { 8 }], "----"),
    }
}

fn cb_entries() -> Vec<(String, Opcode)> {
    (0..=255u8).map(|c| (format!("0x{:02x}", c), cb_descriptor(c))).collect()
}

fn machine(program: &[u8]) -> CPU {
    let tables = OpcodeTables::load(entries(), cb_entries()).unwrap();
    let mut cpu = CPU::new(tables);
    let mut rom = vec![0u8; 0x8000];
    rom[0x100..0x100 + program.len()].copy_from_slice(program);
    cpu.load_cartridge(Cartridge::new(rom).unwrap());
    cpu
}

#[test]
fn keys_parse_as_hex_bytes() {
    assert_eq!(key_code("0x07"), Some(7));
    assert_eq!(key_code("0XfF"), Some(255));
    assert_eq!(key_code("0xA0"), Some(0xA0));
    assert_eq!(key_code("07"), None);
    assert_eq!(key_code("0x7"), None);
    assert_eq!(key_code("0x1G"), None);
    assert_eq!(key_code("0x100"), None);
    assert_eq!(key_code("1x00"), None);
}

#[test]
fn full_tables_load() {
    let t = OpcodeTables::load(entries(), cb_entries()).unwrap();
    assert_eq!(t.unprefixed.len(), 256);
    assert_eq!(t.cbprefixed.len(), 256);
    let d = t.lookup(0x18, false);
    assert_eq!(d.code, 0x18);
    assert_eq!(d.mnemonic, Mnemonic::Jr);
    assert_eq!(t.lookup(0x37, true).mnemonic, Mnemonic::Swap);
    assert_eq!(t.lookup(0x37, true).code, 0x37);
}

#[test]
fn nop_descriptor() {
    let t = OpcodeTables::load(entries(), cb_entries()).unwrap();
    let d = t.lookup(0x00, false);
    assert_eq!(d.mnemonic, Mnemonic::Nop);
    assert_eq!(d.bytes, 1);
    assert_eq!(d.cycles[0], 4);
}

#[test]
fn missing_ff_is_malformed() {
    let mut e = entries();
    e.retain(|(k, _)| k != "0xFF");
    assert!(matches!(OpcodeTable::from_entries(e), Err(CoreError::MalformedTable)));
    let mut cb = cb_entries();
    cb.pop();
    assert!(matches!(OpcodeTables::load(entries(), cb), Err(CoreError::MalformedTable)));
}

#[test]
fn bad_or_duplicate_keys_are_malformed() {
    let mut e = entries();
    e[3].0 = "0x1G".to_string();
    assert!(matches!(OpcodeTable::from_entries(e), Err(CoreError::MalformedTable)));
    let mut e = entries();
    e.push(("0x00".to_string(), descriptor(0)));
    assert!(matches!(OpcodeTable::from_entries(e), Err(CoreError::MalformedTable)));
    let mut e = entries();
    e[5].1.cycles = Vec::new();
    assert!(matches!(OpcodeTable::from_entries(e), Err(CoreError::MalformedTable)));
    let mut e = entries();
    e[6].1.flags = flags("Z?HC");
    assert!(matches!(OpcodeTable::from_entries(e), Err(CoreError::MalformedTable)));
}

#[test]
fn flag_symbols() {
    assert_eq!(flag_effect('-'), FlagEffect::Unaffected);
    assert_eq!(flag_effect('0'), FlagEffect::Cleared);
    assert_eq!(flag_effect('1'), FlagEffect::Raised);
    assert_eq!(flag_effect('Z'), FlagEffect::Computed);
    let out = AluOut { value: 0, z: true, n: false, h: false, c: false };
    assert_eq!(apply_flag_effects(0x70, &flags("Z0H-"), &out), 0x90);
    assert_eq!(apply_flag_effects(0x00, &flags("1111"), &out), 0xF0);
    assert_eq!(apply_flag_effects(0xF0, &flags("0000"), &out), 0x00);
}

#[test]
fn decodes_instruction_families() {
    assert_eq!(decode(0x00), Instr::Nop);
    assert_eq!(decode(0x18), Instr::Jr(None));
    assert_eq!(decode(0x38), Instr::Jr(Some(3)));
    assert_eq!(decode(0xCA), Instr::Jp(Some(1)));
    assert_eq!(decode(0x3E), Instr::LdImm(7));
    assert_eq!(decode(0x41), Instr::LdReg(0, 1));
    assert_eq!(decode(0x76), Instr::Halt);
    assert_eq!(decode(0xBE), Instr::AluReg(7, 6));
    assert_eq!(decode(0xFE), Instr::AluImm(7));
    assert_eq!(decode(0xCB), Instr::Unsupported);
}

#[test]
fn nop_advances_pc_only() {
    let mut cpu = machine(&[0x00]);
    let af = cpu.reg.get_af();
    let bc = cpu.reg.get_bc();
    let de = cpu.reg.get_de();
    let hl = cpu.reg.get_hl();
    let sp = cpu.reg.get_sp();
    assert_eq!(cpu.step(), Ok(4));
    assert_eq!(cpu.reg.get_pc(), 0x0101);
    assert_eq!(
        (cpu.reg.get_af(), cpu.reg.get_bc(), cpu.reg.get_de(), cpu.reg.get_hl(), cpu.reg.get_sp()),
        (af, bc, de, hl, sp)
    );
}

#[test]
fn relative_jump_counts_from_next_instruction() {
    let mut cpu = machine(&[0x18, 0x05]);
    assert_eq!(cpu.step(), Ok(12));
    assert_eq!(cpu.reg.get_pc(), 0x0107);
    let mut cpu = machine(&[0x18, 0xFE]);
    assert_eq!(cpu.step(), Ok(12));
    assert_eq!(cpu.reg.get_pc(), 0x0100);
}

#[test]
fn conditional_jump_cycles() {
    // Boot flags 0xB0: Z and C set.
    let mut cpu = machine(&[0x28, 0x10]);
    assert_eq!(cpu.step(), Ok(12));
    assert_eq!(cpu.reg.get_pc(), 0x0112);
    let mut cpu = machine(&[0x20, 0x10]);
    assert_eq!(cpu.step(), Ok(8));
    assert_eq!(cpu.reg.get_pc(), 0x0102);
    let mut cpu = machine(&[0xDA, 0x34, 0x12]);
    assert_eq!(cpu.step(), Ok(16));
    assert_eq!(cpu.reg.get_pc(), 0x1234);
    let mut cpu = machine(&[0xD2, 0x34, 0x12]);
    assert_eq!(cpu.step(), Ok(12));
    assert_eq!(cpu.reg.get_pc(), 0x0103);
    let mut cpu = machine(&[0xC3, 0x00, 0x02]);
    assert_eq!(cpu.step(), Ok(16));
    assert_eq!(cpu.reg.get_pc(), 0x0200);
}

#[test]
fn loads_and_arithmetic() {
    let mut cpu = machine(&[0x3E, 0x0F, 0x06, 0x01, 0x80, 0x47, 0x90]);
    assert_eq!(cpu.step(), Ok(8));
    assert_eq!(cpu.reg.get_a(), 0x0F);
    cpu.step().unwrap();
    assert_eq!(cpu.reg.get_b(), 0x01);
    cpu.step().unwrap();
    assert_eq!(cpu.reg.get_a(), 0x10);
    assert_eq!(cpu.reg.get_f(), 0x20);
    cpu.step().unwrap();
    assert_eq!(cpu.reg.get_b(), 0x10);
    cpu.step().unwrap();
    assert_eq!(cpu.reg.get_a(), 0x00);
    assert_eq!(cpu.reg.get_f(), 0xC0);
    assert_eq!(cpu.reg.get_pc(), 0x0107);
}

#[test]
fn add_carry_out_of_bit_seven() {
    let mut cpu = machine(&[0x3E, 0xF0, 0x06, 0x20, 0x80]);
    cpu.step().unwrap();
    cpu.step().unwrap();
    cpu.step().unwrap();
    assert_eq!(cpu.reg.get_a(), 0x10);
    assert_eq!(cpu.reg.get_f(), 0x10);
}

#[test]
fn inc_dec_and_compare() {
    let mut cpu = machine(&[0x3E, 0xFF, 0x3C, 0x3D, 0xFE, 0xFF]);
    cpu.step().unwrap();
    cpu.step().unwrap();
    assert_eq!(cpu.reg.get_a(), 0x00);
    assert_eq!(cpu.reg.get_f(), 0xB0);
    cpu.step().unwrap();
    assert_eq!(cpu.reg.get_a(), 0xFF);
    assert_eq!(cpu.reg.get_f(), 0x70);
    assert_eq!(cpu.step(), Ok(8));
    assert_eq!(cpu.reg.get_a(), 0xFF);
    assert_eq!(cpu.reg.get_f(), 0xC0);
}

#[test]
fn flag_instructions() {
    let mut cpu = machine(&[0x3F, 0x37, 0x2F]);
    cpu.step().unwrap();
    assert_eq!(cpu.reg.get_f(), 0x80);
    cpu.step().unwrap();
    assert_eq!(cpu.reg.get_f(), 0x90);
    cpu.step().unwrap();
    assert_eq!(cpu.reg.get_a(), 0xFE);
    assert_eq!(cpu.reg.get_f(), 0xF0);
}

#[test]
fn store_through_hl() {
    let mut cpu = machine(&[0x36, 0x99, 0x7E]);
    cpu.reg.set_hl(0xC123);
    assert_eq!(cpu.step(), Ok(12));
    assert_eq!(cpu.mmu.read(0xC123), 0x99);
    assert_eq!(cpu.mmu.read(0xE123), 0x99);
    cpu.step().unwrap();
    assert_eq!(cpu.reg.get_a(), 0x99);
}

#[test]
fn halt_sets_halted() {
    let mut cpu = machine(&[0x76, 0x3C]);
    assert_eq!(cpu.step(), Ok(4));
    assert!(cpu.halted);
    assert_eq!(cpu.step(), Ok(4));
    assert_eq!(cpu.reg.get_pc(), 0x0101);
    assert_eq!(cpu.reg.get_a(), 0x01);
    cpu.halted = false;
    cpu.step().unwrap();
    assert_eq!(cpu.reg.get_a(), 0x02);
    let mut cpu = machine(&[0x10, 0x00]);
    assert_eq!(cpu.step(), Ok(4));
    assert!(cpu.halted);
    assert_eq!(cpu.reg.get_pc(), 0x0102);
}

#[test]
fn no_cartridge_fails() {
    let tables = OpcodeTables::load(entries(), cb_entries()).unwrap();
    let mut cpu = CPU::new(tables);
    assert_eq!(cpu.step(), Err(CoreError::CartridgeNotLoaded));
    assert_eq!(cpu.reg.get_pc(), 0x0100);
}

#[test]
fn unsupported_instruction_changes_nothing() {
    let mut cpu = machine(&[0xD3]);
    assert_eq!(cpu.step(), Err(CoreError::UnsupportedInstruction(0xD3)));
    assert_eq!(cpu.reg.get_pc(), 0x0100);
}

#[test]
fn cb_prefixed_instructions() {
    // SWAP A; BIT 7,A; SET 0,B; RES 0,B; RLC (HL)
    let mut cpu = machine(&[0x3E, 0x1F, 0xCB, 0x37, 0xCB, 0x7F, 0xCB, 0xC0, 0xCB, 0x80, 0xCB, 0x06]);
    cpu.step().unwrap();
    assert_eq!(cpu.step(), Ok(8));
    assert_eq!(cpu.reg.get_a(), 0xF1);
    assert_eq!(cpu.reg.get_f(), 0x00);
    assert_eq!(cpu.reg.get_pc(), 0x0104);
    assert_eq!(cpu.step(), Ok(8));
    assert_eq!(cpu.reg.get_f(), 0x20);
    cpu.reg.set_b(0x10);
    cpu.step().unwrap();
    assert_eq!(cpu.reg.get_b(), 0x11);
    cpu.step().unwrap();
    assert_eq!(cpu.reg.get_b(), 0x10);
    cpu.reg.set_hl(0xC000);
    cpu.mmu.write(0xC000, 0x81);
    assert_eq!(cpu.step(), Ok(16));
    assert_eq!(cpu.mmu.read(0xC000), 0x03);
    assert_eq!(cpu.reg.get_f(), 0x10);
    assert_eq!(cpu.reg.get_pc(), 0x010C);
}

#[test]
fn cb_decoding() {
    assert_eq!(decode_cb(0x00), CbInstr::Rot(0, 0));
    assert_eq!(decode_cb(0x37), CbInstr::Rot(6, 7));
    assert_eq!(decode_cb(0x7C), CbInstr::Bit(7, 4));
    assert_eq!(decode_cb(0x86), CbInstr::Res(0, 6));
    assert_eq!(decode_cb(0xFF), CbInstr::SetBit(7, 7));
}

#[test]
fn call_and_return() {
    let mut prog = vec![0u8; 0x20];
    prog[0] = 0xCD;
    prog[1] = 0x10;
    prog[2] = 0x01;
    prog[0x10] = 0xC9;
    let mut cpu = machine(&prog);
    assert_eq!(cpu.step(), Ok(24));
    assert_eq!(cpu.reg.get_pc(), 0x0110);
    assert_eq!(cpu.reg.get_sp(), 0xFFFC);
    assert_eq!(cpu.mmu.read(0xFFFD), 0x01);
    assert_eq!(cpu.mmu.read(0xFFFC), 0x03);
    assert_eq!(cpu.step(), Ok(16));
    assert_eq!(cpu.reg.get_pc(), 0x0103);
    assert_eq!(cpu.reg.get_sp(), 0xFFFE);
}

#[test]
fn conditional_return_and_call() {
    // Boot flags: Z set. RET NZ is not taken; CALL Z is.
    let mut cpu = machine(&[0xC0, 0xCC, 0x00, 0x02]);
    assert_eq!(cpu.step(), Ok(8));
    assert_eq!(cpu.reg.get_pc(), 0x0101);
    assert_eq!(cpu.step(), Ok(24));
    assert_eq!(cpu.reg.get_pc(), 0x0200);
    let mut cpu = machine(&[0xC4, 0x00, 0x02]);
    assert_eq!(cpu.step(), Ok(12));
    assert_eq!(cpu.reg.get_pc(), 0x0103);
    assert_eq!(cpu.reg.get_sp(), 0xFFFE);
}

#[test]
fn push_and_pop() {
    let mut cpu = machine(&[0x01, 0x34, 0x12, 0xC5, 0xD1, 0xC5, 0xF1]);
    assert_eq!(cpu.step(), Ok(12));
    assert_eq!(cpu.reg.get_bc(), 0x1234);
    assert_eq!(cpu.step(), Ok(16));
    assert_eq!(cpu.reg.get_sp(), 0xFFFC);
    assert_eq!(cpu.step(), Ok(12));
    assert_eq!(cpu.reg.get_de(), 0x1234);
    assert_eq!(cpu.reg.get_sp(), 0xFFFE);
    cpu.step().unwrap();
    cpu.step().unwrap();
    assert_eq!(cpu.reg.get_af(), 0x1230);
}

#[test]
fn indirect_loads_move_hl() {
    let mut cpu = machine(&[0x21, 0x00, 0xC0, 0x3E, 0x42, 0x22, 0x32, 0x3E, 0x00, 0x2A, 0x0B]);
    cpu.step().unwrap();
    cpu.step().unwrap();
    cpu.step().unwrap();
    assert_eq!(cpu.mmu.read(0xC000), 0x42);
    assert_eq!(cpu.reg.get_hl(), 0xC001);
    cpu.step().unwrap();
    assert_eq!(cpu.mmu.read(0xC001), 0x42);
    assert_eq!(cpu.reg.get_hl(), 0xC000);
    cpu.step().unwrap();
    cpu.step().unwrap();
    assert_eq!(cpu.reg.get_a(), 0x42);
    assert_eq!(cpu.reg.get_hl(), 0xC001);
    cpu.step().unwrap();
    assert_eq!(cpu.reg.get_bc(), 0x0012);
}

#[test]
fn high_page_access() {
    let mut cpu = machine(&[0x3E, 0x5A, 0xE0, 0x80, 0x3E, 0x00, 0xF0, 0x80, 0xEA, 0x00, 0xC1]);
    cpu.step().unwrap();
    assert_eq!(cpu.step(), Ok(12));
    assert_eq!(cpu.mmu.read(0xFF80), 0x5A);
    cpu.step().unwrap();
    cpu.step().unwrap();
    assert_eq!(cpu.reg.get_a(), 0x5A);
    assert_eq!(cpu.step(), Ok(16));
    assert_eq!(cpu.mmu.read(0xC100), 0x5A);
    assert_eq!(cpu.reg.get_pc(), 0x010B);
}

#[test]
fn add_hl_half_carry_from_bit_eleven() {
    let mut cpu = machine(&[0x21, 0xFF, 0x0F, 0x01, 0x01, 0x00, 0x09]);
    cpu.step().unwrap();
    cpu.step().unwrap();
    assert_eq!(cpu.step(), Ok(8));
    assert_eq!(cpu.reg.get_hl(), 0x1000);
    assert_eq!(cpu.reg.get_f(), 0xA0);
}

#[test]
fn restart_and_jump_hl() {
    let mut cpu = machine(&[0xFF]);
    assert_eq!(cpu.step(), Ok(16));
    assert_eq!(cpu.reg.get_pc(), 0x0038);
    assert_eq!(cpu.reg.get_sp(), 0xFFFC);
    let mut cpu = machine(&[0x21, 0x34, 0x12, 0xE9]);
    cpu.step().unwrap();
    cpu.step().unwrap();
    assert_eq!(cpu.reg.get_pc(), 0x1234);
}

#[test]
fn rotate_accumulator_clears_zero() {
    let mut cpu = machine(&[0x3E, 0x85, 0x07, 0x3E, 0x00, 0x17]);
    cpu.step().unwrap();
    cpu.step().unwrap();
    assert_eq!(cpu.reg.get_a(), 0x0B);
    assert_eq!(cpu.reg.get_f(), 0x10);
    cpu.step().unwrap();
    cpu.step().unwrap();
    assert_eq!(cpu.reg.get_a(), 0x01);
    assert_eq!(cpu.reg.get_f(), 0x00);
}

#[test]
fn decimal_adjust_after_addition() {
    let mut cpu = machine(&[0x3E, 0x15, 0x06, 0x27, 0x80, 0x27]);
    cpu.step().unwrap();
    cpu.step().unwrap();
    cpu.step().unwrap();
    assert_eq!(cpu.reg.get_a(), 0x3C);
    cpu.step().unwrap();
    assert_eq!(cpu.reg.get_a(), 0x42);
    assert_eq!(cpu.reg.get_f(), 0x00);
}

#[test]
fn decimal_adjust_after_subtraction() {
    // 0x42 - 0x15 = 0x2D with half-borrow; adjusted to BCD 27.
    let mut cpu = machine(&[0x3E, 0x42, 0x06, 0x15, 0x90, 0x27]);
    cpu.step().unwrap();
    cpu.step().unwrap();
    cpu.step().unwrap();
    assert_eq!(cpu.reg.get_a(), 0x2D);
    cpu.step().unwrap();
    assert_eq!(cpu.reg.get_a(), 0x27);
    assert_eq!(cpu.reg.get_f(), 0x40);
}

#[test]
fn stack_pointer_arithmetic() {
    let mut cpu = machine(&[0xE8, 0x02]);
    assert_eq!(cpu.step(), Ok(16));
    assert_eq!(cpu.reg.get_sp(), 0x0000);
    assert_eq!(cpu.reg.get_f(), 0x30);
    let mut cpu = machine(&[0xF8, 0xFE]);
    assert_eq!(cpu.step(), Ok(12));
    assert_eq!(cpu.reg.get_hl(), 0xFFFC);
    assert_eq!(cpu.reg.get_sp(), 0xFFFE);
    assert_eq!(cpu.reg.get_f(), 0x30);
}

#[test]
fn store_stack_pointer() {
    let mut cpu = machine(&[0x08, 0x00, 0xC0]);
    assert_eq!(cpu.step(), Ok(20));
    assert_eq!(cpu.mmu.read(0xC000), 0xFE);
    assert_eq!(cpu.mmu.read(0xC001), 0xFF);
    assert_eq!(cpu.reg.get_pc(), 0x0103);
}
