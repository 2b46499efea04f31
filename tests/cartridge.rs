use gbc_emulator_core::cartridge::{BankController, Cartridge, ROMHeader};
use gbc_emulator_core::error::CoreError;

const LOGO: [u8; 48] = [
    0xCE, 0xED, 0x66, 0x66, 0xCC, 0x0D, 0x00, 0x0B, 0x03, 0x73, 0x00, 0x83, 0x00, 0x0C, 0x00,
    0x0D, 0x00, 0x08, 0x11, 0x1F, 0x88, 0x89, 0x00, 0x0E, 0xDC, 0xCC, 0x6E, 0xE6, 0xDD, 0xDD,
    0xD9, 0x99, 0xBB, 0xBB, 0x67, 0x63, 0x6E, 0x0E, 0xEC, 0xCC, 0xDD, 0xDC, 0x99, 0x9F, 0xBB,
    0xB9, 0x33, 0x3E,
];

fn image(cart_type: u8, rom_code: u8, ram_code: u8) -> Vec<u8> {
    let mut rom = vec![0u8; 0x8000];
    rom[0x104..0x134].copy_from_slice(&LOGO);
    rom[0x134..0x13A].copy_from_slice(b"TETRIS");
    rom[0x143] = 0x80;
    rom[0x144] = 0x30;
    rom[0x145] = 0x31;
    rom[0x147] = cart_type;
    rom[0x148] = rom_code;
    rom[0x149] = ram_code;
    rom[0x14A] = 0x01;
    rom[0x14B] = 0x01;
    rom[0x14C] = 0x02;
    let mut x: u8 = 0;
    for i in 0x134..=0x14C {
        x = x.wrapping_sub(rom[i]).wrapping_sub(1);
    }
    rom[0x14D] = x;
    rom[0x14E] = 0xAB;
    rom[0x14F] = 0xCD;
    rom
}

fn header_of(rom: &[u8]) -> ROMHeader {
    ROMHeader::from_bytes(&rom[0x100..0x150])
}

#[test]
fn truncated_image_is_rejected() {
    let r = Cartridge::new(vec![0u8; 0x14F]);
    assert!(matches!(r, Err(CoreError::TruncatedImage)));
    assert!(matches!(Cartridge::new(Vec::new()), Err(CoreError::TruncatedImage)));
}

#[test]
fn minimal_image_loads() {
    let c = Cartridge::new(vec![0u8; 0x150]);
    assert!(c.is_ok());
}

#[test]
fn header_fields() {
    let rom = image(0x01, 2, 3);
    let h = header_of(&rom);
    assert_eq!(h.get_title(), "TETRIS");
    assert_eq!(h.get_cgb_flag(), 0x80);
    assert_eq!(h.get_new_licensee_code(), 0x3031);
    assert_eq!(h.get_cartridge_type(), "MBC1");
    assert_eq!(h.get_mask_rom_version_number(), 0x02);
    assert_eq!(h.get_global_checksum(), 0xABCD);
    assert_eq!(h.get_destination_code(), "Overseas only");
    assert_eq!(h.get_old_licensee_code(), "Nintendo");
    assert!(h.validate_nintendo_logo());
    assert!(h.validate_header_checksum());
}

#[test]
fn rom_size_code_two_is_128_kb() {
    let h = header_of(&image(0x01, 2, 0));
    assert_eq!(h.get_rom_size_kb(), Some(128));
    assert_eq!(header_of(&image(0x01, 0, 0)).get_rom_size_kb(), Some(32));
    assert_eq!(header_of(&image(0x01, 8, 0)).get_rom_size_kb(), Some(8192));
    assert_eq!(header_of(&image(0x01, 9, 0)).get_rom_size_kb(), Some(16384));
    assert_eq!(header_of(&image(0x01, 12, 0)).get_rom_size_kb(), Some(32 << 12));
    assert_eq!(header_of(&image(0x01, 255, 0)).get_rom_size_kb(), None);
}

#[test]
fn ram_size_codes() {
    let expect = [Some(0u8), Some(2), Some(8), Some(32), Some(128), Some(64), None, None];
    for (code, want) in expect.iter().enumerate() {
        let h = header_of(&image(0x01, 0, code as u8));
        assert_eq!(h.get_ram_size_kb(), *want);
    }
}

#[test]
fn unmapped_ram_code_six_is_unknown() {
    let h = header_of(&image(0x01, 0, 6));
    assert_eq!(h.get_ram_size_kb(), None);
}

#[test]
fn title_stops_at_zero_and_replaces_invalid_bytes() {
    let mut rom = image(0, 0, 0);
    rom[0x134..0x143].copy_from_slice(b"ABCDEFGHIJKLMNO");
    assert_eq!(header_of(&rom).get_title(), "ABCDEFGHIJKLMNO");
    rom[0x136] = 0;
    assert_eq!(header_of(&rom).get_title(), "AB");
    rom[0x134] = 0xFF;
    assert_eq!(header_of(&rom).get_title(), "\u{FFFD}B");
}

#[test]
fn codes_and_names() {
    let mut rom = image(0x13, 0, 0);
    rom[0x14A] = 0x00;
    rom[0x14B] = 0x33;
    let h = header_of(&rom);
    assert_eq!(h.get_cartridge_type(), "MBC3+RAM+BATTERY");
    assert_eq!(h.get_destination_code(), "Japanese");
    assert_eq!(h.get_old_licensee_code(), "New licensee code should be used");
    rom[0x147] = 0x04;
    rom[0x14A] = 0x07;
    rom[0x14B] = 0x02;
    let h = header_of(&rom);
    assert_eq!(h.get_cartridge_type(), "Unknown");
    assert_eq!(h.get_destination_code(), "Unknown");
    assert_eq!(h.get_old_licensee_code(), "Unknown");
}

#[test]
fn logo_and_checksum_failures() {
    let mut rom = image(0, 0, 0);
    rom[0x110] ^= 0xFF;
    assert!(!header_of(&rom).validate_nintendo_logo());
    let mut rom = image(0, 0, 0);
    rom[0x14D] = rom[0x14D].wrapping_add(1);
    assert!(!header_of(&rom).validate_header_checksum());
}

#[test]
fn known_header_checksum() {
    let mut rom = vec![0u8; 0x150];
    rom[0x134] = 1;
    let h = header_of(&rom);
    // 25 bytes, each subtracting itself plus one: -(1 + 25) mod 256.
    assert_eq!(h.compute_header_checksum(), 230);
}

#[test]
fn controller_variant_from_type() {
    let c = Cartridge::new(image(0x00, 0, 0)).unwrap();
    assert_eq!(c.controller, BankController::NoBanking);
    let c = Cartridge::new(image(0x01, 0, 0)).unwrap();
    assert_eq!(c.controller, BankController::Banked);
    assert_eq!(c.rom_bank, 1);
}

#[test]
fn bank_select_wraps_by_bank_count() {
    let mut rom = image(0x01, 2, 0);
    rom.resize(0x20000, 0);
    for bank in 0..8usize {
        rom[bank * 0x4000 + 0x10] = 0xA0 + bank as u8;
    }
    let mut c = Cartridge::new(rom).unwrap();
    assert_eq!(c.read(0x4010), 0xA1);
    c.write(0x4000, 3);
    assert_eq!(c.read(0x4010), 0xA3);
    c.write(0x5FFF, 13);
    assert_eq!(c.read(0x4010), 0xA5);
    c.write(0x4000, 0);
    assert_eq!(c.read(0x4010), 0xA0);
    assert_eq!(c.read(0x0010), 0xA0);
}

#[test]
fn reads_past_image_are_open_bus() {
    let mut c = Cartridge::new(image(0x01, 2, 0)).unwrap();
    c.write(0x4000, 7);
    assert_eq!(c.read(0x4000), 0xFF);
}

#[test]
fn external_ram_gated_by_enable() {
    let mut c = Cartridge::new(image(0x03, 0, 2)).unwrap();
    assert_eq!(c.read(0xA000), 0xFF);
    c.write(0xA000, 0x42);
    assert_eq!(c.read(0xA000), 0xFF);
    c.write(0x6000, 0x0A);
    assert_eq!(c.read(0xA000), 0x00);
    c.write(0xA000, 0x42);
    assert_eq!(c.read(0xA000), 0x42);
    c.write(0x7FFF, 0x00);
    assert_eq!(c.read(0xA000), 0xFF);
}

#[test]
fn unbanked_ram_always_enabled_and_rom_immutable() {
    let mut c = Cartridge::new(image(0x08, 0, 2)).unwrap();
    c.write(0xBFFF, 9);
    assert_eq!(c.read(0xBFFF), 9);
    let before = c.read(0x4010);
    c.write(0x4000, 1);
    c.write(0x4010, 0x55);
    assert_eq!(c.read(0x4010), before);
    let none = Cartridge::new(image(0x01, 0, 0)).unwrap();
    assert_eq!(none.read(0xA000), 0xFF);
}

#[test]
fn large_rom_code_counts_all_its_banks() {
    let mut rom = image(0x19, 9, 0);
    rom.resize(16 << 20, 0);
    for bank in [1usize, 3, 200, 255] {
        rom[bank * 0x4000] = bank as u8;
        rom[bank * 0x4000 + 1] = 0x77;
    }
    let mut c = Cartridge::new(rom).unwrap();
    assert_eq!(c.read(0x4001), 0x77);
    c.write(0x4000, 3);
    assert_eq!(c.read(0x4000), 3);
    c.write(0x4000, 200);
    assert_eq!(c.read(0x4000), 200);
    c.write(0x4000, 255);
    assert_eq!(c.read(0x4000), 255);
}

#[test]
fn empty_header_loads_with_empty_title() {
    let c = Cartridge::new(vec![0u8; 0x150]).unwrap();
    assert_eq!(c.header.get_title(), "");
    assert_eq!(c.header.get_rom_size_kb(), Some(32));
    assert_eq!(c.header.get_ram_size_kb(), Some(0));
    assert!(!c.header.validate_nintendo_logo());
    assert_eq!(c.read(0xA000), 0xFF);
}
