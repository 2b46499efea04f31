use gbc_emulator_core::registers::Registers;

#[test]
fn boot_values() {
    let r = Registers::new();
    assert_eq!(r.get_af(), 0x01B0);
    assert_eq!(r.get_bc(), 0x0013);
    assert_eq!(r.get_de(), 0x00D8);
    assert_eq!(r.get_hl(), 0x014D);
    assert_eq!(r.get_sp(), 0xFFFE);
    assert_eq!(r.get_pc(), 0x0100);
}

#[test]
fn af_round_trip_clears_low_nibble() {
    let mut r = Registers::new();
    for v in [0x0000u16, 0x12FF, 0xFFFF, 0xABCD, 0x00F0, 0x800F] {
        r.set_af(v);
        assert_eq!(r.get_af(), v & 0xFFF0);
        assert_eq!(r.get_f() & 0x0F, 0);
    }
}

#[test]
fn af_round_trip_all_values() {
    let mut r = Registers::new();
    for v in 0..=0xFFFFu16 {
        r.set_af(v);
        assert_eq!(r.get_af(), v & 0xFFF0);
    }
}

#[test]
fn set_f_masks_low_nibble() {
    let mut r = Registers::new();
    r.set_f(0xFF);
    assert_eq!(r.get_f(), 0xF0);
    r.set_f(0x0A);
    assert_eq!(r.get_f(), 0x00);
}

#[test]
fn pairs_compose_from_bytes() {
    let mut r = Registers::new();
    r.set_bc(0x1234);
    assert_eq!(r.get_b(), 0x12);
    assert_eq!(r.get_c(), 0x34);
    assert_eq!(r.get_bc(), 0x1234);
    r.set_de(0xBEEF);
    assert_eq!(r.get_d(), 0xBE);
    assert_eq!(r.get_e(), 0xEF);
    r.set_h(0x80);
    r.set_l(0x01);
    assert_eq!(r.get_hl(), 0x8001);
    r.set_hl(0xFFFF);
    assert_eq!(r.get_h(), 0xFF);
    assert_eq!(r.get_l(), 0xFF);
}

#[test]
fn single_registers() {
    let mut r = Registers::new();
    r.set_a(1);
    r.set_b(2);
    r.set_c(3);
    r.set_d(4);
    r.set_e(5);
    r.set_h(6);
    r.set_l(7);
    r.set_sp(0x1234);
    r.set_pc(0x4321);
    assert_eq!(
        (r.get_a(), r.get_b(), r.get_c(), r.get_d(), r.get_e(), r.get_h(), r.get_l()),
        (1, 2, 3, 4, 5, 6, 7)
    );
    assert_eq!(r.get_sp(), 0x1234);
    assert_eq!(r.get_pc(), 0x4321);
    assert_eq!(r.get_af(), 0x01B0);
}
