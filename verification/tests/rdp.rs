use stm32wl_unlock::rdp::Rdp;

#[test]
fn byte_0xaa_is_level_0() {
    assert_eq!(Rdp::from(0xAA), Rdp::Lvl0);
}

#[test]
fn byte_0xcc_is_level_2() {
    assert_eq!(Rdp::from(0xCC), Rdp::Lvl2);
}

#[test]
fn every_other_byte_is_level_1() {
    let mut level_1 = 0;
    for byte in 0..=255u8 {
        if byte != 0xAA && byte != 0xCC {
            assert_eq!(Rdp::from(byte), Rdp::Lvl1, "byte {byte:#04X}");
            level_1 += 1;
        }
    }
    assert_eq!(level_1, 254);
}

#[test]
fn bytes_next_to_the_two_codes_are_level_1() {
    for byte in [0x00u8, 0x55, 0xA9, 0xAB, 0xCB, 0xCD, 0xFF] {
        assert_eq!(Rdp::from(byte), Rdp::Lvl1);
    }
}

#[test]
fn level_is_read_from_the_low_byte_of_optr() {
    assert_eq!(Rdp::from_optr(0x0000_00AA), Rdp::Lvl0);
    assert_eq!(Rdp::from_optr(0x0000_00CC), Rdp::Lvl2);
    assert_eq!(Rdp::from_optr(0x0000_00AB), Rdp::Lvl1);
    assert_eq!(Rdp::from_optr(0x0000_0000), Rdp::Lvl1);
}

#[test]
fn high_bits_of_optr_do_not_count() {
    for high in [0x0000_0100u32, 0x3FFF_F000, 0xAACC_AA00, 0xFFFF_FF00, 0xCCCC_CC00] {
        assert_eq!(Rdp::from_optr(high | 0xAA), Rdp::Lvl0);
        assert_eq!(Rdp::from_optr(high | 0xCC), Rdp::Lvl2);
        assert_eq!(Rdp::from_optr(high | 0x11), Rdp::Lvl1);
    }
    // The codes are not looked for anywhere but in the low byte.
    assert_eq!(Rdp::from_optr(0x0000_AA00), Rdp::Lvl1);
    assert_eq!(Rdp::from_optr(0xCC00_0000), Rdp::Lvl1);
}

#[test]
fn from_optr_agrees_with_from_on_every_low_byte() {
    for byte in 0..=255u8 {
        assert_eq!(Rdp::from_optr(0x3FFF_F000 | u32::from(byte)), Rdp::from(byte));
    }
}

#[test]
fn descriptions_name_the_level() {
    assert_eq!(Rdp::Lvl0.description(), "0, readout protection not active");
    assert_eq!(Rdp::Lvl1.description(), "1, memories readout protection active");
    assert_eq!(Rdp::Lvl2.description(), "2, chip readout protection active");
}

#[test]
fn level_in_a_sentence() {
    let line = format!("Current readout protection is level {}", Rdp::from(0x12).description());
    assert_eq!(line, "Current readout protection is level 1, memories readout protection active");
}
