use stm32wl_unlock::registers::{
    has_bits, is_busy, is_suspended, set_bits, with_rdp_lvl0, Register, BSY_MASK, FLASH_CR_ADDR,
    FLASH_KEY1, FLASH_KEY2, FLASH_KEYR_ADDR, FLASH_OPTKEY1, FLASH_OPTKEY2, FLASH_OPTKEYR_ADDR,
    FLASH_OPTR_ADDR, FLASH_PCROP1AER_ADDR, FLASH_SR_ADDR, OPTSTRT_MASK, PCROP_RDP_MASK, PESD_MASK,
    RDP_LVL0, RDP_MASK, TARGET_NAME,
};

const REGISTERS: [Register; 6] = [
    Register::Keyr,
    Register::Optkeyr,
    Register::Sr,
    Register::Cr,
    Register::Optr,
    Register::Pcrop1aer,
];

#[test]
fn register_addresses() {
    assert_eq!(Register::Keyr.addr(), 0x5800_4008);
    assert_eq!(Register::Optkeyr.addr(), 0x5800_400C);
    assert_eq!(Register::Sr.addr(), 0x5800_4010);
    assert_eq!(Register::Cr.addr(), 0x5800_4014);
    assert_eq!(Register::Optr.addr(), 0x5800_4020);
    assert_eq!(Register::Pcrop1aer.addr(), 0x5800_4028);
}

#[test]
fn address_constants() {
    assert_eq!(FLASH_KEYR_ADDR, 0x5800_4008);
    assert_eq!(FLASH_OPTKEYR_ADDR, 0x5800_400C);
    assert_eq!(FLASH_SR_ADDR, 0x5800_4010);
    assert_eq!(FLASH_CR_ADDR, 0x5800_4014);
    assert_eq!(FLASH_OPTR_ADDR, 0x5800_4020);
    assert_eq!(FLASH_PCROP1AER_ADDR, 0x5800_4028);
}

#[test]
fn registers_lie_apart() {
    for (i, a) in REGISTERS.iter().enumerate() {
        for b in REGISTERS.iter().skip(i + 1) {
            assert_ne!(a.addr(), b.addr());
            assert_ne!(a.name(), b.name());
        }
    }
}

#[test]
fn register_names() {
    assert_eq!(Register::Keyr.name(), "FLASH_KEYR");
    assert_eq!(Register::Optkeyr.name(), "FLASH_OPTKEYR");
    assert_eq!(Register::Sr.name(), "FLASH_SR");
    assert_eq!(Register::Cr.name(), "FLASH_CR");
    assert_eq!(Register::Optr.name(), "FLASH_OPTR");
    assert_eq!(Register::Pcrop1aer.name(), "FLASH_PCROP1AER");
}

#[test]
fn masks_are_single_bits() {
    assert_eq!(PCROP_RDP_MASK, 1 << 31);
    assert_eq!(OPTSTRT_MASK, 1 << 17);
    assert_eq!(BSY_MASK, 1 << 16);
    assert_eq!(PESD_MASK, 1 << 19);
}

#[test]
fn rdp_byte_constants() {
    assert_eq!(RDP_MASK, 0xFF);
    assert_eq!(RDP_LVL0, 0xAA);
}

#[test]
fn key_constants() {
    assert_eq!(FLASH_KEY1, 0x4567_0123);
    assert_eq!(FLASH_KEY2, 0xCDEF_89AB);
    assert_eq!(FLASH_OPTKEY1, 0x0819_2A3B);
    assert_eq!(FLASH_OPTKEY2, 0x4C5D_6E7F);
}

#[test]
fn target_name() {
    assert_eq!(TARGET_NAME, "STM32WLE5JCIx");
}

#[test]
fn set_bits_exact_values() {
    assert_eq!(set_bits(0x0000_0000, PCROP_RDP_MASK), 0x8000_0000);
    assert_eq!(set_bits(0x0000_00FF, PCROP_RDP_MASK), 0x8000_00FF);
    assert_eq!(set_bits(0x8000_0000, PCROP_RDP_MASK), 0x8000_0000);
    assert_eq!(set_bits(0xC000_0000, OPTSTRT_MASK), 0xC002_0000);
    assert_eq!(set_bits(0x1234_5678, 0), 0x1234_5678);
    assert_eq!(set_bits(0, 0xFFFF_FFFF), 0xFFFF_FFFF);
}

#[test]
fn set_bits_keeps_every_other_bit() {
    let words =
        [0u32, 1, 0x8000_0000, 0x7FFF_FFFF, 0xFFFF_FFFF, 0xDEAD_BEEF, 0x0002_0000, 0x5555_5555];
    for word in words {
        for bit in 0..32 {
            let mask = 1u32 << bit;
            let updated = set_bits(word, mask);
            assert_eq!(updated & mask, mask);
            assert_eq!(updated & !mask, word & !mask);
            for other in 0..32 {
                if other != bit {
                    assert_eq!(updated & (1 << other), word & (1 << other));
                }
            }
        }
    }
}

#[test]
fn set_bits_twice_is_set_bits_once() {
    for word in [0u32, 0xFFFF_FFFF, 0x1234_5678, 0x8000_0000] {
        for mask in [PCROP_RDP_MASK, OPTSTRT_MASK, 0x0000_0101] {
            assert_eq!(set_bits(set_bits(word, mask), mask), set_bits(word, mask));
        }
    }
}

#[test]
fn has_bits_wants_every_bit_of_the_mask() {
    assert!(has_bits(0x8000_0000, PCROP_RDP_MASK));
    assert!(has_bits(0xFFFF_FFFF, PCROP_RDP_MASK));
    assert!(!has_bits(0x7FFF_FFFF, PCROP_RDP_MASK));
    assert!(!has_bits(0, PCROP_RDP_MASK));
    assert!(has_bits(0x0000_0003, 0x0000_0003));
    assert!(!has_bits(0x0000_0001, 0x0000_0003));
    assert!(has_bits(0x1234_5678, 0));
}

#[test]
fn busy_is_bit_16_of_sr() {
    assert!(is_busy(0x0001_0000));
    assert!(is_busy(0xFFFF_FFFF));
    assert!(!is_busy(0));
    assert!(!is_busy(0xFFFE_FFFF));
    assert!(!is_busy(0x0008_0000));
}

#[test]
fn suspended_is_bit_19_of_sr() {
    assert!(is_suspended(0x0008_0000));
    assert!(is_suspended(0xFFFF_FFFF));
    assert!(!is_suspended(0));
    assert!(!is_suspended(0xFFF7_FFFF));
    assert!(!is_suspended(0x0001_0000));
}

#[test]
fn with_rdp_lvl0_exact_values() {
    assert_eq!(with_rdp_lvl0(0x0000_00AB), 0x0000_00AA);
    assert_eq!(with_rdp_lvl0(0x0000_0000), 0x0000_00AA);
    assert_eq!(with_rdp_lvl0(0xFFFF_FFFF), 0xFFFF_FFAA);
    assert_eq!(with_rdp_lvl0(0x3FFF_F0CC), 0x3FFF_F0AA);
    assert_eq!(with_rdp_lvl0(0x1234_5655), 0x1234_56AA);
    assert_eq!(with_rdp_lvl0(0x1234_56AA), 0x1234_56AA);
}

#[test]
fn with_rdp_lvl0_replaces_the_low_byte_only() {
    for flash_optr in [0u32, 0xFFFF_FFFF, 0x3FFF_F0BB, 0x8000_0001, 0x0000_FF00, 0xA5A5_A5A5] {
        let updated = with_rdp_lvl0(flash_optr);
        assert_eq!(updated & 0xFF, 0xAA);
        assert_eq!(updated & 0xFFFF_FF00, flash_optr & 0xFFFF_FF00);
        assert_eq!(updated >> 8, flash_optr >> 8);
    }
}
