//! The flash controller's registers: where they are, and the bits and bytes
//! in them that the procedure reads or changes.

use vstd::prelude::*;
use crate::rdp::Rdp;

verus! {

/// The name of the chip that has these registers, as target descriptions
/// spell it.
pub const TARGET_NAME: &'static str = "STM32WLE5JCIx";

/// Address of the flash key register.
pub const FLASH_KEYR_ADDR: u64 = 0x5800_4008;

/// Address of the option key register.
pub const FLASH_OPTKEYR_ADDR: u64 = 0x5800_400C;

/// Address of the flash status register.
pub const FLASH_SR_ADDR: u64 = 0x5800_4010;

/// Address of the flash control register.
pub const FLASH_CR_ADDR: u64 = 0x5800_4014;

/// Address of the option register.
pub const FLASH_OPTR_ADDR: u64 = 0x5800_4020;

/// Address of the PCROP zone A end register.
pub const FLASH_PCROP1AER_ADDR: u64 = 0x5800_4028;

/// `PCROP_RDP`, bit 31 of `FLASH_PCROP1AER`: the flash is mass erased when
/// the protection level goes from 1 to 0.
pub const PCROP_RDP_MASK: u32 = 0x8000_0000;

/// `OPTSTRT`, bit 17 of `FLASH_CR`: start programming the option bytes.
pub const OPTSTRT_MASK: u32 = 0x0002_0000;

/// `BSY`, bit 16 of `FLASH_SR`: a flash operation is in progress.
pub const BSY_MASK: u32 = 0x0001_0000;

/// `PESD`, bit 19 of `FLASH_SR`: programming and erasing are suspended.
pub const PESD_MASK: u32 = 0x0008_0000;

/// The `RDP` byte of `FLASH_OPTR`.
pub const RDP_MASK: u32 = 0x0000_00FF;

/// The `RDP` byte of level 0.
pub const RDP_LVL0: u32 = 0x0000_00AA;

/// First word of the sequence that unlocks `FLASH_CR`.
pub const FLASH_KEY1: u32 = 0x4567_0123;

/// Second word of the sequence that unlocks `FLASH_CR`.
pub const FLASH_KEY2: u32 = 0xCDEF_89AB;

/// First word of the sequence that unlocks the option bytes.
pub const FLASH_OPTKEY1: u32 = 0x0819_2A3B;

/// Second word of the sequence that unlocks the option bytes.
pub const FLASH_OPTKEY2: u32 = 0x4C5D_6E7F;

/// A register of the flash controller.
#[derive(Clone, Copy, Debug, PartialEq, Eq, Structural)]
pub enum Register {
    /// `FLASH_KEYR`, the flash key register
    Keyr,
    /// `FLASH_OPTKEYR`, the option key register
    Optkeyr,
    /// `FLASH_SR`, the status register
    Sr,
    /// `FLASH_CR`, the control register
    Cr,
    /// `FLASH_OPTR`, the option register
    Optr,
    /// `FLASH_PCROP1AER`, the PCROP zone A end register
    Pcrop1aer,
}

impl Register {
    /// The address of the register in the target's memory.
    pub open spec fn spec_addr(self) -> u64 {
        match self {
            Register::Keyr => FLASH_KEYR_ADDR,
            Register::Optkeyr => FLASH_OPTKEYR_ADDR,
            Register::Sr => FLASH_SR_ADDR,
            Register::Cr => FLASH_CR_ADDR,
            Register::Optr => FLASH_OPTR_ADDR,
            Register::Pcrop1aer => FLASH_PCROP1AER_ADDR,
        }
    }

    /// The address of the register in the target's memory.
    #[verifier::when_used_as_spec(spec_addr)]
    pub fn addr(self) -> (addr: u64)
        ensures
            addr == self.spec_addr(),
    {
        match self {
            Register::Keyr => FLASH_KEYR_ADDR,
            Register::Optkeyr => FLASH_OPTKEYR_ADDR,
            Register::Sr => FLASH_SR_ADDR,
            Register::Cr => FLASH_CR_ADDR,
            Register::Optr => FLASH_OPTR_ADDR,
            Register::Pcrop1aer => FLASH_PCROP1AER_ADDR,
        }
    }

    /// The register's name in the reference manual.
    pub open spec fn spec_name(self) -> Seq<char> {
        match self {
            Register::Keyr => "FLASH_KEYR"@,
            Register::Optkeyr => "FLASH_OPTKEYR"@,
            Register::Sr => "FLASH_SR"@,
            Register::Cr => "FLASH_CR"@,
            Register::Optr => "FLASH_OPTR"@,
            Register::Pcrop1aer => "FLASH_PCROP1AER"@,
        }
    }

    /// The register's name in the reference manual.
    pub fn name(self) -> (name: &'static str)
        ensures
            name@ == self.spec_name(),
    {
        match self {
            Register::Keyr => "FLASH_KEYR",
            Register::Optkeyr => "FLASH_OPTKEYR",
            Register::Sr => "FLASH_SR",
            Register::Cr => "FLASH_CR",
            Register::Optr => "FLASH_OPTR",
            Register::Pcrop1aer => "FLASH_PCROP1AER",
        }
    }
}

/// Whether every bit of `mask` is set in `word`.
pub open spec fn spec_has_bits(word: u32, mask: u32) -> bool {
    word & mask == mask
}

/// Whether every bit of `mask` is set in `word`.
#[verifier::when_used_as_spec(spec_has_bits)]
pub fn has_bits(word: u32, mask: u32) -> (set: bool)
    ensures
        set == spec_has_bits(word, mask),
{
    word & mask == mask
}

/// `word` with the bits of `mask` set and every other bit as it was.
pub open spec fn spec_set_bits(word: u32, mask: u32) -> u32 {
    word | mask
}

/// The word to write back when a register that holds `word` is to get the
/// bits of `mask` set: those bits are set, every other bit is as it was.
#[verifier::when_used_as_spec(spec_set_bits)]
pub fn set_bits(word: u32, mask: u32) -> (updated: u32)
    ensures
        updated == spec_set_bits(word, mask),
        updated & mask == mask,
        updated & !mask == word & !mask,
{
    let updated: u32 = word | mask;
    assert(updated & mask == mask && updated & !mask == word & !mask) by (bit_vector)
        requires
            updated == word | mask,
    ;
    updated
}

/// Whether a value of `FLASH_SR` says that a flash operation is in progress.
pub open spec fn spec_is_busy(flash_sr: u32) -> bool {
    flash_sr & BSY_MASK != 0
}

/// Whether a value of `FLASH_SR` says that a flash operation is in progress.
#[verifier::when_used_as_spec(spec_is_busy)]
pub fn is_busy(flash_sr: u32) -> (busy: bool)
    ensures
        busy == spec_is_busy(flash_sr),
{
    flash_sr & BSY_MASK != 0
}

/// Whether a value of `FLASH_SR` says that programming and erasing are
/// suspended.
pub open spec fn spec_is_suspended(flash_sr: u32) -> bool {
    flash_sr & PESD_MASK != 0
}

/// Whether a value of `FLASH_SR` says that programming and erasing are
/// suspended.
#[verifier::when_used_as_spec(spec_is_suspended)]
pub fn is_suspended(flash_sr: u32) -> (suspended: bool)
    ensures
        suspended == spec_is_suspended(flash_sr),
{
    flash_sr & PESD_MASK != 0
}

/// `flash_optr` with the `RDP` byte replaced by that of level 0.
pub open spec fn spec_with_rdp_lvl0(flash_optr: u32) -> u32 {
    (flash_optr & !RDP_MASK) | RDP_LVL0
}

/// The word to write to `FLASH_OPTR` to ask for level 0, given what the
/// register held: the low byte becomes `0xAA`, the other 24 bits stay.
#[verifier::when_used_as_spec(spec_with_rdp_lvl0)]
pub fn with_rdp_lvl0(flash_optr: u32) -> (updated: u32)
    ensures
        updated == spec_with_rdp_lvl0(flash_optr),
        updated & 0xFF == 0xAA,
        updated & 0xFFFF_FF00 == flash_optr & 0xFFFF_FF00,
{
    let updated: u32 = (flash_optr & !RDP_MASK) | RDP_LVL0;
    assert(updated & 0xFF == 0xAA && updated & 0xFFFF_FF00 == flash_optr & 0xFFFF_FF00)
        by (bit_vector)
        requires
            updated == (flash_optr & !0xFFu32) | 0xAA,
    ;
    updated
}

/// Setting bits by read-modify-write changes no other bit: the bits of
/// `mask` are set afterwards, and each bit outside `mask` is what it was. In
/// particular, setting one bit leaves the 31 others alone. Setting the same
/// bits again changes nothing.
pub proof fn lemma_set_bits_keeps_other_bits(word: u32, mask: u32)
    ensures
        set_bits(word, mask) & mask == mask,
        set_bits(word, mask) & !mask == word & !mask,
        forall|bit: u32|
            bit < 32 && mask & (1u32 << bit) == 0 ==> #[trigger] (set_bits(word, mask) & (1u32
                << bit)) == word & (1u32 << bit),
        set_bits(set_bits(word, mask), mask) == set_bits(word, mask),
{
    let updated = word | mask;
    assert(updated & mask == mask && updated & !mask == word & !mask && updated | mask == updated)
        by (bit_vector)
        requires
            updated == word | mask,
    ;
    assert forall|bit: u32| bit < 32 && mask & (1u32 << bit) == 0 implies #[trigger] (updated & (
    1u32 << bit)) == word & (1u32 << bit) by {
        assert(updated & (1u32 << bit) == word & (1u32 << bit)) by (bit_vector)
            requires
                updated == word | mask,
                mask & (1u32 << bit) == 0,
        ;
    }
}

/// The write that asks for level 0 replaces the low byte by `0xAA` and
/// nothing else: the result holds level 0, and every bit above the low byte
/// is what `flash_optr` had.
pub proof fn lemma_with_rdp_lvl0_replaces_low_byte(flash_optr: u32)
    ensures
        with_rdp_lvl0(flash_optr) & 0xFF == 0xAA,
        with_rdp_lvl0(flash_optr) >> 8 == flash_optr >> 8,
        forall|bit: u32|
            8 <= bit < 32 ==> #[trigger] (with_rdp_lvl0(flash_optr) & (1u32 << bit)) == flash_optr
                & (1u32 << bit),
        Rdp::of_optr(with_rdp_lvl0(flash_optr)) == Rdp::Lvl0,
{
    let updated = with_rdp_lvl0(flash_optr);
    assert(updated & 0xFF == 0xAA && updated >> 8 == flash_optr >> 8) by (bit_vector)
        requires
            updated == (flash_optr & !0xFFu32) | 0xAA,
    ;
    assert forall|bit: u32| 8 <= bit < 32 implies #[trigger] (updated & (1u32 << bit))
        == flash_optr & (1u32 << bit) by {
        assert(updated & (1u32 << bit) == flash_optr & (1u32 << bit)) by (bit_vector)
            requires
                updated == (flash_optr & !0xFFu32) | 0xAA,
                8 <= bit < 32,
        ;
    }
}

} // verus!
