//! The readout protection level, as encoded in the low byte of `FLASH_OPTR`.

use vstd::prelude::*;
use vstd::std_specs::convert::FromSpecImpl;

verus! {

/// Readout protection level
#[derive(Clone, Copy, Debug, PartialEq, Eq, Structural)]
pub enum Rdp {
    /// Level 0, readout protection not active: the flash is open.
    Lvl0,
    /// Level 1, memories readout protection active. The flash is protected,
    /// and the protection can be taken back to level 0.
    Lvl1,
    /// Level 2, chip readout protection active. The chip is locked for
    /// good.
    Lvl2,
}

impl Rdp {
    /// The level that an RDP byte stands for: `0xAA` is level 0, `0xCC` is
    /// level 2, and every other byte is level 1.
    pub open spec fn of_byte(x: u8) -> Rdp {
        if x == 0xAA {
            Rdp::Lvl0
        } else if x == 0xCC {
            Rdp::Lvl2
        } else {
            Rdp::Lvl1
        }
    }

    /// The level that a value of `FLASH_OPTR` holds: that of its low byte.
    pub open spec fn of_optr(flash_optr: u32) -> Rdp {
        Rdp::of_byte((flash_optr & 0xFF) as u8)
    }

    /// Reads the level out of a value of `FLASH_OPTR`. Only the low byte
    /// counts.
    pub fn from_optr(flash_optr: u32) -> (rdp: Rdp)
        ensures
            rdp == Rdp::of_optr(flash_optr),
    {
        let low: u32 = flash_optr & 0xFF;
        assert(low < 0x100) by (bit_vector)
            requires
                low == flash_optr & 0xFF,
        ;
        Rdp::from(low as u8)
    }

    /// The words that follow "level" when the level is shown to a person.
    pub open spec fn spec_description(self) -> Seq<char> {
        match self {
            Rdp::Lvl0 => "0, readout protection not active"@,
            Rdp::Lvl1 => "1, memories readout protection active"@,
            Rdp::Lvl2 => "2, chip readout protection active"@,
        }
    }

    /// The level's number and what it means, for messages.
    pub fn description(&self) -> (text: &'static str)
        ensures
            text@ == self.spec_description(),
    {
        match self {
            Rdp::Lvl0 => "0, readout protection not active",
            Rdp::Lvl1 => "1, memories readout protection active",
            Rdp::Lvl2 => "2, chip readout protection active",
        }
    }
}

impl From<u8> for Rdp {
    /// Reads the level out of an `RDP` byte.
    fn from(x: u8) -> (rdp: Rdp)
        ensures
            rdp == Rdp::of_byte(x),
            x == 0xAA ==> rdp == Rdp::Lvl0,
            x == 0xCC ==> rdp == Rdp::Lvl2,
            x != 0xAA && x != 0xCC ==> rdp == Rdp::Lvl1,
    {
        match x {
            0xAA => Rdp::Lvl0,
            0xCC => Rdp::Lvl2,
            _ => Rdp::Lvl1,
        }
    }
}

impl FromSpecImpl<u8> for Rdp {
    open spec fn obeys_from_spec() -> bool {
        true
    }

    open spec fn from_spec(x: u8) -> Rdp {
        Rdp::of_byte(x)
    }
}

/// The level is decided by the low byte alone: two values of `FLASH_OPTR`
/// that agree there hold the same level.
pub proof fn lemma_level_ignores_high_bits(a: u32, b: u32)
    requires
        a & 0xFF == b & 0xFF,
    ensures
        Rdp::of_optr(a) == Rdp::of_optr(b),
{
}

} // verus!
