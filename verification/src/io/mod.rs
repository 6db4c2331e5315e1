//! Interrupt flags shared by the devices on the I/O page.

use vstd::prelude::*;

pub mod joypad;
pub mod timer;

verus! {

/// The five interrupt sources, in priority order.
#[derive(Clone, Copy, Debug, PartialEq, Eq, Structural)]
pub enum Flag {
    VBlank,
    LCDStat,
    Timer,
    Serial,
    Joypad,
}

impl Flag {
    /// Position of the source in the IF and IE registers.
    pub open spec fn bit(self) -> u8 {
        match self {
            Flag::VBlank => 0,
            Flag::LCDStat => 1,
            Flag::Timer => 2,
            Flag::Serial => 3,
            Flag::Joypad => 4,
        }
    }

    /// The source as a one-bit mask of the IF and IE registers.
    pub open spec fn mask(self) -> u8 {
        match self {
            Flag::VBlank => 0x01,
            Flag::LCDStat => 0x02,
            Flag::Timer => 0x04,
            Flag::Serial => 0x08,
            Flag::Joypad => 0x10,
        }
    }

    /// Bit position of the source.
    pub fn index(self) -> (n: u8)
        ensures
            n == self.bit(),
            n < 5,
    {
        match self {
            Flag::VBlank => 0,
            Flag::LCDStat => 1,
            Flag::Timer => 2,
            Flag::Serial => 3,
            Flag::Joypad => 4,
        }
    }
}

/// Sets the bit of `flag` in an interrupt-flag byte and leaves the others.
pub fn intf_raise(flags: u8, flag: Flag) -> (r: u8)
    ensures
        r == flags | flag.mask(),
        flags == 0 ==> r == flag.mask(),
{
    let n: u8 = flag.index();
    proof {
        crate::bits::lemma_single_bits();
        crate::bits::lemma_or_zero(flag.mask());
    }
    flags | (1u8 << n)
}

} // verus!
