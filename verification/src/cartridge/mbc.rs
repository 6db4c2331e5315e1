//! The bank controllers that a cartridge can carry.

mod mbc1;
mod mbc3;
mod rom_only;

pub use self::mbc1::{BankMode, Mbc1Model, MBC1};
pub use self::mbc3::{Mbc3Model, MBC3};
pub use self::rom_only::RomOnly;
