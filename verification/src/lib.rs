//! Core of a cycle-driven emulator for a handheld 8-bit console: an LR35902
//! processor, a bus router with banked cartridges, a pixel-processing unit, a
//! programmable timer and a joypad latch.
//!
//! Every executable function carries a contract over the mathematical model of
//! the component it belongs to, and the contracts are proved by Verus.

use vstd::prelude::*;

pub mod bits;
pub mod cartridge;
pub mod cpu;
pub mod io;
pub mod memory;
pub mod ppu;
pub mod mmu;
pub mod system;

pub use system::System;

verus! {

/// The screen, or whatever stands for it. The pixel unit hands it every
/// completed picture: 144 lines of 160 pixels, line by line. What a display
/// does with a picture is its own business and nothing is claimed of it; the
/// models record which pictures were handed over, and in which order.
pub trait Display {
    /// Receives a picture.
    fn update(&mut self, _framebuffer: &Vec<u32>)
        requires
            _framebuffer@.len() == 160 * 144,
    {
    }
}

} // verus!
