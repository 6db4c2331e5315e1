//! The pixel-processing unit: the mode state machine, the line renderer and
//! the registers that steer them.

use vstd::prelude::*;
use crate::io::Flag;
use crate::memory::{Memory, Ram};
use crate::Display;
use palette::Palette;
use sprite::Sprite;

pub mod palette;
pub mod timing;
pub mod sprite;

verus! {

pub const SCREEN_W: usize = 160;

pub const SCREEN_H: usize = 144;

pub const VRAM_SIZE: usize = 0x4000;

pub const VOAM_SIZE: usize = 0xA0;

/// Colour of the screen before anything is drawn.
pub const BLANK: u32 = 0xCADC9F;

/// Colour of a pixel while the background is switched off.
pub const WHITE: u32 = 0xFFFFFF;

/// The four phases of the unit. A line passes through the search of the
/// attribute memory, the transfer to the screen and the horizontal blank;
/// after the last line follows the vertical blank.
#[derive(Clone, Copy, Debug, PartialEq, Eq, Structural)]
pub enum Mode {
    HBlank,
    VBlank,
    OAMSearch,
    Transfer,
}

impl Mode {
    /// The mode as the two low bits of STAT.
    pub open spec fn number(self) -> u8 {
        match self {
            Mode::HBlank => 0,
            Mode::VBlank => 1,
            Mode::OAMSearch => 2,
            Mode::Transfer => 3,
        }
    }

    /// Clock ticks that the unit stays in the mode; in the vertical blank,
    /// for each of its lines.
    pub open spec fn dwell(self) -> nat {
        match self {
            Mode::OAMSearch => 80,
            Mode::Transfer => 172,
            Mode::HBlank => 204,
            Mode::VBlank => 456,
        }
    }

    /// The mode as the two low bits of STAT.
    pub fn bits(self) -> (n: u8)
        ensures
            n == self.number(),
    {
        match self {
            Mode::HBlank => 0,
            Mode::VBlank => 1,
            Mode::OAMSearch => 2,
            Mode::Transfer => 3,
        }
    }

    /// Clock ticks that the unit stays in the mode.
    pub fn ticks(self) -> (n: u64)
        ensures
            n == self.dwell(),
    {
        match self {
            Mode::OAMSearch => 80,
            Mode::Transfer => 172,
            Mode::HBlank => 204,
            Mode::VBlank => 456,
        }
    }
}

/// Where the data of the tiles lies in video memory.
#[derive(Clone, Copy, Debug, PartialEq, Eq, Structural)]
pub enum TileSet {
    /// At 0x8000, tiles numbered 0 to 255.
    Set1,
    /// At 0x8800, tiles numbered -128 to 127: tile 0 lies at 0x9000.
    Set2,
}

impl TileSet {
    /// Offset of the set in video memory.
    pub open spec fn base(self) -> int {
        match self {
            TileSet::Set1 => 0x0000,
            TileSet::Set2 => 0x0800,
        }
    }

    /// Place of a tile in the set, counted from the set's base.
    pub open spec fn place(self, index: u8) -> int {
        match self {
            TileSet::Set1 => index as int,
            TileSet::Set2 => (index + 128) % 256,
        }
    }

    /// Offset of the set in video memory.
    pub fn base_addr(set: &TileSet) -> (a: u16)
        ensures
            a == set.base(),
    {
        match set {
            TileSet::Set1 => 0x0000,
            TileSet::Set2 => 0x0800,
        }
    }
}

/// Which of the two maps of tile numbers is used.
#[derive(Clone, Copy, Debug, PartialEq, Eq, Structural)]
pub enum TileMap {
    /// At 0x9800.
    Low,
    /// At 0x9C00.
    High,
}

impl TileMap {
    /// Offset of the map in video memory.
    pub open spec fn base(self) -> int {
        match self {
            TileMap::Low => 0x1800,
            TileMap::High => 0x1C00,
        }
    }

    /// Offset of the map in video memory.
    pub fn base_addr(set: &TileMap) -> (a: u16)
        ensures
            a == set.base(),
    {
        match set {
            TileMap::Low => 0x1800,
            TileMap::High => 0x1C00,
        }
    }
}

#[derive(Clone, Copy, Debug, PartialEq, Eq, Structural)]
pub enum SpriteSize {
    S8x8,
    S8x16,
}

impl SpriteSize {
    /// Height of a sprite in lines.
    pub open spec fn height(self) -> int {
        match self {
            SpriteSize::S8x8 => 8,
            SpriteSize::S8x16 => 16,
        }
    }

    /// Height of a sprite in lines.
    pub fn lines(self) -> (n: u8)
        ensures
            n == self.height(),
    {
        match self {
            SpriteSize::S8x8 => 8,
            SpriteSize::S8x16 => 16,
        }
    }
}

/// The LCDC register: eight switches.
#[derive(Clone, Copy, Debug, PartialEq, Eq, Structural)]
pub struct Lcdc {
    /// Bit 7: the screen is on.
    pub lcd_on: bool,
    /// Bit 6: the map of the window.
    pub window_map: TileMap,
    /// Bit 5: the window is shown.
    pub window_on: bool,
    /// Bit 4: the tile set of background and window.
    pub tile_data: TileSet,
    /// Bit 3: the map of the background.
    pub background_map: TileMap,
    /// Bit 2: the size of the sprites.
    pub sprite_size: SpriteSize,
    /// Bit 1: sprites are shown.
    pub sprites_enabled: bool,
    /// Bit 0: background and window are shown. While it is clear both are
    /// blank and only sprites are drawn.
    pub lcdc0: bool,
}

impl Lcdc {
    /// The switches at power-on.
    pub open spec fn initial() -> Lcdc {
        Lcdc {
            lcd_on: true,
            window_map: TileMap::Low,
            window_on: false,
            tile_data: TileSet::Set1,
            background_map: TileMap::High,
            sprite_size: SpriteSize::S8x8,
            sprites_enabled: false,
            lcdc0: true,
        }
    }

    /// The register as it reads.
    pub open spec fn byte(self) -> u8 {
        (if self.lcd_on { 0x80u8 } else { 0u8 }) | (if self.window_map == TileMap::High {
            0x40u8
        } else {
            0u8
        }) | (if self.window_on { 0x20u8 } else { 0u8 }) | (if self.tile_data == TileSet::Set1 {
            0x10u8
        } else {
            0u8
        }) | (if self.background_map == TileMap::High { 0x08u8 } else { 0u8 }) | (if self.sprite_size
            == SpriteSize::S8x16 { 0x04u8 } else { 0u8 }) | (if self.sprites_enabled {
            0x02u8
        } else {
            0u8
        }) | (if self.lcdc0 { 0x01u8 } else { 0u8 })
    }

    /// The switches that a byte written to the register sets.
    pub open spec fn of(v: u8) -> Lcdc {
        Lcdc {
            lcd_on: v & 0x80 != 0,
            window_map: if v & 0x40 != 0 {
                TileMap::High
            } else {
                TileMap::Low
            },
            window_on: v & 0x20 != 0,
            tile_data: if v & 0x10 != 0 {
                TileSet::Set1
            } else {
                TileSet::Set2
            },
            background_map: if v & 0x08 != 0 {
                TileMap::High
            } else {
                TileMap::Low
            },
            sprite_size: if v & 0x04 != 0 {
                SpriteSize::S8x16
            } else {
                SpriteSize::S8x8
            },
            sprites_enabled: v & 0x02 != 0,
            lcdc0: v & 0x01 != 0,
        }
    }

    pub fn new() -> (l: Self)
        ensures
            l == Lcdc::initial(),
    {
        Lcdc {
            lcd_on: true,
            window_map: TileMap::Low,
            window_on: false,
            tile_data: TileSet::Set1,
            background_map: TileMap::High,
            sprite_size: SpriteSize::S8x8,
            sprites_enabled: false,
            lcdc0: true,
        }
    }

    /// The switches that a byte written to the register sets.
    pub fn from(v: u8) -> (l: Self)
        ensures
            l == Lcdc::of(v),
    {
        Lcdc {
            lcd_on: (v & 0x80) != 0,
            window_map: if (v & 0x40) != 0 { TileMap::High } else { TileMap::Low },
            window_on: (v & 0x20) != 0,
            tile_data: if (v & 0x10) != 0 { TileSet::Set1 } else { TileSet::Set2 },
            background_map: if (v & 0x08) != 0 { TileMap::High } else { TileMap::Low },
            sprite_size: if (v & 0x04) != 0 { SpriteSize::S8x16 } else { SpriteSize::S8x8 },
            sprites_enabled: (v & 0x02) != 0,
            lcdc0: (v & 0x01) != 0,
        }
    }

    /// The register as it reads.
    pub fn to_u8(&self) -> (v: u8)
        ensures
            v == self.byte(),
    {
        (if self.lcd_on { 0x80u8 } else { 0u8 }) | (if self.window_map == TileMap::High {
            0x40u8
        } else {
            0u8
        }) | (if self.window_on { 0x20u8 } else { 0u8 }) | (if self.tile_data == TileSet::Set1 {
            0x10u8
        } else {
            0u8
        }) | (if self.background_map == TileMap::High { 0x08u8 } else { 0u8 }) | (if self.sprite_size
            == SpriteSize::S8x16 { 0x04u8 } else { 0u8 }) | (if self.sprites_enabled {
            0x02u8
        } else {
            0u8
        }) | (if self.lcdc0 { 0x01u8 } else { 0u8 })
    }
}

/// Colour index of a pixel of a tile. Each line of a tile takes two bytes;
/// bit 7 of both is the leftmost pixel, and the second byte holds the high
/// bit of the index. `y` may run past the tile's eight lines into the next
/// tile.
#[verifier::opaque]
pub open spec fn tile_pixel(vram: Seq<u8>, set: TileSet, index: u8, x: u8, y: u8, x_flip: bool) -> u8 {
    let line = set.base() + set.place(index) * 16 + y * 2;
    let b: u8 = if x_flip {
        x
    } else {
        (7 - x) as u8
    };
    let l = (vram[line] >> b) & 1;
    let h = (vram[line + 1] >> b) & 1;
    h << 1 | l
}

/// The unit as a mathematical value.
pub struct PpuModel {
    /// Clock ticks spent in the current mode, or line of the vertical blank.
    pub clock: nat,
    /// The picture: 144 lines of 160 pixels.
    pub framebuffer: Seq<u32>,
    pub vram: Seq<u8>,
    pub oam: Seq<u8>,
    pub ly: u8,
    pub lyc: u8,
    pub lyc_inte: bool,
    pub oam_inte: bool,
    pub vblank_inte: bool,
    pub hblank_inte: bool,
    pub mode: Mode,
    pub scx: u8,
    pub scy: u8,
    pub wx: u8,
    pub wy: u8,
    pub bgp: u8,
    pub obp0: u8,
    pub obp1: u8,
    pub lcdc: Lcdc,
    /// The pictures handed to the display so far, oldest first.
    pub shown: Seq<Seq<u32>>,
}

/// What the unit has done in a stretch of time.
pub struct PpuRun {
    /// The unit afterwards.
    pub ppu: PpuModel,
    /// The interrupt bits raised.
    pub intf: u8,
}

impl PpuModel {
    /// The three memories have their sizes.
    pub open spec fn sized(self) -> bool {
        &&& self.framebuffer.len() == 160 * 144
        &&& self.vram.len() == 0x4000
        &&& self.oam.len() == 0xA0
    }

    /// What holds of the unit whatever its clock shows: LY is a line of the
    /// frame, and the vertical blank is the mode of the lines from 144 on.
    pub open spec fn shaped(self) -> bool {
        &&& self.sized()
        &&& self.ly <= 153
        &&& (self.mode == Mode::VBlank <==> self.ly >= 144)
    }

    /// What holds of the unit between two steps.
    pub open spec fn wf(self) -> bool {
        self.shaped() && self.clock < self.mode.dwell()
    }

    /// The unit at power-on.
    pub open spec fn initial() -> PpuModel {
        PpuModel {
            clock: 0,
            framebuffer: Seq::new(160 * 144, |i: int| BLANK),
            vram: crate::memory::zeros(0x4000),
            oam: crate::memory::zeros(0xA0),
            mode: Mode::HBlank,
            ly: 0,
            lyc: 0,
            lyc_inte: false,
            oam_inte: false,
            vblank_inte: false,
            hblank_inte: false,
            scy: 0,
            scx: 0,
            wy: 0,
            wx: 0,
            bgp: 0,
            obp0: 0,
            obp1: 0,
            lcdc: Lcdc::initial(),
            shown: Seq::empty(),
        }
    }

    /// The STAT register as it reads: the four interrupt enables, whether LY
    /// equals LYC, and the mode.
    pub open spec fn stat(self) -> u8 {
        (if self.lyc_inte { 0x40u8 } else { 0u8 }) | (if self.oam_inte { 0x20u8 } else { 0u8 }) | (
        if self.vblank_inte {
            0x10u8
        } else {
            0u8
        }) | (if self.hblank_inte { 0x08u8 } else { 0u8 }) | (if self.ly == self.lyc {
            0x04u8
        } else {
            0u8
        }) | self.mode.number()
    }

    /// The unit after a write to STAT: only the four enables can be written.
    pub open spec fn with_stat(self, v: u8) -> PpuModel {
        PpuModel {
            lyc_inte: v & 0x40 != 0,
            oam_inte: v & 0x20 != 0,
            vblank_inte: v & 0x10 != 0,
            hblank_inte: v & 0x08 != 0,
            ..self
        }
    }

    /// The byte read at `addr`: video memory, attribute memory or a register;
    /// 0xFF elsewhere.
    pub open spec fn read(self, addr: u16) -> u8 {
        if 0x8000 <= addr <= 0x9FFF {
            self.vram[addr - 0x8000]
        } else if 0xFE00 <= addr <= 0xFE9F {
            self.oam[addr - 0xFE00]
        } else if addr == 0xFF40 {
            self.lcdc.byte()
        } else if addr == 0xFF41 {
            self.stat()
        } else if addr == 0xFF42 {
            self.scy
        } else if addr == 0xFF43 {
            self.scx
        } else if addr == 0xFF44 {
            self.ly
        } else if addr == 0xFF45 {
            self.lyc
        } else if addr == 0xFF47 {
            self.bgp
        } else if addr == 0xFF48 {
            self.obp0
        } else if addr == 0xFF49 {
            self.obp1
        } else if addr == 0xFF4A {
            self.wy
        } else if addr == 0xFF4B {
            self.wx
        } else {
            0xFF
        }
    }

    /// The unit after `v` is written at `addr`. LY cannot be written, and a
    /// write elsewhere is dropped.
    pub open spec fn written(self, addr: u16, v: u8) -> PpuModel {
        if 0x8000 <= addr <= 0x9FFF {
            PpuModel { vram: self.vram.update(addr - 0x8000, v), ..self }
        } else if 0xFE00 <= addr <= 0xFE9F {
            PpuModel { oam: self.oam.update(addr - 0xFE00, v), ..self }
        } else if addr == 0xFF40 {
            PpuModel { lcdc: Lcdc::of(v), ..self }
        } else if addr == 0xFF41 {
            self.with_stat(v)
        } else if addr == 0xFF42 {
            PpuModel { scy: v, ..self }
        } else if addr == 0xFF43 {
            PpuModel { scx: v, ..self }
        } else if addr == 0xFF45 {
            PpuModel { lyc: v, ..self }
        } else if addr == 0xFF47 {
            PpuModel { bgp: v, ..self }
        } else if addr == 0xFF48 {
            PpuModel { obp0: v, ..self }
        } else if addr == 0xFF49 {
            PpuModel { obp1: v, ..self }
        } else if addr == 0xFF4A {
            PpuModel { wy: v, ..self }
        } else if addr == 0xFF4B {
            PpuModel { wx: v, ..self }
        } else {
            self
        }
    }

    /// Colour index of the pixel (x, y) of the 256 by 256 picture that a map
    /// of 32 by 32 tiles describes.
    #[verifier::opaque]
    pub open spec fn map_pixel(self, x: u8, y: u8, map: TileMap) -> u8 {
        let index = self.vram[map.base() + x / 8 + (y / 8) * 32];
        tile_pixel(self.vram, self.lcdc.tile_data, index, x % 8, y % 8, false)
    }

    /// Whether the window covers column `x` of the current line: it is
    /// switched on, the line is at or below WY, and the column at or right of
    /// WX - 7.
    pub open spec fn in_window(self, x: u8) -> bool {
        self.lcdc.window_on && self.ly >= self.wy && x + 7 >= self.wx
    }

    /// Colour index of the background or the window at column `x` of the
    /// current line; 0 while both are switched off. The background is
    /// scrolled by SCX and SCY and wraps round; the window is not scrolled.
    pub open spec fn backdrop_index(self, x: u8) -> u8 {
        if !self.lcdc.lcdc0 {
            0
        } else if self.in_window(x) {
            self.map_pixel((x + 7 - self.wx) as u8, (self.ly - self.wy) as u8, self.lcdc.window_map)
        } else {
            self.map_pixel(
                self.scx.wrapping_add(x),
                self.scy.wrapping_add(self.ly),
                self.lcdc.background_map,
            )
        }
    }

    /// Colour of the background or the window at column `x` of the current
    /// line.
    pub open spec fn backdrop(self, x: u8) -> u32 {
        if self.lcdc.lcdc0 {
            palette::shade_of(self.bgp, self.backdrop_index(x))
        } else {
            WHITE
        }
    }

    /// Entry `i` of the attribute memory. Sprites 16 lines tall take two
    /// tiles, of which the first has an even number.
    pub open spec fn sprite(self, i: int) -> Sprite {
        Sprite::of(
            self.oam[4 * i + 1],
            self.oam[4 * i],
            self.oam[4 * i + 2] & (if self.lcdc.sprite_size == SpriteSize::S8x16 {
                0xFEu8
            } else {
                0xFFu8
            }),
            self.oam[4 * i + 3],
        )
    }

    /// The sprites shown on the current line, out of the first `n` entries:
    /// those that cover the line, in the order of their entries, and no more
    /// than ten.
    pub open spec fn line_sprites(self, n: int) -> Seq<Sprite>
        decreases n,
    {
        if n <= 0 {
            Seq::empty()
        } else {
            let before = self.line_sprites(n - 1);
            if before.len() < 10 && self.sprite(n - 1).on_line(self.ly, self.lcdc.sprite_size.height()) {
                before.push(self.sprite(n - 1))
            } else {
                before
            }
        }
    }

    /// Colour index of a sprite at column `x` of the current line, which the
    /// sprite covers. A flip mirrors the sprite.
    pub open spec fn sprite_pixel(self, s: Sprite, x: u8) -> u8 {
        let row = self.ly + 16 - s.y;
        tile_pixel(
            self.vram,
            TileSet::Set1,
            s.tile,
            (x + 8 - s.x) as u8,
            (if s.y_flip {
                self.lcdc.sprite_size.height() - 1 - row
            } else {
                row
            }) as u8,
            s.x_flip,
        )
    }

    /// Whether a sprite shows at column `x` of the current line over a
    /// backdrop of colour index `under`: it covers the column, its pixel
    /// there is not of the transparent index 0, and it does not give way to
    /// the backdrop.
    pub open spec fn shows(self, s: Sprite, x: u8, under: u8) -> bool {
        s.covers(x) && self.sprite_pixel(s, x) != 0 && !(s.bg_priority && under != 0)
    }

    /// Colour of a sprite's pixel at column `x`, through the palette that the
    /// sprite names.
    pub open spec fn sprite_colour(self, s: Sprite, x: u8) -> u32 {
        palette::shade_of(if s.palette == 0 { self.obp0 } else { self.obp1 }, self.sprite_pixel(s, x))
    }

    /// Colour at column `x` once the first `n` of the line's sprites are
    /// drawn over the backdrop `bg` of colour index `under`. A later sprite
    /// is drawn over an earlier one.
    pub open spec fn overlaid(self, sprites: Seq<Sprite>, n: int, x: u8, under: u8, bg: u32) -> u32
        decreases n,
    {
        if n <= 0 {
            bg
        } else if self.shows(sprites[n - 1], x, under) {
            self.sprite_colour(sprites[n - 1], x)
        } else {
            self.overlaid(sprites, n - 1, x, under, bg)
        }
    }

    /// Colour of the pixel at column `x` of the current line.
    pub open spec fn pixel(self, x: u8) -> u32 {
        if self.lcdc.sprites_enabled {
            let sprites = self.line_sprites(40);
            self.overlaid(sprites, sprites.len() as int, x, self.backdrop_index(x), self.backdrop(x))
        } else {
            self.backdrop(x)
        }
    }

    /// The current line as it is drawn.
    pub open spec fn line(self) -> Seq<u32> {
        Seq::new(160, |x: int| self.pixel(x as u8))
    }

    /// The picture after the current line is drawn into it. Lines of the
    /// vertical blank are not drawn.
    #[verifier::opaque]
    pub open spec fn rendered(self) -> Seq<u32> {
        if self.ly >= 144 {
            self.framebuffer
        } else {
            Seq::new(
                160 * 144,
                |i: int|
                    if self.ly * 160 <= i < self.ly * 160 + 160 {
                        self.line()[i - self.ly * 160]
                    } else {
                        self.framebuffer[i]
                    },
            )
        }
    }

    /// The interrupt bits that the comparison of LY with LYC raises.
    pub open spec fn coincidence(self) -> u8 {
        if self.lyc_inte && self.ly == self.lyc {
            Flag::LCDStat.mask()
        } else {
            0
        }
    }

    /// The unit entering a mode. Entering the horizontal blank draws the
    /// current line; entering the vertical blank hands the picture to the
    /// display.
    pub open spec fn entered(self, next: Mode) -> PpuModel {
        let m = PpuModel { mode: next, ..self };
        if next == Mode::HBlank {
            PpuModel { framebuffer: m.rendered(), ..m }
        } else if next == Mode::VBlank {
            PpuModel { shown: m.shown.push(m.framebuffer), ..m }
        } else {
            m
        }
    }

    /// The interrupt bits that entering a mode raises: the vertical blank's
    /// own interrupt, and the STAT interrupt where STAT enables it for the
    /// mode.
    pub open spec fn entry_flags(self, next: Mode) -> u8 {
        match next {
            Mode::OAMSearch => if self.oam_inte {
                Flag::LCDStat.mask()
            } else {
                0
            },
            Mode::Transfer => 0,
            Mode::HBlank => if self.hblank_inte {
                Flag::LCDStat.mask()
            } else {
                0
            },
            Mode::VBlank => if self.vblank_inte {
                Flag::VBlank.mask() | Flag::LCDStat.mask()
            } else {
                Flag::VBlank.mask()
            },
        }
    }

    /// The mode that follows when the current one has run its time, and the
    /// line that is then current. After the horizontal blank of line 143
    /// comes the vertical blank; its tenth line is followed by line 0.
    pub open spec fn successor(self) -> (Mode, u8) {
        match self.mode {
            Mode::OAMSearch => (Mode::Transfer, self.ly),
            Mode::Transfer => (Mode::HBlank, self.ly),
            Mode::HBlank => (
                if self.ly >= 143 {
                    Mode::VBlank
                } else {
                    Mode::OAMSearch
                },
                (self.ly + 1) as u8,
            ),
            Mode::VBlank => if self.ly >= 153 {
                (Mode::OAMSearch, 0)
            } else {
                (Mode::VBlank, (self.ly + 1) as u8)
            },
        }
    }

    /// The unit leaving its mode after its time is up, with the interrupt
    /// bits `acc` raised before. At the end of a line LY moves on and is
    /// compared with LYC. Within the vertical blank the mode stays; otherwise
    /// the next mode is entered.
    pub open spec fn transition(self, acc: u8) -> PpuRun {
        let (next, ly) = self.successor();
        let t = PpuModel { clock: (self.clock - self.mode.dwell()) as nat, ly, ..self };
        let flags = if self.mode == Mode::HBlank || self.mode == Mode::VBlank {
            acc | t.coincidence()
        } else {
            acc
        };
        if next == self.mode {
            PpuRun { ppu: t, intf: flags }
        } else {
            PpuRun { ppu: t.entered(next), intf: flags | t.entry_flags(next) }
        }
    }

    /// The unit run until its clock is within the time of its mode, after
    /// the interrupt bits `acc` were raised.
    pub open spec fn run(self, acc: u8) -> PpuRun
        decreases self.clock,
    {
        if self.clock < self.mode.dwell() {
            PpuRun { ppu: self, intf: acc }
        } else {
            let t = self.transition(acc);
            t.ppu.run(t.intf)
        }
    }

    /// What the unit does in `ticks` clock ticks.
    pub open spec fn advanced(self, ticks: nat) -> PpuRun {
        (PpuModel { clock: self.clock + ticks, ..self }).run(0)
    }
}

pub struct PPU<D: Display> {
    clock: u64,
    framebuffer: Vec<u32>,
    display: D,
    vram: Ram,
    voam: [u8; VOAM_SIZE],
    // LY is the line that is being drawn. It runs from 0 to 153; the values
    // from 144 on are the lines of the vertical blank.
    ly: u8,
    lyc_inte: bool,
    oam_inte: bool,
    vblank_inte: bool,
    hblank_inte: bool,
    lyc: u8,
    mode: Mode,
    scx: u8,
    scy: u8,
    wx: u8,
    wy: u8,
    bgp: Palette,
    obp0: Palette,
    obp1: Palette,
    lcdc: Lcdc,
    shown: Ghost<Seq<Seq<u32>>>,
}

impl<D: Display> View for PPU<D> {
    type V = PpuModel;

    closed spec fn view(&self) -> PpuModel {
        PpuModel {
            clock: self.clock as nat,
            framebuffer: self.framebuffer@,
            vram: self.vram@,
            oam: self.voam@,
            ly: self.ly,
            lyc: self.lyc,
            lyc_inte: self.lyc_inte,
            oam_inte: self.oam_inte,
            vblank_inte: self.vblank_inte,
            hblank_inte: self.hblank_inte,
            mode: self.mode,
            scx: self.scx,
            scy: self.scy,
            wx: self.wx,
            wy: self.wy,
            bgp: self.bgp@,
            obp0: self.obp0@,
            obp1: self.obp1@,
            lcdc: self.lcdc,
            shown: self.shown@,
        }
    }
}

/// LCDC reads back the byte that was written to it.
pub proof fn lemma_lcdc_round_trip(v: u8)
    ensures
        Lcdc::of(v).byte() == v,
{
    assert({
        let b = (if v & 0x80 != 0 { 0x80u8 } else { 0u8 }) | (if v & 0x40 != 0 {
            0x40u8
        } else {
            0u8
        }) | (if v & 0x20 != 0 { 0x20u8 } else { 0u8 }) | (if v & 0x10 != 0 {
            0x10u8
        } else {
            0u8
        }) | (if v & 0x08 != 0 { 0x08u8 } else { 0u8 }) | (if v & 0x04 != 0 {
            0x04u8
        } else {
            0u8
        }) | (if v & 0x02 != 0 { 0x02u8 } else { 0u8 }) | (if v & 0x01 != 0 {
            0x01u8
        } else {
            0u8
        });
        b == v
    }) by (bit_vector);
}

/// A colour index has two bits.
proof fn lemma_index_bound(l: u8, h: u8, b: u8)
    ensures
        (((h >> b) & 1) << 1 | ((l >> b) & 1)) < 4,
{
    assert((((h >> b) & 1) << 1 | ((l >> b) & 1)) < 4) by (bit_vector);
}

/// A vector of `n` copies of a pixel.
fn filled(n: usize, pixel: u32) -> (v: Vec<u32>)
    ensures
        v@ == Seq::new(n as nat, |i: int| pixel),
{
    let mut v: Vec<u32> = Vec::with_capacity(n);
    let mut i: usize = 0;
    while i < n
        invariant
            i <= n,
            v@ == Seq::new(i as nat, |j: int| pixel),
        decreases n - i,
    {
        v.push(pixel);
        i += 1;
    }
    v
}

impl<D: Display> PPU<D> {
    /// What the representation keeps true: the unit is well formed and the
    /// colours of each palette are worked out.
    pub closed spec fn inv(&self) -> bool {
        &&& self@.wf()
        &&& self.bgp.inv()
        &&& self.obp0.inv()
        &&& self.obp1.inv()
    }

    /// What the representation keeps true at every moment.
    spec fn running(&self) -> bool {
        &&& self@.sized()
        &&& self.bgp.inv()
        &&& self.obp0.inv()
        &&& self.obp1.inv()
    }

    /// The invariant makes the model well formed.
    pub proof fn lemma_inv(&self)
        requires
            self.inv(),
        ensures
            self@.wf(),
    {
    }

    /// The unit at power-on, with the display that will receive its pictures.
    pub fn new(display: D) -> (ppu: Self)
        ensures
            ppu.inv(),
            ppu@ == PpuModel::initial(),
    {
        let ppu = Self {
            clock: 0,
            display,
            framebuffer: filled(SCREEN_W * SCREEN_H, BLANK),
            vram: Ram::new(VRAM_SIZE),
            voam: [0; VOAM_SIZE],
            mode: Mode::HBlank,
            ly: 0,
            lyc: 0,
            lyc_inte: false,
            oam_inte: false,
            vblank_inte: false,
            hblank_inte: false,
            scy: 0,
            scx: 0,
            wy: 0,
            wx: 0,
            bgp: Palette::from(0),
            obp0: Palette::from(0),
            obp1: Palette::from(0),
            lcdc: Lcdc::new(),
            shown: Ghost(Seq::empty()),
        };
        assert(ppu.voam@ =~= crate::memory::zeros(0xA0));
        ppu
    }

    /// Advances the unit by `ticks` clock ticks. Returns the interrupt bits
    /// raised on the way; every picture completed on the way is handed to the
    /// display.
    pub fn step(&mut self, ticks: u32) -> (intfs: u8)
        requires
            old(self).inv(),
        ensures
            final(self).inv(),
            final(self)@ == old(self)@.advanced(ticks as nat).ppu,
            intfs == old(self)@.advanced(ticks as nat).intf,
    {
        let mut intfs: u8 = 0;

        self.clock += ticks as u64;
        let ghost start = self@;

        while self.clock >= self.mode.ticks()
            invariant
                self.running(),
                self@.shaped(),
                self.clock < 0x1_0000_0200,
                start.run(0) == self@.run(intfs),
            decreases self.clock,
        {
            intfs = self.leave_mode(intfs);
        }
        intfs
    }

    /// Leaves the current mode, whose time is up, for the next. `acc` holds
    /// the interrupt bits raised so far; returns them with those that the
    /// change raises.
    fn leave_mode(&mut self, acc: u8) -> (intfs: u8)
        requires
            old(self).running(),
            old(self)@.shaped(),
            old(self)@.clock >= old(self)@.mode.dwell(),
        ensures
            final(self).running(),
            final(self)@.shaped(),
            final(self)@ == old(self)@.transition(acc).ppu,
            intfs == old(self)@.transition(acc).intf,
    {
        let mode = self.mode;
        let (next, ly) = self.successor();
        let mut intfs = acc;

        self.clock -= mode.ticks();
        self.ly = ly;
        match mode {
            Mode::HBlank | Mode::VBlank => {
                intfs |= self.check_lyc();
            },
            _ => {},
        }
        if next != mode {
            intfs |= self.change_mode(next);
        }
        intfs
    }

    /// The mode that follows the current one, and the line that is then
    /// current.
    fn successor(&self) -> (r: (Mode, u8))
        requires
            self@.shaped(),
        ensures
            r == self@.successor(),
    {
        match self.mode {
            Mode::OAMSearch => (Mode::Transfer, self.ly),
            Mode::Transfer => (Mode::HBlank, self.ly),
            Mode::HBlank => if self.ly >= 143 {
                (Mode::VBlank, self.ly + 1)
            } else {
                (Mode::OAMSearch, self.ly + 1)
            },
            Mode::VBlank => if self.ly >= 153 {
                (Mode::OAMSearch, 0)
            } else {
                (Mode::VBlank, self.ly + 1)
            },
        }
    }

    /// Draws the current line into the picture.
    fn render_line(&mut self)
        requires
            old(self).running(),
        ensures
            final(self).running(),
            final(self)@ == (PpuModel { framebuffer: old(self)@.rendered(), ..old(self)@ }),
    {
        proof {
            reveal(PpuModel::rendered);
        }
        if self.ly >= SCREEN_H as u8 {
            return ;
        }
        let line = self.compose_line();
        let base: usize = self.ly as usize * SCREEN_W;
        let ghost before = self@;

        let mut x: usize = 0;
        while x < SCREEN_W
            invariant
                x <= 160,
                line@ == before.line(),
                base == before.ly * 160,
                before.ly < 144,
                before.framebuffer.len() == 160 * 144,
                self.framebuffer@.len() == 160 * 144,
                self@ == (PpuModel { framebuffer: self@.framebuffer, ..before }),
                self.running(),
                forall|i: int|
                    0 <= i < 160 * 144 ==> self.framebuffer@[i] == if base <= i < base + x {
                        line@[i - base]
                    } else {
                        before.framebuffer[i]
                    },
            decreases 160 - x,
        {
            self.framebuffer[base + x] = line[x];
            x += 1;
        }
        assert(self.framebuffer@ =~= before.rendered());
    }

    /// Works out the colours of the current line.
    fn compose_line(&self) -> (line: Vec<u32>)
        requires
            self.running(),
            self@.ly < 144,
        ensures
            line@ == self@.line(),
    {
        let sprites = if self.lcdc.sprites_enabled { self.oam_search() } else { Vec::new() };
        let mut line: Vec<u32> = Vec::with_capacity(SCREEN_W);

        let mut x: u8 = 0;
        while x < SCREEN_W as u8
            invariant
                x <= 160,
                self.running(),
                self@.ly < 144,
                self.lcdc.sprites_enabled ==> sprites@ == self@.line_sprites(40),
                line@.len() == x,
                forall|i: int| 0 <= i < x ==> line@[i] == self@.pixel(i as u8),
            decreases 160 - x,
        {
            let color = self.compose_pixel(&sprites, x);
            line.push(color);
            x += 1;
        }
        assert(line@ =~= self@.line());
        line
    }

    /// Works out the colour of one pixel of the current line: the window
    /// where it covers the pixel, else the background, and the sprites over
    /// them.
    fn compose_pixel(&self, sprites: &Vec<Sprite>, x: u8) -> (color: u32)
        requires
            self.running(),
            self@.ly < 144,
            self.lcdc.sprites_enabled ==> sprites@ == self@.line_sprites(40),
        ensures
            color == self@.pixel(x),
    {
        let mut index: u8 = 0;
        let mut color: u32 = WHITE;

        if self.lcdc.lcdc0 {
            let (i, c) = if self.lcdc.window_on && self.ly >= self.wy && x as u16 + 7
                >= self.wx as u16 {
                self.get_bg_color(
                    (x as u16 + 7 - self.wx as u16) as u8,
                    self.ly - self.wy,
                    &self.lcdc.window_map,
                )
            } else {
                self.get_bg_color(
                    self.scx.wrapping_add(x),
                    self.scy.wrapping_add(self.ly),
                    &self.lcdc.background_map,
                )
            };
            index = i;
            color = c;
        }
        assert(index == self@.backdrop_index(x));
        assert(color == self@.backdrop(x));
        if self.lcdc.sprites_enabled {
            color = self.get_sprite_color(sprites, x, self.ly, index, color);
        }
        color
    }

    /// Colour index and colour of a pixel of the picture that a map
    /// describes.
    fn get_bg_color(&self, x: u8, y: u8, map: &TileMap) -> (r: (u8, u32))
        requires
            self.running(),
        ensures
            r.0 == self@.map_pixel(x, y, *map),
            r.1 == palette::shade_of(self@.bgp, r.0),
    {
        proof {
            reveal(PpuModel::map_pixel);
        }
        let bg_map_base = TileMap::base_addr(map);
        let tile_map_x = (x / 8) as u16;
        let tile_map_y = (y / 8) as u16;
        let tile_x = x % 8;
        let tile_y = y % 8;

        let tile_idx: u8 = self.vram.get(bg_map_base + tile_map_x + tile_map_y * 32);

        let color = self.get_tile_color(&self.lcdc.tile_data, tile_idx, tile_x, tile_y, false);

        (color, self.bgp.to_rgb(color))
    }

    /// Colour index of a pixel of a tile.
    fn get_tile_color(&self, set: &TileSet, index: u8, x: u8, y: u8, x_flip: bool) -> (c: u8)
        requires
            self.running(),
            x < 8,
            y < 16,
        ensures
            c == tile_pixel(self@.vram, *set, index, x, y, x_flip),
            c < 4,
    {
        proof {
            reveal(tile_pixel);
        }
        let tile_set_base = TileSet::base_addr(set);

        let place: u16 = match set {
            TileSet::Set1 => index as u16,
            TileSet::Set2 => (index as u16 + 128) % 256,
        };

        let tile_line_addr = tile_set_base + place * 16 + (y * 2) as u16;

        let b = if x_flip { x } else { 7 - x };

        let l = (self.vram.get(tile_line_addr) >> b) & 1;
        let h = (self.vram.get(tile_line_addr + 1) >> b) & 1;
        proof {
            lemma_index_bound(
                self@.vram[tile_line_addr as int],
                self@.vram[tile_line_addr + 1],
                b,
            );
        }

        h << 1 | l
    }

    /// Picks the sprites of the current line out of the attribute memory.
    fn oam_search(&self) -> (res: Vec<Sprite>)
        requires
            self.running(),
        ensures
            res@ == self@.line_sprites(40),
    {
        let mut res: Vec<Sprite> = Vec::with_capacity(10);
        let height = self.lcdc.sprite_size.lines();

        let mut i: usize = 0;
        while i < 40
            invariant
                i <= 40,
                self.running(),
                height == self@.lcdc.sprite_size.height(),
                res@ == self@.line_sprites(i as int),
                res@.len() <= 10,
            decreases 40 - i,
        {
            let sprite_offset = i * 4;
            let spritey = self.voam[sprite_offset];
            let spritex = self.voam[sprite_offset + 1];
            let tile = self.voam[sprite_offset + 2] & (if self.lcdc.sprite_size == SpriteSize::S8x16 {
                0xFEu8
            } else {
                0xFFu8
            });
            let flags = self.voam[sprite_offset + 3];
            let line = self.ly as u16 + 16;

            if res.len() < 10 && spritey as u16 <= line && line < spritey as u16 + height as u16 {
                let sprite = Sprite::new(spritex as i32, spritey as i32, tile, flags);

                res.push(sprite);
            }
            i += 1;
        }

        res
    }

    /// Colour of a pixel once the sprites of the line are drawn over the
    /// backdrop.
    fn get_sprite_color(&self, sprites: &Vec<Sprite>, x: u8, y: u8, under: u8, bg: u32) -> (c: u32)
        requires
            self.running(),
            y == self@.ly,
            y < 144,
            sprites@ == self@.line_sprites(40),
        ensures
            c == self@.overlaid(sprites@, sprites@.len() as int, x, under, bg),
    {
        let mut current_color = bg;
        let height = self.lcdc.sprite_size.lines();
        proof {
            lemma_line_sprites(self@, 40);
        }

        let mut i: usize = 0;
        while i < sprites.len()
            invariant
                i <= sprites@.len(),
                self.running(),
                y == self@.ly,
                y < 144,
                height == self@.lcdc.sprite_size.height(),
                sprites@ == self@.line_sprites(40),
                forall|k: int|
                    0 <= k < sprites@.len() ==> (#[trigger] sprites@[k]).on_line(
                        self@.ly,
                        self@.lcdc.sprite_size.height(),
                    ) && (self@.lcdc.sprite_size == SpriteSize::S8x16 ==> sprites@[k].tile % 2 == 0),
                current_color == self@.overlaid(sprites@, i as int, x, under, bg),
            decreases sprites@.len() - i,
        {
            let sprite = &sprites[i];
            i += 1;

            if (x as u16) < sprite.x as u16 && sprite.x as u16 <= x as u16 + 8 {
                let tile_x = (x as u16 + 8 - sprite.x as u16) as u8;
                let row = (y as u16 + 16 - sprite.y as u16) as u8;
                let tile_y = if sprite.y_flip { height - 1 - row } else { row };

                let palette = if sprite.palette == 0 { &self.obp0 } else { &self.obp1 };

                let color = self.get_tile_color(
                    &TileSet::Set1,
                    sprite.tile,
                    tile_x,
                    tile_y,
                    sprite.x_flip,
                );

                if color != 0 && !(sprite.bg_priority && under != 0) {
                    current_color = palette.to_rgb(color);
                }
            }
        }

        current_color
    }

    /// Enters a mode. Returns the interrupt bits raised by the entry.
    fn change_mode(&mut self, next: Mode) -> (intfs: u8)
        requires
            old(self).running(),
        ensures
            final(self).running(),
            final(self)@ == old(self)@.entered(next),
            intfs == old(self)@.entry_flags(next),
    {
        let ghost before = self@;
        self.mode = next;

        match next {
            Mode::OAMSearch => {
                assert(self@ == before.entered(next));
                if self.oam_inte {
                    crate::io::intf_raise(0, Flag::LCDStat)
                } else {
                    0
                }
            },
            Mode::HBlank => {
                self.render_line();
                assert(self@ == before.entered(next));
                if self.hblank_inte {
                    crate::io::intf_raise(0, Flag::LCDStat)
                } else {
                    0
                }
            },
            Mode::VBlank => {
                self.push_frame();
                assert(self@ == before.entered(next));

                let intfs = crate::io::intf_raise(0, Flag::VBlank);
                if self.vblank_inte {
                    crate::io::intf_raise(intfs, Flag::LCDStat)
                } else {
                    intfs
                }
            },
            Mode::Transfer => {
                assert(self@ == before.entered(next));
                0
            },
        }
    }

    /// Hands the picture to the display.
    fn push_frame(&mut self)
        requires
            old(self).running(),
        ensures
            final(self).running(),
            final(self)@ == (PpuModel {
                shown: old(self)@.shown.push(old(self)@.framebuffer),
                ..old(self)@
            }),
    {
        self.display.update(&self.framebuffer);
        self.shown = Ghost(self.shown@.push(self.framebuffer@));
    }

    /// Compares LY with LYC. Returns the interrupt bits that the comparison
    /// raises.
    fn check_lyc(&self) -> (intfs: u8)
        ensures
            intfs == self@.coincidence(),
    {
        if self.lyc_inte && self.ly == self.lyc {
            crate::io::intf_raise(0, Flag::LCDStat)
        } else {
            0
        }
    }

    fn get_lcdc(&self) -> (v: u8)
        ensures
            v == self@.lcdc.byte(),
    {
        self.lcdc.to_u8()
    }

    fn get_stat(&self) -> (v: u8)
        ensures
            v == self@.stat(),
    {
        (if self.lyc_inte { 0x40u8 } else { 0u8 }) | (if self.oam_inte { 0x20u8 } else { 0u8 }) | (
        if self.vblank_inte {
            0x10u8
        } else {
            0u8
        }) | (if self.hblank_inte { 0x08u8 } else { 0u8 }) | (if self.ly == self.lyc {
            0x04u8
        } else {
            0u8
        }) | self.mode.bits()
    }

    fn set_lcdc(&mut self, v: u8)
        requires
            old(self).inv(),
        ensures
            final(self).inv(),
            final(self)@ == (PpuModel { lcdc: Lcdc::of(v), ..old(self)@ }),
    {
        self.lcdc = Lcdc::from(v);
    }

    fn set_stat(&mut self, v: u8)
        requires
            old(self).inv(),
        ensures
            final(self).inv(),
            final(self)@ == old(self)@.with_stat(v),
    {
        self.lyc_inte = (v & 0x40) != 0;
        self.oam_inte = (v & 0x20) != 0;
        self.vblank_inte = (v & 0x10) != 0;
        self.hblank_inte = (v & 0x08) != 0;
    }
}

/// A line shows ten sprites at most. Each of them covers the line, and in the
/// tall size has an even tile number.
pub proof fn lemma_line_sprites(m: PpuModel, n: int)
    ensures
        m.line_sprites(n).len() <= 10,
        forall|k: int|
            0 <= k < m.line_sprites(n).len() ==> (#[trigger] m.line_sprites(n)[k]).on_line(
                m.ly,
                m.lcdc.sprite_size.height(),
            ) && (m.lcdc.sprite_size == SpriteSize::S8x16 ==> m.line_sprites(n)[k].tile % 2 == 0),
    decreases n,
{
    if n > 0 {
        lemma_line_sprites(m, n - 1);
        let t = m.oam[4 * (n - 1) + 2];
        assert((t & 0xFE) % 2 == 0) by (bit_vector);
    }
}

impl<D: Display> Memory for PPU<D> {
    open spec fn inv(&self) -> bool {
        PPU::inv(self)
    }

    open spec fn decodes(&self, addr: u16) -> bool {
        true
    }

    open spec fn peek(m: PpuModel, addr: u16) -> u8 {
        m.read(addr)
    }

    open spec fn poke(m: PpuModel, addr: u16, v: u8) -> PpuModel {
        m.written(addr, v)
    }

    fn read(&self, addr: u16) -> (r: u8) {
        match addr {
            0x8000..=0x9FFF => self.vram.get(addr - 0x8000),
            0xFE00..=0xFE9F => self.voam[addr as usize - 0xFE00],
            0xFF40 => self.get_lcdc(),
            0xFF41 => self.get_stat(),
            0xFF42 => self.scy,
            0xFF43 => self.scx,
            0xFF44 => self.ly,
            0xFF45 => self.lyc,
            0xFF47 => self.bgp.into(),
            0xFF48 => self.obp0.into(),
            0xFF49 => self.obp1.into(),
            0xFF4A => self.wy,
            0xFF4B => self.wx,
            _ => 0xFF,
        }
    }

    fn write(&mut self, addr: u16, v: u8) {
        match addr {
            0x8000..=0x9FFF => self.vram.set(addr - 0x8000, v),
            0xFE00..=0xFE9F => {
                self.voam[(addr - 0xFE00) as usize] = v
            },
            0xFF40 => self.set_lcdc(v),
            0xFF41 => self.set_stat(v),
            0xFF42 => self.scy = v,
            0xFF43 => self.scx = v,
            0xFF44 => {},
            0xFF45 => self.lyc = v,
            0xFF47 => {
                self.bgp = Palette::from(v);
            },
            0xFF48 => {
                self.obp0 = Palette::from(v);
            },
            0xFF49 => {
                self.obp1 = Palette::from(v);
            },
            0xFF4A => self.wy = v,
            0xFF4B => self.wx = v,
            _ => {},
        };
    }
}

} // verus!
