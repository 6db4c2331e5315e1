//! The bus router: every access of the processor is decoded here and handed
//! to the device that owns the address.

use vstd::prelude::*;
use crate::cartridge::{Cartridge, CartridgeModel};
use crate::io::joypad::{Joypad, JoypadModel};
use crate::io::timer::{Timer, TimerModel};
use crate::io::Flag;
use crate::memory::{Memory, Ram};
use crate::ppu::{PpuModel, PPU};
use crate::Display;

verus! {

/// Size of the work RAM.
pub const WRAM_SIZE: usize = 0x2000;

/// Size of the high RAM.
pub const ZRAM_SIZE: usize = 0x7F;

/// The copy engine of the attribute memory, as a mathematical value.
pub struct DmaModel {
    pub active: bool,
    /// Address of the first byte of the page that is copied.
    pub from: u16,
    /// Number of bytes copied so far.
    pub index: u16,
}

impl DmaModel {
    /// The source is the start of a page and the progress within the 160
    /// bytes of the attribute memory.
    pub open spec fn wf(self) -> bool {
        self.from % 256 == 0 && self.index <= 0xA0
    }

    pub open spec fn idle() -> DmaModel {
        DmaModel { active: false, from: 0, index: 0 }
    }

    /// The engine at the start of a copy of the page `page`.
    pub open spec fn started(page: u8) -> DmaModel {
        DmaModel { active: true, from: (page * 256) as u16, index: 0 }
    }

    /// Number of bytes that the engine copies in `ticks` clock ticks: one for
    /// each machine cycle, until the 160 bytes are done.
    pub open spec fn quota(self, ticks: nat) -> nat {
        if !self.active {
            0
        } else if 0xA0 - self.index > ticks / 4 {
            ticks / 4
        } else {
            (0xA0 - self.index) as nat
        }
    }
}

/// The copy engine of the attribute memory.
pub struct OAMDma {
    active: bool,
    from: u16,
    index: u16,
}

impl View for OAMDma {
    type V = DmaModel;

    closed spec fn view(&self) -> DmaModel {
        DmaModel { active: self.active, from: self.from, index: self.index }
    }
}

impl OAMDma {
    pub fn new() -> (dma: Self)
        ensures
            dma@ == DmaModel::idle(),
    {
        Self { active: false, from: 0, index: 0 }
    }

    /// Starts a copy of the page whose high address byte is `from`.
    pub fn start(&mut self, from: u8)
        ensures
            final(self)@ == DmaModel::started(from),
    {
        self.active = true;
        self.index = 0;
        self.from = (from as u16) * 256;
    }
}

/// The bus and the devices on it, as a mathematical value.
pub struct MmuModel {
    /// The interrupt flags IF, as written.
    pub intfs: u8,
    /// The interrupt enables IE.
    pub inte: u8,
    /// Whether the boot program overlays the start of the cartridge.
    pub bootrom: bool,
    pub cartridge: CartridgeModel,
    pub timer: TimerModel,
    pub joypad: JoypadModel,
    pub ppu: PpuModel,
    pub wram: Seq<u8>,
    pub zram: Seq<u8>,
    /// The serial data register.
    pub sb: u8,
    /// The bytes sent over the serial line and not yet taken by the host.
    pub serial: Seq<u8>,
    pub oam_dma: DmaModel,
}

impl MmuModel {
    pub open spec fn wf(self) -> bool {
        &&& self.cartridge.wf()
        &&& self.timer.wf()
        &&& self.ppu.wf()
        &&& self.wram.len() == 0x2000
        &&& self.zram.len() == 0x7F
        &&& self.oam_dma.wf()
    }

    /// The bus at power-on with a cartridge inserted.
    pub open spec fn initial(cartridge: CartridgeModel, bootrom: bool) -> MmuModel {
        MmuModel {
            intfs: 0,
            inte: 0,
            bootrom,
            cartridge,
            timer: TimerModel::initial(),
            joypad: JoypadModel::initial(),
            ppu: PpuModel::initial(),
            wram: crate::memory::zeros(0x2000),
            zram: crate::memory::zeros(0x7F),
            sb: 0,
            serial: Seq::empty(),
            oam_dma: DmaModel::idle(),
        }
    }

    /// Offset in work RAM of an address in 0xC000 to 0xFDFF. The 8 KiB of
    /// work RAM show at 0xC000 and again, as an echo, at 0xE000.
    pub open spec fn wram_offset(addr: u16) -> int {
        (addr - 0xC000) % 0x2000
    }

    /// The byte read from the page of I/O registers, or from IE.
    pub open spec fn io_read(self, addr: u16) -> u8 {
        if addr == 0xFF00 {
            self.joypad.register()
        } else if addr == 0xFF01 || addr == 0xFF02 {
            0xFF
        } else if addr == 0xFF04 {
            self.timer.div
        } else if addr == 0xFF05 {
            self.timer.tima
        } else if addr == 0xFF06 {
            self.timer.tma
        } else if addr == 0xFF07 {
            self.timer.tac()
        } else if addr == 0xFF0F {
            self.intfs | 0xE0
        } else if 0xFF10 <= addr <= 0xFF3F {
            0
        } else if 0xFF40 <= addr <= 0xFF4F {
            self.ppu.read(addr)
        } else if addr == 0xFF50 {
            if self.bootrom {
                1
            } else {
                0
            }
        } else if 0xFF68 <= addr <= 0xFF6B {
            self.ppu.read(addr)
        } else if addr == 0xFFFF {
            self.inte
        } else {
            0xFF
        }
    }

    /// The byte read at `addr`.
    pub open spec fn read(self, addr: u16) -> u8 {
        if addr < 0x0100 && self.bootrom {
            crate::memory::bootrom::overlay(addr as u8)
        } else if addr <= 0x7FFF {
            self.cartridge.read(addr)
        } else if addr <= 0x9FFF {
            self.ppu.read(addr)
        } else if addr <= 0xBFFF {
            self.cartridge.read(addr)
        } else if addr <= 0xFDFF {
            self.wram[Self::wram_offset(addr)]
        } else if addr <= 0xFE9F {
            self.ppu.read(addr)
        } else if addr <= 0xFEFF {
            0xFF
        } else if addr <= 0xFF7F {
            self.io_read(addr)
        } else if addr <= 0xFFFE {
            self.zram[addr - 0xFF80]
        } else {
            self.io_read(addr)
        }
    }

    /// The bus after `v` is written to the page of I/O registers, or to IE.
    pub open spec fn io_written(self, addr: u16, v: u8) -> MmuModel {
        if addr == 0xFF00 {
            MmuModel {
                joypad: JoypadModel { mode: crate::io::joypad::Mode::selected(v), ..self.joypad },
                ..self
            }
        } else if addr == 0xFF01 {
            MmuModel { sb: v, ..self }
        } else if addr == 0xFF02 {
            if v == 0x81 {
                MmuModel { serial: self.serial.push(self.sb), ..self }
            } else {
                self
            }
        } else if addr == 0xFF04 {
            MmuModel { timer: TimerModel { div: 0, ..self.timer }, ..self }
        } else if addr == 0xFF05 {
            MmuModel { timer: TimerModel { tima: v, ..self.timer }, ..self }
        } else if addr == 0xFF06 {
            MmuModel { timer: TimerModel { tma: v, ..self.timer }, ..self }
        } else if addr == 0xFF07 {
            MmuModel { timer: self.timer.with_tac(v), ..self }
        } else if addr == 0xFF0F {
            MmuModel { intfs: v, ..self }
        } else if addr == 0xFF46 {
            MmuModel { oam_dma: DmaModel::started(v), ..self }
        } else if 0xFF40 <= addr <= 0xFF4F {
            MmuModel { ppu: self.ppu.written(addr, v), ..self }
        } else if addr == 0xFF50 {
            if v & 1 == 1 {
                MmuModel { bootrom: false, ..self }
            } else {
                self
            }
        } else if 0xFF68 <= addr <= 0xFF6B {
            MmuModel { ppu: self.ppu.written(addr, v), ..self }
        } else if addr == 0xFFFF {
            MmuModel { inte: v, ..self }
        } else {
            self
        }
    }

    /// The bus after `v` is written at `addr`.
    pub open spec fn written(self, addr: u16, v: u8) -> MmuModel {
        if addr <= 0x7FFF {
            MmuModel { cartridge: self.cartridge.written(addr, v), ..self }
        } else if addr <= 0x9FFF {
            MmuModel { ppu: self.ppu.written(addr, v), ..self }
        } else if addr <= 0xBFFF {
            MmuModel { cartridge: self.cartridge.written(addr, v), ..self }
        } else if addr <= 0xFDFF {
            MmuModel { wram: self.wram.update(Self::wram_offset(addr), v), ..self }
        } else if addr <= 0xFE9F {
            MmuModel { ppu: self.ppu.written(addr, v), ..self }
        } else if addr <= 0xFEFF {
            self
        } else if addr <= 0xFF7F {
            self.io_written(addr, v)
        } else if addr <= 0xFFFE {
            MmuModel { zram: self.zram.update(addr - 0xFF80, v), ..self }
        } else {
            self.io_written(addr, v)
        }
    }

    /// The attribute memory after the copy engine has run for `ticks` clock
    /// ticks: the bytes of its quota are those read from the source page.
    pub open spec fn dma_oam(self, ticks: nat) -> Seq<u8> {
        let d = self.oam_dma;
        Seq::new(
            0xA0,
            |k: int|
                if d.index <= k < d.index + d.quota(ticks) {
                    self.read((d.from + k) as u16)
                } else {
                    self.ppu.oam[k]
                },
        )
    }

    /// The bus after the copy engine has run for `ticks` clock ticks. The
    /// engine stops when the 160 bytes are copied.
    pub open spec fn dma_advanced(self, ticks: nat) -> MmuModel {
        let d = self.oam_dma;
        if d.active {
            MmuModel {
                ppu: PpuModel { oam: self.dma_oam(ticks), ..self.ppu },
                oam_dma: DmaModel {
                    index: (d.index + d.quota(ticks)) as u16,
                    active: d.index + d.quota(ticks) != 0xA0,
                    ..d
                },
                ..self
            }
        } else {
            self
        }
    }

    /// The bus after `ticks` clock ticks: the copy engine, the timer, the
    /// pixel unit and the joypad have moved on, the interrupts that they
    /// raised are added to IF, whose three high bits are set, and the
    /// pictures that the pixel unit completed have gone to the display.
    pub open spec fn stepped(self, ticks: nat) -> MmuModel {
        let m = self.dma_advanced(ticks);
        let timer_bits: u8 = if m.timer.overflows(ticks) {
            Flag::Timer.mask()
        } else {
            0
        };
        MmuModel {
            intfs: (((m.intfs | timer_bits) | m.ppu.advanced(ticks).intf) | m.joypad.intfs) | 0xE0,
            timer: m.timer.advanced(ticks),
            ppu: m.ppu.advanced(ticks).ppu,
            joypad: JoypadModel { intfs: 0, ..m.joypad },
            ..m
        }
    }
}

pub struct MMU<D: Display> {
    intfs: u8,
    inte: u8,
    bootrom: bool,
    cartridge: Cartridge,
    timer: Timer,
    joypad: Joypad,
    ppu: PPU<D>,
    wram: Ram,
    zram: Ram,
    sb: u8,
    serial: Vec<u8>,
    oam_dma: OAMDma,
}

impl<D: Display> View for MMU<D> {
    type V = MmuModel;

    closed spec fn view(&self) -> MmuModel {
        MmuModel {
            intfs: self.intfs,
            inte: self.inte,
            bootrom: self.bootrom,
            cartridge: self.cartridge@,
            timer: self.timer@,
            joypad: self.joypad@,
            ppu: self.ppu@,
            wram: self.wram@,
            zram: self.zram@,
            sb: self.sb,
            serial: self.serial@,
            oam_dma: self.oam_dma@,
        }
    }
}

impl<D: Display> MMU<D> {
    /// What the representation keeps true: each device keeps its own
    /// invariant, and the two RAMs have their sizes.
    pub closed spec fn sound(&self) -> bool {
        &&& self.cartridge.inv()
        &&& self.timer.inv()
        &&& self.ppu.inv()
        &&& self.wram@.len() == 0x2000
        &&& self.zram@.len() == 0x7F
        &&& self.oam_dma@.wf()
    }

    /// The invariant makes the model well formed.
    pub proof fn lemma_sound(&self)
        requires
            self.sound(),
        ensures
            self@.wf(),
    {
        self.timer.lemma_inv();
        self.ppu.lemma_inv();
    }

    /// The bus at power-on with a cartridge inserted. With `bootrom` the boot
    /// program overlays the start of the cartridge.
    pub fn new(cartridge: Cartridge, display: D, bootrom: bool) -> (mmu: Self)
        requires
            cartridge.inv(),
        ensures
            mmu.sound(),
            mmu@ == MmuModel::initial(cartridge@, bootrom),
    {
        Self {
            intfs: 0,
            inte: 0,
            bootrom,
            cartridge,
            joypad: Joypad::new(),
            timer: Timer::new(),
            ppu: PPU::new(display),
            wram: Ram::new(WRAM_SIZE),
            zram: Ram::new(ZRAM_SIZE),
            sb: 0,
            serial: Vec::new(),
            oam_dma: OAMDma::new(),
        }
    }

    /// Advances every device on the bus by `ticks` clock ticks and collects
    /// the interrupts that they raise.
    pub fn step(&mut self, ticks: u32)
        requires
            old(self).sound(),
        ensures
            final(self).sound(),
            final(self)@ == old(self)@.stepped(ticks as nat),
    {
        self.handle_oam_dma(ticks);

        self.intfs |= self.timer.step(ticks);
        self.intfs |= self.ppu.step(ticks);
        self.intfs |= self.joypad.step();

        self.intfs |= 0xE0;
    }

    /// The joypad, for the host to tell it which keys are held.
    pub fn get_joypad_adapter(&mut self) -> (joypad: &mut Joypad)
        ensures
            joypad@ == old(self)@.joypad,
            final(self)@ == (MmuModel { joypad: final(joypad)@, ..old(self)@ }),
            final(self).sound() == old(self).sound(),
    {
        &mut self.joypad
    }

    /// Hands over the bytes sent over the serial line since the last call.
    pub fn take_serial(&mut self) -> (out: Vec<u8>)
        ensures
            out@ == old(self)@.serial,
            final(self)@ == (MmuModel { serial: Seq::empty(), ..old(self)@ }),
            final(self).sound() == old(self).sound(),
    {
        let mut out: Vec<u8> = Vec::new();
        std::mem::swap(&mut out, &mut self.serial);
        out
    }

    /// Copies the bytes that the copy engine is due in `ticks` clock ticks
    /// from the source page into the attribute memory.
    fn handle_oam_dma(&mut self, ticks: u32)
        requires
            old(self).sound(),
        ensures
            final(self).sound(),
            final(self)@ == old(self)@.dma_advanced(ticks as nat),
    {
        if !self.oam_dma.active {
            return ;
        }
        let cycles = ticks / 4;
        let left = (0xA0 - self.oam_dma.index) as u32;

        let count: u16 = if left > cycles { cycles as u16 } else { left as u16 };
        let from = self.oam_dma.from;
        let index = self.oam_dma.index;
        let ghost before = self@;
        proof {
            self.ppu.lemma_inv();
        }

        let mut i: u16 = 0;
        while i < count
            invariant
                i <= count,
                index + count <= 0xA0,
                from % 256 == 0,
                before.ppu.oam.len() == 0xA0,
                self.sound(),
                self@ == (MmuModel { ppu: PpuModel { oam: self@.ppu.oam, ..before.ppu }, ..before }),
                self@.ppu.oam.len() == 0xA0,
                forall|k: int|
                    0 <= k < 0xA0 ==> self@.ppu.oam[k] == if index <= k < index + i {
                        before.read((from + k) as u16)
                    } else {
                        before.ppu.oam[k]
                    },
            decreases count - i,
        {
            let v = self.route_read(from + index + i);
            self.ppu.write(0xFE00 + index + i, v);
            i += 1;
        }
        self.oam_dma.index += count;

        if self.oam_dma.index == 0xA0 {
            self.oam_dma.active = false;
        }
        assert(self@.ppu.oam =~= before.dma_oam(ticks as nat));
    }

    /// Reads from the page of I/O registers, or IE.
    fn io_read(&self, addr: u16) -> (r: u8)
        requires
            self.sound(),
        ensures
            r == self@.io_read(addr),
    {
        match addr {
            0xFF00 => self.joypad.read(),
            0xFF01..=0xFF02 => 0xFF,
            0xFF04 => self.timer.get_div(),
            0xFF05 => self.timer.get_tima(),
            0xFF06 => self.timer.get_tma(),
            0xFF07 => self.timer.get_tac(),
            0xFF0F => self.intfs | 0xE0,
            0xFF10..=0xFF3F => 0,
            0xFF40..=0xFF4F => self.ppu.read(addr),
            0xFF50 => {
                if self.bootrom {
                    1
                } else {
                    0
                }
            },
            0xFF68..=0xFF6B => self.ppu.read(addr),
            0xFFFF => self.inte,
            _ => 0xFF,
        }
    }

    /// Writes to the page of I/O registers, or IE.
    fn io_write(&mut self, addr: u16, v: u8)
        requires
            old(self).sound(),
        ensures
            final(self).sound(),
            final(self)@ == old(self)@.io_written(addr, v),
    {
        match addr {
            0xFF00 => self.joypad.write(v),
            0xFF01 => {
                self.sb = v;
            },
            0xFF02 => {
                if v == 0x81 {
                    self.serial.push(self.sb);
                }
            },
            0xFF04 => self.timer.set_div(v),
            0xFF05 => self.timer.set_tima(v),
            0xFF06 => self.timer.set_tma(v),
            0xFF07 => self.timer.set_tac(v),
            0xFF0F => {
                self.intfs = v;
            },
            0xFF10..=0xFF3F => {},
            0xFF46 => self.oam_dma.start(v),
            0xFF40..=0xFF4F => self.ppu.write(addr, v),
            0xFF50 => {
                if (v & 1) == 1 {
                    self.bootrom = false
                }
            },
            0xFF68..=0xFF6B => self.ppu.write(addr, v),
            0xFFFF => self.inte = v,
            _ => {},
        }
    }
}

impl<D: Display> MMU<D> {
    /// Reads the byte at `addr` from the device that owns the address.
    fn route_read(&self, addr: u16) -> (r: u8)
        requires
            self.sound(),
        ensures
            r == self@.read(addr),
    {
        match addr {
            0x0000..=0x7FFF => {
                if self.bootrom && addr < 0x100 {
                    crate::memory::bootrom::byte(addr as u8)
                } else {
                    self.cartridge.read(addr)
                }
            },
            0x8000..=0x9FFF => self.ppu.read(addr),
            0xA000..=0xBFFF => self.cartridge.read(addr),
            0xC000..=0xFDFF => self.wram.get((addr - 0xC000) % 0x2000),
            0xFE00..=0xFE9F => self.ppu.read(addr),
            0xFEA0..=0xFEFF => 0xFF,
            0xFF00..=0xFF7F => self.io_read(addr),
            0xFF80..=0xFFFE => self.zram.get(addr - 0xFF80),
            0xFFFF => self.io_read(addr),
        }
    }

    /// Writes `v` at `addr` to the device that owns the address.
    fn route_write(&mut self, addr: u16, v: u8)
        requires
            old(self).sound(),
        ensures
            final(self).sound(),
            final(self)@ == old(self)@.written(addr, v),
    {
        match addr {
            0x0000..=0x7FFF => self.cartridge.write(addr, v),
            0x8000..=0x9FFF => self.ppu.write(addr, v),
            0xA000..=0xBFFF => self.cartridge.write(addr, v),
            0xC000..=0xFDFF => self.wram.set((addr - 0xC000) % 0x2000, v),
            0xFE00..=0xFE9F => self.ppu.write(addr, v),
            0xFEA0..=0xFEFF => {},
            0xFF00..=0xFF7F => self.io_write(addr, v),
            0xFF80..=0xFFFE => self.zram.set(addr - 0xFF80, v),
            0xFFFF => self.io_write(addr, v),
        };
    }
}

impl<D: Display> Memory for MMU<D> {
    open spec fn inv(&self) -> bool {
        self.sound()
    }

    open spec fn decodes(&self, addr: u16) -> bool {
        true
    }

    open spec fn peek(m: MmuModel, addr: u16) -> u8 {
        m.read(addr)
    }

    open spec fn poke(m: MmuModel, addr: u16, v: u8) -> MmuModel {
        m.written(addr, v)
    }

    fn read(&self, addr: u16) -> (r: u8) {
        self.route_read(addr)
    }

    fn write(&mut self, addr: u16, v: u8) {
        self.route_write(addr, v)
    }
}

/// A byte written to work RAM or its echo, to high RAM, to video memory or to
/// the attribute memory is the byte read back there. A byte written to IF is
/// read back with the three high bits set.
pub proof fn lemma_write_then_read(m: MmuModel, addr: u16, v: u8)
    requires
        m.wf(),
    ensures
        0xC000 <= addr <= 0xFDFF ==> m.written(addr, v).read(addr) == v,
        0xFF80 <= addr <= 0xFFFE ==> m.written(addr, v).read(addr) == v,
        0x8000 <= addr <= 0x9FFF ==> m.written(addr, v).read(addr) == v,
        0xFE00 <= addr <= 0xFE9F ==> m.written(addr, v).read(addr) == v,
        m.written(0xFF0F, v).read(0xFF0F) == v | 0xE0,
{
}

/// Work RAM shows twice: a byte written at an address of 0xC000 to 0xDDFF is
/// read at the address 0x2000 above it, and the other way round.
pub proof fn lemma_echo(m: MmuModel, addr: u16, v: u8)
    requires
        m.wf(),
        0xC000 <= addr <= 0xDDFF,
    ensures
        m.written(addr, v).read((addr + 0x2000) as u16) == v,
        m.written((addr + 0x2000) as u16, v).read(addr) == v,
{
}

/// While the overlay is on, the first 256 addresses read the boot program;
/// once it is off they read the cartridge. The overlay goes off exactly when a
/// byte with bit 0 set is written to 0xFF50, and nothing switches it on again.
pub proof fn lemma_boot_overlay(m: MmuModel, a: u16, addr: u16, v: u8, ticks: nat)
    requires
        a < 0x0100,
    ensures
        m.bootrom ==> m.read(a) == crate::memory::bootrom::overlay(a as u8),
        !m.bootrom ==> m.read(a) == m.cartridge.read(a),
        m.written(addr, v).bootrom == (m.bootrom && !(addr == 0xFF50 && v & 1 == 1)),
        m.stepped(ticks).bootrom == m.bootrom,
        addr == 0xFF50 && v & 1 == 1 ==> m.written(addr, v).read(a) == m.cartridge.read(a),
{
}

/// A copy of a page into the attribute memory is complete after 160 machine
/// cycles: the attribute memory then holds the 160 bytes that the bus reads
/// at the start of the page, and the engine has stopped.
pub proof fn lemma_dma_completes(m: MmuModel, page: u8, ticks: nat)
    requires
        m.wf(),
        ticks >= 640,
    ensures
        !m.written(0xFF46, page).dma_advanced(ticks).oam_dma.active,
        forall|k: int|
            0 <= k < 0xA0 ==> #[trigger] m.written(0xFF46, page).dma_advanced(ticks).ppu.oam[k]
                == m.written(0xFF46, page).read((page * 256 + k) as u16),
{
}

} // verus!
