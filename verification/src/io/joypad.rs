//! The joypad: eight keys read through a two-row matrix.

use vstd::prelude::*;
use crate::io::Flag;

verus! {

#[derive(Clone, Copy, Debug, PartialEq, Eq, Structural)]
pub enum JoypadKey {
    Up,
    Down,
    Left,
    Right,
    A,
    B,
    Start,
    Select,
}

impl JoypadKey {
    /// Position of the key in the joypad's state.
    pub open spec fn position(self) -> int {
        match self {
            JoypadKey::Up => 0,
            JoypadKey::Down => 1,
            JoypadKey::Left => 2,
            JoypadKey::Right => 3,
            JoypadKey::A => 4,
            JoypadKey::B => 5,
            JoypadKey::Start => 6,
            JoypadKey::Select => 7,
        }
    }

    /// Position of the key in the joypad's state.
    pub fn index(self) -> (i: usize)
        ensures
            i == self.position(),
            i < 8,
    {
        match self {
            JoypadKey::Up => 0,
            JoypadKey::Down => 1,
            JoypadKey::Left => 2,
            JoypadKey::Right => 3,
            JoypadKey::A => 4,
            JoypadKey::B => 5,
            JoypadKey::Start => 6,
            JoypadKey::Select => 7,
        }
    }
}

/// The row of the matrix that the program has selected.
#[derive(Clone, Copy, Debug, PartialEq, Eq, Structural)]
pub enum Mode {
    Buttons,
    Directions,
    Invalid,
}

impl Mode {
    /// The row that a byte written to the joypad register selects: a clear
    /// bit 4 the directions, else a clear bit 5 the buttons, else none.
    pub open spec fn selected(v: u8) -> Mode {
        if v & 0x10 == 0 {
            Mode::Directions
        } else if v & 0x20 == 0 {
            Mode::Buttons
        } else {
            Mode::Invalid
        }
    }
}

/// Four keys as the low nibble of the register: a pressed key reads as a
/// clear bit.
pub open spec fn row(k0: bool, k1: bool, k2: bool, k3: bool) -> u8 {
    !((if k0 { 0x01u8 } else { 0u8 }) | (if k1 { 0x02u8 } else { 0u8 }) | (if k2 {
        0x04u8
    } else {
        0u8
    }) | (if k3 { 0x08u8 } else { 0u8 })) & 0x0F
}

/// The joypad as a mathematical value.
pub struct JoypadModel {
    /// Whether each key is held down, by its position.
    pub keys: Seq<bool>,
    pub mode: Mode,
    /// The interrupt bits latched since the last step.
    pub intfs: u8,
}

impl JoypadModel {
    pub open spec fn wf(self) -> bool {
        self.keys.len() == 8
    }

    /// No key held, the buttons selected, nothing latched.
    pub open spec fn initial() -> JoypadModel {
        JoypadModel { keys: Seq::new(8, |i: int| false), mode: Mode::Buttons, intfs: 0 }
    }

    pub open spec fn held(self, key: JoypadKey) -> bool {
        self.keys[key.position()]
    }

    /// The directions' row: right, left, up, down in bits 0 to 3.
    pub open spec fn directions(self) -> u8 {
        row(
            self.held(JoypadKey::Right),
            self.held(JoypadKey::Left),
            self.held(JoypadKey::Up),
            self.held(JoypadKey::Down),
        )
    }

    /// The buttons' row: A, B, select, start in bits 0 to 3.
    pub open spec fn buttons(self) -> u8 {
        row(
            self.held(JoypadKey::A),
            self.held(JoypadKey::B),
            self.held(JoypadKey::Select),
            self.held(JoypadKey::Start),
        )
    }

    /// The register as it reads: the selected row in the low nibble, the bit
    /// of the selected row clear and that of the other row set in the high
    /// nibble; all ones where no row is selected.
    pub open spec fn register(self) -> u8 {
        match self.mode {
            Mode::Directions => self.directions() | 0x20,
            Mode::Buttons => self.buttons() | 0x10,
            Mode::Invalid => 0xFF,
        }
    }

    /// The joypad after a key changes to `down`. A change latches the
    /// joypad's interrupt; a key that is already in that state changes
    /// nothing.
    pub open spec fn with_key(self, key: JoypadKey, down: bool) -> JoypadModel {
        if self.held(key) == down {
            self
        } else {
            JoypadModel {
                keys: self.keys.update(key.position(), down),
                intfs: Flag::Joypad.mask(),
                ..self
            }
        }
    }
}

pub struct Joypad {
    mode: Mode,
    intfs: u8,
    keys: [bool; 8],
}

impl View for Joypad {
    type V = JoypadModel;

    closed spec fn view(&self) -> JoypadModel {
        JoypadModel { keys: self.keys@, mode: self.mode, intfs: self.intfs }
    }
}

/// What the host tells the joypad.
pub trait JoypadAdapter {
/// The key went down.
    fn pressed(&mut self, key: JoypadKey);

/// The key went up.
    fn released(&mut self, key: JoypadKey);
}

impl Joypad {
    /// The joypad with no key held.
    pub fn new() -> (j: Self)
        ensures
            j@ == JoypadModel::initial(),
    {
        let j = Self { intfs: 0, mode: Mode::Buttons, keys: [false; 8] };
        assert(j.keys@ =~= Seq::new(8, |i: int| false));
        j
    }

    /// Hands over the interrupt bits latched since the last step.
    pub fn step(&mut self) -> (intfs: u8)
        ensures
            intfs == old(self)@.intfs,
            final(self)@ == (JoypadModel { intfs: 0, ..old(self)@ }),
    {
        let intfs = self.intfs;
        self.intfs = 0;
        intfs
    }

    /// A write to the register selects a row.
    pub fn write(&mut self, v: u8)
        ensures
            final(self)@ == (JoypadModel { mode: Mode::selected(v), ..old(self)@ }),
    {
        self.mode = if v & 0x10 == 0 {
            Mode::Directions
        } else if v & 0x20 == 0 {
            Mode::Buttons
        } else {
            Mode::Invalid
        };
    }

    /// The register as it reads.
    pub fn read(&self) -> (v: u8)
        ensures
            v == self@.register(),
    {
        match self.mode {
            Mode::Directions => self.get_directions() | 0x20,
            Mode::Buttons => self.get_buttons() | 0x10,
            _ => 0xFF,
        }
    }

    fn get_directions(&self) -> (v: u8)
        ensures
            v == self@.directions(),
    {
        !((if self.keys[JoypadKey::Right.index()] { 0x01u8 } else { 0u8 })
            | (if self.keys[JoypadKey::Left.index()] { 0x02u8 } else { 0u8 })
            | (if self.keys[JoypadKey::Up.index()] { 0x04u8 } else { 0u8 })
            | (if self.keys[JoypadKey::Down.index()] { 0x08u8 } else { 0u8 })) & 0x0F
    }

    fn get_buttons(&self) -> (v: u8)
        ensures
            v == self@.buttons(),
    {
        !((if self.keys[JoypadKey::A.index()] { 0x01u8 } else { 0u8 })
            | (if self.keys[JoypadKey::B.index()] { 0x02u8 } else { 0u8 })
            | (if self.keys[JoypadKey::Select.index()] { 0x04u8 } else { 0u8 })
            | (if self.keys[JoypadKey::Start.index()] { 0x08u8 } else { 0u8 })) & 0x0F
    }
}

impl JoypadAdapter for Joypad {
    fn pressed(&mut self, key: JoypadKey)
        ensures
            final(self)@ == old(self)@.with_key(key, true),
    {
        if self.keys[key.index()] == false {
            self.keys[key.index()] = true;
            self.intfs = crate::io::intf_raise(0, Flag::Joypad);
        }
    }

    fn released(&mut self, key: JoypadKey)
        ensures
            final(self)@ == old(self)@.with_key(key, false),
    {
        if self.keys[key.index()] == true {
            self.keys[key.index()] = false;
            self.intfs = crate::io::intf_raise(0, Flag::Joypad);
        }
    }
}

/// In a row, each key is read in its own bit, which is clear exactly when the
/// key is held; the four high bits of the row are clear.
pub proof fn lemma_row_bits(k0: bool, k1: bool, k2: bool, k3: bool)
    ensures
        (row(k0, k1, k2, k3) & 0x01 == 0) == k0,
        (row(k0, k1, k2, k3) & 0x02 == 0) == k1,
        (row(k0, k1, k2, k3) & 0x04 == 0) == k2,
        (row(k0, k1, k2, k3) & 0x08 == 0) == k3,
        row(k0, k1, k2, k3) & 0xF0 == 0,
{
    assert({
        let r = !((if k0 { 0x01u8 } else { 0u8 }) | (if k1 { 0x02u8 } else { 0u8 }) | (if k2 {
            0x04u8
        } else {
            0u8
        }) | (if k3 { 0x08u8 } else { 0u8 })) & 0x0F;
        &&& (r & 0x01 == 0) == k0
        &&& (r & 0x02 == 0) == k1
        &&& (r & 0x04 == 0) == k2
        &&& (r & 0x08 == 0) == k3
        &&& r & 0xF0 == 0
    }) by (bit_vector);
}

} // verus!
