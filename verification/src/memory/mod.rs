//! The bus as the processor sees it, and plain byte storage.

use vstd::prelude::*;

verus! {

/// A device on a 16-bit address bus.
///
/// The view of a device is its mathematical state. `peek` says which byte a
/// read returns in a state and `poke` which state a write leads to; the two
/// executable accessors are held to them.
pub trait Memory: View {
    /// What the executable representation keeps true of itself.
    spec fn inv(&self) -> bool;

    /// Whether the device answers at `addr`.
    spec fn decodes(&self, addr: u16) -> bool;

    /// The byte read at `addr` in state `m`.
    spec fn peek(m: Self::V, addr: u16) -> u8;

    /// The state after `v` is written at `addr` in state `m`.
    spec fn poke(m: Self::V, addr: u16, v: u8) -> Self::V;

/// Reads the byte at `addr`.
    fn read(&self, addr: u16) -> (r: u8)
        requires
            self.inv(),
            self.decodes(addr),
        ensures
            r == Self::peek(self@, addr),
    ;

/// Writes `v` at `addr`.
    fn write(&mut self, addr: u16, v: u8)
        requires
            old(self).inv(),
            old(self).decodes(addr),
        ensures
            final(self).inv(),
            final(self)@ == Self::poke(old(self)@, addr, v),
            forall|a: u16| final(self).decodes(a) == old(self).decodes(a),
    ;

    /// Reads a little-endian word: the low byte at `addr`, the high byte at the
    /// address after it, which wraps at the end of the address space.
    fn read_word(&self, addr: u16) -> (r: u16)
        requires
            self.inv(),
            self.decodes(addr),
            self.decodes(addr.wrapping_add(1)),
        ensures
            r == crate::bits::pair(
                Self::peek(self@, addr.wrapping_add(1)),
                Self::peek(self@, addr),
            ),
    {
        let l = self.read(addr);
        let h = self.read(addr.wrapping_add(1));

        (h as u16) << 8 | (l as u16)
    }

    /// Writes a little-endian word: the low byte first, then the high byte.
    fn write_word(&mut self, addr: u16, v: u16)
        requires
            old(self).inv(),
            old(self).decodes(addr),
            old(self).decodes(addr.wrapping_add(1)),
        ensures
            final(self).inv(),
            final(self)@ == Self::poke(
                Self::poke(old(self)@, addr, crate::bits::low(v)),
                addr.wrapping_add(1),
                crate::bits::high(v),
            ),
            forall|a: u16| final(self).decodes(a) == old(self).decodes(a),
    {
        let h = (v >> 8) as u8;
        let l = (v & 0xFF) as u8;

        self.write(addr, l);
        self.write(addr.wrapping_add(1), h);
    }
}

/// The little-endian word read at `addr` in state `m`.
pub open spec fn peek_word<M: Memory>(m: M::V, addr: u16) -> u16 {
    crate::bits::pair(M::peek(m, addr.wrapping_add(1)), M::peek(m, addr))
}

/// The state after the little-endian word `v` is written at `addr`.
pub open spec fn poke_word<M: Memory>(m: M::V, addr: u16, v: u16) -> M::V {
    M::poke(M::poke(m, addr, crate::bits::low(v)), addr.wrapping_add(1), crate::bits::high(v))
}

/// Byte storage of a fixed size, addressed from zero.
pub struct Ram {
    data: Vec<u8>,
}

impl View for Ram {
    type V = Seq<u8>;

    closed spec fn view(&self) -> Seq<u8> {
        self.data@
    }
}

/// A sequence of `size` zero bytes.
pub open spec fn zeros(size: nat) -> Seq<u8> {
    Seq::new(size, |i: int| 0u8)
}

/// A vector of `size` zero bytes.
pub fn zeroed(size: usize) -> (data: Vec<u8>)
    ensures
        data@ == zeros(size as nat),
{
    let mut data: Vec<u8> = Vec::with_capacity(size);
    let mut i: usize = 0;
    while i < size
        invariant
            i <= size,
            data@ == zeros(i as nat),
        decreases size - i,
    {
        data.push(0);
        i += 1;
    }
    data
}

/// The byte at offset `i` of a memory image, or 0xFF where the image does not
/// reach that far.
pub open spec fn byte_at(image: Seq<u8>, i: int) -> u8 {
    if 0 <= i < image.len() {
        image[i]
    } else {
        0xFF
    }
}

impl Ram {
    /// Storage of `size` bytes, all zero.
    pub fn new(size: usize) -> (ram: Self)
        ensures
            ram@ == zeros(size as nat),
    {
        Self { data: zeroed(size) }
    }

    /// The byte at offset `at`.
    pub fn get(&self, at: u16) -> (r: u8)
        requires
            at < self@.len(),
        ensures
            r == self@[at as int],
    {
        self.data[at as usize]
    }

    /// Puts `v` at offset `at`.
    pub fn set(&mut self, at: u16, v: u8)
        requires
            at < old(self)@.len(),
        ensures
            final(self)@ == old(self)@.update(at as int, v),
    {
        self.data[at as usize] = v
    }
}

impl Memory for Ram {
    open spec fn inv(&self) -> bool {
        true
    }

    open spec fn decodes(&self, addr: u16) -> bool {
        addr < self@.len()
    }

    open spec fn peek(m: Seq<u8>, addr: u16) -> u8 {
        m[addr as int]
    }

    open spec fn poke(m: Seq<u8>, addr: u16, v: u8) -> Seq<u8> {
        m.update(addr as int, v)
    }

    fn read(&self, addr: u16) -> (r: u8) {
        self.get(addr)
    }

    fn write(&mut self, addr: u16, v: u8) {
        self.set(addr, v)
    }
}

} // verus!

pub mod bootrom;

