//! The frame as a stretch of 70,224 clock ticks: where in it the unit stands,
//! and what follows from that.

use vstd::prelude::*;
use super::{Mode, PpuModel};

verus! {

/// Clock ticks from the start of a line to the start of a mode of the line.
pub open spec fn offset(mode: Mode) -> nat {
    match mode {
        Mode::OAMSearch => 0,
        Mode::Transfer => 80,
        Mode::HBlank => 252,
        Mode::VBlank => 0,
    }
}

/// Clock ticks from the start of the frame to where the unit stands.
pub open spec fn position(m: PpuModel) -> nat {
    (m.ly * 456 + offset(m.mode) + m.clock) as nat
}

/// The mode of the unit at a place in a frame: on each of the first 144 lines
/// 80 ticks of search, 172 of transfer and 204 of horizontal blank; on the
/// last ten lines the vertical blank.
pub open spec fn mode_at(position: nat) -> Mode {
    if position / 456 >= 144 {
        Mode::VBlank
    } else if position % 456 < 80 {
        Mode::OAMSearch
    } else if position % 456 < 252 {
        Mode::Transfer
    } else {
        Mode::HBlank
    }
}

/// Number of times that the vertical blank begins at or before a place,
/// counted from the start of a frame on.
pub open spec fn blanks_by(position: nat) -> nat {
    (position + 4560) / 70224
}

/// Drawing a line keeps the picture's size.
pub proof fn lemma_rendered_size(m: PpuModel)
    requires
        m.sized(),
    ensures
        m.rendered().len() == 160 * 144,
{
    reveal(PpuModel::rendered);
}

/// Between two steps the unit's place in the frame says its line and its
/// mode.
pub proof fn lemma_place(m: PpuModel)
    requires
        m.wf(),
    ensures
        position(m) < 70224,
        m.ly == position(m) / 456,
        m.mode == mode_at(position(m)),
{
}

/// One change of mode leaves the unit in shape, keeps its place in the frame
/// or, at the end of the frame, moves it back by one frame, and hands over a
/// picture exactly when the vertical blank begins.
pub proof fn lemma_transition(m: PpuModel, acc: u8)
    requires
        m.shaped(),
        m.clock >= m.mode.dwell(),
    ensures
        m.transition(acc).ppu.shaped(),
        m.transition(acc).ppu.clock < m.clock,
        position(m.transition(acc).ppu) == if m.mode == Mode::VBlank && m.ly >= 153 {
            position(m) - 70224
        } else {
            position(m) as int
        },
        m.transition(acc).ppu.shown.len() == m.shown.len() + if m.mode == Mode::HBlank && m.ly
            >= 143 {
            1nat
        } else {
            0nat
        },
{
    let (next, ly) = m.successor();
    let t = PpuModel { clock: (m.clock - m.mode.dwell()) as nat, ly, ..m };
    if next == Mode::HBlank {
        lemma_rendered_size(PpuModel { mode: next, ..t });
    }
}

/// Run until its clock is within the time of its mode, the unit stands where
/// it stood, frames apart; and it has handed over one picture for each
/// beginning of a vertical blank on the way.
pub proof fn lemma_run(m: PpuModel, acc: u8)
    requires
        m.shaped(),
    ensures
        m.run(acc).ppu.wf(),
        position(m.run(acc).ppu) == position(m) % 70224,
        m.run(acc).ppu.shown.len() + (if m.mode == Mode::VBlank {
            1nat
        } else {
            0nat
        }) == m.shown.len() + blanks_by(position(m)),
    decreases m.clock,
{
    if m.clock >= m.mode.dwell() {
        lemma_transition(m, acc);
        let t = m.transition(acc);
        lemma_run(t.ppu, t.intf);
    }
}

/// The modes of a frame follow each other as the frame's plan says: after
/// any number of clock ticks the unit stands that many ticks further in the
/// frame, in the mode and on the line of that place. A frame is 144 lines of
/// 80 ticks of search, 172 of transfer and 204 of horizontal blank, and ten
/// lines of vertical blank: 70,224 ticks in all.
pub proof fn lemma_mode_sequence(m: PpuModel, ticks: nat)
    requires
        m.wf(),
    ensures
        m.advanced(ticks).ppu.wf(),
        position(m.advanced(ticks).ppu) == (position(m) + ticks) % 70224,
        m.advanced(ticks).ppu.mode == mode_at((position(m) + ticks) % 70224),
        m.advanced(ticks).ppu.ly == ((position(m) + ticks) % 70224) / 456,
        144 * (80 + 172 + 204) + 10 * 456 == 70224,
{
    let start = PpuModel { clock: m.clock + ticks, ..m };
    lemma_run(start, 0);
    lemma_place(m.advanced(ticks).ppu);
}

/// The display receives one picture for each beginning of a vertical blank:
/// so many as lie within the ticks that pass. Over the 70,224 ticks of one
/// frame that is exactly one.
pub proof fn lemma_pictures(m: PpuModel, ticks: nat)
    requires
        m.wf(),
    ensures
        m.advanced(ticks).ppu.shown.len() == m.shown.len() + blanks_by(position(m) + ticks)
            - blanks_by(position(m)),
        m.advanced(70224).ppu.shown.len() == m.shown.len() + 1,
{
    lemma_place(m);
    lemma_run(PpuModel { clock: m.clock + ticks, ..m }, 0);
    lemma_run(PpuModel { clock: m.clock + 70224, ..m }, 0);
}

} // verus!
