//! The programmable timer: a free-running divider and a counter that
//! interrupts when it overflows.

use vstd::prelude::*;
use crate::io::Flag;

verus! {

/// Machine cycles between two increments of the counter.
#[derive(Clone, Copy, Debug, PartialEq, Eq, Structural)]
pub enum Divider {
    By16,
    By64,
    By256,
    By1024,
}

impl Divider {
    /// The period as a number of machine cycles.
    pub open spec fn cycles(self) -> nat {
        match self {
            Divider::By16 => 16,
            Divider::By64 => 64,
            Divider::By256 => 256,
            Divider::By1024 => 1024,
        }
    }

    /// The divider that the two low bits of TAC select: 1024, 16, 64, 256 in
    /// that order.
    pub open spec fn selected(tac: u8) -> Divider {
        let code = tac & 0x03;
        if code == 0 {
            Divider::By1024
        } else if code == 1 {
            Divider::By16
        } else if code == 2 {
            Divider::By64
        } else {
            Divider::By256
        }
    }

    /// The two low bits of TAC that select the divider.
    pub open spec fn code(self) -> u8 {
        match self {
            Divider::By1024 => 0,
            Divider::By16 => 1,
            Divider::By64 => 2,
            Divider::By256 => 3,
        }
    }

    /// The period as a number of machine cycles.
    pub fn period(self) -> (p: u32)
        ensures
            p == self.cycles(),
    {
        match self {
            Divider::By16 => 16,
            Divider::By64 => 64,
            Divider::By256 => 256,
            Divider::By1024 => 1024,
        }
    }
}

/// The timer as a mathematical value.
pub struct TimerModel {
    /// Ticks since DIV last went up; below 256.
    pub div_clock: nat,
    pub div: u8,
    /// Machine cycles since TIMA last went up; below the period.
    pub tima_clock: nat,
    pub tima: u8,
    pub tma: u8,
    pub divider: Divider,
    pub enabled: bool,
}

/// TIMA after `n` increments, and whether any of them overflowed. An
/// increment of 0xFF overflows: TIMA is reloaded from TMA.
pub open spec fn counted(tima: u8, tma: u8, n: nat) -> (u8, bool)
    decreases n,
{
    if n == 0 {
        (tima, false)
    } else {
        let rest = counted(if tima == 0xFF { tma } else { (tima + 1) as u8 }, tma, (n - 1) as nat);
        (rest.0, tima == 0xFF || rest.1)
    }
}

impl TimerModel {
    pub open spec fn wf(self) -> bool {
        self.div_clock < 256 && self.tima_clock < self.divider.cycles()
    }

    /// The timer at power-on: running, with a period of 256 machine cycles.
    pub open spec fn initial() -> TimerModel {
        TimerModel {
            div_clock: 0,
            div: 0,
            tima_clock: 0,
            tima: 0,
            tma: 0,
            divider: Divider::By256,
            enabled: true,
        }
    }

    /// The TAC register as it reads: the enable bit, the divider's code, and
    /// ones in the five bits that do not exist.
    pub open spec fn tac(self) -> u8 {
        (if self.enabled { 0x04u8 } else { 0u8 }) | self.divider.code() | 0xF8
    }

    /// The timer after a write to TAC. Bit 2 enables the counter. A change of
    /// the divider restarts the period and reloads TIMA from TMA.
    pub open spec fn with_tac(self, v: u8) -> TimerModel {
        let divider = Divider::selected(v);
        if divider != self.divider {
            TimerModel { enabled: v & 0x04 != 0, divider, tima_clock: 0, tima: self.tma, ..self }
        } else {
            TimerModel { enabled: v & 0x04 != 0, ..self }
        }
    }

    /// Number of times that DIV goes up in the next `ticks` clock ticks: once
    /// for every 256 ticks, whatever TAC holds.
    pub open spec fn div_increments(self, ticks: nat) -> nat {
        (self.div_clock + ticks) / 256
    }

    /// Number of times that TIMA goes up in the next `ticks` clock ticks: once
    /// for every period of machine cycles, which are four ticks each.
    pub open spec fn tima_increments(self, ticks: nat) -> nat {
        if self.enabled {
            (self.tima_clock + ticks / 4) / self.divider.cycles()
        } else {
            0
        }
    }

    /// The timer after `ticks` clock ticks.
    pub open spec fn advanced(self, ticks: nat) -> TimerModel {
        TimerModel {
            div_clock: (self.div_clock + ticks) % 256,
            div: ((self.div + self.div_increments(ticks)) % 256) as u8,
            tima_clock: if self.enabled {
                (self.tima_clock + ticks / 4) % self.divider.cycles()
            } else {
                self.tima_clock
            },
            tima: counted(self.tima, self.tma, self.tima_increments(ticks)).0,
            ..self
        }
    }

    /// Whether TIMA overflows in the next `ticks` clock ticks.
    pub open spec fn overflows(self, ticks: nat) -> bool {
        counted(self.tima, self.tma, self.tima_increments(ticks)).1
    }
}

#[derive(Debug)]
pub struct Timer {
    div_clock: u32,
    div: u8,
    tma_clock: u32,
    tima: u8,
    tma: u8,
    period: u32,
    enabled: bool,
}

impl View for Timer {
    type V = TimerModel;

    closed spec fn view(&self) -> TimerModel {
        TimerModel {
            div_clock: self.div_clock as nat,
            div: self.div,
            tima_clock: self.tma_clock as nat,
            tima: self.tima,
            tma: self.tma,
            divider: if self.period == 16 {
                Divider::By16
            } else if self.period == 64 {
                Divider::By64
            } else if self.period == 1024 {
                Divider::By1024
            } else {
                Divider::By256
            },
            enabled: self.enabled,
        }
    }
}

impl Timer {
    /// What the representation keeps true: the clocks are within their
    /// periods and the period is one of the four.
    pub closed spec fn inv(&self) -> bool {
        &&& self@.wf()
        &&& self.period == self@.divider.cycles()
    }

    /// The invariant makes the model well formed.
    pub proof fn lemma_inv(&self)
        requires
            self.inv(),
        ensures
            self@.wf(),
    {
    }

    /// The timer at power-on.
    pub fn new() -> (t: Self)
        ensures
            t.inv(),
            t@ == TimerModel::initial(),
    {
        Self { div_clock: 0, div: 0, tma_clock: 0, tima: 0, tma: 0, enabled: true, period: 256 }
    }

    pub fn get_div(&self) -> (v: u8)
        ensures
            v == self@.div,
    {
        self.div
    }

    pub fn get_tima(&self) -> (v: u8)
        ensures
            v == self@.tima,
    {
        self.tima
    }

    pub fn get_tma(&self) -> (v: u8)
        ensures
            v == self@.tma,
    {
        self.tma
    }

    pub fn get_enabled(&self) -> (b: bool)
        ensures
            b == self@.enabled,
    {
        self.enabled
    }

    /// The period that TAC selects.
    pub fn get_divider(&self) -> (d: Divider)
        requires
            self.inv(),
        ensures
            d == self@.divider,
    {
        if self.period == 16 {
            Divider::By16
        } else if self.period == 64 {
            Divider::By64
        } else if self.period == 1024 {
            Divider::By1024
        } else {
            Divider::By256
        }
    }

    /// The TAC register as it reads.
    pub fn get_tac(&self) -> (v: u8)
        requires
            self.inv(),
        ensures
            v == self@.tac(),
    {
        (if self.get_enabled() { 0x04u8 } else { 0u8 }) | (match self.get_divider() {
            Divider::By1024 => 0u8,
            Divider::By16 => 1u8,
            Divider::By64 => 2u8,
            Divider::By256 => 3u8,
        }) | 0xF8
    }

    /// A write to TAC: bit 2 enables the counter, bits 1 and 0 select the period.
    pub fn set_tac(&mut self, v: u8)
        requires
            old(self).inv(),
        ensures
            final(self).inv(),
            final(self)@ == old(self)@.with_tac(v),
    {
        self.set_enabled((v & 0x04) != 0);

        let code = v & 0x03;
        let divider = if code == 0 {
            Divider::By1024
        } else if code == 1 {
            Divider::By16
        } else if code == 2 {
            Divider::By64
        } else {
            Divider::By256
        };

        if divider.period() != self.period {
            self.set_divider(divider);
            self.tma_clock = 0;
            self.tima = self.tma;
        }
    }

    /// A write to DIV clears it, whatever is written.
    pub fn set_div(&mut self, _v: u8)
        requires
            old(self).inv(),
        ensures
            final(self).inv(),
            final(self)@ == (TimerModel { div: 0, ..old(self)@ }),
    {
        self.div = 0;
    }

    pub fn set_tima(&mut self, v: u8)
        requires
            old(self).inv(),
        ensures
            final(self).inv(),
            final(self)@ == (TimerModel { tima: v, ..old(self)@ }),
    {
        self.tima = v;
    }

    pub fn set_tma(&mut self, v: u8)
        requires
            old(self).inv(),
        ensures
            final(self).inv(),
            final(self)@ == (TimerModel { tma: v, ..old(self)@ }),
    {
        self.tma = v;
    }

    fn set_enabled(&mut self, enabled: bool)
        requires
            old(self).inv(),
        ensures
            final(self).inv(),
            final(self)@ == (TimerModel { enabled, ..old(self)@ }),
    {
        self.enabled = enabled;
    }

    fn set_divider(&mut self, divider: Divider)
        ensures
            final(self).period == divider.cycles(),
            final(self).div_clock == old(self).div_clock,
            final(self).div == old(self).div,
            final(self).tma_clock == old(self).tma_clock,
            final(self).tima == old(self).tima,
            final(self).tma == old(self).tma,
            final(self).enabled == old(self).enabled,
    {
        self.period = divider.period();
    }

    /// Advances the timer by `ticks` clock ticks. Returns the timer's bit of
    /// the interrupt flags if TIMA overflowed, else zero.
    pub fn step(&mut self, ticks: u32) -> (intf: u8)
        requires
            old(self).inv(),
        ensures
            final(self).inv(),
            final(self)@ == old(self)@.advanced(ticks as nat),
            intf == if old(self)@.overflows(ticks as nat) {
                Flag::Timer.mask()
            } else {
                0
            },
    {
        let ghost start = old(self)@;
        let mut result: u8 = 0;

        // Divider
        let total: u64 = self.div_clock as u64 + ticks as u64;
        self.div = self.div.wrapping_add(((total / 256) % 256) as u8);
        self.div_clock = (total % 256) as u32;
        assert(self@.div == ((start.div + start.div_increments(ticks as nat)) % 256) as u8);
        assert(self@.divider == start.divider);

        if !self.enabled {
            assert(counted(start.tima, start.tma, 0) == (start.tima, false));
            return 0;
        }
        // Tima

        self.tma_clock += ticks / 4;

        let ghost count = start.tima_increments(ticks as nat);
        let ghost mut done: nat = 0;
        assert(self@.divider == start.divider);

        while self.tma_clock >= self.period
            invariant
                self.period == start.divider.cycles(),
                self@.divider == start.divider,
                self.enabled,
                self.div_clock < 256,
                self.tma == start.tma,
                self.div == ((start.div + start.div_increments(ticks as nat)) % 256) as u8,
                self.div_clock == (start.div_clock + ticks as nat) % 256,
                done <= count,
                count - done == self.tma_clock as int / self.period as int,
                self.tma_clock as int % self.period as int == (start.tima_clock + ticks as nat / 4)
                    as int % self.period as int,
                counted(start.tima, start.tma, count) == (
                    counted(self.tima, self.tma, (count - done) as nat).0,
                    result != 0 || counted(self.tima, self.tma, (count - done) as nat).1,
                ),
                result == 0 || result == Flag::Timer.mask(),
            decreases self.tma_clock,
        {
            proof {
                lemma_period(self.tma_clock as int, self.period as int);
                done = done + 1;
            }
            self.tima = self.tima.wrapping_add(1);

            if self.tima == 0 {
                self.tima = self.tma;

                result = crate::io::intf_raise(0, Flag::Timer);
            }
            self.tma_clock -= self.period;
        }

        proof {
            lemma_period(self.tma_clock as int, self.period as int);
            assert(count == done);
            assert(counted(self.tima, self.tma, 0) == (self.tima, false));
            assert(self.tma_clock == (start.tima_clock + ticks as nat / 4) % start.divider.cycles());
        }
        return result;
    }
}

/// Within a period nothing is counted; a full period counts once and leaves
/// the remainder as it was.
proof fn lemma_period(c: int, p: int)
    requires
        p > 0,
        c >= 0,
    ensures
        c < p ==> c / p == 0 && c % p == c,
        c >= p ==> (c - p) / p == c / p - 1 && (c - p) % p == c % p,
{
    if c < p {
        vstd::arithmetic::div_mod::lemma_basic_div(c, p);
        vstd::arithmetic::div_mod::lemma_small_mod(c as nat, p as nat);
    } else {
        vstd::arithmetic::div_mod::lemma_div_minus_one(c, p);
        vstd::arithmetic::div_mod::lemma_mod_sub_multiples_vanish(c, p);
    }
}

/// TAC reads back the three bits that can be written to it, with ones in the
/// others.
pub proof fn lemma_tac_round_trip(t: TimerModel, v: u8)
    ensures
        t.with_tac(v).tac() == v | 0xF8,
{
    assert({
        let code = v & 0x03;
        let e = if v & 0x04 != 0 {
            0x04u8
        } else {
            0u8
        };
        &&& (code == 0 ==> e | 0u8 | 0xF8 == v | 0xF8)
        &&& (code == 1 ==> e | 1u8 | 0xF8 == v | 0xF8)
        &&& (code == 2 ==> e | 2u8 | 0xF8 == v | 0xF8)
        &&& (code != 0 && code != 1 && code != 2 ==> e | 3u8 | 0xF8 == v | 0xF8)
    }) by (bit_vector);
}

/// DIV goes up once for every 256 clock ticks, whatever TAC holds: what DIV
/// and its clock show after a stretch of time depends on nothing else in the
/// timer, and two stretches count as their sum.
pub proof fn lemma_div_rate(t: TimerModel, u: TimerModel, a: nat, b: nat)
    requires
        t.wf(),
        u.div == t.div,
        u.div_clock == t.div_clock,
    ensures
        t.advanced(a).div == (t.div + (t.div_clock + a) / 256) % 256,
        t.advanced(a).div_clock == (t.div_clock + a) % 256,
        u.advanced(a).div == t.advanced(a).div,
        u.advanced(a).div_clock == t.advanced(a).div_clock,
        t.advanced(a).advanced(b).div == t.advanced(a + b).div,
        t.advanced(a).advanced(b).div_clock == t.advanced(a + b).div_clock,
{
    let c = t.div_clock as int;
    let d = t.div as int;
    let c1 = (c + a) % 256;
    let d1 = (d + (c + a) / 256) % 256;
    assert(t.advanced(a).div_clock == c1);
    assert(t.advanced(a).div == d1);
    assert(t.advanced(a).advanced(b).div_clock == (c1 + b) % 256);
    assert(t.advanced(a).advanced(b).div == (d1 + (c1 + b) / 256) % 256);
    assert(t.advanced(a + b).div_clock == (c + a + b) % 256);
    assert(t.advanced(a + b).div == (d + (c + a + b) / 256) % 256);
    assert((c1 + b) % 256 == (c + a + b) % 256 && (d1 + (c1 + b) / 256) % 256 == (d + (c + a + b)
        / 256) % 256) by (nonlinear_arith)
        requires
            c1 == (c + a) % 256,
            d1 == (d + (c + a) / 256) % 256,
            0 <= c,
            0 <= d,
    ;
}

/// Increments that do not reach 0xFF only count.
pub proof fn lemma_counted_plain(tima: u8, tma: u8, n: nat)
    requires
        tima + n <= 0xFF,
    ensures
        counted(tima, tma, n) == ((tima + n) as u8, false),
    decreases n,
{
    if n > 0 {
        lemma_counted_plain((tima + 1) as u8, tma, (n - 1) as nat);
    }
}

/// While the counter is enabled TIMA goes up once for every period of
/// machine cycles, which are four clock ticks each: `k` whole periods are `k`
/// increments. Increments below the overflow only count; the increment of
/// 0xFF reloads TIMA from TMA and raises the timer's interrupt.
pub proof fn lemma_tima_rate(t: TimerModel, k: nat)
    requires
        t.wf(),
        t.enabled,
    ensures
        t.tima_increments(4 * t.divider.cycles() * k) == k,
        t.advanced(4 * t.divider.cycles() * k).tima_clock == t.tima_clock,
        t.tima + k <= 0xFF ==> t.advanced(4 * t.divider.cycles() * k).tima == t.tima + k
            && !t.overflows(4 * t.divider.cycles() * k),
        t.tima + k == 0x100 ==> t.advanced(4 * t.divider.cycles() * k).tima == t.tma
            && t.overflows(4 * t.divider.cycles() * k),
{
    let p = t.divider.cycles();
    let ticks = 4 * p * k;
    assert(ticks / 4 == p * k) by (nonlinear_arith)
        requires
            ticks == 4 * p * k,
    ;
    assert((t.tima_clock + p * k) / p == k && (t.tima_clock + p * k) % p == t.tima_clock) by {
        vstd::arithmetic::div_mod::lemma_fundamental_div_mod_converse(
            (t.tima_clock + p * k) as int,
            p as int,
            k as int,
            t.tima_clock as int,
        );
    }
    if t.tima + k <= 0xFF {
        lemma_counted_plain(t.tima, t.tma, k);
    }
    if t.tima + k == 0x100 {
        lemma_counted_plain(t.tima, t.tma, (k - 1) as nat);
        lemma_counted_split(t.tima, t.tma, (k - 1) as nat, 1);
        assert(counted(0xFF, t.tma, 1) == (t.tma, true)) by {
            assert(counted(t.tma, t.tma, 0) == (t.tma, false));
        }
    }
}

/// Counting `a` and then `b` increments is counting `a + b`.
pub proof fn lemma_counted_split(tima: u8, tma: u8, a: nat, b: nat)
    ensures
        counted(tima, tma, a + b) == (
            counted(counted(tima, tma, a).0, tma, b).0,
            counted(tima, tma, a).1 || counted(counted(tima, tma, a).0, tma, b).1,
        ),
    decreases a,
{
    if a > 0 {
        let next = if tima == 0xFF {
            tma
        } else {
            (tima + 1) as u8
        };
        lemma_counted_split(next, tma, (a - 1) as nat, b);
        assert(a + b - 1 == (a - 1) + b);
    }
}

} // verus!
