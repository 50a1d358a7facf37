use vstd::prelude::*;
use crate::bits::{bit16, lemma_word};

verus! {

/// The DIV/TIMA/TMA/TAC timer block.
#[derive(Clone, Copy)]
pub struct Timer {
    pub internal_timer: u16,
    pub previous_and: u8,
    pub tima_overflow: bool,
    pub div: u8,
    pub tima: u8,
    pub tma: u8,
    pub tac: u8,
    pub timer_interrupt: u8,
}

/// Position of the internal-timer bit that TIMA follows, chosen by the two low bits of TAC.
pub open spec fn tac_bit_position(tac: u8) -> u16 {
    let sel = tac & 3;
    if sel == 0 {
        9
    } else if sel == 1 {
        3
    } else if sel == 2 {
        5
    } else {
        7
    }
}

/// The timer's AND signal: the selected internal-timer bit, gated by TAC's enable bit.
pub open spec fn timer_and_signal(internal: u16, tac: u8) -> u8 {
    bit16(internal, tac_bit_position(tac)) & ((tac >> 2) & 1)
}

impl Timer {
    /// DIV is always the high byte of the internal counter.
    pub open spec fn div_consistent(&self) -> bool {
        self.div == (self.internal_timer >> 8) as u8
    }

    /// The timer at power-on: every register zero.
    pub open spec fn initial() -> Timer {
        Timer {
            internal_timer: 0,
            previous_and: 0,
            tima_overflow: false,
            div: 0,
            tima: 0,
            tma: 0,
            tac: 0,
            timer_interrupt: 0,
        }
    }

    pub fn new() -> (t: Timer)
        ensures
            t == Timer::initial(),
            t.internal_timer == 0,
            t.previous_and == 0,
            !t.tima_overflow,
            t.div == 0,
            t.tima == 0,
            t.tma == 0,
            t.tac == 0,
            t.timer_interrupt == 0,
            t.div_consistent(),
    {
        assert((0u16 >> 8u16) as u8 == 0) by { lemma_word(0); }
        Timer {
            internal_timer: 0,
            previous_and: 0,
            tima_overflow: false,
            div: 0,
            tima: 0,
            tma: 0,
            tac: 0,
            timer_interrupt: 0,
        }
    }

    /// Puts the timer in its post-boot state.
    pub fn initialize(&mut self)
        ensures
            final(self).internal_timer == 0xAB00,
            final(self).div == 0xAB,
            final(self).tima == 0,
            final(self).tma == 0,
            final(self).tac == 0xF8,
            final(self).previous_and == old(self).previous_and,
            final(self).tima_overflow == old(self).tima_overflow,
            final(self).timer_interrupt == old(self).timer_interrupt,
            final(self).div_consistent(),
    {
        assert((0xAB00u16 >> 8u16) as u8 == 0xAB) by { lemma_word(0xAB00); }
        self.internal_timer = 0xAB00;
        self.div = 0xAB;
        self.tima = 0;
        self.tma = 0;
        self.tac = 0xF8;
    }

    /// The timer one M-cycle later: the internal counter advances by four, DIV follows it, a
    /// TIMA overflow of the previous cycle reloads TMA and requests the interrupt, and TIMA
    /// counts on each falling edge of the AND signal.
    pub open spec fn ticked(self) -> Timer {
        let internal = ((self.internal_timer + 4) % 0x10000) as u16;
        let reload = self.tima_overflow && self.tima == 0;
        let tima1: u8 = if reload { self.tma } else { self.tima };
        let overflow1 = if reload { false } else { self.tima_overflow };
        let and_result = timer_and_signal(internal, self.tac);
        let falling = and_result == 0 && self.previous_and == 1;
        Timer {
            internal_timer: internal,
            previous_and: and_result,
            tima_overflow: overflow1 || (falling && tima1 == 255),
            div: (internal >> 8) as u8,
            tima: if falling { ((tima1 + 1) % 256) as u8 } else { tima1 },
            tma: self.tma,
            tac: self.tac,
            timer_interrupt: if reload { 1 } else { self.timer_interrupt },
        }
    }

    /// The timer `n` M-cycles later, with no other access in between.
    pub open spec fn ticked_times(self, n: nat) -> Timer
        decreases n,
    {
        if n == 0 {
            self
        } else {
            self.ticked().ticked_times((n - 1) as nat)
        }
    }

    /// Advances the timer by one M-cycle (four ticks of the internal counter).
    pub fn tick(&mut self)
        ensures
            *final(self) == old(self).ticked(),
            final(self).div_consistent(),
    {
        self.internal_timer = self.internal_timer.wrapping_add(4);
        self.div = (self.internal_timer >> 8) as u8;

        if self.tima_overflow && self.tima == 0 {
            self.tima_overflow = false;
            self.tima = self.tma;
            self.timer_interrupt = 1;
        }
        let timer_enable = (self.tac >> 2) & 0x1;
        let tac_low = self.tac & 0x03;
        let select_bit = if tac_low == 0 {
            Timer::get_bit(self.internal_timer, 9)
        } else if tac_low == 1 {
            Timer::get_bit(self.internal_timer, 3)
        } else if tac_low == 2 {
            Timer::get_bit(self.internal_timer, 5)
        } else {
            Timer::get_bit(self.internal_timer, 7)
        };
        let and_result = select_bit & timer_enable;
        if and_result == 0 && self.previous_and == 1 {
            let overflow = self.tima == 255;
            self.tima = self.tima.wrapping_add(1);
            if overflow {
                self.tima_overflow = true;
            }
        }
        self.previous_and = and_result;
    }

    /// Resets the internal counter (a write to DIV).
    pub fn reset_timer(&mut self)
        ensures
            final(self).internal_timer == 0,
            final(self).div == 0,
            final(self).tima == old(self).tima,
            final(self).tma == old(self).tma,
            final(self).tac == old(self).tac,
            final(self).previous_and == old(self).previous_and,
            final(self).tima_overflow == old(self).tima_overflow,
            final(self).timer_interrupt == old(self).timer_interrupt,
            final(self).div_consistent(),
    {
        assert((0u16 >> 8u16) as u8 == 0) by { lemma_word(0); }
        self.internal_timer = 0;
        self.div = 0;
    }

    fn get_bit(value: u16, bit_position: u16) -> (bit: u8)
        requires
            bit_position < 16,
        ensures
            bit == bit16(value, bit_position),
            bit <= 1,
    {
        let bit = (value >> bit_position) & 0x1;
        assert(bit <= 1) by (bit_vector)
            requires bit == (value >> bit_position) & 0x1;
        bit as u8
    }
}

/// After `n` M-cycles with no other access, the internal counter has advanced by four per
/// cycle (wrapping at 16 bits) and, once at least one cycle has passed, DIV is its high byte.
pub proof fn lemma_ticks_advance_counter(t: Timer, n: nat)
    ensures
        t.ticked_times(n).internal_timer == (t.internal_timer + 4 * n) % 0x10000,
        n > 0 ==> t.ticked_times(n).div_consistent(),
    decreases n,
{
    if n > 0 {
        let k = (n - 1) as nat;
        lemma_ticks_advance_counter(t.ticked(), k);
        vstd::arithmetic::div_mod::lemma_add_mod_noop(t.internal_timer + 4, (4 * k) as int, 0x10000);
        vstd::arithmetic::div_mod::lemma_mod_twice((4 * k) as int, 0x10000);
        vstd::arithmetic::div_mod::lemma_add_mod_noop((t.internal_timer + 4) % 0x10000, (4 * k) as int, 0x10000);
        vstd::arithmetic::div_mod::lemma_mod_twice(t.internal_timer + 4, 0x10000);
        assert(t.internal_timer + 4 + 4 * k == t.internal_timer + 4 * n);
    }
}

/// DIV counts up by one every 64 M-cycles (256 ticks of the internal counter), wrapping at
/// 256.
pub proof fn lemma_div_every_64_cycles(t: Timer)
    requires
        t.div_consistent(),
    ensures
        t.ticked_times(64).div == ((t.div + 1) % 256) as u8,
{
    lemma_ticks_advance_counter(t, 64);
    let i = t.internal_timer;
    assert((((i + 256) % 0x10000) as u16 >> 8u16) as u8 == (((i >> 8u16) as u8 + 1) % 256) as u8) by (bit_vector);
}

/// The half period, in internal-counter steps (clocks), of the signal that TIMA counts for
/// the clock selection `sel` (TAC bits 0-1): 4096 Hz, 262144 Hz, 65536 Hz and 16384 Hz at a
/// 4194304 Hz clock.
pub open spec fn timer_half_period(sel: u8) -> int {
    if sel == 0 {
        512
    } else if sel == 1 {
        8
    } else if sel == 2 {
        32
    } else {
        128
    }
}

/// What TIMA counts: with the timer enabled (TAC bit 2) the signal is the internal counter
/// divided by the selected half period, taken modulo two (so at 4096 Hz it changes every 512
/// clocks); with the timer disabled it stays low.
pub proof fn lemma_timer_signal(internal: u16, tac: u8)
    ensures
        timer_and_signal(internal, tac) == if tac & 4 != 0 {
            ((internal as int / timer_half_period(tac & 3)) % 2) as u8
        } else {
            0u8
        },
{
    let i = internal;
    assert((((i >> 9u16) & 1) as u8 == ((i / 512) % 2) as u8) && (((i >> 3u16) & 1) as u8 == ((i / 8) % 2) as u8)
        && (((i >> 5u16) & 1) as u8 == ((i / 32) % 2) as u8) && (((i >> 7u16) & 1) as u8 == ((i / 128) % 2) as u8))
        by (bit_vector);
    assert(((tac >> 2u8) & 1) == (if tac & 4 != 0 { 1u8 } else { 0u8 }) && tac & 3 <= 3) by (bit_vector);
    let sel = tac & 3;
    let p = tac_bit_position(tac);
    let b = bit16(internal, p);
    let h = timer_half_period(sel);
    assert(b == ((internal as int / h) % 2) as u8) by {
        if sel == 0 {
            assert(p == 9 && h == 512);
        } else if sel == 1 {
            assert(p == 3 && h == 8);
        } else if sel == 2 {
            assert(p == 5 && h == 32);
        } else {
            assert(p == 7 && h == 128);
        }
    }
    assert(b <= 1);
    assert(forall|x: u8, y: u8| x <= 1 && y <= 1 ==> #[trigger] (x & y) == (if y == 1 { x } else { 0 })) by (bit_vector);
    let e = (tac >> 2u8) & 1;
    assert(b & e == if e == 1 { b } else { 0 });
    assert(timer_and_signal(internal, tac) == b & e);
}

/// One M-cycle of the timer, when no reload of TMA is due: the internal counter advances by
/// four, and TIMA counts up (wrapping) exactly when the signal that it follows falls from
/// high to low.
pub proof fn lemma_tima_counts_falling_edges(t: Timer)
    requires
        !(t.tima_overflow && t.tima == 0),
    ensures
        ({
            let n = t.ticked();
            let internal = ((t.internal_timer + 4) % 0x10000) as u16;
            let signal: u8 = if t.tac & 4 != 0 {
                ((internal as int / timer_half_period(t.tac & 3)) % 2) as u8
            } else {
                0u8
            };
            &&& n.internal_timer == internal
            &&& n.previous_and == signal
            &&& n.tima == if t.previous_and == 1 && signal == 0 { ((t.tima + 1) % 256) as u8 } else { t.tima }
        }),
{
    lemma_timer_signal(((t.internal_timer + 4) % 0x10000) as u16, t.tac);
}

} // verus!
