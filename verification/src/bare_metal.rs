//! The clock that runs on interrupts: a 10 Hz tick drives the LED, the button
//! interrupt goes through the modes.

use crate::datetime::DateTime;
use crate::mode::{pressed, Mode};
use vstd::prelude::*;

verus! {

/// Frequency of the tick.
pub const TICK_HZ: u32 = 10;

/// Half period of the slow pattern, in ticks: 500 ms.
pub const SLOW_HALF_TICKS: u32 = TICK_HZ / 2;

/// How long the button is locked out after a press, in ticks: about 300 ms.
pub const DEBOUNCE_TICKS: u32 = 3;

/// Value of the backup register that says that the calendar holds the time
/// seeded by this firmware. It changes whenever the seed changes.
pub const RTC_MAGIC: u32 = 0xCAFE_0036;

/// Number of values of the tick counter.
pub open spec fn tick_values() -> int {
    0x1_0000_0000
}

/// The LED is lit in this mode at this tick.
pub open spec fn lit(mode: Mode, tick: int) -> bool {
    match mode {
        Mode::Off => false,
        Mode::Fast => tick % 2 == 0,
        Mode::Slow => tick / (SLOW_HALF_TICKS as int) % 2 == 0,
        Mode::Solid => true,
    }
}

/// The button is no longer locked out: the tick counter has reached `until`, as
/// far as a counter that wraps around can tell.
pub open spec fn unlocked(now: u32, until: u32) -> bool {
    (now - until) % tick_values() < u32::MAX / 2
}

/// What the interrupts share.
#[derive(Clone, Copy, Debug, PartialEq, Eq, Structural)]
pub struct Controls {
    /// Ticks since start, modulo 2^32.
    pub ticks: u32,
    /// Mode of the LED, as its byte.
    pub mode: u8,
    /// First tick at which a press counts again.
    pub debounce_until: u32,
}

impl Controls {
    /// The mode that the stored byte stands for.
    pub open spec fn current(self) -> Mode {
        Mode::numbered(self.mode as int)
    }

    /// The state after a tick.
    pub open spec fn ticked(self) -> Controls {
        Controls { ticks: ((self.ticks + 1) % tick_values()) as u32, ..self }
    }

    /// The state after a rising edge of the button.
    pub open spec fn poked(self) -> Controls {
        if unlocked(self.ticks, self.debounce_until) {
            Controls {
                ticks: self.ticks,
                mode: Mode::numbered(self.current().number() + 1).number() as u8,
                debounce_until: ((self.ticks + DEBOUNCE_TICKS) % tick_values()) as u32,
            }
        } else {
            self
        }
    }

    /// The state after several ticks.
    pub open spec fn ticked_times(self, n: nat) -> Controls
        decreases n,
    {
        if n == 0 {
            self
        } else {
            self.ticked_times((n - 1) as nat).ticked()
        }
    }

    /// The state at start: LED off, button free.
    pub fn new() -> (r: Controls)
        ensures
            r == (Controls { ticks: 0, mode: 0, debounce_until: 0 }),
            r.current() == Mode::Off,
    {
        Controls { ticks: 0, mode: Mode::Off.to_u8(), debounce_until: 0 }
    }

    /// The mode of the LED.
    pub fn mode(&self) -> (r: Mode)
        ensures
            r == self.current(),
    {
        Mode::from_u8(self.mode)
    }

    /// Takes a tick of the timer, and says whether the LED is lit from then on.
    pub fn on_tick(&mut self) -> (high: bool)
        ensures
            *final(self) == old(self).ticked(),
            high == lit(old(self).current(), old(self).ticked().ticks as int),
    {
        let tick: u32 = self.ticks.wrapping_add(1);
        self.ticks = tick;
        assert(tick & 1 == tick % 2) by (bit_vector);
        let half: u32 = tick / SLOW_HALF_TICKS;
        assert(half & 1 == half % 2) by (bit_vector);
        match Mode::from_u8(self.mode) {
            Mode::Off => false,
            Mode::Fast => tick & 1 == 0,
            Mode::Slow => half & 1 == 0,
            Mode::Solid => true,
        }
    }

    /// Takes a rising edge of the button: goes to the next mode, unless the
    /// button is locked out after an earlier press.
    pub fn on_button(&mut self)
        ensures
            *final(self) == old(self).poked(),
    {
        let now: u32 = self.ticks;
        let until: u32 = self.debounce_until;
        if now.wrapping_sub(until) < u32::MAX / 2 {
            let cur: Mode = Mode::from_u8(self.mode);
            self.mode = cur.next().to_u8();
            self.debounce_until = now.wrapping_add(DEBOUNCE_TICKS);
        }
    }
}

/// What the seed of the calendar is, and what the backup register holds then.
#[derive(Clone, Copy, Debug, PartialEq, Eq, Structural)]
pub struct Seed {
    pub time: DateTime,
    pub magic: u32,
}

/// The seed of this firmware.
pub open spec fn seed() -> Seed {
    Seed {
        time: DateTime { year: 2026, month: 5, day: 18, hour: 0, minute: 35, second: 0 },
        magic: RTC_MAGIC,
    }
}

/// What to write at start, given the backup register: nothing when the calendar
/// was seeded by this firmware and has run since, else the seed.
pub open spec fn seed_for(backup: u32) -> Option<Seed> {
    if backup == RTC_MAGIC {
        None
    } else {
        Some(seed())
    }
}

/// Says what to write at start, given the backup register.
pub fn seed_needed(backup: u32) -> (r: Option<Seed>)
    ensures
        r == seed_for(backup),
{
    if backup != RTC_MAGIC {
        let time: DateTime = DateTime::new(2026, 5, 18, 0, 35, 0).unwrap();
        Some(Seed { time, magic: RTC_MAGIC })
    } else {
        None
    }
}

/// In the fast mode the LED changes with every tick of 100 ms, also where the
/// tick counter wraps around.
pub proof fn law_fast_changes_every_tick(c: Controls)
    requires
        c.current() == Mode::Fast,
    ensures
        lit(c.current(), c.ticked().ticks as int) != lit(c.current(), c.ticks as int),
        1000u32 / TICK_HZ == 100,
{
}

/// In the slow mode the LED changes exactly at the ticks whose number is a
/// multiple of five.
pub proof fn law_slow_changes_at_multiples(c: Controls)
    requires
        c.current() == Mode::Slow,
    ensures
        lit(c.current(), c.ticked().ticks as int) != lit(c.current(), c.ticks as int)
            <==> c.ticked().ticks % SLOW_HALF_TICKS == 0,
{
}

/// In the slow mode the LED is on for five ticks and off for five, that is for
/// 500 ms each, but for the four ticks before the last one of the counter: the
/// number of values of the counter is no multiple of ten.
pub proof fn law_slow_half_period(c: Controls)
    requires
        c.current() == Mode::Slow,
        !(u32::MAX - SLOW_HALF_TICKS < c.ticks < u32::MAX),
    ensures
        lit(c.current(), c.ticked_times(SLOW_HALF_TICKS as nat).ticks as int) != lit(
            c.current(),
            c.ticks as int,
        ),
        SLOW_HALF_TICKS * (1000u32 / TICK_HZ) == 500,
{
    law_ticks_count(c, SLOW_HALF_TICKS as nat);
}

/// The tick counter counts the ticks, modulo 2^32, and a tick changes nothing
/// else.
pub proof fn law_ticks_count(c: Controls, n: nat)
    ensures
        c.ticked_times(n) == (Controls {
            ticks: ((c.ticks + n) % tick_values()) as u32,
            ..c
        }),
    decreases n,
{
    if n > 0 {
        law_ticks_count(c, (n - 1) as nat);
    }
}

/// After a press that counted, edges are ignored for three ticks, and after
/// that the next edge counts. This holds for presses less than 2^31 + 2 ticks
/// (almost seven years) apart; a counter that wraps around cannot tell longer
/// intervals.
pub proof fn law_debounce(c: Controls, n: nat)
    requires
        unlocked(c.ticks, c.debounce_until),
        n < 0x8000_0002,
    ensures
        ({
            let later = c.poked().ticked_times(n);
            &&& later.current() == pressed(c.current(), 1)
            &&& later.poked().current() == (if n < DEBOUNCE_TICKS {
                later.current()
            } else {
                pressed(c.current(), 2)
            })
            &&& n < DEBOUNCE_TICKS ==> later.poked() == later
        }),
{
    reveal_with_fuel(pressed, 3);
    law_ticks_count(c.poked(), n);
    let later = c.poked().ticked_times(n);
    assert((later.ticks - later.debounce_until) % tick_values() == (n - DEBOUNCE_TICKS)
        % tick_values());
}

/// Once seeded, the calendar is left alone at every later start that finds the
/// backup register as the seed left it.
pub proof fn law_seeded_once(backup: u32)
    ensures
        seed_for(backup) matches Some(seed) ==> seed_for(seed.magic) is None,
        seed_for(backup) is None ==> backup == RTC_MAGIC,
{
}

/// With every tick, the LED is dark in the mode with byte 0, lit in the one with
/// byte 3, lit at the even ticks in the one with byte 1, and lit at the first
/// five of ten ticks in the one with byte 2; of a byte only the remainder by four
/// counts.
pub proof fn law_led_level(c: Controls)
    ensures
        ({
            let tick = (c.ticks + 1) % 0x1_0000_0000;
            let high = lit(c.current(), c.ticked().ticks as int);
            &&& c.mode % 4 == 0 ==> !high
            &&& c.mode % 4 == 1 ==> high == (tick % 2 == 0)
            &&& c.mode % 4 == 2 ==> high == (tick % 10 < 5)
            &&& c.mode % 4 == 3 ==> high
        }),
        c.current() == Mode::Off <==> c.mode % 4 == 0,
        c.current() == Mode::Fast <==> c.mode % 4 == 1,
        c.current() == Mode::Slow <==> c.mode % 4 == 2,
        c.current() == Mode::Solid <==> c.mode % 4 == 3,
{
}

/// A tick counts up by one, from the last value to zero, and changes neither the
/// mode nor the lockout.
pub proof fn law_tick_counts(c: Controls)
    ensures
        c.ticks < 0xFFFF_FFFF ==> c.ticked().ticks == c.ticks + 1,
        c.ticks == 0xFFFF_FFFF ==> c.ticked().ticks == 0,
        c.ticked().mode == c.mode,
        c.ticked().debounce_until == c.debounce_until,
{
}

/// An edge counts if the counter has reached the end of the lockout less than
/// 2^31 - 1 ticks ago: the byte of the mode goes up by one, from three to zero,
/// and the lockout ends three ticks later. Any other edge changes nothing, and
/// none changes the counter.
pub proof fn law_edge_counts_or_not(c: Controls, ago: int)
    requires
        0 <= ago < 0x1_0000_0000,
        c.ticks == (c.debounce_until + ago) % 0x1_0000_0000,
    ensures
        ago < 0x7FFF_FFFF ==> {
            &&& c.poked().mode == (c.mode % 4 + 1) % 4
            &&& c.poked().debounce_until == (c.ticks + 3) % 0x1_0000_0000
        },
        ago >= 0x7FFF_FFFF ==> c.poked() == c,
        c.poked().ticks == c.ticks,
{
    assert((c.ticks - c.debounce_until) % 0x1_0000_0000 == ago);
}

/// The calendar is seeded exactly when the backup register does not hold
/// 0xCAFE0036: it is set to 35 minutes past midnight of the 18th of May 2026, and
/// the register to that value.
pub proof fn law_seed_rule(backup: u32)
    ensures
        seed_for(backup) is None <==> backup == 0xCAFE_0036,
        seed_for(backup) matches Some(s) ==> {
            &&& s.magic == 0xCAFE_0036
            &&& s.time.year == 2026 && s.time.month == 5 && s.time.day == 18
            &&& s.time.hour == 0 && s.time.minute == 35 && s.time.second == 0
        },
        TICK_HZ == 10,
{
}

} // verus!
