//! The clock that runs as tasks: what each task decides between two waits.

use crate::datetime::{
    day_number, days_before_month, is_calendar_day, rtc_accepts, RtcDateTime, Weekday,
};
use crate::mode::{pressed, Mode};
use vstd::prelude::*;

verus! {

/// How often the clock face is looked at, in milliseconds.
pub const POLL_MILLIS: u64 = 100;

/// How long the button is not looked at after a press, in milliseconds.
pub const DEBOUNCE_MILLIS: u64 = 300;

/// First year that a calendar can show which has been set.
pub const SEED_YEAR: u16 = 2026;

/// Written into the RTC once, when the calendar has never been set.
pub open spec fn seed() -> RtcDateTime {
    RtcDateTime {
        year: SEED_YEAR,
        month: 7,
        day: 7,
        weekday: Weekday::Tuesday,
        hour: 12,
        minute: 0,
        second: 0,
        microsecond: 0,
    }
}

/// The calendar has clearly never been set: it cannot be read, or it shows a
/// year before the one of the seed.
pub open spec fn never_set(year: Option<u16>) -> bool {
    year matches Some(y) ==> y < SEED_YEAR
}

/// Says what to write into the RTC at start, given the year that it shows, if it
/// can be read.
pub fn seed_needed(year: Option<u16>) -> (r: Option<RtcDateTime>)
    ensures
        r == (if never_set(year) {
            Some(seed())
        } else {
            None
        }),
        r matches Some(t) ==> rtc_accepts(t),
{
    let needs_seed: bool = match year {
        Some(y) => y < SEED_YEAR,
        None => true,
    };
    if needs_seed {
        let seed: RtcDateTime = RtcDateTime {
            year: SEED_YEAR,
            month: 7,
            day: 7,
            weekday: Weekday::Tuesday,
            hour: 12,
            minute: 0,
            second: 0,
            microsecond: 0,
        };
        seed.checked()
    } else {
        None
    }
}

/// The seed is a day of the calendar, and its day of the week is the right one.
pub proof fn law_seed_is_a_day()
    ensures
        is_calendar_day(seed().year as int, seed().month as int, seed().day as int),
        seed().weekday == Weekday::of_day(
            day_number(seed().year as int, seed().month as int, seed().day as int),
        ),
{
    reveal_with_fuel(days_before_month, 7);
}

/// A calendar that shows its seed, or any later year, is not seeded again.
pub proof fn law_seeded_once(year: u16)
    requires
        seed().year <= year,
    ensures
        !never_set(Some(year)),
{
}

/// What to do with the LED.
#[derive(Clone, Copy, Debug, PartialEq, Eq, Structural)]
pub enum Led {
    Low,
    High,
    Toggle,
}

/// What to do with the LED, and how long to wait after that.
#[derive(Clone, Copy, Debug, PartialEq, Eq, Structural)]
pub struct LedStep {
    pub led: Led,
    pub wait_millis: u64,
}

/// The LED task's step in a mode.
pub open spec fn led_step(mode: Mode) -> LedStep {
    match mode {
        Mode::Off => LedStep { led: Led::Low, wait_millis: 100 },
        Mode::Fast => LedStep { led: Led::Toggle, wait_millis: 100 },
        Mode::Slow => LedStep { led: Led::Toggle, wait_millis: 500 },
        Mode::Solid => LedStep { led: Led::High, wait_millis: 100 },
    }
}

/// Whether the LED is lit after a step.
pub open spec fn lit_after(lit: bool, step: LedStep) -> bool {
    match step.led {
        Led::Low => false,
        Led::High => true,
        Led::Toggle => !lit,
    }
}

/// Gives the step of the LED task, given the stored byte of the mode.
pub fn led(mode: u8) -> (r: LedStep)
    ensures
        r == led_step(Mode::numbered(mode as int)),
{
    match Mode::from_u8(mode) {
        Mode::Off => LedStep { led: Led::Low, wait_millis: 100 },
        Mode::Fast => LedStep { led: Led::Toggle, wait_millis: 100 },
        Mode::Slow => LedStep { led: Led::Toggle, wait_millis: 500 },
        Mode::Solid => LedStep { led: Led::High, wait_millis: 100 },
    }
}

/// The patterns of the LED: dark, on and off for 100 ms each, on and off for
/// 500 ms each, lit. A change of the mode is picked up within half a second.
pub proof fn law_led_patterns(lit: bool, mode: Mode)
    ensures
        ({
            let once = lit_after(lit, led_step(mode));
            let twice = lit_after(once, led_step(mode));
            &&& mode == Mode::Off ==> !once && !twice
            &&& mode == Mode::Solid ==> once && twice
            &&& mode == Mode::Fast || mode == Mode::Slow ==> once == !lit && twice == lit
            &&& mode == Mode::Fast ==> led_step(mode).wait_millis == 100
            &&& mode == Mode::Slow ==> led_step(mode).wait_millis == 500
            &&& led_step(mode).wait_millis <= 500
        }),
{
}

/// What the button task waits for.
#[derive(Clone, Copy, Debug, PartialEq, Eq, Structural)]
pub enum ButtonWait {
    /// A rising edge of the button.
    Edge,
    /// The end of the bounce window.
    Quiet { millis: u64 },
}

/// What the button task does: whether it sleeps through the bounce window, and
/// the stored byte of the mode.
#[derive(Clone, Copy, Debug, PartialEq, Eq, Structural)]
pub struct Button {
    pub asleep: bool,
    pub mode: u8,
}

/// What happens to the button task.
#[derive(Clone, Copy, Debug, PartialEq, Eq, Structural)]
pub enum ButtonEvent {
    /// The button shows a rising edge.
    Edge,
    /// The bounce window is over.
    Quiet,
}

impl Button {
    /// The task after an event. Edges that come while it sleeps are dropped.
    pub open spec fn after(self, event: ButtonEvent) -> Button {
        match event {
            ButtonEvent::Edge => if self.asleep {
                self
            } else {
                Button {
                    asleep: true,
                    mode: Mode::numbered(Mode::numbered(self.mode as int).number() + 1).number()
                        as u8,
                }
            },
            ButtonEvent::Quiet => Button { asleep: false, mode: self.mode },
        }
    }

    /// The task after several events.
    pub open spec fn after_all(self, events: Seq<ButtonEvent>) -> Button
        decreases events.len(),
    {
        if events.len() == 0 {
            self
        } else {
            self.after_all(events.drop_last()).after(events.last())
        }
    }

    /// Takes an event and says what to wait for next.
    pub fn button(&mut self, event: ButtonEvent) -> (r: ButtonWait)
        ensures
            *final(self) == old(self).after(event),
            r == (if final(self).asleep {
                ButtonWait::Quiet { millis: DEBOUNCE_MILLIS }
            } else {
                ButtonWait::Edge
            }),
    {
        match event {
            ButtonEvent::Edge => {
                if !self.asleep {
                    let cur: Mode = Mode::from_u8(self.mode);
                    self.mode = cur.next().to_u8();
                    self.asleep = true;
                }
                ButtonWait::Quiet { millis: DEBOUNCE_MILLIS }
            },
            ButtonEvent::Quiet => {
                self.asleep = false;
                ButtonWait::Edge
            },
        }
    }
}

/// How many of the events are edges that find the task awake.
pub open spec fn presses(start: Button, events: Seq<ButtonEvent>) -> nat
    decreases events.len(),
{
    if events.len() == 0 {
        0
    } else {
        let before = events.drop_last();
        presses(start, before) + if events.last() == ButtonEvent::Edge && !start.after_all(
            before,
        ).asleep {
            1nat
        } else {
            0
        }
    }
}

/// Each press advances the mode once, however often the button bounces.
pub proof fn law_one_mode_per_press(start: Button, events: Seq<ButtonEvent>)
    ensures
        Mode::numbered(start.after_all(events).mode as int) == pressed(
            Mode::numbered(start.mode as int),
            presses(start, events),
        ),
    decreases events.len(),
{
    if events.len() > 0 {
        law_one_mode_per_press(start, events.drop_last());
    }
}

/// After the end of a bounce window the task is awake, whatever the mode. An edge
/// that finds it awake puts it to sleep for 300 ms and advances the mode by one,
/// and an edge that finds it asleep changes nothing.
pub proof fn law_button_sleeps_and_wakes(button: Button)
    ensures
        button.after(ButtonEvent::Quiet) == (Button { asleep: false, mode: button.mode }),
        button.asleep ==> button.after(ButtonEvent::Edge) == button,
        !button.asleep ==> button.after(ButtonEvent::Edge).asleep && button.after(
            ButtonEvent::Edge,
        ).mode == (button.mode % 4 + 1) % 4,
        DEBOUNCE_MILLIS == 300,
{
}

/// A press that bounces: `bounces` edges besides the first one, then the end of
/// the bounce window.
pub open spec fn press(bounces: nat) -> Seq<ButtonEvent> {
    Seq::new(
        bounces + 2,
        |i: int|
            if i <= bounces {
                ButtonEvent::Edge
            } else {
                ButtonEvent::Quiet
            },
    )
}

/// Presses one after the other, the first one bouncing as often as the first
/// number says, and so on.
pub open spec fn press_all(bounces: Seq<nat>) -> Seq<ButtonEvent>
    decreases bounces.len(),
{
    if bounces.len() == 0 {
        Seq::empty()
    } else {
        press_all(bounces.drop_last()) + press(bounces.last())
    }
}

/// Presses of which each comes after the bounce window of the one before advance
/// the mode by their number, however often each of them bounces, and leave the
/// task awake.
pub proof fn law_presses_advance(button: Button, bounces: Seq<nat>)
    requires
        !button.asleep,
    ensures
        !button.after_all(press_all(bounces)).asleep,
        button.after_all(press_all(bounces)).mode as int % 4 == (button.mode + bounces.len()) % 4,
    decreases bounces.len(),
{
    if bounces.len() > 0 {
        let before = press_all(bounces.drop_last());
        let last = press(bounces.last());
        law_presses_advance(button, bounces.drop_last());
        lemma_after_events(button, before, last);
        let ready = button.after_all(before);
        let edges = last.drop_last();
        lemma_edges(ready, edges);
        law_button_sleeps_and_wakes(ready.after_all(edges));
        law_button_sleeps_and_wakes(ready);
        assert(last.last() == ButtonEvent::Quiet);
    }
}

/// Taking two lists of events is taking the one list.
proof fn lemma_after_events(button: Button, first: Seq<ButtonEvent>, second: Seq<ButtonEvent>)
    ensures
        button.after_all(first + second) == button.after_all(first).after_all(second),
    decreases second.len(),
{
    if second.len() == 0 {
        assert(first + second =~= first);
    } else {
        lemma_after_events(button, first, second.drop_last());
        assert((first + second).drop_last() =~= first + second.drop_last());
    }
}

/// Of several edges in a row only the first one counts.
proof fn lemma_edges(button: Button, edges: Seq<ButtonEvent>)
    requires
        !button.asleep,
        0 < edges.len(),
        forall|i: int| 0 <= i < edges.len() ==> edges[i] == ButtonEvent::Edge,
    ensures
        button.after_all(edges) == button.after(ButtonEvent::Edge),
    decreases edges.len(),
{
    assert(edges.last() == ButtonEvent::Edge);
    if edges.len() == 1 {
        assert(edges.drop_last() =~= Seq::empty());
        reveal_with_fuel(Button::after_all, 2);
    } else {
        lemma_edges(button, edges.drop_last());
        law_button_sleeps_and_wakes(button);
        law_button_sleeps_and_wakes(button.after(ButtonEvent::Edge));
    }
}

/// The steps of the LED task by the stored byte: dark and lit are held, looked at
/// every 100 ms; the patterns change every 100 ms and every 500 ms.
pub proof fn law_led_steps(mode: u8)
    ensures
        ({
            let s = led_step(Mode::numbered(mode as int));
            &&& s.led == Led::Low <==> mode % 4 == 0
            &&& s.led == Led::High <==> mode % 4 == 3
            &&& s.led == Led::Toggle <==> mode % 4 == 1 || mode % 4 == 2
            &&& s.wait_millis == (if mode % 4 == 2 {
                500u64
            } else {
                100
            })
        }),
{
}

/// The calendar is seeded if it cannot be read or shows a year up to 2025, and
/// is then set to noon of the seventh of July 2026.
pub proof fn law_seed_rule(year: u16)
    ensures
        never_set(None),
        never_set(Some(year)) <==> year <= 2025,
        seed().year == 2026 && seed().month == 7 && seed().day == 7,
        seed().hour == 12 && seed().minute == 0 && seed().second == 0 && seed().microsecond == 0,
        seed().weekday == Weekday::Tuesday,
{
}

} // verus!
