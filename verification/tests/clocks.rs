use chrono::{Datelike, NaiveDate};
use weact_h743::bare_metal::{seed_needed, Controls, RTC_MAGIC};
use weact_h743::board::{
    config, config_with_rtc, LowSpeedClock, Pll, PllSource, Sysclk, HSE_FREQ, XCLK_PRESCALER,
};
use weact_h743::clock::{self, led, Button, ButtonEvent, ButtonWait, Led, LedStep};
use weact_h743::datetime::{DateTime, RtcDateTime, Weekday};
use weact_h743::display::{Color, Draw};
use weact_h743::face::{date_row, mode_row, redraw_row, time_row, Face, Redraw};
use weact_h743::format::{fmt_date, fmt_time};
use weact_h743::mode::Mode;

const NOTHING: Redraw = Redraw { mode: None, time: None, date: None };

fn at(day: u8, hour: u8, minute: u8, second: u8) -> DateTime {
    DateTime { year: 2026, month: 7, day, hour, minute, second }
}

#[test]
fn time_is_two_digits_each() {
    let mut buf = [0; 8];
    assert_eq!(fmt_time(&mut buf, 0, 5, 59), "00:05:59");
    assert_eq!(&buf, b"00:05:59");
    assert_eq!(fmt_time(&mut buf, 23, 40, 7), "23:40:07");
    assert_eq!(fmt_time(&mut buf, 99, 99, 99), "99:99:99");
}

#[test]
fn date_is_day_month_year() {
    let mut buf = [0; 10];
    assert_eq!(fmt_date(&mut buf, 7, 12, 2026), "07.12.2026");
    assert_eq!(&buf, b"07.12.2026");
    assert_eq!(fmt_date(&mut buf, 31, 1, 65535), "31.01.5535");
    assert_eq!(fmt_date(&mut buf, 1, 1, 7), "01.01.0007");
    assert_eq!(fmt_date(&mut buf, 1, 1, -1), "01.01.7295");
}

#[test]
fn modes_cycle() {
    let mut mode = Mode::Off;
    let mut seen = Vec::new();
    for _ in 0..5 {
        seen.push(mode.label());
        mode = mode.next();
    }
    assert_eq!(seen, ["OFF", "FAST", "SLOW", "SOLID", "OFF"]);
}

#[test]
fn modes_are_stored_as_bytes() {
    for v in 0..=255u8 {
        assert_eq!(Mode::from_u8(v).to_u8(), v % 4);
    }
    assert_eq!(Mode::from_u8(6), Mode::Slow);
}

#[test]
fn padded_labels_are_equally_wide() {
    let labels: Vec<&str> = (0..4).map(|v| Mode::from_u8(v).padded_label()).collect();
    assert_eq!(labels, ["OFF  ", "FAST ", "SLOW ", "SOLID"]);
}

fn pattern(mode: Mode, ticks: u32, n: usize) -> String {
    let mut controls = Controls { ticks, mode: mode.to_u8(), debounce_until: 0 };
    (0..n).map(|_| if controls.on_tick() { '#' } else { '.' }).collect()
}

#[test]
fn led_patterns_by_tick() {
    assert_eq!(pattern(Mode::Off, 0, 12), "............");
    assert_eq!(pattern(Mode::Fast, 0, 12), ".#.#.#.#.#.#");
    assert_eq!(pattern(Mode::Slow, 0, 24), "####.....#####.....#####");
    assert_eq!(pattern(Mode::Solid, 0, 12), "############");
}

#[test]
fn ticks_wrap_around() {
    let mut controls = Controls { ticks: u32::MAX, mode: 1, debounce_until: 0 };
    assert!(controls.on_tick());
    assert_eq!(controls.ticks, 0);
    assert_eq!(pattern(Mode::Fast, u32::MAX - 2, 5), "#.#.#");
}

#[test]
fn button_is_locked_out_for_three_ticks() {
    let mut controls = Controls::new();
    assert_eq!(controls.mode(), Mode::Off);
    controls.on_button();
    assert_eq!(controls.mode(), Mode::Fast);
    for _ in 0..3 {
        controls.on_button();
        assert_eq!(controls.mode(), Mode::Fast);
        controls.on_tick();
    }
    controls.on_button();
    assert_eq!(controls.mode(), Mode::Slow);
}

#[test]
fn lockout_works_across_the_wrap() {
    let mut controls = Controls { ticks: u32::MAX - 1, mode: 0, debounce_until: u32::MAX - 1 };
    controls.on_button();
    assert_eq!(controls.debounce_until, 1);
    controls.on_tick();
    controls.on_tick();
    controls.on_button();
    assert_eq!(controls.mode(), Mode::Fast);
    controls.on_tick();
    controls.on_button();
    assert_eq!(controls.mode(), Mode::Slow);
}

#[test]
fn lockout_is_mistaken_after_half_the_counter() {
    let until = 3u32;
    let mut late = Controls { ticks: until + u32::MAX / 2 - 1, mode: 0, debounce_until: until };
    late.on_button();
    assert_eq!(late.mode(), Mode::Fast);
    let mut too_late = Controls { ticks: until + u32::MAX / 2, mode: 0, debounce_until: until };
    too_late.on_button();
    assert_eq!(too_late.mode(), Mode::Off);
}

#[test]
fn calendar_is_seeded_by_magic() {
    let seed = seed_needed(0).unwrap();
    assert_eq!(
        seed.time,
        DateTime { year: 2026, month: 5, day: 18, hour: 0, minute: 35, second: 0 }
    );
    assert_eq!(seed.magic, RTC_MAGIC);
    assert_eq!(RTC_MAGIC, 0xCAFE_0036);
    assert_eq!(seed_needed(0xCAFE_0035), Some(seed));
    assert_eq!(seed_needed(seed.magic), None);
}

#[test]
fn calendar_days_exist_or_not() {
    assert!(DateTime::new(2024, 2, 29, 23, 59, 59).is_some());
    assert_eq!(DateTime::new(2023, 2, 29, 0, 0, 0), None);
    assert_eq!(DateTime::new(1900, 2, 29, 0, 0, 0), None);
    assert!(DateTime::new(2000, 2, 29, 0, 0, 0).is_some());
    assert!(DateTime::new(-4, 2, 29, 0, 0, 0).is_some());
    assert_eq!(DateTime::new(2023, 4, 31, 0, 0, 0), None);
    assert_eq!(DateTime::new(2023, 0, 1, 0, 0, 0), None);
    assert_eq!(DateTime::new(2023, 13, 1, 0, 0, 0), None);
    assert_eq!(DateTime::new(2023, 1, 0, 0, 0, 0), None);
    assert_eq!(DateTime::new(2023, 1, 32, 0, 0, 0), None);
    assert_eq!(DateTime::new(2023, 1, 1, 24, 0, 0), None);
    assert_eq!(DateTime::new(2023, 1, 1, 0, 60, 0), None);
    assert_eq!(DateTime::new(2023, 1, 1, 0, 0, 60), None);
    assert!(DateTime::new(262142, 12, 31, 0, 0, 0).is_some());
    assert_eq!(DateTime::new(262143, 1, 1, 0, 0, 0), None);
    assert!(DateTime::new(-262143, 1, 1, 0, 0, 0).is_some());
    assert_eq!(DateTime::new(-262144, 12, 31, 0, 0, 0), None);
}

#[test]
fn calendar_days_agree_with_month_lengths() {
    let lengths = [31, 28, 31, 30, 31, 30, 31, 31, 30, 31, 30, 31];
    for (i, &days) in lengths.iter().enumerate() {
        for day in 1..=31 {
            let date = DateTime::new(2026, i as u32 + 1, day, 1, 2, 3);
            assert_eq!(date.is_some(), day <= days);
        }
    }
}

#[test]
fn rtc_takes_values_in_range() {
    let good = RtcDateTime {
        year: 4095,
        month: 12,
        day: 31,
        weekday: Weekday::Sunday,
        hour: 23,
        minute: 59,
        second: 59,
        microsecond: 999_999,
    };
    assert_eq!(good.checked(), Some(good));
    // The RTC does not know how long a month is.
    let february = RtcDateTime { month: 2, ..good };
    assert_eq!(february.checked(), Some(february));
    assert_eq!(RtcDateTime { year: 4096, ..good }.checked(), None);
    assert_eq!(RtcDateTime { month: 0, ..good }.checked(), None);
    assert_eq!(RtcDateTime { month: 13, ..good }.checked(), None);
    assert_eq!(RtcDateTime { day: 0, ..good }.checked(), None);
    assert_eq!(RtcDateTime { day: 32, ..good }.checked(), None);
    assert_eq!(RtcDateTime { hour: 24, ..good }.checked(), None);
    assert_eq!(RtcDateTime { minute: 60, ..good }.checked(), None);
    assert_eq!(RtcDateTime { second: 60, ..good }.checked(), None);
    assert_eq!(RtcDateTime { microsecond: 1_000_000, ..good }.checked(), None);
}

#[test]
fn calendar_is_seeded_by_year() {
    let seed = clock::seed_needed(None).unwrap();
    assert_eq!((seed.year, seed.month, seed.day), (2026, 7, 7));
    assert_eq!((seed.hour, seed.minute, seed.second, seed.microsecond), (12, 0, 0, 0));
    assert_eq!(clock::seed_needed(Some(2000)), Some(seed));
    assert_eq!(clock::seed_needed(Some(2025)), Some(seed));
    assert_eq!(clock::seed_needed(Some(2026)), None);
    assert_eq!(clock::seed_needed(Some(2031)), None);
}

#[test]
fn seed_is_a_tuesday() {
    let seed = clock::seed_needed(None).unwrap();
    assert_eq!(seed.weekday, Weekday::Tuesday);
    let date = NaiveDate::from_ymd_opt(seed.year.into(), seed.month.into(), seed.day.into());
    assert_eq!(date.unwrap().weekday(), chrono::Weekday::Tue);
}

#[test]
fn led_steps() {
    assert_eq!(led(0), LedStep { led: Led::Low, wait_millis: 100 });
    assert_eq!(led(1), LedStep { led: Led::Toggle, wait_millis: 100 });
    assert_eq!(led(2), LedStep { led: Led::Toggle, wait_millis: 500 });
    assert_eq!(led(3), LedStep { led: Led::High, wait_millis: 100 });
    assert_eq!(led(4), led(0));
}

#[test]
fn bounces_are_dropped() {
    let mut button = Button { asleep: false, mode: 0 };
    assert_eq!(button.button(ButtonEvent::Edge), ButtonWait::Quiet { millis: 300 });
    assert_eq!(button.mode, 1);
    button.button(ButtonEvent::Edge);
    button.button(ButtonEvent::Edge);
    assert_eq!(button.mode, 1);
    assert_eq!(button.button(ButtonEvent::Quiet), ButtonWait::Edge);
    button.button(ButtonEvent::Edge);
    assert_eq!(button.mode, 2);
}

#[test]
fn rows_are_cleared_then_written() {
    assert_eq!(
        redraw_row(Color::Red, 26, "text", Color::Cyan),
        [
            Draw::Fill { x: 0, y: 26, width: 160, height: 22, color: Color::Red },
            Draw::Text { text: "text", x: 80, y: 44, ink: Color::Cyan },
        ]
    );
}

#[test]
fn rows_of_the_face() {
    let clear = |y| Draw::Fill { x: 0, y, width: 160, height: 22, color: Color::Black };
    assert_eq!(
        mode_row(Mode::Off, false),
        [clear(0), Draw::Text { text: "OFF", x: 80, y: 18, ink: Color::Yellow }]
    );
    assert_eq!(
        mode_row(Mode::Off, true),
        [clear(0), Draw::Text { text: "OFF  ", x: 80, y: 18, ink: Color::Yellow }]
    );
    assert_eq!(
        time_row(&mut [0; 8], 9, 5, 0),
        [clear(26), Draw::Text { text: "09:05:00", x: 80, y: 44, ink: Color::Cyan }]
    );
    assert_eq!(
        date_row(&mut [0; 10], 7, 12, 2026),
        [clear(52), Draw::Text { text: "07.12.2026", x: 80, y: 70, ink: Color::LightSkyBlue }]
    );
}

#[test]
fn face_draws_only_what_changed() {
    let mut face = Face::new();
    assert_eq!(
        face.refresh(Mode::Off, Some(at(7, 12, 0, 0))),
        Redraw { mode: Some(Mode::Off), time: Some((12, 0, 0)), date: Some((7, 7, 2026)) }
    );
    assert_eq!(face.refresh(Mode::Off, Some(at(7, 12, 0, 0))), NOTHING);
    assert_eq!(
        face.refresh(Mode::Off, Some(at(7, 12, 0, 1))),
        Redraw { time: Some((12, 0, 1)), ..NOTHING }
    );
    assert_eq!(
        face.refresh(Mode::Fast, Some(at(8, 12, 0, 1))),
        Redraw { mode: Some(Mode::Fast), date: Some((8, 7, 2026)), ..NOTHING }
    );
}

#[test]
fn time_is_current_past_midnight() {
    let mut face = Face::new();
    face.refresh(Mode::Off, Some(at(7, 23, 59, 58)));
    assert_eq!(
        face.refresh(Mode::Off, Some(at(8, 0, 0, 10))),
        Redraw { time: Some((0, 0, 10)), date: Some((8, 7, 2026)), ..NOTHING }
    );
}

#[test]
fn date_is_current_for_27_days() {
    // 27 days on is another day number, also over a short February.
    let february = DateTime { year: 2026, month: 2, day: 15, hour: 12, minute: 0, second: 0 };
    let mut face = Face::new();
    face.refresh(Mode::Off, Some(february));
    assert_eq!(
        face.refresh(Mode::Off, Some(DateTime { month: 3, day: 14, ..february })).date,
        Some((14, 3, 2026))
    );
    // 28 days on is not.
    let mut face = Face::new();
    face.refresh(Mode::Off, Some(february));
    assert_eq!(face.refresh(Mode::Off, Some(DateTime { month: 3, ..february })).date, None);
}

#[test]
fn face_without_a_clock() {
    let mut face = Face::new();
    assert_eq!(face.refresh_with_clock(Mode::Slow, None), NOTHING);
    assert_eq!(face.refresh(Mode::Slow, None), Redraw { mode: Some(Mode::Slow), ..NOTHING });
    assert_eq!(
        face.refresh_with_clock(Mode::Slow, Some(at(1, 2, 3, 4))),
        Redraw { mode: None, time: Some((2, 3, 4)), date: Some((1, 7, 2026)) }
    );
}

#[test]
fn clock_tree() {
    let c = config();
    let vco = c.hse / c.pll1.prediv * c.pll1.mul;
    assert_eq!(vco, 800_000_000);
    assert_eq!(c.sys, Sysclk::Pll1P);
    assert_eq!(
        c.pll1,
        Pll {
            source: PllSource::Hse,
            prediv: 5,
            mul: 160,
            fracn: None,
            divp: Some(2),
            divq: Some(8),
            divr: None,
        }
    );
    assert_eq!(vco / c.pll1.divp.unwrap(), 400_000_000);
    assert_eq!(vco / c.pll1.divq.unwrap(), 100_000_000);
    assert_eq!(vco / c.pll1.divp.unwrap() / c.ahb_pre / c.apb1_pre, 100_000_000);
    assert_eq!(HSE_FREQ / XCLK_PRESCALER, 12_500_000);
    assert_eq!(c.ls, LowSpeedClock::Default);
    let mut with_rtc = config_with_rtc();
    assert_eq!(with_rtc.ls, LowSpeedClock::Crystal);
    with_rtc.ls = LowSpeedClock::Default;
    assert_eq!(with_rtc, c);
}
