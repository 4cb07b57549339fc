//! Board support for the WeAct Studio MiniSTM32H7xx (STM32H743VIT6): the clock
//! tree, in plain numbers.
//!
//! Pin map (schematic V1.2):
//!
//! | Role                | Pin  | Peripheral       |
//! |---------------------|------|------------------|
//! | Heartbeat LED       | PE3  | GPIO (active hi) |
//! | User button K1      | PC13 | GPIO/EXTI        |
//! | Camera XCLK         | PA8  | MCO1             |
//! | Camera SCCB SCL/SDA | PB8/PB9 | I2C1          |
//! | DCMI D0..D7         | PC6 PC7 PE0 PE1 PE4 PD3 PE5 PE6 | DCMI |
//! | DCMI VSYNC/HSYNC/PIXCLK | PB7 / PA4 / PA6 | DCMI |
//! | LCD SCK/MOSI        | PE12/PE14 | SPI4        |
//! | LCD CS / DC         | PE11/PE13 | GPIO        |
//! | LCD backlight       | PE10 | GPIO (active lo via P-MOSFET) |

use vstd::prelude::*;

verus! {

/// 25 MHz crystal (X1) on the WeAct board, in hertz.
pub const HSE_FREQ: u32 = 25_000_000;

/// The camera's clock is the crystal's, divided by this: 12.5 MHz.
pub const XCLK_PRESCALER: u32 = 2;

/// Frequency of the RTC crystal (X2), in hertz.
pub const LSE_FREQ: u32 = 32_768;

/// What the low-speed clock of the RTC comes from.
#[derive(Clone, Copy, Debug, PartialEq, Eq, Structural)]
pub enum LowSpeedClock {
    /// Whatever the chip starts with.
    Default,
    /// The crystal X2.
    Crystal,
}

/// How the crystal X1 is used.
#[derive(Clone, Copy, Debug, PartialEq, Eq, Structural)]
pub enum HseMode {
    /// It drives the oscillator of the chip.
    Oscillator,
    /// A clock comes from outside.
    Bypass,
}

/// What the system clock comes from.
#[derive(Clone, Copy, Debug, PartialEq, Eq, Structural)]
pub enum Sysclk {
    /// The crystal X1.
    Hse,
    /// Output P of the loop.
    Pll1P,
}

/// Voltage of the core.
#[derive(Clone, Copy, Debug, PartialEq, Eq, Structural)]
pub enum VoltageScale {
    Scale0,
    Scale1,
    Scale2,
    Scale3,
}

/// What a phase-locked loop is fed by.
#[derive(Clone, Copy, Debug, PartialEq, Eq, Structural)]
pub enum PllSource {
    /// The crystal X1.
    Hse,
    /// Nothing.
    Disabled,
}

/// A phase-locked loop: the input is divided, multiplied, and divided again for
/// the outputs P, Q and R. An output without a divider is switched off.
#[derive(Clone, Copy, Debug, PartialEq, Eq, Structural)]
pub struct Pll {
    pub source: PllSource,
    pub prediv: u32,
    pub mul: u32,
    /// Added to the multiplier, in parts of 8192.
    pub fracn: Option<u16>,
    pub divp: Option<u32>,
    pub divq: Option<u32>,
    pub divr: Option<u32>,
}

/// Clock tree. The bus clock is divided from the system clock, and the
/// peripheral bus clocks from the bus clock.
#[derive(Clone, Copy, Debug, PartialEq, Eq, Structural)]
pub struct Config {
    /// Frequency of the crystal X1, in hertz.
    pub hse: u32,
    pub hse_mode: HseMode,
    pub pll1: Pll,
    pub sys: Sysclk,
    pub ahb_pre: u32,
    pub apb1_pre: u32,
    pub apb2_pre: u32,
    pub apb3_pre: u32,
    pub apb4_pre: u32,
    pub voltage_scale: VoltageScale,
    pub ls: LowSpeedClock,
}

impl Config {
    /// Frequency at the input of the loop, in hertz.
    pub open spec fn pll_input(self) -> int {
        match self.pll1.source {
            PllSource::Hse => self.hse as int / self.pll1.prediv as int,
            PllSource::Disabled => 0,
        }
    }

    /// Frequency inside the loop, in hertz.
    pub open spec fn vco(self) -> int {
        match self.pll1.fracn {
            Some(fracn) => self.pll_input() * (8192 * self.pll1.mul + fracn) / 8192,
            None => self.pll_input() * self.pll1.mul,
        }
    }

    /// Frequency of an output of the loop with this divider, in hertz.
    pub open spec fn pll_output(self, divider: Option<u32>) -> int {
        match divider {
            Some(d) => self.vco() / d as int,
            None => 0,
        }
    }

    /// System clock, in hertz.
    pub open spec fn sysclk(self) -> int {
        match self.sys {
            Sysclk::Hse => self.hse as int,
            Sysclk::Pll1P => self.pll_output(self.pll1.divp),
        }
    }

    /// Kernel clock of the peripherals, in hertz.
    pub open spec fn kernel(self) -> int {
        self.pll_output(self.pll1.divq)
    }

    /// Bus clock, in hertz.
    pub open spec fn ahb(self) -> int {
        self.sysclk() / self.ahb_pre as int
    }

    /// Clock of a peripheral bus with this divider, in hertz.
    pub open spec fn apb(self, pre: u32) -> int {
        self.ahb() / pre as int
    }

    /// The clock tree of this board: 400 MHz system clock, 200 MHz bus clock,
    /// 100 MHz on the peripheral buses and for the kernel clock. Output R of the
    /// loop is off.
    pub open spec fn runs_at_400_mhz(self) -> bool {
        &&& self.hse == HSE_FREQ
        &&& self.pll_input() == 5_000_000
        &&& self.vco() == 800_000_000
        &&& self.sysclk() == 400_000_000
        &&& self.kernel() == 100_000_000
        &&& self.pll_output(self.pll1.divr) == 0
        &&& self.ahb() == 200_000_000
        &&& self.apb(self.apb1_pre) == 100_000_000
        &&& self.apb(self.apb2_pre) == 100_000_000
        &&& self.apb(self.apb3_pre) == 100_000_000
        &&& self.apb(self.apb4_pre) == 100_000_000
    }
}

/// Dividers and multiplier of the board.
pub open spec fn base_config() -> Config {
    Config {
        hse: HSE_FREQ,
        hse_mode: HseMode::Oscillator,
        pll1: Pll {
            source: PllSource::Hse,
            prediv: 5,
            mul: 160,
            fracn: None,
            divp: Some(2),
            divq: Some(8),
            divr: None,
        },
        sys: Sysclk::Pll1P,
        ahb_pre: 2,
        apb1_pre: 2,
        apb2_pre: 2,
        apb3_pre: 2,
        apb4_pre: 2,
        voltage_scale: VoltageScale::Scale1,
        ls: LowSpeedClock::Default,
    }
}

/// Clock tree: HSE 25 MHz -> PLL1 -> 400 MHz sysclk, 200 MHz AHB, 100 MHz APB.
pub fn config() -> (r: Config)
    ensures
        r == base_config(),
        r.runs_at_400_mhz(),
{
    Config {
        hse: HSE_FREQ,
        hse_mode: HseMode::Oscillator,
        // 25 / 5 = 5 MHz into the loop, 5 * 160 = 800 MHz inside it.
        pll1: Pll {
            source: PllSource::Hse,
            prediv: 5,
            mul: 160,
            fracn: None,
            divp: Some(2),
            divq: Some(8),
            divr: None,
        },
        sys: Sysclk::Pll1P,
        ahb_pre: 2,
        apb1_pre: 2,
        apb2_pre: 2,
        apb3_pre: 2,
        apb4_pre: 2,
        voltage_scale: VoltageScale::Scale1,
        ls: LowSpeedClock::Default,
    }
}

/// Same clock tree plus the RTC fed by the 32.768 kHz crystal (X2). Split out
/// because waiting for the crystal to start takes a moment and only the clock
/// firmware needs it.
pub fn config_with_rtc() -> (r: Config)
    ensures
        r == (Config { ls: LowSpeedClock::Crystal, ..base_config() }),
        r.runs_at_400_mhz(),
{
    let mut config: Config = config();
    config.ls = LowSpeedClock::Crystal;
    config
}

/// The camera is clocked at 12.5 MHz.
pub proof fn law_camera_clock()
    ensures
        HSE_FREQ / XCLK_PRESCALER == 12_500_000,
{
}

/// From the crystal of 25 MHz to the clocks, by the numbers of the configuration:
/// five million hertz into the loop, 160 times that inside it, half of that for
/// the system, an eighth for the kernel clock, half of the system clock on the
/// bus, and half of that on each peripheral bus.
pub proof fn law_clock_tree()
    ensures
        ({
            let c = base_config();
            &&& c.hse == 25_000_000 && c.hse_mode == HseMode::Oscillator
            &&& c.pll1.source == PllSource::Hse && c.pll1.fracn is None && c.pll1.divr is None
            &&& c.pll1.prediv * 5_000_000 == c.hse
            &&& 5_000_000 * c.pll1.mul == 800_000_000
            &&& c.pll1.divp matches Some(p) && p * 400_000_000 == 800_000_000
            &&& c.pll1.divq matches Some(q) && q * 100_000_000 == 800_000_000
            &&& c.sys == Sysclk::Pll1P
            &&& c.ahb_pre * 200_000_000 == 400_000_000
            &&& c.apb1_pre * 100_000_000 == 200_000_000
            &&& c.apb2_pre * 100_000_000 == 200_000_000
            &&& c.apb3_pre * 100_000_000 == 200_000_000
            &&& c.apb4_pre * 100_000_000 == 200_000_000
            &&& c.voltage_scale == VoltageScale::Scale1
            &&& c.ls == LowSpeedClock::Default
        }),
        XCLK_PRESCALER * 12_500_000 == 25_000_000,
{
}

} // verus!
