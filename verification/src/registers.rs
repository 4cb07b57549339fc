//! Register map and register recipes of the OV2640.
//!
//! A recipe is a list of (register, value) pairs, written in order. The same
//! register address means different things in each of the two banks; a write to
//! [`BANK_SEL`] selects the bank that the following pairs go to.

use vstd::prelude::*;

verus! {

/// 7-bit SCCB address of the OV2640.
pub const ADDR: u8 = 0x30;

/// Register that selects the active bank.
pub const BANK_SEL: u8 = 0xFF;
/// Bank of the image processor.
pub const BANK_DSP: u8 = 0x00;
/// Bank of the sensor array.
pub const BANK_SENSOR: u8 = 0x01;

/// Sensor bank: common control 7.
pub const REG_COM7: u8 = 0x12;
/// COM7: soft reset.
pub const COM7_SRST: u8 = 0x80;
/// COM7: colour-bar test pattern.
pub const COM7_COLOR_BAR: u8 = 0x02;
/// Sensor bank: product ID.
pub const REG_PID: u8 = 0x0A;
/// Sensor bank: version.
pub const REG_VER: u8 = 0x0B;
/// Product ID of the OV2640.
pub const PID_OV2640: u8 = 0x26;

/// DSP bank: dividers.
pub const REG_CTRLI: u8 = 0x50;
/// DSP bank: window width, in units of four pixels, low byte.
pub const REG_HSIZE: u8 = 0x51;
/// DSP bank: window height, in units of four pixels, low byte.
pub const REG_VSIZE: u8 = 0x52;
/// DSP bank: columns left of the window, low byte.
pub const REG_XOFFL: u8 = 0x53;
/// DSP bank: rows above the window, low byte.
pub const REG_YOFFL: u8 = 0x54;
/// DSP bank: high bits of window size and offsets.
pub const REG_VHYX: u8 = 0x55;
/// DSP bank: highest bit of the window width.
pub const REG_TEST: u8 = 0x57;
/// DSP bank: output width, in units of four pixels, low byte.
pub const REG_ZMOW: u8 = 0x5A;
/// DSP bank: output height, in units of four pixels, low byte.
pub const REG_ZMOH: u8 = 0x5B;
/// DSP bank: high bits of the output size.
pub const REG_ZMHH: u8 = 0x5C;
/// DSP bank: divider of the pixel clock.
pub const REG_DVP_SP: u8 = 0xD3;
/// DSP bank: reset lines.
pub const REG_RESET: u8 = 0xE0;

/// Baseline configuration: clocking, AGC/AEC, banding filter, lens and colour
/// correction matrices, gamma, AWB. Written once after the soft reset.
pub const DEFAULT_REGS: [(u8, u8); 174] = [
    (BANK_SEL, BANK_DSP),
    (0x2C, 0xFF),
    (0x2E, 0xDF),
    (BANK_SEL, BANK_SENSOR),
    (0x3C, 0x32),
    (0x11, 0x82), // CLKRC: PLL doubler on
    (0x09, 0x02), // COM2: 3x output drive
    (0x04, 0xF8), // REG04: h-flip + v-flip + VREF/HREF bits
    (0x13, 0xE5), // COM8: banding filter + AGC + AEC on
    (0x14, 0x48), // COM9: AGC ceiling 8x
    (0x2C, 0x0C),
    (0x33, 0x78),
    (0x3A, 0x33),
    (0x3B, 0xFB),
    (0x3E, 0x00),
    (0x43, 0x11),
    (0x16, 0x10),
    (0x39, 0x02),
    (0x35, 0x88),
    (0x22, 0x0A),
    (0x37, 0x40),
    (0x23, 0x00),
    (0x34, 0xA0), // ARCOM2
    (0x06, 0x02),
    (0x06, 0x88),
    (0x07, 0xC0),
    (0x0D, 0xB7),
    (0x0E, 0x01),
    (0x4C, 0x00),
    (0x4A, 0x81),
    (0x21, 0x99),
    (0x24, 0x40), // AEW
    (0x25, 0x38), // AEB
    (0x26, 0x82), // VV: AGC thresholds
    (0x5C, 0x00),
    (0x63, 0x00),
    (0x46, 0x22), // FLL
    (0x0C, 0x3A), // COM3: auto banding
    (0x5D, 0x55),
    (0x5E, 0x7D),
    (0x5F, 0x7D),
    (0x60, 0x55),
    (0x61, 0x70), // HISTO_LOW
    (0x62, 0x80), // HISTO_HIGH
    (0x7C, 0x05),
    (0x20, 0x80),
    (0x28, 0x30),
    (0x6C, 0x00),
    (0x6D, 0x80),
    (0x6E, 0x00),
    (0x70, 0x02),
    (0x71, 0x94),
    (0x73, 0xC1),
    (0x3D, 0x34),
    (0x12, 0x04), // COM7: UXGA + zoom enable (overridden by set_output_size)
    (0x5A, 0x57),
    (0x4E, 0x00), // COM25
    (0x4F, 0xBB), // BD50
    (0x50, 0x9C), // BD60
    (BANK_SEL, BANK_DSP),
    (0xE5, 0x7F),
    (0xF9, 0xC0), // MC_BIST: reset microcontroller, boot-ROM select
    (0x41, 0x24),
    (0xE0, 0x14), // RESET: JPEG + DVP
    (0x76, 0xFF),
    (0x33, 0xA0),
    (0x42, 0x20),
    (0x43, 0x18),
    (0x4C, 0x00),
    (0x87, 0xD0), // CTRL3: black/white pixel correction
    (0x88, 0x3F),
    (0xD7, 0x03),
    (0xD9, 0x10),
    (0xD3, 0x82), // R_DVP_SP: auto PCLK mode
    (0xC8, 0x08),
    (0xC9, 0x80),
    (0x7C, 0x00), // BPADDR/BPDATA: SDE indirect registers
    (0x7D, 0x00),
    (0x7C, 0x03),
    (0x7D, 0x48),
    (0x7D, 0x48),
    (0x7C, 0x08),
    (0x7D, 0x20),
    (0x7D, 0x10),
    (0x7D, 0x0E),
    (0x90, 0x00), // gamma curve
    (0x91, 0x0E),
    (0x91, 0x1A),
    (0x91, 0x31),
    (0x91, 0x5A),
    (0x91, 0x69),
    (0x91, 0x75),
    (0x91, 0x7E),
    (0x91, 0x88),
    (0x91, 0x8F),
    (0x91, 0x96),
    (0x91, 0xA3),
    (0x91, 0xAF),
    (0x91, 0xC4),
    (0x91, 0xD7),
    (0x91, 0xE8),
    (0x91, 0x20),
    (0x92, 0x00),
    (0x93, 0x06),
    (0x93, 0xE3),
    (0x93, 0x03),
    (0x93, 0x03),
    (0x93, 0x00),
    (0x93, 0x02),
    (0x93, 0x00),
    (0x93, 0x00),
    (0x93, 0x00),
    (0x93, 0x00),
    (0x93, 0x00),
    (0x93, 0x00),
    (0x93, 0x00),
    (0x96, 0x00),
    (0x97, 0x08),
    (0x97, 0x19),
    (0x97, 0x02),
    (0x97, 0x0C),
    (0x97, 0x24),
    (0x97, 0x30),
    (0x97, 0x28),
    (0x97, 0x26),
    (0x97, 0x02),
    (0x97, 0x98),
    (0x97, 0x80),
    (0x97, 0x00),
    (0x97, 0x00),
    (0xA4, 0x00),
    (0xA8, 0x00),
    (0xC5, 0x11),
    (0xC6, 0x51),
    (0xBF, 0x80),
    (0xC7, 0x10), // simple AWB
    (0xB6, 0x66), // color matrix
    (0xB8, 0xA5),
    (0xB7, 0x64),
    (0xB9, 0x7C),
    (0xB3, 0xAF),
    (0xB4, 0x97),
    (0xB5, 0xFF),
    (0xB0, 0xC5),
    (0xB1, 0x94),
    (0xB2, 0x0F),
    (0xC4, 0x5C),
    (0xA6, 0x00), // lens correction
    (0xA7, 0x20),
    (0xA7, 0xD8),
    (0xA7, 0x1B),
    (0xA7, 0x31),
    (0xA7, 0x00),
    (0xA7, 0x18),
    (0xA7, 0x20),
    (0xA7, 0xD8),
    (0xA7, 0x19),
    (0xA7, 0x31),
    (0xA7, 0x00),
    (0xA7, 0x18),
    (0xA7, 0x20),
    (0xA7, 0xD8),
    (0xA7, 0x19),
    (0xA7, 0x31),
    (0xA7, 0x00),
    (0xA7, 0x18),
    (0x7F, 0x00),
    (0xE5, 0x1F),
    (0xE1, 0x77),
    (0xDD, 0x7F),
    (0xC2, 0x0E), // CTRL0: YUV422 + YUV + RGB enable
    // OpenMV tweaks:
    (BANK_SEL, BANK_SENSOR),
    (0x0F, 0x4B),
    (0x03, 0x8F), // COM1
];

/// Switch the sensor timing to SVGA (800x600) and reset the DVP path.
pub const SVGA_REGS: [(u8, u8); 14] = [
    (BANK_SEL, BANK_SENSOR),
    (0x12, 0x40), // COM7: SVGA
    (0x03, 0x8A), // COM1
    (0x17, 0x11), // HSTART
    (0x18, 0x43), // HSTOP
    (0x19, 0x01), // VSTART (0x01 avoids garbage pixels, per OpenMV)
    (0x1A, 0x97), // VSTOP
    (0x32, 0x09), // REG32
    (BANK_SEL, BANK_DSP),
    (0xE0, 0x04), // RESET: DVP
    (0x8C, 0x00), // SIZEL for 800x600
    (0xC0, 0x64), // HSIZE8 = 800 >> 3
    (0xC1, 0x4B), // VSIZE8 = 600 >> 3
    (0x86, 0x3D), // CTRL2: DCW + SDE + UV avg/adj + CMX
];

/// DSP output format: RGB565, low byte first on the DVP bus.
pub const RGB565_REGS: [(u8, u8); 6] = [
    (BANK_SEL, BANK_DSP),
    (0x05, 0x00), // R_BYPASS: DSP enabled
    (0xDA, 0x09), // IMAGE_MODE: RGB565 + LSB first
    (0xD7, 0x03),
    (0xE0, 0x00), // RESET: none (re-enable everything)
    (0x05, 0x00),
];

/// A recipe writes a pair somewhere between two of its places.
pub open spec fn sets(
    recipe: Seq<(u8, u8)>,
    from: int,
    to: int,
    reg: u8,
    val: u8,
) -> bool {
    exists|i: int| from <= i < to && #[trigger] recipe[i] == (reg, val)
}

/// What the baseline is for, as far as the registers have names. In the sensor
/// bank: clock doubler, output drive, both flips, automatic exposure and gain with
/// banding filter and its ceiling, exposure limits, light frequency. In the bank
/// of the image processor: pixel correction, simple white balance, colour matrix,
/// and a gamma curve of 15 points that rises all the way.
pub proof fn law_baseline(k: int)
    ensures
        DEFAULT_REGS@[3] == (0xFFu8, 0x01u8),
        sets(DEFAULT_REGS@, 4, 59, 0x11, 0x82),
        sets(DEFAULT_REGS@, 4, 59, 0x09, 0x02),
        sets(DEFAULT_REGS@, 4, 59, 0x04, 0xF8),
        sets(DEFAULT_REGS@, 4, 59, 0x13, 0xE5),
        sets(DEFAULT_REGS@, 4, 59, 0x14, 0x48),
        sets(DEFAULT_REGS@, 4, 59, 0x24, 0x40),
        sets(DEFAULT_REGS@, 4, 59, 0x25, 0x38),
        sets(DEFAULT_REGS@, 4, 59, 0x26, 0x82),
        sets(DEFAULT_REGS@, 4, 59, 0x0C, 0x3A),
        sets(DEFAULT_REGS@, 4, 59, 0x12, 0x04),
        sets(DEFAULT_REGS@, 4, 59, 0x4F, 0xBB),
        sets(DEFAULT_REGS@, 4, 59, 0x50, 0x9C),
        DEFAULT_REGS@[59] == (0xFFu8, 0x00u8),
        sets(DEFAULT_REGS@, 60, 171, 0xE0, 0x14),
        sets(DEFAULT_REGS@, 60, 171, 0x87, 0xD0),
        sets(DEFAULT_REGS@, 60, 171, 0xD3, 0x82),
        sets(DEFAULT_REGS@, 60, 171, 0xC7, 0x10),
        sets(DEFAULT_REGS@, 60, 171, 0xB6, 0x66),
        sets(DEFAULT_REGS@, 60, 171, 0xC2, 0x0E),
        DEFAULT_REGS@[171] == (0xFFu8, 0x01u8),
        sets(DEFAULT_REGS@, 172, 174, 0x03, 0x8F),
        DEFAULT_REGS@[85] == (0x90u8, 0x00u8),
        86 <= k <= 101 ==> DEFAULT_REGS@[k].0 == 0x91,
        86 <= k < 100 ==> DEFAULT_REGS@[k].1 < DEFAULT_REGS@[k + 1].1,
{
    let d = DEFAULT_REGS@;
    assert(d[5] == (0x11u8, 0x82u8) && d[6] == (0x09u8, 0x02u8) && d[7] == (0x04u8, 0xF8u8) && d[8]
        == (0x13u8, 0xE5u8) && d[9] == (0x14u8, 0x48u8));
    assert(d[31] == (0x24u8, 0x40u8) && d[32] == (0x25u8, 0x38u8) && d[33] == (0x26u8, 0x82u8)
        && d[37] == (0x0Cu8, 0x3Au8));
    assert(d[54] == (0x12u8, 0x04u8) && d[57] == (0x4Fu8, 0xBBu8) && d[58] == (0x50u8, 0x9Cu8));
    assert(d[63] == (0xE0u8, 0x14u8) && d[69] == (0x87u8, 0xD0u8) && d[73] == (0xD3u8, 0x82u8));
    assert(d[135] == (0xC7u8, 0x10u8) && d[136] == (0xB6u8, 0x66u8) && d[170] == (0xC2u8, 0x0Eu8));
    assert(d[173] == (0x03u8, 0x8Fu8));
}

} // verus!
