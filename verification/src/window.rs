//! How an output size is cut out of the sensor's frame.
//!
//! The sensor always runs its 800x600 timing. An output picture is a window
//! of that frame, centred, and scaled down by a power of two.

use crate::registers::{
    REG_CTRLI, REG_DVP_SP, REG_HSIZE, REG_RESET, REG_TEST, REG_VHYX, REG_VSIZE, REG_XOFFL,
    REG_YOFFL, REG_ZMHH, REG_ZMOH, REG_ZMOW,
};
use vstd::prelude::*;
use vstd::std_specs::bits::axiom_u16_leading_zeros;

verus! {

/// Width of the sensor timing that every output size is cut from.
pub const SENSOR_WIDTH: u16 = 800;

/// Height of the sensor timing that every output size is cut from.
pub const SENSOR_HEIGHT: u16 = 600;

/// The sizes that can be had: not empty, multiples of four, no larger than the
/// sensor frame.
pub open spec fn drawable(width: int, height: int) -> bool {
    &&& width % 4 == 0
    &&& height % 4 == 0
    &&& 0 < width <= SENSOR_WIDTH
    &&& 0 < height <= SENSOR_HEIGHT
}

/// A window `div` times the picture lies within the sensor frame.
pub open spec fn fits(width: int, height: int, div: int) -> bool {
    width * div <= SENSOR_WIDTH && height * div <= SENSOR_HEIGHT
}

/// Base-two logarithm of the scale-down factor of a picture.
pub open spec fn log_divider(width: int, height: int) -> int {
    if fits(width, height, 8) {
        3
    } else if fits(width, height, 4) {
        2
    } else if fits(width, height, 2) {
        1
    } else {
        0
    }
}

/// Two to the power `log`, for the four logarithms in use.
pub open spec fn power(log: int) -> int {
    if log <= 0 {
        1
    } else if log == 1 {
        2
    } else if log == 2 {
        4
    } else {
        8
    }
}

/// Scale-down factor of a picture.
pub open spec fn divider(width: int, height: int) -> int {
    power(log_divider(width, height))
}

/// The part of the sensor frame that a picture shows.
#[derive(Clone, Copy, Debug, PartialEq, Eq, Structural)]
pub struct Window {
    /// Base-two logarithm of the scale-down factor.
    pub log_div: u16,
    /// Scale-down factor.
    pub div: u16,
    /// Width of the window in sensor pixels.
    pub width: u16,
    /// Height of the window in sensor pixels.
    pub height: u16,
    /// Columns left of the window.
    pub x: u16,
    /// Rows above the window.
    pub y: u16,
}

/// Window of a picture.
pub open spec fn window_of(width: int, height: int) -> Window {
    let div = divider(width, height);
    Window {
        log_div: log_divider(width, height) as u16,
        div: div as u16,
        width: (width * div) as u16,
        height: (height * div) as u16,
        x: ((SENSOR_WIDTH - width * div) / 2) as u16,
        y: ((SENSOR_HEIGHT - height * div) / 2) as u16,
    }
}

/// The highest set bit of a number: `15 - zeros` is the position of the bit.
proof fn lemma_highest_bit(n: u16, zeros: u32, log: u16)
    requires
        n > 0,
        zeros == n.leading_zeros(),
        log == 15 - zeros,
    ensures
        zeros <= 15,
        (1u16 << log) <= n,
        n < 2 * (1u16 << log),
{
    axiom_u16_leading_zeros(n);
    let above: u16 = (log + 1) as u16;
    assert(n >= (1u16 << log) && n < 2 * (1u16 << log)) by (bit_vector)
        requires
            log <= 15,
            above == log + 1,
            (n >> log) & 1u16 != 0u16,
            n >> above == 0,
    ;
}

/// `limit / size` reaches `div` exactly when `size * div` stays within `limit`.
proof fn lemma_quotient(limit: int, size: int, div: int)
    requires
        0 <= limit,
        0 < size,
        0 < div,
    ensures
        limit / size >= div <==> size * div <= limit,
{
    assert(limit / size >= div <==> size * div <= limit) by (nonlinear_arith)
        requires
            0 <= limit,
            0 < size,
            0 < div,
    ;
}

/// Computes the window of a picture: the largest power-of-two factor, eight at
/// most, whose window still lies within the sensor frame, and the offsets that
/// centre it.
pub fn window(width: u16, height: u16) -> (r: Window)
    requires
        drawable(width as int, height as int),
    ensures
        r == window_of(width as int, height as int),
{
    let columns: u16 = SENSOR_WIDTH / width;
    let rows: u16 = SENSOR_HEIGHT / height;
    let max_div: u16 = columns.min(rows);
    proof {
        lemma_quotient(800, width as int, 1);
        lemma_quotient(600, height as int, 1);
        lemma_quotient(800, width as int, 2);
        lemma_quotient(600, height as int, 2);
        lemma_quotient(800, width as int, 4);
        lemma_quotient(600, height as int, 4);
        lemma_quotient(800, width as int, 8);
        lemma_quotient(600, height as int, 8);
        lemma_highest_bit(
            max_div,
            max_div.leading_zeros(),
            (15 - max_div.leading_zeros()) as u16,
        );
    }
    let high_bit: u16 = 15 - max_div.leading_zeros() as u16;
    let log_div: u16 = high_bit.min(3);
    proof {
        assert(1u16 << 0u16 == 1 && 1u16 << 1u16 == 2 && 1u16 << 2u16 == 4 && 1u16 << 3u16 == 8)
            by (bit_vector);
        assert(3 <= high_bit <= 15 ==> (1u16 << high_bit) >= 8) by (bit_vector);
    }
    let div: u16 = 1u16 << log_div;
    let w_win: u16 = width * div;
    let h_win: u16 = height * div;
    Window {
        log_div,
        div,
        width: w_win,
        height: h_win,
        x: (SENSOR_WIDTH - w_win) / 2,
        y: (SENSOR_HEIGHT - h_win) / 2,
    }
}

/// Register writes that make the image processor show the window of a picture.
///
/// Sizes go in units of four pixels. An offset is split into its low byte and
/// the bits above it, which share one register. No window reaches 1024 pixels,
/// so the bits for larger sizes are zero.
pub open spec fn size_recipe(width: int, height: int) -> Seq<(u8, u8)> {
    let w = window_of(width, height);
    seq![
        (REG_CTRLI, (0x80 + 8 * w.log_div + w.log_div) as u8),
        (REG_HSIZE, (w.width / 4) as u8),
        (REG_VSIZE, (w.height / 4) as u8),
        (REG_XOFFL, (w.x % 256) as u8),
        (REG_YOFFL, (w.y % 256) as u8),
        (REG_VHYX, (16 * (w.y / 256) + w.x / 256) as u8),
        (REG_TEST, 0u8),
        (REG_ZMOW, (width / 4) as u8),
        (REG_ZMOH, (height / 4) as u8),
        (REG_ZMHH, 0u8),
        (REG_DVP_SP, w.div as u8),
        (REG_RESET, 0u8),
    ]
}

/// Computes the register writes for a picture.
pub fn size_regs(width: u16, height: u16) -> (r: [(u8, u8); 12])
    requires
        drawable(width as int, height as int),
    ensures
        r@ == size_recipe(width as int, height as int),
{
    let w: Window = window(width, height);
    let (w_win, h_win): (u16, u16) = (w.width, w.height);
    let (x_off, y_off): (u16, u16) = (w.x, w.y);
    proof {
        law_window_is_centred(width as int, height as int);
    }
    let log_div: u8 = w.log_div as u8;
    let ctrli: u8 = 0x80 | ((log_div & 0x3) << 3) | (log_div & 0x3);
    let vhyx: u16 = ((h_win >> 10) & 1) << 7 | ((y_off >> 8) & 3) << 4 | ((w_win >> 10) & 1) << 3
        | (x_off >> 8) & 3;
    let zmhh: u16 = ((height >> 10) & 1) << 2 | (width >> 10) & 3;
    let test: u16 = ((w_win >> 11) & 1) << 7;
    proof {
        assert(ctrli == 0x80 + 8 * log_div + log_div) by (bit_vector)
            requires
                log_div <= 3,
                ctrli == 0x80u8 | ((log_div & 0x3) << 3) | (log_div & 0x3),
        ;
        assert(vhyx == 16 * (y_off / 256) + x_off / 256 && vhyx < 256) by (bit_vector)
            requires
                w_win <= 800,
                h_win <= 600,
                x_off <= 400,
                y_off <= 300,
                vhyx == (((h_win >> 10) & 1) << 7 | ((y_off >> 8) & 3) << 4 | ((w_win >> 10) & 1)
                    << 3 | (x_off >> 8) & 3),
        ;
        assert(zmhh == 0 && test == 0) by (bit_vector)
            requires
                width <= 800,
                height <= 600,
                w_win <= 800,
                zmhh == (((height >> 10) & 1) << 2 | (width >> 10) & 3),
                test == ((w_win >> 11) & 1) << 7,
        ;
        assert(w_win >> 2 == w_win / 4 && h_win >> 2 == h_win / 4 && width >> 2 == width / 4
            && height >> 2 == height / 4) by (bit_vector);
        assert(x_off as u8 == x_off % 256 && y_off as u8 == y_off % 256) by (bit_vector);
    }
    let regs: [(u8, u8); 12] = [
        (REG_CTRLI, ctrli),
        (REG_HSIZE, (w_win >> 2) as u8),
        (REG_VSIZE, (h_win >> 2) as u8),
        (REG_XOFFL, x_off as u8),
        (REG_YOFFL, y_off as u8),
        (REG_VHYX, vhyx as u8),
        (REG_TEST, test as u8),
        (REG_ZMOW, (width >> 2) as u8),
        (REG_ZMOH, (height >> 2) as u8),
        (REG_ZMHH, zmhh as u8),
        (REG_DVP_SP, w.div as u8),
        (REG_RESET, 0x00),
    ];
    assert(regs@ =~= size_recipe(width as int, height as int));
    regs
}

/// The factor is a power of two, at most eight, whose window lies within the
/// sensor frame, and it is the largest such power.
pub proof fn law_divider_is_largest(width: int, height: int, log: int)
    requires
        drawable(width, height),
        0 <= log <= 3,
    ensures
        divider(width, height) == power(log_divider(width, height)),
        0 <= log_divider(width, height) <= 3,
        fits(width, height, divider(width, height)),
        fits(width, height, power(log)) ==> power(log) <= divider(width, height),
{
}

/// The window lies within the sensor frame with margins that are equal left and
/// right, and above and below, and it is the picture enlarged by the factor in
/// both directions, so the aspect ratio of the picture is kept.
pub proof fn law_window_is_centred(width: int, height: int)
    requires
        drawable(width, height),
    ensures
        ({
            let w = window_of(width, height);
            &&& w.x + w.width + w.x == SENSOR_WIDTH
            &&& w.y + w.height + w.y == SENSOR_HEIGHT
            &&& w.width == width * w.div
            &&& w.height == height * w.div
            &&& w.width * height == w.height * width
        }),
{
    let div = divider(width, height);
    law_divider_is_largest(width, height, 0);
    assert((width * div) % 2 == 0 && (height * div) % 2 == 0);
    assert(0 <= width * div <= 800 && 0 <= height * div <= 600);
    assert((width * div) * height == (height * div) * width) by (nonlinear_arith);
}

/// A size is drawable exactly when it is made of one to 200 columns and one to
/// 150 rows of blocks of four by four pixels.
pub proof fn law_sizes_are_blocks(width: int, height: int, columns: int, rows: int)
    ensures
        drawable(4 * columns, 4 * rows) <==> 1 <= columns <= 200 && 1 <= rows <= 150,
        drawable(width, height) ==> width == 4 * (width / 4) && height == 4 * (height / 4),
{
}

/// The window is the picture enlarged by one, two, four or eight, it is centred
/// in the frame of 800x600, and twice the factor would be more than eight or
/// give a window that does not fit.
pub proof fn law_window_fills_frame(width: int, height: int)
    requires
        width % 4 == 0 && 0 < width <= 800,
        height % 4 == 0 && 0 < height <= 600,
    ensures
        ({
            let w = window_of(width, height);
            &&& w.log_div == 0 && w.div == 1 || w.log_div == 1 && w.div == 2 || w.log_div == 2
                && w.div == 4 || w.log_div == 3 && w.div == 8
            &&& w.width == width * w.div && w.height == height * w.div
            &&& w.x + w.width + w.x == 800 && w.y + w.height + w.y == 600
            &&& w.div == 8 || 2 * w.width > 800 || 2 * w.height > 600
        }),
{
    law_divider_is_largest(width, height, 0);
    law_window_is_centred(width, height);
}

} // verus!
