//! What the register writes of the camera driver leave in the sensor.
//!
//! The sensor is taken as two banks of registers that keep what is written to
//! them, and a bank select. This is a model of the programming interface: what
//! the silicon changes by itself is not part of it.

use crate::ov2640::{color_bar, script, writes, Job, Request};
use crate::registers::{
    BANK_DSP, BANK_SEL, BANK_SENSOR, COM7_COLOR_BAR, DEFAULT_REGS, REG_COM7, REG_CTRLI, REG_DVP_SP,
    REG_HSIZE, REG_TEST, REG_VHYX, REG_VSIZE, REG_XOFFL, REG_YOFFL, REG_ZMHH, REG_ZMOH, REG_ZMOW,
    RGB565_REGS, SVGA_REGS,
};
use crate::window::{
    drawable, law_window_fills_frame, law_window_is_centred, size_recipe, window_of, Window,
};
use vstd::prelude::*;

verus! {

/// The registers of the sensor, each under its bank and address, and the bank
/// that is selected.
#[verifier::ext_equal]
pub struct RegisterFile {
    pub bank: u8,
    pub regs: Map<(u8, u8), u8>,
}

impl RegisterFile {
    /// The registers after a request has been carried out.
    pub open spec fn after(self, request: Request) -> RegisterFile {
        match request {
            Request::Write { reg, val } => if reg == BANK_SEL {
                RegisterFile { bank: val, regs: self.regs }
            } else {
                RegisterFile { bank: self.bank, regs: self.regs.insert((self.bank, reg), val) }
            },
            _ => self,
        }
    }

    /// The registers after several requests have been carried out, in order.
    pub open spec fn after_all(self, requests: Seq<Request>) -> RegisterFile
        decreases requests.len(),
    {
        if requests.len() == 0 {
            self
        } else {
            self.after_all(requests.drop_last()).after(requests.last())
        }
    }

    /// A register holds a value.
    pub open spec fn holds(self, bank: u8, reg: u8, val: u8) -> bool {
        self.regs.contains_key((bank, reg)) && self.regs[(bank, reg)] == val
    }
}

/// The request does not select a bank.
pub open spec fn keeps_bank(request: Request) -> bool {
    request matches Request::Write { reg, .. } ==> reg != BANK_SEL
}

/// The request does not write the register.
pub open spec fn spares(request: Request, reg: u8) -> bool {
    request matches Request::Write { reg: other, .. } ==> other != reg
}

/// Carrying out two lists of requests is carrying out the one list.
pub proof fn lemma_after_both(file: RegisterFile, first: Seq<Request>, second: Seq<Request>)
    ensures
        file.after_all(first + second) == file.after_all(first).after_all(second),
    decreases second.len(),
{
    if second.len() == 0 {
        assert(first + second =~= first);
    } else {
        lemma_after_both(file, first, second.drop_last());
        assert((first + second).drop_last() =~= first + second.drop_last());
    }
}

/// The bank is the one selected by the last request that selects one.
proof fn lemma_bank(file: RegisterFile, requests: Seq<Request>, k: int, bank: u8)
    requires
        0 <= k < requests.len(),
        requests[k] == (Request::Write { reg: BANK_SEL, val: bank }),
        forall|i: int| k < i < requests.len() ==> keeps_bank(#[trigger] requests[i]),
    ensures
        file.after_all(requests).bank == bank,
    decreases requests.len(),
{
    if k < requests.len() - 1 {
        assert(keeps_bank(requests[requests.len() - 1]));
        lemma_bank(file, requests.drop_last(), k, bank);
    }
}

/// Requests that select no bank leave the bank as it is.
proof fn lemma_bank_kept(file: RegisterFile, requests: Seq<Request>)
    requires
        forall|i: int| 0 <= i < requests.len() ==> keeps_bank(#[trigger] requests[i]),
    ensures
        file.after_all(requests).bank == file.bank,
    decreases requests.len(),
{
    if 0 < requests.len() {
        assert(keeps_bank(requests[requests.len() - 1]));
        lemma_bank_kept(file, requests.drop_last());
    }
}

/// A register of the selected bank holds the last value written to it.
proof fn lemma_last_write(file: RegisterFile, requests: Seq<Request>, k: int, reg: u8, val: u8)
    requires
        0 <= k < requests.len(),
        requests[k] == (Request::Write { reg, val }),
        forall|i: int| 0 <= i < requests.len() ==> keeps_bank(#[trigger] requests[i]),
        forall|i: int| k < i < requests.len() ==> spares(#[trigger] requests[i], reg),
    ensures
        file.after_all(requests).holds(file.bank, reg, val),
    decreases requests.len(),
{
    assert(keeps_bank(requests[requests.len() - 1]));
    lemma_bank_kept(file, requests.drop_last());
    if k < requests.len() - 1 {
        assert(spares(requests[requests.len() - 1], reg));
        lemma_last_write(file, requests.drop_last(), k, reg, val);
    }
}

/// The window that the size registers of the image processor describe: sizes in
/// units of four pixels and offsets in pixels, each with the bits above its low
/// byte in the registers VHYX and TEST, and the horizontal divider.
pub open spec fn window_in(file: RegisterFile) -> Window {
    let vhyx = file.regs[(BANK_DSP, REG_VHYX)];
    let log_div = (file.regs[(BANK_DSP, REG_CTRLI)] % 8) as u16;
    Window {
        log_div,
        div: file.regs[(BANK_DSP, REG_DVP_SP)] as u16,
        width: (4 * (file.regs[(BANK_DSP, REG_HSIZE)] + 256 * (vhyx / 8 % 2) + 512 * (file.regs[(
            BANK_DSP,
            REG_TEST,
        )] / 128))) as u16,
        height: (4 * (file.regs[(BANK_DSP, REG_VSIZE)] + 256 * (vhyx / 128))) as u16,
        x: (file.regs[(BANK_DSP, REG_XOFFL)] + 256 * (vhyx % 4)) as u16,
        y: (file.regs[(BANK_DSP, REG_YOFFL)] + 256 * (vhyx / 16 % 4)) as u16,
    }
}

/// Base-two logarithm of the vertical divider that the size registers describe.
pub open spec fn vertical_log_in(file: RegisterFile) -> int {
    file.regs[(BANK_DSP, REG_CTRLI)] as int / 8 % 8
}

/// The output width that the size registers of the image processor describe.
pub open spec fn output_width_in(file: RegisterFile) -> int {
    4 * (file.regs[(BANK_DSP, REG_ZMOW)] + 256 * (file.regs[(BANK_DSP, REG_ZMHH)] % 4))
}

/// The output height that the size registers of the image processor describe.
pub open spec fn output_height_in(file: RegisterFile) -> int {
    4 * (file.regs[(BANK_DSP, REG_ZMOH)] + 256 * (file.regs[(BANK_DSP, REG_ZMHH)] / 4 % 2))
}

/// The SVGA recipe leaves the image processor's bank selected, whatever was
/// selected before, so the size registers that follow it go there.
pub proof fn law_svga_recipe_selects_dsp(file: RegisterFile)
    ensures
        file.after_all(writes(SVGA_REGS@)).bank == BANK_DSP,
{
    lemma_bank(file, writes(SVGA_REGS@), 8, BANK_DSP);
}

/// Setting an output size programs exactly the window of that size: the size
/// registers, read back, give the centred window, scaled down alike across and
/// down, and the output size, in the bank of the image processor, whatever the
/// sensor held before.
pub proof fn law_output_size_programs_window(file: RegisterFile, width: u16, height: u16)
    requires
        drawable(width as int, height as int),
    ensures
        ({
            let end = file.after_all(script(Job::OutputSize { width, height }, Seq::empty()));
            &&& end.bank == BANK_DSP
            &&& window_in(end) == window_of(width as int, height as int)
            &&& vertical_log_in(end) == window_in(end).log_div
            &&& end.regs[(BANK_DSP, REG_CTRLI)] >= 0x80
            &&& output_width_in(end) == width
            &&& output_height_in(end) == height
        }),
{
    let (w, h) = (width as int, height as int);
    let recipe = size_recipe(w, h);
    let sizes = writes(recipe);
    let mid = file.after_all(writes(SVGA_REGS@));
    lemma_after_both(file, writes(SVGA_REGS@), sizes);
    law_svga_recipe_selects_dsp(file);
    law_window_is_centred(w, h);
    assert forall|i: int| 0 <= i < sizes.len() implies keeps_bank(#[trigger] sizes[i]) by {}
    lemma_bank_kept(mid, sizes);
    assert forall|k: int| 0 <= k < 12 implies mid.after_all(sizes).holds(
        BANK_DSP,
        (#[trigger] recipe[k]).0,
        recipe[k].1,
    ) by {
        assert forall|i: int| k < i < sizes.len() implies spares(
            #[trigger] sizes[i],
            recipe[k].0,
        ) by {}
        lemma_last_write(mid, sizes, k, recipe[k].0, recipe[k].1);
    }
    let end = mid.after_all(sizes);
    assert(recipe[0].0 == REG_CTRLI && recipe[1].0 == REG_HSIZE && recipe[2].0 == REG_VSIZE
        && recipe[3].0 == REG_XOFFL && recipe[4].0 == REG_YOFFL && recipe[5].0 == REG_VHYX
        && recipe[6].0 == REG_TEST && recipe[7].0 == REG_ZMOW && recipe[8].0 == REG_ZMOH
        && recipe[9].0 == REG_ZMHH && recipe[10].0 == REG_DVP_SP);
    let win = window_of(w, h);
    assert(win.width % 4 == 0 && win.height % 4 == 0);
}

/// The baseline configuration ends in the sensor bank and the pixel format in
/// the bank of the image processor.
pub proof fn law_bank_after_recipes(file: RegisterFile)
    ensures
        file.after_all(script(Job::Init, Seq::empty())).bank == BANK_SENSOR,
        file.after_all(script(Job::PixelFormatRgb565, Seq::empty())).bank == BANK_DSP,
{
    let init = script(Job::Init, Seq::empty());
    let n = 3 + DEFAULT_REGS@.len() - 3;
    lemma_bank(file, init, n as int, BANK_SENSOR);
    lemma_bank(file, script(Job::PixelFormatRgb565, Seq::empty()), 0, BANK_DSP);
}

/// Switching the test pattern sets or clears its bit in COM7 and changes no
/// other bit and no other register.
pub proof fn law_colorbar_changes_one_bit(file: RegisterFile, enable: bool)
    ensures
        ({
            let com7 = file.regs[(BANK_SENSOR, REG_COM7)];
            let new = color_bar(com7, enable);
            &&& file.after_all(script(Job::ColorBar { enable }, seq![com7])) == (RegisterFile {
                bank: BANK_SENSOR,
                regs: file.regs.insert((BANK_SENSOR, REG_COM7), new),
            })
            &&& new & !COM7_COLOR_BAR == com7 & !COM7_COLOR_BAR
            &&& new & COM7_COLOR_BAR == (if enable {
                COM7_COLOR_BAR
            } else {
                0
            })
        }),
{
    let com7 = file.regs[(BANK_SENSOR, REG_COM7)];
    let requests = script(Job::ColorBar { enable }, seq![com7]);
    reveal_with_fuel(RegisterFile::after_all, 4);
    assert((com7 | 2) & !2u8 == com7 & !2u8 && (com7 & !2u8) & !2u8 == com7 & !2u8 && (com7 | 2) & 2
        == 2 && (com7 & !2u8) & 2 == 0) by (bit_vector);
}

/// Switching the test pattern off undoes switching it on, on a sensor that did
/// not show it.
pub proof fn law_colorbar_off_undoes_on(com7: u8)
    requires
        com7 & COM7_COLOR_BAR == 0,
    ensures
        color_bar(color_bar(com7, true), false) == com7,
{
    assert(com7 & 2 == 0 ==> (com7 | 2) & !2u8 == com7) by (bit_vector);
}

/// What the size registers of the image processor hold after an output size has
/// been set, read bit by bit: both dividers are the same power of two, the one
/// of the pixel clock is that power, the window is the output enlarged by it and
/// centred in the frame of 800x600, no larger power would do, and no other bit
/// of these registers is set.
pub proof fn law_size_registers(file: RegisterFile, width: u16, height: u16)
    requires
        width % 4 == 0 && 0 < width <= 800,
        height % 4 == 0 && 0 < height <= 600,
    ensures
        ({
            let end = file.after_all(script(Job::OutputSize { width, height }, Seq::empty()));
            let ctrli = end.regs[(0u8, 0x50u8)];
            let vhyx = end.regs[(0u8, 0x55u8)];
            let zmhh = end.regs[(0u8, 0x5Cu8)];
            let div = end.regs[(0u8, 0xD3u8)];
            let across = ctrli % 8;
            let down = ctrli / 8 % 8;
            let w = 4 * (end.regs[(0u8, 0x51u8)] + 256 * (vhyx / 8 % 2) + 512 * (end.regs[(
                0u8,
                0x57u8,
            )] / 128));
            let h = 4 * (end.regs[(0u8, 0x52u8)] + 256 * (vhyx / 128));
            let x = end.regs[(0u8, 0x53u8)] + 256 * (vhyx % 4);
            let y = end.regs[(0u8, 0x54u8)] + 256 * (vhyx / 16 % 4);
            &&& end.bank == 0
            &&& across == down
            &&& ctrli / 64 == 2
            &&& across == 0 && div == 1 || across == 1 && div == 2 || across == 2 && div == 4
                || across == 3 && div == 8
            &&& w == width * div && h == height * div
            &&& x + w + x == 800 && y + h + y == 600
            &&& div == 8 || 2 * w > 800 || 2 * h > 600
            &&& 4 * (end.regs[(0u8, 0x5Au8)] + 256 * (zmhh % 4)) == width
            &&& 4 * (end.regs[(0u8, 0x5Bu8)] + 256 * (zmhh / 4 % 2)) == height
            &&& vhyx / 4 % 2 == 0 && vhyx / 64 % 2 == 0 && zmhh / 8 == 0
            &&& end.regs[(0u8, 0x57u8)] % 128 == 0
            &&& end.regs[(0u8, 0xE0u8)] == 0
        }),
{
    let (w, h) = (width as int, height as int);
    let recipe = size_recipe(w, h);
    let sizes = writes(recipe);
    let mid = file.after_all(writes(SVGA_REGS@));
    lemma_after_both(file, writes(SVGA_REGS@), sizes);
    law_svga_recipe_selects_dsp(file);
    law_window_fills_frame(w, h);
    lemma_bank_kept(mid, sizes);
    assert forall|k: int| 0 <= k < 12 implies mid.after_all(sizes).holds(
        0,
        (#[trigger] recipe[k]).0,
        recipe[k].1,
    ) by {
        assert forall|i: int| k < i < sizes.len() implies spares(
            #[trigger] sizes[i],
            recipe[k].0,
        ) by {}
        lemma_last_write(mid, sizes, k, recipe[k].0, recipe[k].1);
    }
    assert(recipe[0].0 == 0x50 && recipe[1].0 == 0x51 && recipe[2].0 == 0x52 && recipe[3].0 == 0x53
        && recipe[4].0 == 0x54 && recipe[5].0 == 0x55 && recipe[6].0 == 0x57 && recipe[7].0 == 0x5A
        && recipe[8].0 == 0x5B && recipe[9].0 == 0x5C && recipe[10].0 == 0xD3 && recipe[11].0
        == 0xE0);
    let win = window_of(w, h);
    assert(win.width % 4 == 0 && win.height % 4 == 0);
}

/// Setting an output size runs the sensor array at 800x600: its window is 50
/// units of 16 columns wide and 150 units of four rows high, and the image
/// processor is told of 100 units of eight columns and 75 of eight rows.
pub proof fn law_sensor_runs_svga(file: RegisterFile, width: u16, height: u16)
    requires
        width % 4 == 0 && 0 < width <= 800,
        height % 4 == 0 && 0 < height <= 600,
    ensures
        ({
            let end = file.after_all(script(Job::OutputSize { width, height }, Seq::empty()));
            &&& end.regs[(1u8, 0x12u8)] == 0x40
            &&& 16 * (end.regs[(1u8, 0x18u8)] - end.regs[(1u8, 0x17u8)]) == 800
            &&& 4 * (end.regs[(1u8, 0x1Au8)] - end.regs[(1u8, 0x19u8)]) == 600
            &&& end.regs[(1u8, 0x19u8)] == 1
            &&& end.regs[(1u8, 0x17u8)] == 0x11
            &&& end.regs[(1u8, 0x03u8)] == 0x8A && end.regs[(1u8, 0x32u8)] == 0x09
            &&& 8 * end.regs[(0u8, 0xC0u8)] == 800 && 8 * end.regs[(0u8, 0xC1u8)] == 600
            &&& end.regs[(0u8, 0x8Cu8)] == 0 && end.regs[(0u8, 0x86u8)] == 0x3D
        }),
{
    let sizes = writes(size_recipe(width as int, height as int));
    let svga = writes(SVGA_REGS@);
    lemma_after_both(file, svga, sizes);
    law_svga_recipe_selects_dsp(file);
    let array = svga.take(8);
    let dsp = svga.skip(8);
    assert(svga =~= array + dsp);
    lemma_after_both(file, array, dsp);
    let a = file.after_all(array);
    let d = a.after_all(dsp);
    lemma_segment(file, array, 1, 1);
    lemma_segment(file, array, 1, 2);
    lemma_segment(file, array, 1, 3);
    lemma_segment(file, array, 1, 4);
    lemma_segment(file, array, 1, 5);
    lemma_segment(file, array, 1, 6);
    lemma_segment(file, array, 1, 7);
    lemma_segment(a, dsp, 0, 2);
    lemma_segment(a, dsp, 0, 3);
    lemma_segment(a, dsp, 0, 4);
    lemma_segment(a, dsp, 0, 5);
    lemma_spared(d, sizes, 0xC0);
    lemma_spared(d, sizes, 0xC1);
    lemma_spared(d, sizes, 0x8C);
    lemma_spared(d, sizes, 0x86);
    lemma_other_bank(d, sizes, 1);
}

/// Requests that begin with the selection of a bank and select no other: write
/// number `k`, if none of the same register follows, is what the register holds
/// in the end, and the other banks stay as they are.
proof fn lemma_segment(file: RegisterFile, requests: Seq<Request>, bank: u8, k: int)
    requires
        0 < k < requests.len(),
        requests[0] == (Request::Write { reg: BANK_SEL, val: bank }),
        requests[k] is Write,
        forall|i: int| 0 < i < requests.len() ==> keeps_bank(#[trigger] requests[i]),
        forall|i: int|
            k < i < requests.len() ==> spares(#[trigger] requests[i], requests[k]->Write_reg),
    ensures
        file.after_all(requests).bank == bank,
        file.after_all(requests).holds(bank, requests[k]->Write_reg, requests[k]->Write_val),
        forall|other: u8, reg: u8|
            other != bank ==> #[trigger] file.after_all(requests).regs[(other, reg)]
                == file.regs[(other, reg)],
{
    let first = requests.take(1);
    let rest = requests.skip(1);
    assert(requests =~= first + rest);
    lemma_after_both(file, first, rest);
    assert(first.drop_last() =~= Seq::empty());
    let mid = file.after_all(first);
    reveal_with_fuel(RegisterFile::after_all, 2);
    assert(mid == file.after(requests[0]));
    assert forall|i: int| 0 <= i < rest.len() implies keeps_bank(#[trigger] rest[i]) by {
        assert(rest[i] == requests[i + 1]);
    }
    assert forall|i: int| k - 1 < i < rest.len() implies spares(
        #[trigger] rest[i],
        requests[k]->Write_reg,
    ) by {
        assert(rest[i] == requests[i + 1]);
    }
    lemma_bank_kept(mid, rest);
    lemma_last_write(mid, rest, k - 1, requests[k]->Write_reg, requests[k]->Write_val);
    assert forall|other: u8, reg: u8| other != bank implies #[trigger] file.after_all(
        requests,
    ).regs[(other, reg)] == file.regs[(other, reg)] by {
        lemma_other_bank(mid, rest, other);
    }
}

/// Requests that select no bank leave the other banks as they are.
proof fn lemma_other_bank(file: RegisterFile, requests: Seq<Request>, other: u8)
    requires
        other != file.bank,
        forall|i: int| 0 <= i < requests.len() ==> keeps_bank(#[trigger] requests[i]),
    ensures
        forall|reg: u8|
            #[trigger] file.after_all(requests).regs[(other, reg)] == file.regs[(other, reg)],
    decreases requests.len(),
{
    if 0 < requests.len() {
        assert(keeps_bank(requests[requests.len() - 1]));
        lemma_other_bank(file, requests.drop_last(), other);
        lemma_bank_kept(file, requests.drop_last());
    }
}

/// A register that no request writes stays as it is.
pub proof fn lemma_spared(file: RegisterFile, requests: Seq<Request>, reg: u8)
    requires
        forall|i: int| 0 <= i < requests.len() ==> spares(#[trigger] requests[i], reg),
    ensures
        forall|bank: u8|
            #[trigger] file.after_all(requests).regs[(bank, reg)] == file.regs[(bank, reg)],
    decreases requests.len(),
{
    if 0 < requests.len() {
        let last = requests[requests.len() - 1];
        let before = file.after_all(requests.drop_last());
        assert(spares(last, reg));
        lemma_spared(file, requests.drop_last(), reg);
        assert forall|bank: u8| #[trigger] file.after_all(requests).regs[(bank, reg)]
            == file.regs[(bank, reg)] by {
            assert(before.after(last).regs[(bank, reg)] == before.regs[(bank, reg)]);
        }
    }
}

/// Selecting the pixel format leaves the image processor on, giving RGB565 with
/// the low byte first, and out of reset.
pub proof fn law_pixel_format_registers(file: RegisterFile)
    ensures
        ({
            let end = file.after_all(script(Job::PixelFormatRgb565, Seq::empty()));
            &&& end.bank == 0
            &&& end.regs[(0u8, 0xDAu8)] == 0x08 + 0x01
            &&& end.regs[(0u8, 0x05u8)] == 0
            &&& end.regs[(0u8, 0xD7u8)] == 0x03
            &&& end.regs[(0u8, 0xE0u8)] == 0
        }),
{
    let requests = script(Job::PixelFormatRgb565, Seq::empty());
    lemma_segment(file, requests, 0, 2);
    lemma_segment(file, requests, 0, 3);
    lemma_segment(file, requests, 0, 4);
    lemma_segment(file, requests, 0, 5);
}

/// Switching the test pattern touches bit 1 of register 0x12 of the sensor bank:
/// it is the wanted one in the end, and every other bit of that register and
/// every other register is as before.
pub proof fn law_colorbar_is_bit_one(file: RegisterFile, enable: bool, key: (u8, u8))
    ensures
        ({
            let com7 = file.regs[(1u8, 0x12u8)];
            let end = file.after_all(script(Job::ColorBar { enable }, seq![com7]));
            let new = end.regs[(1u8, 0x12u8)];
            &&& end.bank == 1
            &&& new / 4 == com7 / 4 && new % 2 == com7 % 2
            &&& (new / 2) % 2 == (if enable {
                1u8
            } else {
                0
            })
            &&& key != (1u8, 0x12u8) ==> end.regs[key] == file.regs[key]
        }),
{
    let com7 = file.regs[(1u8, 0x12u8)];
    law_colorbar_changes_one_bit(file, enable);
    assert((com7 | 2) / 4 == com7 / 4 && (com7 | 2) % 2 == com7 % 2 && (com7 | 2) / 2 % 2 == 1)
        by (bit_vector);
    assert((com7 & !2u8) / 4 == com7 / 4 && (com7 & !2u8) % 2 == com7 % 2 && (com7 & !2u8) / 2 % 2
        == 0) by (bit_vector);
}

} // verus!
