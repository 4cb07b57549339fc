//! Viewfinder on the onboard 0.96" ST7735 (160x80 visible pixels).
//!
//! The camera streams 320x160 RGB565 frames; [`draw_frame`] takes every second
//! pixel of every second row. The panel is also the firmware's error console: a
//! sensor that fails to probe is reported on screen.

use vstd::prelude::*;

verus! {

/// Visible width of the panel.
pub const LCD_W: usize = 160;

/// Visible height of the panel.
pub const LCD_H: usize = 80;

/// Width of a camera frame: twice the viewfinder.
pub const FRAME_W: usize = LCD_W * 2;

/// Height of a camera frame: twice the viewfinder.
pub const FRAME_H: usize = LCD_H * 2;

/// The camera interface captures into words: 2 bytes per pixel, 2 pixels per word.
#[verifier::nonlinear]
pub const FRAME_WORDS: usize = FRAME_W * FRAME_H / 2;

/// Pixels of the viewfinder.
#[verifier::nonlinear]
pub const LCD_PIXELS: usize = LCD_W * LCD_H;

/// The pixel of a frame with this number, counted row by row. The sensor sends
/// the low byte of a pixel first, so pixels are little-endian in memory: an even
/// one is the low half of its word, an odd one the high half.
pub open spec fn frame_pixel(frame: Seq<u32>, index: int) -> u16 {
    if index % 2 == 0 {
        (frame[index / 2] % 0x1_0000) as u16
    } else {
        (frame[index / 2] / 0x1_0000) as u16
    }
}

/// The pixel of a frame in column `x` of row `y`.
pub open spec fn frame_at(frame: Seq<u32>, x: int, y: int) -> u16 {
    frame_pixel(frame, y * FRAME_W + x)
}

/// What the panel shows of a frame, row by row: the pixels in twice the column
/// and twice the row.
pub open spec fn viewfinder(frame: Seq<u32>) -> Seq<u16> {
    Seq::new(
        LCD_PIXELS as nat,
        |i: int| frame_at(frame, 2 * (i % LCD_W as int), 2 * (i / LCD_W as int)),
    )
}

/// A picture for the panel: a rectangle of the panel, given by its first and
/// last column and row, and the frame that its pixels are taken from.
#[derive(Clone, Copy, Debug, PartialEq, Eq)]
pub struct Blit<'a> {
    pub first_x: u16,
    pub first_y: u16,
    pub last_x: u16,
    pub last_y: u16,
    pub frame: &'a [u32; FRAME_WORDS],
}

/// Fits a camera frame to the panel. The pixels, row by row, are those that
/// [`Blit::pixel`] gives for the numbers below [`LCD_PIXELS`].
pub fn draw_frame(frame: &[u32; FRAME_WORDS]) -> (r: Blit<'_>)
    ensures
        r.first_x == 0 && r.first_y == 0,
        r.last_x == LCD_W - 1 && r.last_y == LCD_H - 1,
        r.picture() == viewfinder(frame@),
        r.picture().len() == (r.last_x - r.first_x + 1) * (r.last_y - r.first_y + 1),
{
    Blit { first_x: 0, first_y: 0, last_x: 159, last_y: 79, frame }
}

impl<'a> Blit<'a> {
    /// The pixels of the picture, row by row.
    pub open spec fn picture(self) -> Seq<u16> {
        viewfinder(self.frame@)
    }

    /// Pixel number `i` of the picture.
    pub fn pixel(&self, i: usize) -> (r: u16)
        requires
            i < LCD_PIXELS,
        ensures
            r == self.picture()[i as int],
    {
        let y: usize = i / LCD_W;
        let x: usize = i % LCD_W;
        let row_px: usize = (y * 2) * FRAME_W;
        let index: usize = (row_px + x * 2) / 2;
        let word: u32 = self.frame[index];
        assert((word & 0xFFFF) as u16 == word % 0x1_0000) by (bit_vector);
        (word & 0xFFFF) as u16
    }
}

/// Every pixel of the viewfinder is the low half of a word of the frame, and no
/// two of them are taken from the same word.
pub proof fn law_pixels_are_low_halves(frame: Seq<u32>, x: int, y: int, x2: int, y2: int)
    requires
        0 <= x < LCD_W && 0 <= y < LCD_H,
        0 <= x2 < LCD_W && 0 <= y2 < LCD_H,
    ensures
        0 <= y * FRAME_W + x < FRAME_WORDS,
        frame_at(frame, 2 * x, 2 * y) == frame[y * FRAME_W + x] % 0x1_0000,
        (x, y) != (x2, y2) ==> y * FRAME_W + x != y2 * FRAME_W + x2,
{
}

/// Direction in which the panel is mounted.
#[derive(Clone, Copy, Debug, PartialEq, Eq, Structural)]
pub enum Mounting {
    Portrait,
    Landscape,
    PortraitSwapped,
    LandscapeSwapped,
}

/// Colours in use.
#[derive(Clone, Copy, Debug, PartialEq, Eq, Structural)]
pub enum Color {
    Black,
    Red,
    Yellow,
    Cyan,
    LightSkyBlue,
}

/// What the driver of the panel is made with.
#[derive(Clone, Copy, Debug, PartialEq, Eq, Structural)]
pub struct PanelSetup {
    /// Subpixels in the order red, green, blue; else blue, green, red.
    pub rgb: bool,
    /// Colours are inverted.
    pub inverted: bool,
    /// Columns of the controller's memory.
    pub width: u32,
    /// Rows of the controller's memory.
    pub height: u32,
}

/// One step of bringing the panel up.
#[derive(Clone, Copy, Debug, PartialEq, Eq, Structural)]
pub enum PanelStep {
    /// Run the initialisation of the driver.
    Init,
    /// Set the direction.
    Orient { mounting: Mounting },
    /// Set the place in the controller's memory where the glass begins.
    Offset { x: u16, y: u16 },
    /// Fill the panel with a colour.
    Clear { color: Color },
}

/// What happens after a step.
#[derive(Clone, Copy, Debug, PartialEq, Eq, Structural)]
pub enum PanelNext {
    /// This step comes next.
    Do { step: PanelStep },
    /// The panel can be used.
    Ready,
    /// The panel cannot be used.
    Failed,
}

/// BGR subpixel order and inverted colours.
pub open spec fn panel_setup() -> PanelSetup {
    PanelSetup { rgb: false, inverted: true, width: 160, height: 128 }
}

/// The steps, in order: landscape, 24-row memory offset (the 0.96" glass shows
/// 160x80 of the controller's memory), and black in the end.
pub open spec fn panel_steps() -> Seq<PanelStep> {
    seq![
        PanelStep::Init,
        PanelStep::Orient { mounting: Mounting::LandscapeSwapped },
        PanelStep::Offset { x: 0, y: 24 },
        PanelStep::Clear { color: Color::Black },
    ]
}

/// What the result of step number `at` makes of the bring-up: the number of the
/// step under way, if there is one, and what to do.
pub open spec fn panel_after(at: int, ok: bool) -> (Option<int>, PanelNext) {
    if !ok {
        (None, PanelNext::Failed)
    } else if at + 1 < panel_steps().len() {
        (Some(at + 1), PanelNext::Do { step: panel_steps()[at + 1] })
    } else {
        (None, PanelNext::Ready)
    }
}

/// A panel that is being brought up.
pub struct BringUp {
    at: Option<u8>,
}

impl View for BringUp {
    type V = Option<int>;

    /// Number of the step under way.
    closed spec fn view(&self) -> Option<int> {
        match self.at {
            Some(at) => Some(at as int),
            None => None,
        }
    }
}

/// Starts to bring the panel up the way this board needs it.
pub fn init_lcd() -> (r: (PanelSetup, BringUp, PanelStep))
    ensures
        r.0 == panel_setup(),
        r.1@ == Some(0int),
        r.2 == panel_steps()[0],
{
    (
        PanelSetup { rgb: false, inverted: true, width: 160, height: 128 },
        BringUp { at: Some(0) },
        PanelStep::Init,
    )
}

impl BringUp {
    #[verifier::type_invariant]
    spec fn inv(self) -> bool {
        self.at matches Some(at) ==> at < panel_steps().len()
    }

    /// Takes the result of the step under way, and gives the next step, or says
    /// that the panel is ready or has failed. The first step that fails is the
    /// last one done.
    pub fn advance(&mut self, ok: bool) -> (r: PanelNext)
        requires
            old(self)@ is Some,
        ensures
            final(self)@ == panel_after(old(self)@->0, ok).0,
            r == panel_after(old(self)@->0, ok).1,
    {
        proof {
            use_type_invariant(&*self);
        }
        let at: u8 = self.at.unwrap();
        if !ok {
            self.at = None;
            return PanelNext::Failed;
        }
        if at == 0 {
            self.at = Some(1);
            PanelNext::Do { step: PanelStep::Orient { mounting: Mounting::LandscapeSwapped } }
        } else if at == 1 {
            self.at = Some(2);
            PanelNext::Do { step: PanelStep::Offset { x: 0, y: 24 } }
        } else if at == 2 {
            self.at = Some(3);
            PanelNext::Do { step: PanelStep::Clear { color: Color::Black } }
        } else {
            self.at = None;
            PanelNext::Ready
        }
    }
}

/// The bring-up after some results: the step under way, the steps done or under
/// way, and whether the panel can be used, once that is known.
#[verifier::ext_equal]
pub struct PanelSession {
    pub at: Option<int>,
    pub steps: Seq<PanelStep>,
    pub usable: Option<bool>,
}

/// The bring-up after the results, given one by one from its start.
pub open spec fn panel_play(results: Seq<bool>) -> PanelSession
    decreases results.len(),
{
    if results.len() == 0 {
        PanelSession { at: Some(0), steps: seq![panel_steps()[0]], usable: None }
    } else {
        let before = panel_play(results.drop_last());
        match before.at {
            None => before,
            Some(at) => match panel_after(at, results.last()) {
                (next, PanelNext::Do { step }) => PanelSession {
                    at: next,
                    steps: before.steps.push(step),
                    usable: None,
                },
                (next, PanelNext::Ready) => PanelSession {
                    at: next,
                    steps: before.steps,
                    usable: Some(true),
                },
                (next, PanelNext::Failed) => PanelSession {
                    at: next,
                    steps: before.steps,
                    usable: Some(false),
                },
            },
        }
    }
}

/// While the steps go well, they are done in their order.
proof fn lemma_panel_under_way(results: Seq<bool>)
    requires
        results.len() < panel_steps().len(),
        forall|i: int| 0 <= i < results.len() ==> results[i],
    ensures
        panel_play(results) == (PanelSession {
            at: Some(results.len() as int),
            steps: panel_steps().take(results.len() as int + 1),
            usable: None,
        }),
    decreases results.len(),
{
    let n = results.len() as int;
    if n > 0 {
        lemma_panel_under_way(results.drop_last());
        assert(results.last());
        assert(panel_steps().take(n).push(panel_steps()[n]) =~= panel_steps().take(n + 1));
    } else {
        assert(panel_steps().take(1) =~= seq![panel_steps()[0]]);
    }
}

/// A bring-up whose steps all go well does them all, in order, and leaves a
/// black panel that can be used.
pub proof fn law_panel_comes_up(results: Seq<bool>)
    requires
        results.len() == panel_steps().len(),
        forall|i: int| 0 <= i < results.len() ==> results[i],
    ensures
        panel_play(results) == (PanelSession {
            at: None,
            steps: panel_steps(),
            usable: Some(true),
        }),
        panel_steps().last() == (PanelStep::Clear { color: Color::Black }),
{
    lemma_panel_under_way(results.drop_last());
    assert(results.last());
    assert(panel_steps().take(4) =~= panel_steps());
}

/// The first step that fails ends the bring-up: no other is begun, and the panel
/// cannot be used.
pub proof fn law_panel_stops_at_failure(results: Seq<bool>, rest: Seq<bool>)
    requires
        results.len() < panel_steps().len(),
        forall|i: int| 0 <= i < results.len() ==> results[i],
    ensures
        panel_play(results.push(false) + rest) == (PanelSession {
            at: None,
            steps: panel_steps().take(results.len() as int + 1),
            usable: Some(false),
        }),
    decreases rest.len(),
{
    let all = results.push(false) + rest;
    if rest.len() == 0 {
        lemma_panel_under_way(results);
        assert(all.drop_last() =~= results);
    } else {
        law_panel_stops_at_failure(results, rest.drop_last());
        assert(all.drop_last() =~= results.push(false) + rest.drop_last());
    }
}

/// The glass lies within the memory of the controller.
pub proof fn law_glass_is_in_memory(x: u16, y: u16)
    requires
        panel_steps().contains(PanelStep::Offset { x, y }),
    ensures
        x + LCD_W <= panel_setup().width,
        y + LCD_H <= panel_setup().height,
{
    let i = choose|i: int|
        0 <= i < panel_steps().len() && panel_steps()[i] == (PanelStep::Offset { x, y });
    assert(i == 2);
}

/// One thing to draw.
#[derive(Clone, Copy, Debug, PartialEq, Eq)]
pub enum Draw<'a> {
    /// Fill the panel with a colour.
    Clear { color: Color },
    /// Fill a rectangle with a colour.
    Fill { x: i32, y: i32, width: u32, height: u32, color: Color },
    /// Draw text whose baseline is centred on a point.
    Text { text: &'a str, x: i32, y: i32, ink: Color },
}

/// Big red message, centred, on a black panel, for states that need a human (no
/// sensor, wrong sensor). The baseline is seven rows below the middle.
pub fn show_error<'a>(msg: &'a str) -> (r: [Draw<'a>; 2])
    ensures
        r@ == seq![
            Draw::Clear { color: Color::Black },
            Draw::Text {
                text: msg,
                x: (LCD_W / 2) as i32,
                y: (LCD_H / 2 + 7) as i32,
                ink: Color::Red,
            },
        ],
{
    let place_x: i32 = LCD_W as i32 / 2;
    let place_y: i32 = LCD_H as i32 / 2 + 7;
    let draws: [Draw<'a>; 2] = [
        Draw::Clear { color: Color::Black },
        Draw::Text { text: msg, x: place_x, y: place_y, ink: Color::Red },
    ];
    assert(draws@ =~= seq![draws@[0], draws@[1]]);
    draws
}

/// The picture has 160 columns and 80 rows, row by row, and the pixel in column
/// `x` of row `y` is the low half of the word that holds the pixel in column
/// `2 * x` of row `2 * y` of the frame, 160 words to a row.
pub proof fn law_picture_is_every_second_pixel(blit: Blit<'_>, x: int, y: int)
    requires
        0 <= x < 160,
        0 <= y < 80,
    ensures
        blit.picture().len() == 160 * 80,
        LCD_W == 160 && LCD_H == 80 && LCD_PIXELS == 160 * 80,
        FRAME_W == 320 && FRAME_H == 160 && FRAME_WORDS == 160 * 160,
        blit.picture()[160 * y + x] == blit.frame@[160 * (2 * y) + x] % 0x1_0000,
        viewfinder(blit.frame@) == blit.picture(),
{
    let i = 160 * y + x;
    assert(i / 160 == y && i % 160 == x);
}

/// The glass shows the middle of the controller's memory, in landscape, and the
/// panel is initialised first and cleared last.
pub proof fn law_glass_is_centred()
    ensures
        panel_setup().width == 160 && panel_setup().height == 128,
        !panel_setup().rgb && panel_setup().inverted,
        panel_steps().len() == 4,
        panel_steps()[0] == PanelStep::Init,
        panel_steps()[1] == (PanelStep::Orient { mounting: Mounting::LandscapeSwapped }),
        panel_steps()[2] matches PanelStep::Offset { x, y } && x + 160 + x == 160 && y + 80 + y
            == 128,
        panel_steps()[3] == (PanelStep::Clear { color: Color::Black }),
{
}

/// A step that fails ends the bring-up, one that goes well is followed by the
/// next, and the last one of the four makes the panel ready.
pub proof fn law_panel_step_by_step(at: int, ok: bool)
    requires
        0 <= at < 4,
    ensures
        !ok ==> panel_after(at, ok) == (None::<int>, PanelNext::Failed),
        ok && at < 3 ==> panel_after(at, ok) == (
            Some(at + 1),
            PanelNext::Do { step: panel_steps()[at + 1] },
        ),
        ok && at == 3 ==> panel_after(at, ok) == (None::<int>, PanelNext::Ready),
{
}

} // verus!
