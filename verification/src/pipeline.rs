//! The way of the frames from the camera to the panel, their rate, and the
//! heartbeat that goes on beside them.
//!
//! ```text
//! OV2640 --DVP--> DCMI+DMA --[filled]--> display task --> ST7735
//!                    ^                        |
//!                    +--------[free]----------+
//! ```
//!
//! While one buffer is being shown, the other is captured into, so no frame is
//! ever copied.

use crate::clock::{lit_after, Led, LedStep};
use vstd::prelude::*;

verus! {

/// What becomes of a frame buffer after a capture.
#[derive(Clone, Copy, Debug, PartialEq, Eq, Structural)]
pub enum AfterCapture {
    /// It holds a frame and goes to the display.
    Show,
    /// It goes back to the free ones, and the capture pauses.
    Retry { millis: u64 },
}

/// Where a buffer goes after a capture.
pub open spec fn after_capture(ok: bool) -> AfterCapture {
    if ok {
        AfterCapture::Show
    } else {
        AfterCapture::Retry { millis: 100 }
    }
}

/// Says where a buffer goes after a capture that went well or did not.
pub fn capture(ok: bool) -> (r: AfterCapture)
    ensures
        r == after_capture(ok),
{
    if ok {
        AfterCapture::Show
    } else {
        AfterCapture::Retry { millis: 100 }
    }
}

/// The two frame buffers, numbered 0 and 1, on their way: those in the queues of
/// free and of filled ones, the one being captured into, and the one being shown.
pub struct Pipeline {
    pub free: Seq<int>,
    pub filled: Seq<int>,
    pub capturing: Option<int>,
    pub showing: Option<int>,
}

/// What happens to the frame buffers.
pub enum PipelineEvent {
    /// The capture task takes a free buffer.
    TakeFree,
    /// The capture into the buffer ends, well or not.
    Captured { ok: bool },
    /// The display task takes a filled buffer.
    TakeFilled,
    /// The buffer has been shown.
    Shown,
}

impl Pipeline {
    /// Both buffers are free.
    pub open spec fn start() -> Pipeline {
        Pipeline { free: seq![0, 1], filled: Seq::empty(), capturing: None, showing: None }
    }

    /// The event can happen.
    pub open spec fn allows(self, event: PipelineEvent) -> bool {
        match event {
            PipelineEvent::TakeFree => self.capturing is None && self.free.len() > 0,
            PipelineEvent::Captured { .. } => self.capturing is Some,
            PipelineEvent::TakeFilled => self.showing is None && self.filled.len() > 0,
            PipelineEvent::Shown => self.showing is Some,
        }
    }

    /// The buffers after an event.
    pub open spec fn after(self, event: PipelineEvent) -> Pipeline {
        match event {
            PipelineEvent::TakeFree => Pipeline {
                free: self.free.remove(0),
                capturing: Some(self.free[0]),
                ..self
            },
            PipelineEvent::Captured { ok } => match after_capture(ok) {
                AfterCapture::Show => Pipeline {
                    filled: self.filled.push(self.capturing->0),
                    capturing: None,
                    ..self
                },
                AfterCapture::Retry { .. } => Pipeline {
                    free: self.free.push(self.capturing->0),
                    capturing: None,
                    ..self
                },
            },
            PipelineEvent::TakeFilled => Pipeline {
                filled: self.filled.remove(0),
                showing: Some(self.filled[0]),
                ..self
            },
            PipelineEvent::Shown => Pipeline {
                free: self.free.push(self.showing->0),
                showing: None,
                ..self
            },
        }
    }

    /// How often a buffer is in a place of one buffer.
    pub open spec fn held(place: Option<int>, buffer: int) -> nat {
        if place == Some(buffer) {
            1
        } else {
            0
        }
    }

    /// How often a buffer occurs.
    pub open spec fn copies(self, buffer: int) -> nat {
        self.free.to_multiset().count(buffer) + self.filled.to_multiset().count(buffer)
            + Pipeline::held(self.capturing, buffer) + Pipeline::held(self.showing, buffer)
    }

    /// How many buffers there are.
    pub open spec fn total(self) -> nat {
        self.free.len() + self.filled.len() + (if self.capturing is Some {
            1nat
        } else {
            0
        }) + (if self.showing is Some {
            1nat
        } else {
            0
        })
    }

    /// Each of the two buffers occurs once, and there are no others.
    pub open spec fn valid(self) -> bool {
        &&& self.total() == 2
        &&& forall|b: int| #[trigger] self.copies(b) == if b == 0 || b == 1 {
            1nat
        } else {
            0
        }
    }
}

/// At start each of the two buffers occurs once.
pub proof fn law_pipeline_starts_valid()
    ensures
        Pipeline::start().valid(),
{
    broadcast use vstd::seq_lib::group_to_multiset_ensures;

    let start = Pipeline::start();
    assert(start.free =~= Seq::<int>::empty().push(0).push(1));
    assert forall|b: int| #[trigger] start.copies(b) == if b == 0 || b == 1 {
        1nat
    } else {
        0
    } by {
        Seq::<int>::empty().to_multiset_ensures();
    }
}

/// No buffer is lost or doubled, whether a capture goes well or not. So there is
/// always room in the queues, which have two places each, and the buffer being
/// shown is never the one being captured into.
pub proof fn law_pipeline_keeps_buffers(p: Pipeline, event: PipelineEvent)
    requires
        p.valid(),
        p.allows(event),
    ensures
        p.after(event).valid(),
        p.after(event).free.len() <= 2,
        p.after(event).filled.len() <= 2,
        p.capturing is Some && p.showing is Some ==> p.capturing != p.showing,
{
    broadcast use vstd::seq_lib::group_to_multiset_ensures;

    let q = p.after(event);
    assert forall|b: int| #[trigger] q.copies(b) == if b == 0 || b == 1 {
        1nat
    } else {
        0
    } by {
        assert(p.copies(b) == if b == 0 || b == 1 {
            1nat
        } else {
            0
        });
    }
    if let Some(b) = p.showing {
        assert(p.copies(b) <= 1);
    }
}

/// Frames after which the rate is reported.
pub const REPORT_FRAMES: u32 = 32;

/// Counts frames and gives their rate.
pub struct FpsMeter {
    frames: u32,
}

impl View for FpsMeter {
    type V = int;

    /// Frames since the last report.
    closed spec fn view(&self) -> int {
        self.frames as int
    }
}

/// Ten times the frames per second, given the milliseconds that the frames of a
/// report took, as a number of 32 bits. Less than a millisecond counts as one.
pub open spec fn tenths_fps(elapsed_millis: int) -> int {
    let ms = elapsed_millis % 0x1_0000_0000;
    REPORT_FRAMES * 10_000 / (if ms == 0 {
        1
    } else {
        ms
    })
}

impl FpsMeter {
    #[verifier::type_invariant]
    spec fn inv(self) -> bool {
        self.frames < REPORT_FRAMES
    }

    /// A meter that has counted no frame.
    pub fn new() -> (r: FpsMeter)
        ensures
            r@ == 0,
    {
        FpsMeter { frames: 0 }
    }

    /// Counts a frame. With every 32nd frame it gives ten times the frames per
    /// second, and starts anew; `elapsed_millis` is the time since it started.
    pub fn frame_shown(&mut self, elapsed_millis: u64) -> (r: Option<u32>)
        ensures
            0 <= old(self)@ < REPORT_FRAMES,
            old(self)@ + 1 < REPORT_FRAMES ==> r is None && final(self)@ == old(self)@ + 1,
            old(self)@ + 1 == REPORT_FRAMES ==> {
                &&& final(self)@ == 0
                &&& r matches Some(rate) && rate == tenths_fps(elapsed_millis as int)
            },
    {
        proof {
            use_type_invariant(&*self);
        }
        let frames: u32 = self.frames + 1;
        if frames == REPORT_FRAMES {
            assert(elapsed_millis as u32 == elapsed_millis % 0x1_0000_0000) by (bit_vector);
            let ms: u32 = elapsed_millis as u32;
            *self = FpsMeter { frames: 0 };
            Some((frames * 10_000) / ms.max(1))
        } else {
            *self = FpsMeter { frames };
            None
        }
    }
}

/// The heartbeat task's step: toggle the LED, then wait 500 ms.
pub open spec fn beat() -> LedStep {
    LedStep { led: Led::Toggle, wait_millis: 500 }
}

/// Gives the step of the heartbeat task.
pub fn heartbeat() -> (r: LedStep)
    ensures
        r == beat(),
{
    LedStep { led: Led::Toggle, wait_millis: 500 }
}

/// The heartbeat blinks once per second.
pub proof fn law_heartbeat_is_1_hz(lit: bool)
    ensures
        lit_after(lit, beat()) != lit,
        lit_after(lit_after(lit, beat()), beat()) == lit,
        beat().wait_millis + beat().wait_millis == 1000,
        beat().led == Led::Toggle,
{
}

/// A buffer is shown exactly if its capture went well; otherwise the capture
/// pauses for a tenth of a second.
pub proof fn law_after_capture(ok: bool)
    ensures
        after_capture(ok) == AfterCapture::Show <==> ok,
        after_capture(ok) matches AfterCapture::Retry { millis } ==> millis == 100,
{
}

/// The rate is ten times the frames per second, rounded down: times the
/// milliseconds that 32 frames took, it is at most 320000, and a rate larger by
/// one would be too large. Less than a millisecond counts as one, and of the time
/// only the remainder by 2^32 counts.
pub proof fn law_rate_is_rounded_down(elapsed_millis: int)
    requires
        0 <= elapsed_millis,
    ensures
        ({
            let ms = elapsed_millis % 0x1_0000_0000;
            let rate = tenths_fps(elapsed_millis);
            &&& ms > 0 ==> rate * ms <= 320_000 < (rate + 1) * ms
            &&& ms == 0 ==> rate == 320_000
            &&& 0 <= rate
        }),
        REPORT_FRAMES == 32,
{
    let ms = elapsed_millis % 0x1_0000_0000;
    if ms > 0 {
        let rate = 320_000int / ms;
        assert(rate * ms <= 320_000 < (rate + 1) * ms && 0 <= rate) by (nonlinear_arith)
            requires
                ms > 0,
                rate == 320_000int / ms,
        ;
    }
}

} // verus!
