//! Bringing the camera up for the viewfinder.

use crate::display::{FRAME_H, FRAME_W};
use crate::ov2640::{
    answers, outcome, script, step, DriverState, Error, Job, Ov2640, Progress, Reply, Request,
    Step,
};
use crate::registers::{BANK_DSP, PID_OV2640};
use crate::sensor::{
    law_output_size_programs_window, law_pixel_format_registers, law_sensor_runs_svga,
    law_size_registers, lemma_after_both, lemma_spared, output_height_in, output_width_in,
    window_in, RegisterFile,
};
use crate::session::{
    bytes_of, granted, law_completes, law_under_way, lemma_granted_before, play,
};
use crate::window::Window;
use vstd::prelude::*;

verus! {

/// The operations that bring the camera up, in order. The output size is that
/// of a frame of the viewfinder.
pub open spec fn setup_jobs() -> Seq<Job> {
    seq![
        Job::Probe,
        Job::Init,
        Job::PixelFormatRgb565,
        Job::OutputSize { width: FRAME_W as u16, height: FRAME_H as u16 },
    ]
}

/// What happens after a reply while the camera is brought up.
#[derive(Debug, PartialEq, Eq)]
pub enum SetupStep<E> {
    /// This request comes next.
    Ask(Request),
    /// The camera is ready.
    Ready,
    /// The camera could not be brought up.
    Failed(Error<E>),
}

/// Where the setup stands: which operation is under way, and how far it is.
#[verifier::ext_equal]
pub struct SetupProgress {
    pub stage: int,
    pub progress: Progress,
}

impl SetupProgress {
    /// The start of an operation of the setup.
    pub open spec fn start(stage: int) -> SetupProgress {
        SetupProgress { stage, progress: Progress::start(setup_jobs()[stage]) }
    }
}

/// What a reply makes of the setup: an operation that ends well is followed by
/// the next one, and the first that fails ends the setup with its error.
pub open spec fn setup_step<E>(p: SetupProgress, reply: Reply<E>) -> (
    Option<SetupProgress>,
    SetupStep<E>,
) {
    match step(p.progress, reply) {
        (next, Step::Ask(request)) => (
            Some(SetupProgress { stage: p.stage, progress: next->0 }),
            SetupStep::Ask(request),
        ),
        (_, Step::Finished(Err(e))) => (None, SetupStep::Failed(e)),
        (_, Step::Finished(Ok(_))) => if p.stage + 1 < setup_jobs().len() {
            let next = SetupProgress::start(p.stage + 1);
            (Some(next), SetupStep::Ask(next.progress.pending()))
        } else {
            (None, SetupStep::Ready)
        },
    }
}

/// State of the setup: whether the sensor has been found, and where the setup
/// stands, while it is under way.
#[verifier::ext_equal]
pub struct SetupState {
    pub found: bool,
    pub at: Option<SetupProgress>,
}

impl SetupState {
    /// The state after a reply. The sensor is found once the probe is over.
    pub open spec fn after<E>(self, reply: Reply<E>) -> SetupState {
        let (next, s) = setup_step(self.at->0, reply);
        SetupState {
            found: match s {
                SetupStep::Ask(_) => next->0.stage > 0,
                SetupStep::Ready => true,
                SetupStep::Failed(_) => self.found,
            },
            at: next,
        }
    }
}

/// Probe and full configuration of the sensor: RGB565, 320x160 (2:1 to match the
/// panel; the DSP crops and downscales from the SVGA frame).
pub struct CameraSetup {
    /// The driver.
    cam: Ov2640,
    /// Number of the operation under way.
    stage: usize,
}

impl View for CameraSetup {
    type V = SetupState;

    closed spec fn view(&self) -> SetupState {
        SetupState {
            found: self.cam@.found,
            at: match self.cam@.running {
                Some(progress) => Some(SetupProgress { stage: self.stage as int, progress }),
                None => None,
            },
        }
    }
}

/// Starts to bring the camera up.
pub fn camera_setup() -> (r: (CameraSetup, Request))
    ensures
        r.0@ == (SetupState { found: false, at: Some(SetupProgress::start(0)) }),
        r.1 == SetupProgress::start(0).progress.pending(),
{
    let (cam, request) = Ov2640::probe();
    (CameraSetup { cam, stage: 0 }, request)
}

impl CameraSetup {
    /// The driver is busy with the operation of this stage, and has found the
    /// sensor once the probe is over.
    #[verifier::type_invariant]
    spec fn inv(self) -> bool {
        self@.at matches Some(p) ==> {
            &&& p.stage < setup_jobs().len()
            &&& p.progress.job == setup_jobs()[p.stage]
            &&& self@.found == (p.stage > 0)
        }
    }

    /// Takes the reply to the pending request, and gives the next request, or
    /// says that the camera is ready, or why it cannot be used.
    pub fn advance<E>(&mut self, reply: Reply<E>) -> (s: SetupStep<E>)
        requires
            old(self)@.at matches Some(p) && answers(p.progress.pending(), reply),
        ensures
            final(self)@ == old(self)@.after(reply),
            s == setup_step(old(self)@.at->0, reply).1,
    {
        let (mut now, _) = camera_setup();
        core::mem::swap(self, &mut now);
        proof {
            use_type_invariant(&now);
        }
        let CameraSetup { mut cam, stage } = now;
        let (next, s): (usize, SetupStep<E>) = match cam.advance(reply) {
            Step::Ask(request) => (stage, SetupStep::Ask(request)),
            Step::Finished(Err(e)) => (stage, SetupStep::Failed(e)),
            Step::Finished(Ok(_)) => {
                if stage == 0 {
                    (1, SetupStep::Ask(cam.init()))
                } else if stage == 1 {
                    (2, SetupStep::Ask(cam.set_pixel_format_rgb565()))
                } else if stage == 2 {
                    match cam.set_output_size(FRAME_W as u16, FRAME_H as u16) {
                        Ok(request) => (3, SetupStep::Ask(request)),
                        Err(e) => (3, SetupStep::Failed(e)),
                    }
                } else {
                    (stage, SetupStep::Ready)
                }
            },
        };
        *self = CameraSetup { cam, stage: next };
        s
    }

    /// The driver, once the setup has found the sensor and is over.
    pub fn camera(self) -> (cam: Ov2640)
        requires
            self@.found,
            self@.at is None,
        ensures
            cam@ == (DriverState { found: true, running: None }),
    {
        self.cam
    }
}

/// The setup after some replies: where it stands, while it is under way, what it
/// has asked for, and its result, once there is one.
#[verifier::ext_equal]
pub struct SetupSession<E> {
    pub at: Option<SetupProgress>,
    pub asked: Seq<Request>,
    pub result: Option<Result<(), Error<E>>>,
}

/// The setup after the replies, given one by one from its start.
pub open spec fn setup_play<E>(replies: Seq<Reply<E>>) -> SetupSession<E>
    decreases replies.len(),
{
    if replies.len() == 0 {
        let start = SetupProgress::start(0);
        SetupSession { at: Some(start), asked: seq![start.progress.pending()], result: None }
    } else {
        let before = setup_play(replies.drop_last());
        match before.at {
            None => before,
            Some(p) => match setup_step(p, replies.last()) {
                (next, SetupStep::Ask(request)) => SetupSession {
                    at: next,
                    asked: before.asked.push(request),
                    result: None,
                },
                (next, SetupStep::Ready) => SetupSession {
                    at: next,
                    asked: before.asked,
                    result: Some(Ok(())),
                },
                (next, SetupStep::Failed(e)) => SetupSession {
                    at: next,
                    asked: before.asked,
                    result: Some(Err(e)),
                },
            },
        }
    }
}

/// The setup has just asked for the first request of an operation, after those
/// in `asked`.
spec fn begins<E>(session: SetupSession<E>, stage: int, asked: Seq<Request>) -> bool {
    let start = SetupProgress::start(stage);
    session == (SetupSession::<E> {
        at: Some(start),
        asked: asked.push(start.progress.pending()),
        result: None,
    })
}

/// While an operation of the setup is under way, the setup does what the
/// operation does alone.
proof fn lemma_within_stage<E>(
    before: Seq<Reply<E>>,
    stage: int,
    asked: Seq<Request>,
    replies: Seq<Reply<E>>,
)
    requires
        begins(setup_play(before), stage, asked),
        play(setup_jobs()[stage], replies).progress is Some,
    ensures
        setup_play(before + replies) == (SetupSession::<E> {
            at: Some(
                SetupProgress {
                    stage,
                    progress: play(setup_jobs()[stage], replies).progress->0,
                },
            ),
            asked: asked + play(setup_jobs()[stage], replies).asked,
            result: None,
        }),
    decreases replies.len(),
{
    let job = setup_jobs()[stage];
    if replies.len() == 0 {
        assert(before + replies =~= before);
        assert(asked + play(job, replies).asked =~= asked.push(Progress::start(job).pending()));
    } else {
        let shorter = replies.drop_last();
        lemma_within_stage(before, stage, asked, shorter);
        assert((before + replies).drop_last() =~= before + shorter);
        let request = play(job, replies).asked.last();
        assert(asked + play(job, shorter).asked.push(request) =~= (asked + play(
            job,
            shorter,
        ).asked).push(request));
    }
}

/// An operation of the setup that is granted and ends well is followed by the
/// next one, or is the end of the setup.
proof fn lemma_stage_completes<E>(
    before: Seq<Reply<E>>,
    stage: int,
    asked: Seq<Request>,
    replies: Seq<Reply<E>>,
)
    requires
        0 <= stage < setup_jobs().len(),
        begins(setup_play(before), stage, asked),
        granted(setup_jobs()[stage], replies),
        replies.len() == script(setup_jobs()[stage], bytes_of(replies)).len(),
        outcome::<E>(setup_jobs()[stage], bytes_of(replies)) is Ok,
    ensures
        ({
            let all = asked + script(setup_jobs()[stage], bytes_of(replies));
            let session = setup_play(before + replies);
            if stage + 1 < setup_jobs().len() {
                begins(session, stage + 1, all)
            } else {
                session == (SetupSession::<E> { at: None, asked: all, result: Some(Ok(())) })
            }
        }),
{
    let job = setup_jobs()[stage];
    law_completes(job, replies);
    let shorter = replies.drop_last();
    lemma_granted_before(job, replies);
    law_under_way(job, shorter);
    lemma_within_stage(before, stage, asked, shorter);
    assert((before + replies).drop_last() =~= before + shorter);
    assert((before + replies).last() == replies.last());
}

/// All requests of the setup, in order. `id` are the product ID and the version
/// that the sensor gives.
pub open spec fn setup_script(id: Seq<u8>) -> Seq<Request> {
    script(setup_jobs()[0], id) + script(setup_jobs()[1], Seq::empty()) + script(
        setup_jobs()[2],
        Seq::empty(),
    ) + script(setup_jobs()[3], Seq::empty())
}

/// A camera that grants every request and names itself an OV2640 is brought up
/// by exactly the requests of the four operations, one after the other.
pub proof fn law_setup_completes<E>(
    probe: Seq<Reply<E>>,
    init: Seq<Reply<E>>,
    format: Seq<Reply<E>>,
    size: Seq<Reply<E>>,
)
    requires
        granted(setup_jobs()[0], probe),
        granted(setup_jobs()[1], init),
        granted(setup_jobs()[2], format),
        granted(setup_jobs()[3], size),
        probe.len() == script(setup_jobs()[0], bytes_of(probe)).len(),
        init.len() == script(setup_jobs()[1], bytes_of(init)).len(),
        format.len() == script(setup_jobs()[2], bytes_of(format)).len(),
        size.len() == script(setup_jobs()[3], bytes_of(size)).len(),
        bytes_of(probe)[0] == PID_OV2640,
    ensures
        setup_play(probe + init + format + size) == (SetupSession::<E> {
            at: None,
            asked: setup_script(bytes_of(probe)),
            result: Some(Ok(())),
        }),
{
    let none = Seq::<Reply<E>>::empty();
    let first = script(setup_jobs()[0], bytes_of(probe));
    let second = script(setup_jobs()[1], bytes_of(init));
    let third = script(setup_jobs()[2], bytes_of(format));
    assert(seq![Progress::start(Job::Probe).pending()] =~= Seq::empty().push(
        Progress::start(Job::Probe).pending(),
    ));
    lemma_stage_completes(none, 0, Seq::empty(), probe);
    assert(none + probe =~= probe);
    assert(Seq::empty() + first =~= first);
    lemma_stage_completes(probe, 1, first, init);
    lemma_stage_completes(probe + init, 2, first + second, format);
    lemma_stage_completes(probe + init + format, 3, first + second + third, size);
}

/// The first operation of the setup that fails ends it: nothing more is asked,
/// and the error is the one of that operation.
pub proof fn law_setup_stops_at_error<E>(
    before: Seq<Reply<E>>,
    p: SetupProgress,
    reply: Reply<E>,
    e: Error<E>,
    rest: Seq<Reply<E>>,
)
    requires
        setup_play(before).at == Some(p),
        step(p.progress, reply).1 == Step::<E>::Finished(Err(e)),
    ensures
        setup_play(before.push(reply) + rest) == (SetupSession::<E> {
            at: None,
            asked: setup_play(before).asked,
            result: Some(Err(e)),
        }),
    decreases rest.len(),
{
    let all = before.push(reply) + rest;
    if rest.len() == 0 {
        assert(all.drop_last() =~= before);
    } else {
        law_setup_stops_at_error(before, p, reply, e, rest.drop_last());
        assert(all.drop_last() =~= before.push(reply) + rest.drop_last());
    }
}

/// Whatever the sensor held before, the setup leaves it with frames of 320x160
/// pixels, taken from the 640x320 window in the middle of the sensor.
pub proof fn law_setup_programs_viewfinder(file: RegisterFile, id: Seq<u8>)
    ensures
        ({
            let end = file.after_all(setup_script(id));
            &&& end.bank == BANK_DSP
            &&& output_width_in(end) == FRAME_W
            &&& output_height_in(end) == FRAME_H
            &&& window_in(end) == (Window {
                log_div: 1,
                div: 2,
                width: 640,
                height: 320,
                x: 80,
                y: 140,
            })
        }),
{
    let last = script(setup_jobs()[3], Seq::empty());
    let others = script(setup_jobs()[0], id) + script(setup_jobs()[1], Seq::empty()) + script(
        setup_jobs()[2],
        Seq::empty(),
    );
    lemma_after_both(file, others, last);
    law_output_size_programs_window(file.after_all(others), FRAME_W as u16, FRAME_H as u16);
}

/// The camera is probed, then given its baseline, its pixel format and its size
/// of 320x160, in this order.
pub proof fn law_setup_order()
    ensures
        setup_jobs().len() == 4,
        setup_jobs()[0] == Job::Probe,
        setup_jobs()[1] == Job::Init,
        setup_jobs()[2] == Job::PixelFormatRgb565,
        setup_jobs()[3] == (Job::OutputSize { width: 320, height: 160 }),
{
}

/// Whatever the sensor held before, the setup leaves its array at 800x600 and
/// its image processor on, giving RGB565 with the low byte first, scaled down by
/// two in both directions.
pub proof fn law_setup_registers(file: RegisterFile, id: Seq<u8>)
    ensures
        ({
            let end = file.after_all(setup_script(id));
            &&& end.bank == 0
            &&& end.regs[(0u8, 0xDAu8)] == 0x09
            &&& end.regs[(0u8, 0x05u8)] == 0
            &&& end.regs[(0u8, 0xE0u8)] == 0
            &&& end.regs[(0u8, 0x50u8)] == 0x80 + 8 * 1 + 1
            &&& end.regs[(0u8, 0xD3u8)] == 2
            &&& 4 * end.regs[(0u8, 0x5Au8)] == 320 && 4 * end.regs[(0u8, 0x5Bu8)] == 160
            &&& end.regs[(0u8, 0x5Cu8)] == 0
            &&& end.regs[(1u8, 0x12u8)] == 0x40
        }),
{
    let probed = script(setup_jobs()[0], id) + script(setup_jobs()[1], Seq::empty());
    let format = script(setup_jobs()[2], Seq::empty());
    let size = script(setup_jobs()[3], Seq::empty());
    lemma_after_both(file, probed + format, size);
    lemma_after_both(file, probed, format);
    let ready = file.after_all(probed + format);
    law_pixel_format_registers(file.after_all(probed));
    law_size_registers(ready, 320, 160);
    law_sensor_runs_svga(ready, 320, 160);
    lemma_spared(ready, size, 0xDA);
    lemma_spared(ready, size, 0x05);
}

/// The setup goes on with the next operation once one has ended well, is ready
/// after the fourth, and fails with the first that does not end well. The sensor
/// counts as found from the end of the probe on.
pub proof fn law_setup_step_by_step<E>(state: SetupState, p: SetupProgress, reply: Reply<E>)
    requires
        state.at == Some(p),
        0 <= p.stage < 4,
    ensures
        ({
            let (next, s) = setup_step(p, reply);
            let after = state.after(reply);
            match step(p.progress, reply).1 {
                Step::Ask(request) => {
                    &&& s == SetupStep::<E>::Ask(request)
                    &&& next matches Some(n) && n.stage == p.stage && Some(n.progress) == step(
                        p.progress,
                        reply,
                    ).0
                },
                Step::Finished(Err(e)) => {
                    &&& s == SetupStep::<E>::Failed(e)
                    &&& next is None
                    &&& after.found == state.found
                },
                Step::Finished(Ok(_)) => {
                    &&& p.stage == 3 ==> s == SetupStep::<E>::Ready && next is None
                    &&& p.stage < 3 ==> {
                        &&& next matches Some(n) && n.stage == p.stage + 1 && n.progress
                            == Progress::start(setup_jobs()[p.stage + 1])
                        &&& s == SetupStep::<E>::Ask(
                            Progress::start(setup_jobs()[p.stage + 1]).pending(),
                        )
                    }
                    &&& after.found
                },
            }
        }),
        state.after(reply).at == setup_step(p, reply).0,
{
    assert(step(p.progress, reply).1 is Ask ==> step(p.progress, reply).0 is Some);
}

} // verus!
