//! OV2640 camera sensor driver (SCCB over I2C, 8-bit parallel DVP out).
//!
//! The driver does no bus traffic of its own. An operation is started by one of
//! the methods of [`Ov2640`], which hands out the first [`Request`]. The caller
//! carries the request out and hands the [`Reply`] to [`Ov2640::advance`], which
//! gives the next request or the result of the operation.

use crate::registers::{
    BANK_SEL, BANK_SENSOR, COM7_COLOR_BAR, COM7_SRST, DEFAULT_REGS, PID_OV2640, REG_COM7, REG_PID,
    REG_VER, RGB565_REGS, SVGA_REGS,
};
use crate::window::{drawable, size_recipe, size_regs, SENSOR_HEIGHT, SENSOR_WIDTH};
use vstd::prelude::*;

verus! {

/// Why an operation on the sensor failed.
#[derive(Debug, PartialEq, Eq)]
pub enum Error<E> {
    /// SCCB transaction failed (wiring, pull-ups, address).
    I2c(E),
    /// A device answered but it is not an OV2640.
    WrongId { pid: u8, ver: u8 },
    /// Requested output size is not achievable from SVGA timing.
    UnsupportedSize { width: u16, height: u16 },
}

impl<E> From<E> for Error<E> {
    fn from(e: E) -> (r: Self) {
        Error::I2c(e)
    }
}

impl<E> vstd::std_specs::convert::FromSpecImpl<E> for Error<E> {
    open spec fn obeys_from_spec() -> bool {
        true
    }

    open spec fn from_spec(e: E) -> Self {
        Error::I2c(e)
    }
}

/// One thing the driver needs done.
#[derive(Clone, Copy, Debug, PartialEq, Eq, Structural)]
pub enum Request {
    /// Write a register.
    Write { reg: u8, val: u8 },
    /// Read a register.
    Read { reg: u8 },
    /// Let time pass before going on.
    Delay { millis: u32 },
}

/// What became of a request.
#[derive(Debug, PartialEq, Eq)]
pub enum Reply<E> {
    /// The register was written, or the time has passed.
    Done,
    /// The register was read and held this value.
    Byte(u8),
    /// The bus transaction failed.
    Failed(E),
}

/// What happens after a reply.
#[derive(Debug, PartialEq, Eq)]
pub enum Step<E> {
    /// The operation goes on with this request.
    Ask(Request),
    /// The operation is over.
    Finished(Result<(), Error<E>>),
}

/// The operations of the driver.
#[derive(Clone, Copy, Debug, PartialEq, Eq, Structural)]
pub enum Job {
    /// Identify the sensor.
    Probe,
    /// Soft-reset and load the baseline configuration.
    Init,
    /// Select RGB565 output.
    PixelFormatRgb565,
    /// Select the output size.
    OutputSize { width: u16, height: u16 },
    /// Switch the test pattern.
    ColorBar { enable: bool },
}

/// Value of the COM7 register with the test pattern switched.
pub open spec fn color_bar(com7: u8, enable: bool) -> u8 {
    if enable {
        com7 | COM7_COLOR_BAR
    } else {
        com7 & !COM7_COLOR_BAR
    }
}

/// The requests that write a recipe, in order.
pub open spec fn writes(recipe: Seq<(u8, u8)>) -> Seq<Request> {
    Seq::new(recipe.len(), |i: int| Request::Write { reg: recipe[i].0, val: recipe[i].1 })
}

/// All requests of an operation, in order, where `reads` are the bytes that its
/// read requests bring back.
pub open spec fn script(job: Job, reads: Seq<u8>) -> Seq<Request> {
    let sensor_bank = Request::Write { reg: BANK_SEL, val: BANK_SENSOR };
    match job {
        Job::Probe => seq![
            sensor_bank,
            Request::Read { reg: REG_PID },
            Request::Read { reg: REG_VER },
        ],
        Job::Init => seq![
            sensor_bank,
            Request::Write { reg: REG_COM7, val: COM7_SRST },
            Request::Delay { millis: 10 },
        ] + writes(DEFAULT_REGS@) + seq![Request::Delay { millis: 300 }],
        Job::PixelFormatRgb565 => writes(RGB565_REGS@),
        Job::OutputSize { width, height } => writes(SVGA_REGS@) + writes(
            size_recipe(width as int, height as int),
        ),
        Job::ColorBar { enable } => seq![
            sensor_bank,
            Request::Read { reg: REG_COM7 },
            Request::Write { reg: REG_COM7, val: color_bar(reads[0], enable) },
        ],
    }
}

/// Result of an operation whose requests were all carried out.
pub open spec fn outcome<E>(job: Job, reads: Seq<u8>) -> Result<(), Error<E>> {
    if job is Probe && reads[0] != PID_OV2640 {
        Err(Error::WrongId { pid: reads[0], ver: reads[1] })
    } else {
        Ok(())
    }
}

/// An operation can be started as it stands: an output size has a window.
pub open spec fn startable(job: Job) -> bool {
    job matches Job::OutputSize { width, height } ==> drawable(width as int, height as int)
}

/// The reply is one that the request can have.
pub open spec fn answers<E>(request: Request, reply: Reply<E>) -> bool {
    match request {
        Request::Write { .. } => reply is Done || reply is Failed,
        Request::Read { .. } => reply is Byte || reply is Failed,
        Request::Delay { .. } => reply is Done,
    }
}

/// How far an operation has come: how many of its requests have been carried
/// out, and which bytes they brought back.
#[verifier::ext_equal]
pub struct Progress {
    pub job: Job,
    pub done: int,
    pub reads: Seq<u8>,
}

impl Progress {
    /// An operation of which nothing has been done yet.
    pub open spec fn start(job: Job) -> Progress {
        Progress { job, done: 0, reads: Seq::empty() }
    }

    /// The request that waits for its reply.
    pub open spec fn pending(self) -> Request {
        script(self.job, self.reads)[self.done]
    }

    /// The operation is under way, and has kept every byte that it read.
    pub open spec fn valid(self) -> bool {
        &&& startable(self.job)
        &&& 0 <= self.done < script(self.job, self.reads).len()
        &&& self.reads.len() == reads_among(self.job, self.done)
    }
}

/// How many of the first `done` requests of an operation are reads.
pub open spec fn reads_among(job: Job, done: int) -> int {
    match job {
        Job::Probe => if done <= 1 {
            0
        } else {
            done - 1
        },
        Job::ColorBar { .. } => if done <= 1 {
            0
        } else {
            1
        },
        _ => 0,
    }
}

/// What a reply makes of an operation under way.
pub open spec fn step<E>(p: Progress, reply: Reply<E>) -> (Option<Progress>, Step<E>) {
    let reads = match reply {
        Reply::Byte(byte) => p.reads.push(byte),
        _ => p.reads,
    };
    let next = Progress { job: p.job, done: p.done + 1, reads };
    match reply {
        Reply::Failed(e) => (None, Step::Finished(Err(Error::I2c(e)))),
        _ => if next.done < script(p.job, reads).len() {
            (Some(next), Step::Ask(next.pending()))
        } else {
            (None, Step::Finished(outcome(p.job, reads)))
        },
    }
}

/// State of the driver: whether the sensor has been identified, and which
/// operation is under way.
pub struct DriverState {
    pub found: bool,
    pub running: Option<Progress>,
}

/// The driver. It exists from the start of the first probe on; every other
/// operation needs a sensor that the probe has identified. An operation that is
/// started while another is under way takes its place.
pub struct Ov2640 {
    found: bool,
    job: Option<Job>,
    done: usize,
    count: usize,
    first: u8,
    second: u8,
}

impl View for Ov2640 {
    type V = DriverState;

    closed spec fn view(&self) -> DriverState {
        DriverState {
            found: self.found,
            running: match self.job {
                None => None,
                Some(job) => Some(
                    Progress {
                        job,
                        done: self.done as int,
                        reads: seq![self.first, self.second].take(self.count as int),
                    },
                ),
            },
        }
    }
}

/// Number of requests of an operation.
fn script_len(job: Job) -> (n: usize)
    requires
        startable(job),
    ensures
        forall|reads: Seq<u8>| n == #[trigger] script(job, reads).len(),
{
    match job {
        Job::Probe => 3,
        Job::Init => 3 + DEFAULT_REGS.len() + 1,
        Job::PixelFormatRgb565 => RGB565_REGS.len(),
        Job::OutputSize { .. } => SVGA_REGS.len() + 12,
        Job::ColorBar { .. } => 3,
    }
}

/// One request of an operation. `byte` is the first byte that was read.
fn script_at(job: Job, i: usize, byte: u8) -> (r: Request)
    requires
        startable(job),
        i < script(job, seq![byte]).len(),
    ensures
        r == script(job, seq![byte])[i as int],
{
    match job {
        Job::Probe => {
            if i == 0 {
                Request::Write { reg: BANK_SEL, val: BANK_SENSOR }
            } else if i == 1 {
                Request::Read { reg: REG_PID }
            } else {
                Request::Read { reg: REG_VER }
            }
        },
        Job::Init => {
            if i == 0 {
                Request::Write { reg: BANK_SEL, val: BANK_SENSOR }
            } else if i == 1 {
                Request::Write { reg: REG_COM7, val: COM7_SRST }
            } else if i == 2 {
                Request::Delay { millis: 10 }
            } else if i - 3 < DEFAULT_REGS.len() {
                Request::Write { reg: DEFAULT_REGS[i - 3].0, val: DEFAULT_REGS[i - 3].1 }
            } else {
                Request::Delay { millis: 300 }
            }
        },
        Job::PixelFormatRgb565 => {
            Request::Write { reg: RGB565_REGS[i].0, val: RGB565_REGS[i].1 }
        },
        Job::OutputSize { width, height } => {
            if i < SVGA_REGS.len() {
                Request::Write { reg: SVGA_REGS[i].0, val: SVGA_REGS[i].1 }
            } else {
                let regs: [(u8, u8); 12] = size_regs(width, height);
                let k: usize = i - SVGA_REGS.len();
                Request::Write { reg: regs[k].0, val: regs[k].1 }
            }
        },
        Job::ColorBar { enable } => {
            if i == 0 {
                Request::Write { reg: BANK_SEL, val: BANK_SENSOR }
            } else if i == 1 {
                Request::Read { reg: REG_COM7 }
            } else if enable {
                Request::Write { reg: REG_COM7, val: byte | COM7_COLOR_BAR }
            } else {
                Request::Write { reg: REG_COM7, val: byte & !COM7_COLOR_BAR }
            }
        },
    }
}

/// Bytes that go to the sensor to write a register.
pub fn write(reg: u8, val: u8) -> (r: [u8; 2])
    ensures
        r@ == seq![reg, val],
{
    let frame: [u8; 2] = [reg, val];
    assert(frame@ =~= seq![reg, val]);
    frame
}

/// Bytes that go to the sensor before it sends the value of a register back.
pub fn read(reg: u8) -> (r: [u8; 1])
    ensures
        r@ == seq![reg],
{
    let frame: [u8; 1] = [reg];
    assert(frame@ =~= seq![reg]);
    frame
}

impl Ov2640 {
    #[verifier::type_invariant]
    spec fn inv(self) -> bool {
        &&& self.count <= 2
        &&& self@.running matches Some(p) ==> p.valid()
    }

    /// Starts an operation.
    fn start(&mut self, job: Job) -> (r: Request)
        requires
            startable(job),
        ensures
            final(self)@ == (DriverState {
                found: old(self)@.found,
                running: Some(Progress::start(job)),
            }),
            r == Progress::start(job).pending(),
    {
        assert(seq![0u8, 0u8].take(0) =~= Seq::<u8>::empty());
        *self = Ov2640 { found: self.found, job: Some(job), done: 0, count: 0, first: 0, second: 0 };
        script_at(job, 0, 0)
    }

    /// Probe the sensor and verify its product ID.
    pub fn probe() -> (r: (Ov2640, Request))
        ensures
            r.0@ == (DriverState { found: false, running: Some(Progress::start(Job::Probe)) }),
            r.1 == Progress::start(Job::Probe).pending(),
    {
        let mut cam: Ov2640 = Ov2640 {
            found: false,
            job: None,
            done: 0,
            count: 0,
            first: 0,
            second: 0,
        };
        let request: Request = cam.start(Job::Probe);
        (cam, request)
    }

    /// Soft-reset and load the baseline configuration. Takes about 400 ms: the
    /// sensor needs time after reset and after the register avalanche before
    /// the image pipeline is stable.
    pub fn init(&mut self) -> (r: Request)
        requires
            old(self)@.found,
        ensures
            final(self)@ == (DriverState {
                found: true,
                running: Some(Progress::start(Job::Init)),
            }),
            r == Progress::start(Job::Init).pending(),
    {
        self.start(Job::Init)
    }

    /// Select RGB565 output, low byte first.
    pub fn set_pixel_format_rgb565(&mut self) -> (r: Request)
        requires
            old(self)@.found,
        ensures
            final(self)@ == (DriverState {
                found: true,
                running: Some(Progress::start(Job::PixelFormatRgb565)),
            }),
            r == Progress::start(Job::PixelFormatRgb565).pending(),
    {
        self.start(Job::PixelFormatRgb565)
    }

    /// Set the DVP output size (not empty, both dimensions multiples of 4, at
    /// most 800x600). A size that cannot be had is turned down before anything
    /// is asked for. The DSP crops a centred window from the SVGA frame and
    /// downscales it by a power of two, so any aspect ratio works.
    pub fn set_output_size<E>(&mut self, width: u16, height: u16) -> (r: Result<Request, Error<E>>)
        requires
            old(self)@.found,
        ensures
            drawable(width as int, height as int) ==> {
                &&& final(self)@ == (DriverState {
                    found: true,
                    running: Some(Progress::start(Job::OutputSize { width, height })),
                })
                &&& r == Ok::<Request, Error<E>>(
                    Progress::start(Job::OutputSize { width, height }).pending(),
                )
            },
            !drawable(width as int, height as int) ==> {
                &&& final(self)@ == old(self)@
                &&& r == Err::<Request, Error<E>>(Error::UnsupportedSize { width, height })
            },
    {
        if width % 4 != 0 || height % 4 != 0 || width > SENSOR_WIDTH || height > SENSOR_HEIGHT
            || width == 0 || height == 0 {
            return Err(Error::UnsupportedSize { width, height });
        }
        Ok(self.start(Job::OutputSize { width, height }))
    }

    /// Enable or disable the sensor's built-in colour-bar test pattern.
    /// Invaluable for bring-up: rules out optics, exposure and focus.
    pub fn set_colorbar(&mut self, enable: bool) -> (r: Request)
        requires
            old(self)@.found,
        ensures
            final(self)@ == (DriverState {
                found: true,
                running: Some(Progress::start(Job::ColorBar { enable })),
            }),
            r == Progress::start(Job::ColorBar { enable }).pending(),
    {
        self.start(Job::ColorBar { enable })
    }

    /// Takes the reply to the pending request, and gives the next request or
    /// the result of the operation. A failed request ends the operation with
    /// the bus error. A probe that ends well leaves the sensor identified.
    pub fn advance<E>(&mut self, reply: Reply<E>) -> (s: Step<E>)
        requires
            old(self)@.running matches Some(p) && answers(p.pending(), reply),
        ensures
            ({
                let p = old(self)@.running->0;
                &&& s == step(p, reply).1
                &&& final(self)@ == (DriverState {
                    found: old(self)@.found || (p.job is Probe && s == Step::<E>::Finished(Ok(()))),
                    running: step(p, reply).0,
                })
            }),
    {
        proof {
            use_type_invariant(&*self);
        }
        let ghost p = self@.running->0;
        let ghost reads = match reply {
            Reply::Byte(byte) => p.reads.push(byte),
            _ => p.reads,
        };
        let job: Job = match self.job {
            Some(job) => job,
            None => {
                return Step::Finished(Ok(()));
            },
        };
        let done: usize = self.done + 1;
        let (count, first, second): (usize, u8, u8) = match reply {
            Reply::Failed(e) => {
                *self = Ov2640 {
                    found: self.found,
                    job: None,
                    done: 0,
                    count: 0,
                    first: 0,
                    second: 0,
                };
                return Step::Finished(Err(Error::from(e)));
            },
            Reply::Done => (self.count, self.first, self.second),
            Reply::Byte(byte) => if self.count == 0 {
                (1, byte, 0)
            } else {
                (2, self.first, byte)
            },
        };
        let n: usize = script_len(job);
        assert(seq![first, second].take(count as int) =~= reads);
        if done < n {
            *self = Ov2640 { found: self.found, job: Some(job), done, count, first, second };
            let request: Request = script_at(job, done, first);
            assert(script(job, seq![first])[done as int] == script(job, reads)[done as int]);
            Step::Ask(request)
        } else if job == Job::Probe && first != PID_OV2640 {
            *self = Ov2640 { found: self.found, job: None, done: 0, count: 0, first: 0, second: 0 };
            Step::Finished(Err(Error::WrongId { pid: first, ver: second }))
        } else {
            *self = Ov2640 {
                found: self.found || job == Job::Probe,
                job: None,
                done: 0,
                count: 0,
                first: 0,
                second: 0,
            };
            Step::Finished(Ok(()))
        }
    }
}

} // verus!
