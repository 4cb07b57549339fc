use weact_h743::ov2640::{self, Error, Ov2640, Reply, Request, Step};
use weact_h743::registers::{ADDR, DEFAULT_REGS, RGB565_REGS, SVGA_REGS};

/// A bus that answers reads from a table and can fail at a given request.
struct Bus {
    answers: Vec<u8>,
    fail_at: Option<usize>,
    log: Vec<Request>,
}

impl Bus {
    fn new(answers: &[u8]) -> Bus {
        Bus { answers: answers.to_vec(), fail_at: None, log: Vec::new() }
    }

    fn failing(answers: &[u8], at: usize) -> Bus {
        Bus { answers: answers.to_vec(), fail_at: Some(at), log: Vec::new() }
    }

    fn serve(&mut self, request: Request) -> Reply<&'static str> {
        let n = self.log.len();
        self.log.push(request);
        match request {
            Request::Delay { .. } => Reply::Done,
            _ if self.fail_at == Some(n) => Reply::Failed("nack"),
            Request::Write { .. } => Reply::Done,
            Request::Read { .. } => Reply::Byte(self.answers.remove(0)),
        }
    }

    fn run(&mut self, cam: &mut Ov2640, first: Request) -> Result<(), Error<&'static str>> {
        let mut request = first;
        loop {
            let reply = self.serve(request);
            match cam.advance(reply) {
                Step::Ask(next) => request = next,
                Step::Finished(result) => return result,
            }
        }
    }
}

fn found() -> Ov2640 {
    let (mut cam, first) = Ov2640::probe();
    let mut bus = Bus::new(&[0x26, 0x42]);
    assert_eq!(bus.run(&mut cam, first), Ok(()));
    cam
}

fn writes(recipe: &[(u8, u8)]) -> Vec<Request> {
    recipe.iter().map(|&(reg, val)| Request::Write { reg, val }).collect()
}

#[test]
fn bus_frames() {
    assert_eq!(ADDR, 0x30);
    assert_eq!(ov2640::write(0x12, 0x80), [0x12, 0x80]);
    assert_eq!(ov2640::read(0x0A), [0x0A]);
}

#[test]
fn bus_error_converts() {
    assert_eq!(Error::from("nack"), Error::I2c("nack"));
}

#[test]
fn probe_reads_identity() {
    let (mut cam, first) = Ov2640::probe();
    let mut bus = Bus::new(&[0x26, 0x42]);
    assert_eq!(bus.run(&mut cam, first), Ok(()));
    assert_eq!(
        bus.log,
        vec![
            Request::Write { reg: 0xFF, val: 0x01 },
            Request::Read { reg: 0x0A },
            Request::Read { reg: 0x0B },
        ]
    );
}

#[test]
fn probe_refuses_other_device() {
    let (mut cam, first) = Ov2640::probe();
    let mut bus = Bus::new(&[0x36, 0x41]);
    assert_eq!(bus.run(&mut cam, first), Err(Error::WrongId { pid: 0x36, ver: 0x41 }));
    assert_eq!(bus.log.len(), 3);
}

#[test]
fn probe_stops_at_bus_error() {
    for at in 0..3 {
        let (mut cam, first) = Ov2640::probe();
        let mut bus = Bus::failing(&[0x26, 0x42], at);
        assert_eq!(bus.run(&mut cam, first), Err(Error::I2c("nack")));
        assert_eq!(bus.log.len(), at + 1);
    }
}

#[test]
fn init_resets_then_loads_baseline() {
    let mut cam = found();
    let mut bus = Bus::new(&[]);
    let first = cam.init();
    assert_eq!(bus.run(&mut cam, first), Ok(()));
    let mut expected = vec![
        Request::Write { reg: 0xFF, val: 0x01 },
        Request::Write { reg: 0x12, val: 0x80 },
        Request::Delay { millis: 10 },
    ];
    expected.extend(writes(&DEFAULT_REGS));
    expected.push(Request::Delay { millis: 300 });
    assert_eq!(bus.log, expected);
    assert_eq!(bus.log.len(), 178);
}

#[test]
fn init_stops_at_bus_error() {
    let mut cam = found();
    let mut bus = Bus::failing(&[], 100);
    let first = cam.init();
    assert_eq!(bus.run(&mut cam, first), Err(Error::I2c("nack")));
    assert_eq!(bus.log.len(), 101);
    // The driver can be used again.
    let mut bus = Bus::new(&[]);
    let first = cam.init();
    assert_eq!(bus.run(&mut cam, first), Ok(()));
}

#[test]
fn pixel_format_writes_its_recipe() {
    let mut cam = found();
    let mut bus = Bus::new(&[]);
    let first = cam.set_pixel_format_rgb565();
    assert_eq!(bus.run(&mut cam, first), Ok(()));
    assert_eq!(bus.log, writes(&RGB565_REGS));
    assert_eq!(bus.log[2], Request::Write { reg: 0xDA, val: 0x09 });
}

#[test]
fn output_size_writes_svga_then_size() {
    let mut cam = found();
    let mut bus = Bus::new(&[]);
    let first = cam.set_output_size::<&'static str>(320, 160).unwrap();
    assert_eq!(bus.run(&mut cam, first), Ok(()));
    assert_eq!(bus.log.len(), 26);
    assert_eq!(bus.log[..14], writes(&SVGA_REGS)[..]);
    assert_eq!(bus.log[14], Request::Write { reg: 0x50, val: 0x89 });
    assert_eq!(bus.log[15], Request::Write { reg: 0x51, val: 160 });
    assert_eq!(bus.log[25], Request::Write { reg: 0xE0, val: 0 });
}

#[test]
fn output_size_refuses_what_does_not_fit() {
    let mut cam = found();
    for (width, height) in [
        (322, 160),
        (320, 162),
        (804, 600),
        (800, 604),
        (0, 3),
        (0, 160),
        (320, 0),
        (0, 0),
    ] {
        assert_eq!(
            cam.set_output_size::<&'static str>(width, height),
            Err(Error::UnsupportedSize { width, height })
        );
    }
    // Nothing was started.
    let mut bus = Bus::new(&[]);
    let first = cam.set_pixel_format_rgb565();
    assert_eq!(bus.run(&mut cam, first), Ok(()));
}

#[test]
fn output_size_stops_at_bus_error() {
    // In the first recipe, at its end, and in the second.
    for at in [0, 13, 14, 25] {
        let mut cam = found();
        let mut bus = Bus::failing(&[], at);
        let first = cam.set_output_size::<&'static str>(320, 160).unwrap();
        assert_eq!(bus.run(&mut cam, first), Err(Error::I2c("nack")));
        assert_eq!(bus.log.len(), at + 1);
    }
}

#[test]
fn new_operation_takes_the_place_of_the_old() {
    let mut cam = found();
    cam.init();
    assert_eq!(
        cam.advance::<&'static str>(Reply::Done),
        Step::Ask(Request::Write { reg: 0x12, val: 0x80 })
    );
    // A size that is turned down leaves the operation as it is.
    assert_eq!(
        cam.set_output_size::<&'static str>(0, 160),
        Err(Error::UnsupportedSize { width: 0, height: 160 })
    );
    assert_eq!(
        cam.advance::<&'static str>(Reply::Done),
        Step::Ask(Request::Delay { millis: 10 })
    );
    let mut bus = Bus::new(&[]);
    let first = cam.set_pixel_format_rgb565();
    assert_eq!(bus.run(&mut cam, first), Ok(()));
    assert_eq!(bus.log, writes(&RGB565_REGS));
}

#[test]
fn colorbar_sets_and_clears_one_bit() {
    for (enable, before, after) in [
        (true, 0x40, 0x42),
        (true, 0x42, 0x42),
        (false, 0x42, 0x40),
        (false, 0xFF, 0xFD),
        (false, 0x40, 0x40),
    ] {
        let mut cam = found();
        let mut bus = Bus::new(&[before]);
        let first = cam.set_colorbar(enable);
        assert_eq!(bus.run(&mut cam, first), Ok(()));
        assert_eq!(
            bus.log,
            vec![
                Request::Write { reg: 0xFF, val: 0x01 },
                Request::Read { reg: 0x12 },
                Request::Write { reg: 0x12, val: after },
            ]
        );
    }
}
