use weact_h743::camera::{camera_setup, SetupStep};
use weact_h743::clock::{Led, LedStep};
use weact_h743::display::{
    draw_frame, init_lcd, show_error, Color, Draw, Mounting, PanelNext, PanelSetup, PanelStep,
    FRAME_H, FRAME_W, FRAME_WORDS, LCD_PIXELS,
};
use weact_h743::ov2640::{Error, Reply, Request};
use weact_h743::pipeline::{capture, heartbeat, AfterCapture, FpsMeter};

/// A sensor that keeps what is written to it.
struct Sensor {
    bank: usize,
    regs: [[u8; 256]; 2],
    requests: usize,
    fail_at: usize,
}

impl Sensor {
    fn new(pid: u8) -> Sensor {
        let mut regs = [[0; 256]; 2];
        regs[1][0x0A] = pid;
        regs[1][0x0B] = 0x42;
        Sensor { bank: 0, regs, requests: 0, fail_at: usize::MAX }
    }

    fn serve(&mut self, request: Request) -> Reply<u8> {
        self.requests += 1;
        if self.requests == self.fail_at {
            return Reply::Failed(7);
        }
        match request {
            Request::Write { reg: 0xFF, val } => {
                self.bank = val as usize;
                Reply::Done
            }
            Request::Write { reg, val } => {
                self.regs[self.bank][reg as usize] = val;
                Reply::Done
            }
            Request::Read { reg } => Reply::Byte(self.regs[self.bank][reg as usize]),
            Request::Delay { .. } => Reply::Done,
        }
    }

    fn set_up(&mut self) -> Result<(), Error<u8>> {
        let (mut setup, mut request) = camera_setup();
        loop {
            let reply = self.serve(request);
            match setup.advance(reply) {
                SetupStep::Ask(next) => request = next,
                SetupStep::Ready => return Ok(()),
                SetupStep::Failed(e) => return Err(e),
            }
        }
    }
}

#[test]
fn setup_programs_the_viewfinder() {
    let mut sensor = Sensor::new(0x26);
    assert_eq!(sensor.set_up(), Ok(()));
    assert_eq!(sensor.requests, 3 + 178 + 6 + 26);
    assert_eq!(sensor.bank, 0);
    let dsp = &sensor.regs[0];
    assert_eq!((dsp[0x5A], dsp[0x5B], dsp[0x5C]), (80, 40, 0));
    assert_eq!((dsp[0x51], dsp[0x52]), (160, 80));
    assert_eq!((dsp[0x53], dsp[0x54], dsp[0x55]), (80, 140, 0));
    assert_eq!(dsp[0xDA], 0x09);
    assert_eq!(sensor.regs[1][0x12], 0x40);
}

#[test]
fn setup_refuses_other_device() {
    let mut sensor = Sensor::new(0x77);
    assert_eq!(sensor.set_up(), Err(Error::WrongId { pid: 0x77, ver: 0x42 }));
    assert_eq!(sensor.requests, 3);
}

#[test]
fn setup_stops_at_first_bus_error() {
    for at in [1, 2, 4, 5, 100, 182, 190, 213] {
        let mut sensor = Sensor::new(0x26);
        sensor.fail_at = at;
        assert_eq!(sensor.set_up(), Err(Error::I2c(7)));
        assert_eq!(sensor.requests, at);
    }
}

#[test]
fn frame_is_sampled_every_second_pixel() {
    assert_eq!((FRAME_W, FRAME_H, FRAME_WORDS, LCD_PIXELS), (320, 160, 25600, 12800));
    let mut frame = [0u32; FRAME_WORDS];
    for (i, word) in frame.iter_mut().enumerate() {
        *word = 0xABCD_0000 | (i as u32 & 0xFFFF);
    }
    let blit = draw_frame(&frame);
    assert_eq!((blit.first_x, blit.first_y, blit.last_x, blit.last_y), (0, 0, 159, 79));
    assert_eq!(blit.pixel(0), 0);
    assert_eq!(blit.pixel(1), 1);
    assert_eq!(blit.pixel(159), 159);
    // The second row of the panel is the third row of the frame.
    assert_eq!(blit.pixel(160), 320);
    assert_eq!(blit.pixel(LCD_PIXELS - 1), 79 * 320 + 159);
}

#[test]
fn panel_comes_up_step_by_step() {
    let (setup, mut bring_up, first) = init_lcd();
    assert_eq!(setup, PanelSetup { rgb: false, inverted: true, width: 160, height: 128 });
    assert_eq!(first, PanelStep::Init);
    let steps = [
        PanelStep::Orient { mounting: Mounting::LandscapeSwapped },
        PanelStep::Offset { x: 0, y: 24 },
        PanelStep::Clear { color: Color::Black },
    ];
    for step in steps {
        assert_eq!(bring_up.advance(true), PanelNext::Do { step });
    }
    assert_eq!(bring_up.advance(true), PanelNext::Ready);
}

#[test]
fn panel_stops_at_first_failure() {
    for at in 0..4 {
        let (_, mut bring_up, _) = init_lcd();
        for _ in 0..at {
            assert!(matches!(bring_up.advance(true), PanelNext::Do { .. }));
        }
        assert_eq!(bring_up.advance(false), PanelNext::Failed);
    }
}

#[test]
fn error_is_red_on_black() {
    assert_eq!(
        show_error("NO CAMERA"),
        [
            Draw::Clear { color: Color::Black },
            Draw::Text { text: "NO CAMERA", x: 80, y: 47, ink: Color::Red },
        ]
    );
}

#[test]
fn camera_is_handed_over_when_ready() {
    let mut sensor = Sensor::new(0x26);
    let (mut setup, mut request) = camera_setup();
    loop {
        match setup.advance(sensor.serve(request)) {
            SetupStep::Ask(next) => request = next,
            SetupStep::Ready => break,
            SetupStep::Failed(_) => panic!("setup failed"),
        }
    }
    let mut cam = setup.camera();
    assert_eq!(cam.set_colorbar(true), Request::Write { reg: 0xFF, val: 0x01 });
}

#[test]
fn failed_capture_frees_the_buffer() {
    assert_eq!(capture(true), AfterCapture::Show);
    assert_eq!(capture(false), AfterCapture::Retry { millis: 100 });
}

#[test]
fn rate_is_given_every_32_frames() {
    let mut meter = FpsMeter::new();
    for _ in 0..2 {
        for _ in 0..31 {
            assert_eq!(meter.frame_shown(1_000), None);
        }
        // 32 frames in 3.2 seconds are 10.0 frames per second.
        assert_eq!(meter.frame_shown(3_200), Some(100));
    }
}

#[test]
fn rate_of_no_time_at_all() {
    let mut meter = FpsMeter::new();
    for _ in 0..31 {
        meter.frame_shown(0);
    }
    assert_eq!(meter.frame_shown(0), Some(320_000));
    for _ in 0..31 {
        meter.frame_shown(0);
    }
    // The milliseconds are counted in 32 bits.
    assert_eq!(meter.frame_shown(0x1_0000_0000 + 1_000), Some(320));
}

#[test]
fn heartbeat_toggles_twice_a_second() {
    assert_eq!(heartbeat(), LedStep { led: Led::Toggle, wait_millis: 500 });
}
