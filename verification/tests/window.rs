use weact_h743::window::{size_regs, window, Window};

#[test]
fn viewfinder_window() {
    assert_eq!(
        window(320, 160),
        Window { log_div: 1, div: 2, width: 640, height: 320, x: 80, y: 140 }
    );
}

#[test]
fn full_frame_is_not_scaled() {
    assert_eq!(
        window(800, 600),
        Window { log_div: 0, div: 1, width: 800, height: 600, x: 0, y: 0 }
    );
}

#[test]
fn divider_stops_at_eight() {
    assert_eq!(
        window(4, 4),
        Window { log_div: 3, div: 8, width: 32, height: 32, x: 384, y: 284 }
    );
    assert_eq!(window(100, 72).div, 8);
    assert_eq!(window(104, 72).div, 4);
    assert_eq!(window(100, 76).div, 4);
}

#[test]
fn divider_is_a_power_of_two() {
    // 800 / 264 and 600 / 200 are both three.
    assert_eq!(window(264, 200).div, 2);
    assert_eq!(window(132, 100).div, 4);
}

#[test]
fn every_window_is_centred_and_largest() {
    for w in (4..=800u16).step_by(4) {
        for h in (4..=600u16).step_by(4) {
            let win = window(w, h);
            assert_eq!(win.div, 1 << win.log_div);
            assert_eq!(win.x + win.width + win.x, 800);
            assert_eq!(win.y + win.height + win.y, 600);
            assert!(win.div == 8 || w * win.div * 2 > 800 || h * win.div * 2 > 600);
        }
    }
}

#[test]
fn viewfinder_registers() {
    assert_eq!(
        size_regs(320, 160),
        [
            (0x50, 0x89),
            (0x51, 160),
            (0x52, 80),
            (0x53, 80),
            (0x54, 140),
            (0x55, 0),
            (0x57, 0),
            (0x5A, 80),
            (0x5B, 40),
            (0x5C, 0),
            (0xD3, 2),
            (0xE0, 0),
        ]
    );
}

#[test]
fn offsets_are_split() {
    let regs = size_regs(4, 4);
    assert_eq!(regs[0], (0x50, 0x9B));
    assert_eq!(regs[3], (0x53, 128));
    assert_eq!(regs[4], (0x54, 28));
    assert_eq!(regs[5], (0x55, 0x11));
    assert_eq!(regs[10], (0xD3, 8));
}
