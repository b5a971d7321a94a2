use hyprctl_tools::{
    anchored_placement, centered_placement, Geometry, Insets, MonitorMetrics, Point,
};

fn monitor(width: u16, height: u16, scale_120: u32, reserved: Insets) -> MonitorMetrics {
    MonitorMetrics { x: 0, y: 0, width, height, scale_120, reserved }
}

fn none() -> Insets {
    Insets { left: 0, top: 0, right: 0, bottom: 0 }
}

fn even(g: u16) -> Insets {
    Insets { left: g, top: g, right: g, bottom: g }
}

#[test]
fn cursor_in_corner_is_clamped() {
    // The clamped centre is 1920/4 + 20 + 0 + 4 = 504 and 1080/4 + 20 + 0 + 4 = 294;
    // the window starts a quarter of the monitor before it.
    let m = monitor(1920, 1080, 120, none());
    let r = anchored_placement(&m, Point { x: 0, y: 0 }, 4, even(20));
    assert_eq!(r, Geometry { x: 504 - 480, y: 294 - 270, width: 960, height: 540 });
}

#[test]
fn cursor_in_middle_is_kept() {
    let m = monitor(1920, 1080, 120, none());
    let r = anchored_placement(&m, Point { x: 960, y: 540 }, 4, even(20));
    assert_eq!(r, Geometry { x: 480, y: 270, width: 960, height: 540 });
}

#[test]
fn cursor_far_outside_stays_on_screen() {
    let m = monitor(1920, 1080, 120, Insets { left: 0, top: 30, right: 0, bottom: 0 });
    let r = anchored_placement(&m, Point { x: i64::MAX, y: i64::MIN }, 4, even(20));
    // Right edge: 1920 - 960 - 20 - 4 = 936; top edge: 30 + 20 + 4 = 54.
    assert_eq!(r, Geometry { x: 936, y: 54, width: 960, height: 540 });
}

#[test]
fn placement_respects_margins_everywhere() {
    let reserved = Insets { left: 10, top: 40, right: 5, bottom: 0 };
    let gaps = Insets { left: 20, top: 10, right: 20, bottom: 20 };
    for &(w, h, s) in &[(1920u16, 1080u16, 120u32), (2560, 1440, 150), (3840, 2160, 180)] {
        let m = monitor(w, h, s, reserved);
        let lw = w as i64 * 120 / s as i64;
        let lh = h as i64 * 120 / s as i64;
        for cx in (-100..lw + 100).step_by(37) {
            for cy in (-100..lh + 100).step_by(41) {
                let r = anchored_placement(&m, Point { x: cx, y: cy }, 4, gaps);
                assert!(r.x as i64 >= 20 + 10 + 4);
                assert!(r.y as i64 >= 10 + 40 + 4);
                assert!((r.x as i64 + r.width as i64 + 20 + 5 + 4) * s as i64 <= 120 * w as i64);
                assert!((r.y as i64 + r.height as i64 + 20 + 4) * s as i64 <= 120 * h as i64);
            }
        }
    }
}

#[test]
fn centered_is_half_size_in_middle() {
    let m = monitor(1920, 1080, 120, none());
    assert_eq!(centered_placement(&m), Geometry { x: 480, y: 270, width: 960, height: 540 });
    let scaled = monitor(2880, 1620, 180, none());
    assert_eq!(centered_placement(&scaled), Geometry { x: 480, y: 270, width: 960, height: 540 });
}

#[test]
fn fractional_scale_rounds_down() {
    // 1366 / 1.25 = 1092.8 logical pixels: half is 546, a quarter 273.
    let m = monitor(1366, 768, 150, none());
    assert_eq!(centered_placement(&m), Geometry { x: 273, y: 153, width: 546, height: 307 });
}
