use hyprctl_tools::{
    candidate_text, display_geometry, interpret_selection, notification_target, Capture,
    CaptureAction, CaptureError, CaptureMode, Geometry, Insets, MonitorMetrics, OpenTarget,
    ParseGeometryError, Submap, VisualOverride, WindowFrame, OVERRIDE_COUNT,
};

fn rect(x: i32, y: i32, width: u32, height: u32) -> Geometry {
    Geometry { x, y, width, height }
}

fn monitor(x: i32, width: u16, height: u16, scale_120: u32) -> MonitorMetrics {
    MonitorMetrics {
        x,
        y: 0,
        width,
        height,
        scale_120,
        reserved: Insets { left: 0, top: 0, right: 0, bottom: 0 },
    }
}

/// Runs a window capture through the overrides and the submap, up to the selector.
fn window_capture_until_selector(frames: &[WindowFrame]) -> (Capture, CaptureAction) {
    let (mut c, mut a) = Capture::start(CaptureMode::Window);
    let order = [
        VisualOverride::InactiveBorderColor,
        VisualOverride::ActiveBorderColor,
        VisualOverride::Rounding,
        VisualOverride::DimInactive,
        VisualOverride::InactiveOpacity,
    ];
    assert_eq!(order.len(), OVERRIDE_COUNT);
    for o in order {
        assert_eq!(a, CaptureAction::SetOverride(o));
        (c, a) = c.on_completed();
    }
    assert_eq!(a, CaptureAction::EnterSubmap(Submap::Empty));
    (c, a) = c.on_completed();
    assert_eq!(a, CaptureAction::QueryWindows);
    c.on_windows(1, frames)
}

#[test]
fn empty_output_is_cancelled() {
    assert_eq!(interpret_selection(CaptureMode::Region, b""), Ok(None));
    assert_eq!(interpret_selection(CaptureMode::Window, b""), Ok(None));
}

#[test]
fn degenerate_selection_is_cancelled() {
    assert_eq!(interpret_selection(CaptureMode::Region, b"5 5 2 100\n"), Ok(None));
    assert_eq!(interpret_selection(CaptureMode::Window, b"5 5 100 1\n"), Ok(None));
    assert_eq!(interpret_selection(CaptureMode::Region, b"5 5 0 0"), Ok(None));
}

#[test]
fn region_loses_its_outline() {
    assert_eq!(interpret_selection(CaptureMode::Region, b"10 20 30 40\n"), Ok(Some(rect(11, 21, 28, 38))));
    assert_eq!(interpret_selection(CaptureMode::Region, b"10 20 3 3"), Ok(Some(rect(11, 21, 1, 1))));
}

#[test]
fn window_selection_is_kept_whole() {
    assert_eq!(interpret_selection(CaptureMode::Window, b"10 20 30 40\n"), Ok(Some(rect(10, 20, 30, 40))));
}

#[test]
fn garbled_selection_is_an_error() {
    assert_eq!(
        interpret_selection(CaptureMode::Region, b"10 20 thirty 40"),
        Err(ParseGeometryError::ParseArgument(2))
    );
    assert_eq!(interpret_selection(CaptureMode::Window, b"\n"), Err(ParseGeometryError::WrongArgumentsCount));
}

#[test]
fn display_rectangle_is_logical_and_rounded() {
    assert_eq!(display_geometry(&monitor(1920, 2560, 1440, 150)), rect(1920, 0, 2048, 1152));
    // 1366 / 1.25 = 1092.8 and 768 / 1.25 = 614.4.
    assert_eq!(display_geometry(&monitor(0, 1366, 768, 150)), rect(0, 0, 1093, 614));
    assert_eq!(display_geometry(&monitor(-10, 1920, 1080, 120)), rect(-10, 0, 1920, 1080));
}

#[test]
fn candidates_are_the_workspace_windows() {
    let frames = [
        WindowFrame { workspace: 1, x: 0, y: 0, width: 960, height: 1080 },
        WindowFrame { workspace: 2, x: 5, y: 5, width: 10, height: 10 },
        WindowFrame { workspace: 1, x: 960, y: -3, width: 960, height: 540 },
    ];
    assert_eq!(candidate_text(&frames, 1), b"0,0 960x1080\n960,-3 960x540".to_vec());
    assert_eq!(candidate_text(&frames, 2), b"5,5 10x10".to_vec());
    assert_eq!(candidate_text(&frames, 3), Vec::<u8>::new());
}

#[test]
fn display_capture_goes_straight_to_rasterizing() {
    let (c, a) = Capture::start(CaptureMode::Display);
    assert_eq!(a, CaptureAction::QueryMonitor);
    let (c, a) = c.on_monitor(&monitor(0, 1920, 1080, 120));
    assert_eq!(a, CaptureAction::Rasterize(rect(0, 0, 1920, 1080)));
    let (c, a) = c.on_completed();
    assert_eq!(a, CaptureAction::CopyToClipboard);
    let (c, a) = c.on_completed();
    assert_eq!(a, CaptureAction::Notify);
    let (_, a) = c.on_completed();
    assert_eq!(a, CaptureAction::Finish(Ok(())));
}

#[test]
fn region_capture_saves_and_notifies() {
    let (c, a) = Capture::start(CaptureMode::Region);
    assert_eq!(a, CaptureAction::RunSelector { snap: false, candidates: vec![] });
    let (c, a) = c.on_selection(b"100 100 52 52\n");
    assert_eq!(a, CaptureAction::Rasterize(rect(101, 101, 50, 50)));
    let (c, a) = c.on_completed();
    assert_eq!(a, CaptureAction::CopyToClipboard);
    let (c, a) = c.on_completed();
    assert_eq!(a, CaptureAction::Notify);
    let (_, a) = c.on_completed();
    assert_eq!(a, CaptureAction::Finish(Ok(())));
}

#[test]
fn region_capture_cancelled_ends_quietly() {
    let (c, _) = Capture::start(CaptureMode::Region);
    let (_, a) = c.on_selection(b"");
    assert_eq!(a, CaptureAction::Finish(Ok(())));
}

#[test]
fn window_capture_cancelled_restores_and_succeeds() {
    let frames = [WindowFrame { workspace: 1, x: 0, y: 0, width: 800, height: 600 }];
    let (c, a) = window_capture_until_selector(&frames);
    assert_eq!(a, CaptureAction::RunSelector { snap: true, candidates: b"0,0 800x600".to_vec() });
    let (c, a) = c.on_selection(b"");
    assert_eq!(a, CaptureAction::ReloadConfig);
    let (c, a) = c.on_completed();
    assert_eq!(a, CaptureAction::EnterSubmap(Submap::Reset));
    let (_, a) = c.on_completed();
    assert_eq!(a, CaptureAction::Finish(Ok(())));
}

#[test]
fn window_capture_saved_restores_before_notifying() {
    let frames = [WindowFrame { workspace: 1, x: 0, y: 0, width: 800, height: 600 }];
    let (c, _) = window_capture_until_selector(&frames);
    let (c, a) = c.on_selection(b"0 0 800 600\n");
    assert_eq!(a, CaptureAction::Rasterize(rect(0, 0, 800, 600)));
    let (c, a) = c.on_completed();
    assert_eq!(a, CaptureAction::CopyToClipboard);
    let (c, a) = c.on_completed();
    assert_eq!(a, CaptureAction::ReloadConfig);
    let (c, a) = c.on_completed();
    assert_eq!(a, CaptureAction::EnterSubmap(Submap::Reset));
    let (c, a) = c.on_completed();
    assert_eq!(a, CaptureAction::Notify);
    let (_, a) = c.on_completed();
    assert_eq!(a, CaptureAction::Finish(Ok(())));
}

#[test]
fn window_capture_failure_still_restores() {
    let frames = [WindowFrame { workspace: 1, x: 0, y: 0, width: 800, height: 600 }];
    let (c, _) = window_capture_until_selector(&frames);
    let (c, _) = c.on_selection(b"0 0 800 600\n");
    let (c, a) = c.on_failed(CaptureError::Subprocess);
    assert_eq!(a, CaptureAction::ReloadConfig);
    let (c, a) = c.on_failed(CaptureError::Transport);
    assert_eq!(a, CaptureAction::EnterSubmap(Submap::Reset));
    let (_, a) = c.on_completed();
    assert_eq!(a, CaptureAction::Finish(Err(CaptureError::Subprocess)));
}

#[test]
fn window_capture_with_bad_selection_restores() {
    let (c, _) = window_capture_until_selector(&[]);
    let (c, a) = c.on_selection(b"oops");
    assert_eq!(a, CaptureAction::ReloadConfig);
    let (c, _) = c.on_completed();
    let (_, a) = c.on_completed();
    assert_eq!(a, CaptureAction::Finish(Err(CaptureError::Parse(ParseGeometryError::WrongArgumentsCount))));
}

#[test]
fn first_override_failure_ends_at_once() {
    let (c, _) = Capture::start(CaptureMode::Window);
    let (_, a) = c.on_failed(CaptureError::Transport);
    assert_eq!(a, CaptureAction::Finish(Err(CaptureError::Transport)));
}

#[test]
fn out_of_order_reply_is_rejected() {
    let (c, _) = Capture::start(CaptureMode::Display);
    let (_, a) = c.on_selection(b"0 0 10 10");
    assert_eq!(a, CaptureAction::Finish(Err(CaptureError::BadReply)));
    let (c, _) = Capture::start(CaptureMode::Display);
    let (_, a) = c.on_monitor(&monitor(0, 1920, 1080, 0));
    assert_eq!(a, CaptureAction::Finish(Err(CaptureError::BadReply)));
}

#[test]
fn override_values_and_names() {
    assert_eq!(VisualOverride::Rounding.keyword(), "decoration:rounding");
    assert_eq!(VisualOverride::ActiveBorderColor.value(), 0xFFFF_FFFF);
    assert_eq!(VisualOverride::InactiveOpacity.value(), 1);
    assert_eq!(Submap::Empty.name(), "empty");
    assert_eq!(CaptureMode::Display.label(), "active");
}

#[test]
fn notification_actions() {
    assert_eq!(notification_target("show"), OpenTarget::Directory);
    assert_eq!(notification_target("open"), OpenTarget::File);
    assert_eq!(notification_target("edit"), OpenTarget::File);
    assert_eq!(notification_target("__closed"), OpenTarget::Nothing);
}
