//! A screenshot as a sequence of steps. The caller performs each action that
//! the capture hands out and reports how it went; the capture decides what
//! comes next. A window capture first changes a few compositor options and
//! switches to a keybinding context without bindings; once the first option is
//! set, every way the capture can end goes through reloading the
//! configuration and restoring the default context. A cancelled selection ends
//! the capture without an error and without a notification. A failing tool or
//! compositor call ends it with that error, after the restoring steps.

use vstd::prelude::*;
use vstd::string::StringSliceAdditionalSpecFns;
use crate::codec::{Geometry, ParseGeometryError, same_bytes};
use crate::placement::MonitorMetrics;
use crate::selector::{
    CaptureMode, WindowFrame, candidate_text, candidates_spec, display_geometry, display_spec,
    interpret_selection, selection_spec,
};

verus! {

/// A compositor option changed for the time of a window capture, so that
/// every window looks as it would alone on the screen.
#[derive(Clone, Copy, Debug, PartialEq, Eq, Structural)]
pub enum VisualOverride {
    InactiveBorderColor,
    ActiveBorderColor,
    Rounding,
    DimInactive,
    InactiveOpacity,
}

/// How many options a window capture changes.
pub const OVERRIDE_COUNT: usize = 5;
/// Opaque white, as the compositor writes colours (`0xAARRGGBB`).
pub const OPAQUE_WHITE: i64 = 0xFFFF_FFFF;

/// The options changed before a window capture, in the order they are set.
pub open spec fn override_at(i: int) -> VisualOverride {
    if i == 0 {
        VisualOverride::InactiveBorderColor
    } else if i == 1 {
        VisualOverride::ActiveBorderColor
    } else if i == 2 {
        VisualOverride::Rounding
    } else if i == 3 {
        VisualOverride::DimInactive
    } else {
        VisualOverride::InactiveOpacity
    }
}

pub fn override_at_index(i: usize) -> (r: VisualOverride)
    ensures
        r == override_at(i as int),
{
    if i == 0 {
        VisualOverride::InactiveBorderColor
    } else if i == 1 {
        VisualOverride::ActiveBorderColor
    } else if i == 2 {
        VisualOverride::Rounding
    } else if i == 3 {
        VisualOverride::DimInactive
    } else {
        VisualOverride::InactiveOpacity
    }
}

impl VisualOverride {
    /// The compositor's name of the option.
    pub fn keyword(&self) -> (r: &'static str)
        ensures
            r@ == (match *self {
                VisualOverride::InactiveBorderColor => "general:col.inactive_border"@,
                VisualOverride::ActiveBorderColor => "general:col.active_border"@,
                VisualOverride::Rounding => "decoration:rounding"@,
                VisualOverride::DimInactive => "decoration:dim_inactive"@,
                VisualOverride::InactiveOpacity => "decoration:inactive_opacity"@,
            }),
    {
        match self {
            VisualOverride::InactiveBorderColor => "general:col.inactive_border",
            VisualOverride::ActiveBorderColor => "general:col.active_border",
            VisualOverride::Rounding => "decoration:rounding",
            VisualOverride::DimInactive => "decoration:dim_inactive",
            VisualOverride::InactiveOpacity => "decoration:inactive_opacity",
        }
    }

    /// The value the option holds during the capture.
    pub fn value(&self) -> (r: i64)
        ensures
            r == (match *self {
                VisualOverride::InactiveBorderColor => OPAQUE_WHITE,
                VisualOverride::ActiveBorderColor => OPAQUE_WHITE,
                VisualOverride::Rounding => 0,
                VisualOverride::DimInactive => 0,
                VisualOverride::InactiveOpacity => 1,
            }),
    {
        match self {
            VisualOverride::InactiveBorderColor => OPAQUE_WHITE,
            VisualOverride::ActiveBorderColor => OPAQUE_WHITE,
            VisualOverride::Rounding => 0,
            VisualOverride::DimInactive => 0,
            VisualOverride::InactiveOpacity => 1,
        }
    }
}

/// A keybinding context of the compositor.
#[derive(Clone, Copy, Debug, PartialEq, Eq, Structural)]
pub enum Submap {
    /// A context without bindings, so that the selection tool gets every key.
    Empty,
    /// The default context.
    Reset,
}

impl Submap {
    pub fn name(&self) -> (r: &'static str)
        ensures
            r@ == (match *self {
                Submap::Empty => "empty"@,
                Submap::Reset => "reset"@,
            }),
    {
        match self {
            Submap::Empty => "empty",
            Submap::Reset => "reset",
        }
    }
}

#[derive(Clone, Copy, Debug, PartialEq, Eq, Structural)]
pub enum CaptureError {
    /// The compositor could not be reached, or its reply was not understood.
    Transport,
    /// An outside tool could not be run, or it failed.
    Subprocess,
    /// The selection tool printed something that is not a rectangle.
    Parse(ParseGeometryError),
    /// A reply that does not answer the last action.
    BadReply,
}

/// How the capture is going, or how it went.
#[derive(Clone, Copy, Debug, PartialEq, Eq, Structural)]
pub enum Outcome {
    Pending,
    Saved,
    Cancelled,
    Failed(CaptureError),
}

/// Where a capture stands: each phase waits for the reply to one action.
#[derive(Clone, Copy, Debug, PartialEq, Eq, Structural)]
pub enum Phase {
    /// Setting the option `override_at(i)`.
    Applying(usize),
    EnteringSubmap,
    QueryingWindows,
    Selecting,
    Rasterizing(Geometry),
    Copying,
    Reloading,
    ResettingSubmap,
    Notifying,
    Done,
}

/// What the caller is to do next, and then report on.
#[derive(Debug, PartialEq, Eq)]
pub enum CaptureAction {
    SetOverride(VisualOverride),
    EnterSubmap(Submap),
    /// Report the active workspace and every window.
    QueryWindows,
    /// Run the interactive selection tool, restricted to the candidate
    /// rectangles (one `x,y WxH` line each) when `snap` is set, and report
    /// what it printed.
    RunSelector { snap: bool, candidates: Vec<u8> },
    /// Report the active monitor.
    QueryMonitor,
    /// Write the rectangle's pixels to the capture's file.
    Rasterize(Geometry),
    /// Put the capture's file on the clipboard as an image.
    CopyToClipboard,
    ReloadConfig,
    /// Tell the user where the capture is.
    Notify,
    Finish(Result<(), CaptureError>),
}

/// One screenshot in progress.
#[derive(Clone, Copy, Debug, PartialEq, Eq, Structural)]
pub struct Capture {
    pub mode: CaptureMode,
    pub phase: Phase,
    pub outcome: Outcome,
}

pub open spec fn finish_result(o: Outcome) -> Result<(), CaptureError> {
    match o {
        Outcome::Failed(e) => Err(e),
        _ => Ok(()),
    }
}

/// The action that a capture in state `c` waits on.
pub open spec fn announces(a: CaptureAction, c: Capture) -> bool {
    match c.phase {
        Phase::Applying(i) => a == CaptureAction::SetOverride(override_at(i as int)),
        Phase::EnteringSubmap => a == CaptureAction::EnterSubmap(Submap::Empty),
        Phase::QueryingWindows => a == CaptureAction::QueryWindows,
        Phase::Selecting => match c.mode {
            CaptureMode::Display => a == CaptureAction::QueryMonitor,
            CaptureMode::Region => a matches CaptureAction::RunSelector { snap, candidates } && !snap
                && candidates@.len() == 0,
            CaptureMode::Window => a matches CaptureAction::RunSelector { snap, .. } && snap,
        },
        Phase::Rasterizing(g) => a == CaptureAction::Rasterize(g),
        Phase::Copying => a == CaptureAction::CopyToClipboard,
        Phase::Reloading => a == CaptureAction::ReloadConfig,
        Phase::ResettingSubmap => a == CaptureAction::EnterSubmap(Submap::Reset),
        Phase::Notifying => a == CaptureAction::Notify,
        Phase::Done => a == CaptureAction::Finish(finish_result(c.outcome)),
    }
}

pub open spec fn start_spec(mode: CaptureMode) -> Capture {
    Capture {
        mode,
        phase: if mode == CaptureMode::Window { Phase::Applying(0) } else { Phase::Selecting },
        outcome: Outcome::Pending,
    }
}

/// The work is over with outcome `o`: a window capture first restores the
/// compositor, a saved one is then announced.
pub open spec fn wind_up(c: Capture, o: Outcome) -> Capture {
    if c.mode == CaptureMode::Window {
        Capture { phase: Phase::Reloading, outcome: o, ..c }
    } else {
        conclude(c, o)
    }
}

pub open spec fn conclude(c: Capture, o: Outcome) -> Capture {
    Capture {
        phase: if o == Outcome::Saved { Phase::Notifying } else { Phase::Done },
        outcome: o,
        ..c
    }
}

/// The outcome once a restoring step failed with `e`: the first failure is kept.
pub open spec fn with_failure(o: Outcome, e: CaptureError) -> Outcome {
    if o is Failed { o } else { Outcome::Failed(e) }
}

/// After a failure the capture stops where it is; from the first option set
/// on, it restores the compositor before it ends.
pub open spec fn after_failed(c: Capture, e: CaptureError) -> Capture {
    match c.phase {
        Phase::Applying(i) => if i == 0 {
            Capture { phase: Phase::Done, outcome: Outcome::Failed(e), ..c }
        } else {
            wind_up(c, Outcome::Failed(e))
        },
        Phase::Reloading => Capture { phase: Phase::ResettingSubmap, outcome: with_failure(c.outcome, e), ..c },
        Phase::ResettingSubmap => conclude(c, with_failure(c.outcome, e)),
        Phase::Notifying => Capture { phase: Phase::Done, outcome: Outcome::Failed(e), ..c },
        Phase::Done => c,
        _ => wind_up(c, Outcome::Failed(e)),
    }
}

/// The last action succeeded.
pub open spec fn after_completed(c: Capture) -> Capture {
    match c.phase {
        Phase::Applying(i) => if i + 1 < OVERRIDE_COUNT {
            Capture { phase: Phase::Applying((i + 1) as usize), ..c }
        } else {
            Capture { phase: Phase::EnteringSubmap, ..c }
        },
        Phase::EnteringSubmap => Capture { phase: Phase::QueryingWindows, ..c },
        Phase::Rasterizing(_) => Capture { phase: Phase::Copying, ..c },
        Phase::Copying => wind_up(c, Outcome::Saved),
        Phase::Reloading => Capture { phase: Phase::ResettingSubmap, ..c },
        Phase::ResettingSubmap => conclude(c, c.outcome),
        Phase::Notifying => Capture { phase: Phase::Done, ..c },
        Phase::Done => c,
        _ => after_failed(c, CaptureError::BadReply),
    }
}

/// The windows were listed.
pub open spec fn after_windows(c: Capture) -> Capture {
    if c.phase == Phase::QueryingWindows && c.mode == CaptureMode::Window {
        Capture { phase: Phase::Selecting, ..c }
    } else {
        after_failed(c, CaptureError::BadReply)
    }
}

/// The selection tool answered `sel` (see `selection_spec`).
pub open spec fn after_selection(c: Capture, sel: Result<Option<Geometry>, ParseGeometryError>) -> Capture {
    if c.phase == Phase::Selecting && c.mode != CaptureMode::Display {
        match sel {
            Err(e) => wind_up(c, Outcome::Failed(CaptureError::Parse(e))),
            Ok(None) => wind_up(c, Outcome::Cancelled),
            Ok(Some(g)) => Capture { phase: Phase::Rasterizing(g), ..c },
        }
    } else {
        after_failed(c, CaptureError::BadReply)
    }
}

/// The active monitor was reported.
pub open spec fn after_monitor(c: Capture, m: MonitorMetrics) -> Capture {
    if c.phase == Phase::Selecting && c.mode == CaptureMode::Display && m.scale_120 > 0 {
        Capture { phase: Phase::Rasterizing(display_spec(m)), ..c }
    } else {
        after_failed(c, CaptureError::BadReply)
    }
}

/// The phases in which the compositor may hold changed options or the empty
/// keybinding context.
pub open spec fn holds_overrides(c: Capture) -> bool {
    c.mode == CaptureMode::Window && match c.phase {
        Phase::Applying(i) => i > 0,
        Phase::Notifying | Phase::Done => false,
        _ => true,
    }
}

impl Capture {
    pub open spec fn well_formed(self) -> bool {
        &&& self.phase matches Phase::Applying(i) ==> i < OVERRIDE_COUNT && self.mode == CaptureMode::Window
        &&& (self.phase is EnteringSubmap || self.phase is QueryingWindows || self.phase is Reloading
            || self.phase is ResettingSubmap) ==> self.mode == CaptureMode::Window
        &&& (self.phase is Notifying) ==> self.outcome == Outcome::Saved
        &&& (self.phase is Done) ==> self.outcome != Outcome::Pending
        &&& (self.phase is Reloading || self.phase is ResettingSubmap) ==> self.outcome != Outcome::Pending
        &&& !(self.phase is Reloading || self.phase is ResettingSubmap || self.phase is Done
            || self.phase is Notifying) ==> self.outcome == Outcome::Pending
    }

    fn action(&self) -> (r: CaptureAction)
        requires
            self.phase != Phase::Selecting || self.mode != CaptureMode::Window,
        ensures
            announces(r, *self),
    {
        match self.phase {
            Phase::Applying(i) => CaptureAction::SetOverride(override_at_index(i)),
            Phase::EnteringSubmap => CaptureAction::EnterSubmap(Submap::Empty),
            Phase::QueryingWindows => CaptureAction::QueryWindows,
            Phase::Selecting => match self.mode {
                CaptureMode::Display => CaptureAction::QueryMonitor,
                _ => CaptureAction::RunSelector { snap: false, candidates: Vec::new() },
            },
            Phase::Rasterizing(g) => CaptureAction::Rasterize(g),
            Phase::Copying => CaptureAction::CopyToClipboard,
            Phase::Reloading => CaptureAction::ReloadConfig,
            Phase::ResettingSubmap => CaptureAction::EnterSubmap(Submap::Reset),
            Phase::Notifying => CaptureAction::Notify,
            Phase::Done => CaptureAction::Finish(match self.outcome {
                Outcome::Failed(e) => Err(e),
                _ => Ok(()),
            }),
        }
    }

    fn wind_up(&self, o: Outcome) -> (r: Capture)
        ensures
            r == wind_up(*self, o),
    {
        if self.mode == CaptureMode::Window {
            Capture { phase: Phase::Reloading, outcome: o, ..*self }
        } else {
            self.conclude(o)
        }
    }

    fn conclude(&self, o: Outcome) -> (r: Capture)
        ensures
            r == conclude(*self, o),
    {
        Capture {
            phase: if o == Outcome::Saved { Phase::Notifying } else { Phase::Done },
            outcome: o,
            ..*self
        }
    }

    fn failed_state(&self, e: CaptureError) -> (r: Capture)
        ensures
            r == after_failed(*self, e),
    {
        let kept = match self.outcome {
            Outcome::Failed(_) => self.outcome,
            _ => Outcome::Failed(e),
        };
        match self.phase {
            Phase::Applying(i) => if i == 0 {
                Capture { phase: Phase::Done, outcome: Outcome::Failed(e), ..*self }
            } else {
                self.wind_up(Outcome::Failed(e))
            },
            Phase::Reloading => Capture { phase: Phase::ResettingSubmap, outcome: kept, ..*self },
            Phase::ResettingSubmap => self.conclude(kept),
            Phase::Notifying => Capture { phase: Phase::Done, outcome: Outcome::Failed(e), ..*self },
            Phase::Done => *self,
            _ => self.wind_up(Outcome::Failed(e)),
        }
    }

    /// Starts a capture: a window capture first changes the compositor's look.
    pub fn start(mode: CaptureMode) -> (r: (Capture, CaptureAction))
        ensures
            r.0 == start_spec(mode),
            r.0.well_formed(),
            announces(r.1, r.0),
    {
        let c = Capture {
            mode,
            phase: if mode == CaptureMode::Window { Phase::Applying(0) } else { Phase::Selecting },
            outcome: Outcome::Pending,
        };
        let a = c.action();
        (c, a)
    }

    /// The last action failed with `e`.
    pub fn on_failed(&self, e: CaptureError) -> (r: (Capture, CaptureAction))
        ensures
            r.0 == after_failed(*self, e),
            self.well_formed() ==> r.0.well_formed(),
            announces(r.1, r.0),
    {
        let c = self.failed_state(e);
        let a = c.action();
        (c, a)
    }

    /// The last action succeeded.
    pub fn on_completed(&self) -> (r: (Capture, CaptureAction))
        ensures
            r.0 == after_completed(*self),
            self.well_formed() ==> r.0.well_formed(),
            announces(r.1, r.0),
    {
        let c = match self.phase {
            Phase::Applying(i) => if i < OVERRIDE_COUNT - 1 {
                Capture { phase: Phase::Applying(i + 1), ..*self }
            } else {
                Capture { phase: Phase::EnteringSubmap, ..*self }
            },
            Phase::EnteringSubmap => Capture { phase: Phase::QueryingWindows, ..*self },
            Phase::Rasterizing(_) => Capture { phase: Phase::Copying, ..*self },
            Phase::Copying => self.wind_up(Outcome::Saved),
            Phase::Reloading => Capture { phase: Phase::ResettingSubmap, ..*self },
            Phase::ResettingSubmap => self.conclude(self.outcome),
            Phase::Notifying => Capture { phase: Phase::Done, ..*self },
            Phase::Done => *self,
            _ => self.failed_state(CaptureError::BadReply),
        };
        let a = c.action();
        (c, a)
    }

    /// The windows were listed: those of `workspace` become the snapping targets.
    pub fn on_windows(&self, workspace: i32, frames: &[WindowFrame]) -> (r: (Capture, CaptureAction))
        ensures
            r.0 == after_windows(*self),
            self.well_formed() ==> r.0.well_formed(),
            announces(r.1, r.0),
            r.0.phase == Phase::Selecting ==> r.1 == (CaptureAction::RunSelector {
                snap: true,
                candidates: r.1->candidates,
            }) && r.1->candidates@ == candidates_spec(frames@, workspace),
    {
        if self.phase == Phase::QueryingWindows && self.mode == CaptureMode::Window {
            let c = Capture { phase: Phase::Selecting, ..*self };
            (c, CaptureAction::RunSelector { snap: true, candidates: candidate_text(frames, workspace) })
        } else {
            let c = self.failed_state(CaptureError::BadReply);
            let a = c.action();
            (c, a)
        }
    }

    /// The selection tool printed `out`.
    pub fn on_selection(&self, out: &[u8]) -> (r: (Capture, CaptureAction))
        ensures
            r.0 == after_selection(*self, selection_spec(self.mode, out@)),
            self.well_formed() ==> r.0.well_formed(),
            announces(r.1, r.0),
    {
        let c = if self.phase == Phase::Selecting && self.mode != CaptureMode::Display {
            match interpret_selection(self.mode, out) {
                Err(e) => self.wind_up(Outcome::Failed(CaptureError::Parse(e))),
                Ok(None) => self.wind_up(Outcome::Cancelled),
                Ok(Some(g)) => Capture { phase: Phase::Rasterizing(g), ..*self },
            }
        } else {
            self.failed_state(CaptureError::BadReply)
        };
        let a = c.action();
        (c, a)
    }

    /// The active monitor was reported.
    pub fn on_monitor(&self, m: &MonitorMetrics) -> (r: (Capture, CaptureAction))
        ensures
            r.0 == after_monitor(*self, *m),
            self.well_formed() ==> r.0.well_formed(),
            announces(r.1, r.0),
    {
        let c = if self.phase == Phase::Selecting && self.mode == CaptureMode::Display && m.scale_120 > 0 {
            Capture { phase: Phase::Rasterizing(display_geometry(m)), ..*self }
        } else {
            self.failed_state(CaptureError::BadReply)
        };
        let a = c.action();
        (c, a)
    }
}

/// Once a window capture has changed the compositor, whatever is reported
/// next, the capture goes on holding the changes until the configuration is
/// reloaded and the default keybindings are back: the reload always leads to
/// the reset, and only the reset lets go.
pub proof fn lemma_overrides_always_restored(
    c: Capture,
    e: CaptureError,
    sel: Result<Option<Geometry>, ParseGeometryError>,
    m: MonitorMetrics,
)
    requires
        c.well_formed(),
        holds_overrides(c),
    ensures
        c.phase != Phase::ResettingSubmap ==> {
            &&& holds_overrides(after_completed(c))
            &&& holds_overrides(after_failed(c, e))
            &&& holds_overrides(after_windows(c))
            &&& holds_overrides(after_selection(c, sel))
            &&& holds_overrides(after_monitor(c, m))
        },
        c.phase == Phase::Reloading ==> {
            &&& after_completed(c).phase == Phase::ResettingSubmap
            &&& after_failed(c, e).phase == Phase::ResettingSubmap
            &&& after_windows(c).phase == Phase::ResettingSubmap
            &&& after_selection(c, sel).phase == Phase::ResettingSubmap
            &&& after_monitor(c, m).phase == Phase::ResettingSubmap
        },
{
}

/// A capture that is not a window capture never touches the compositor's look.
pub proof fn lemma_only_window_capture_overrides(
    c: Capture,
    e: CaptureError,
    sel: Result<Option<Geometry>, ParseGeometryError>,
    m: MonitorMetrics,
)
    requires
        c.well_formed(),
        c.mode != CaptureMode::Window,
    ensures
        !(after_completed(c).phase is Applying || after_completed(c).phase is Reloading),
        !(after_failed(c, e).phase is Applying || after_failed(c, e).phase is Reloading),
        !(after_windows(c).phase is Applying || after_windows(c).phase is Reloading),
        !(after_selection(c, sel).phase is Applying || after_selection(c, sel).phase is Reloading),
        !(after_monitor(c, m).phase is Applying || after_monitor(c, m).phase is Reloading),
{
}

/// A cancelled selection ends the capture without an error; from then on
/// nothing is rasterized, copied or announced, whatever is reported.
pub proof fn lemma_cancel_is_quiet(
    c: Capture,
    e: CaptureError,
    sel: Result<Option<Geometry>, ParseGeometryError>,
    m: MonitorMetrics,
)
    requires
        c.well_formed(),
    ensures
        c.phase == Phase::Selecting && c.mode != CaptureMode::Display ==> {
            let n = after_selection(c, Ok(None));
            &&& n.outcome == Outcome::Cancelled
            &&& n.phase == (if c.mode == CaptureMode::Window { Phase::Reloading } else { Phase::Done })
        },
        c.outcome == Outcome::Cancelled ==> {
            &&& quiet(after_completed(c))
            &&& quiet(after_failed(c, e))
            &&& quiet(after_windows(c))
            &&& quiet(after_selection(c, sel))
            &&& quiet(after_monitor(c, m))
        },
        c.outcome == Outcome::Cancelled && c.phase == Phase::ResettingSubmap ==> {
            &&& after_completed(c).phase == Phase::Done
            &&& finish_result(after_completed(c).outcome) == Ok::<(), CaptureError>(())
        },
{
}

/// Neither rasterizing, copying nor announcing a capture.
pub open spec fn quiet(c: Capture) -> bool {
    !(c.phase is Rasterizing || c.phase is Copying || c.phase is Notifying)
}

/// The notification's action that shows the capture in its directory.
pub const SHOW_ACTION: &'static str = "show";
/// The notification's action that opens the capture.
pub const OPEN_ACTION: &'static str = "open";
/// An action that opens the capture for editing; the notification does not offer it.
pub const EDIT_ACTION: &'static str = "edit";

/// What to open once the user picked an action of the notification.
#[derive(Clone, Copy, Debug, PartialEq, Eq, Structural)]
pub enum OpenTarget {
    Directory,
    File,
    Nothing,
}

pub fn notification_target(action: &str) -> (r: OpenTarget)
    ensures
        r == (if action.spec_bytes() == SHOW_ACTION.spec_bytes() {
            OpenTarget::Directory
        } else if action.spec_bytes() == OPEN_ACTION.spec_bytes() || action.spec_bytes()
            == EDIT_ACTION.spec_bytes() {
            OpenTarget::File
        } else {
            OpenTarget::Nothing
        }),
{
    let a = action.as_bytes();
    if same_bytes(a, SHOW_ACTION.as_bytes()) {
        OpenTarget::Directory
    } else if same_bytes(a, OPEN_ACTION.as_bytes()) || same_bytes(a, EDIT_ACTION.as_bytes()) {
        OpenTarget::File
    } else {
        OpenTarget::Nothing
    }
}

} // verus!
