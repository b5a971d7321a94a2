//! The compositor commands that toggle floating and fullscreen.

use vstd::prelude::*;
use crate::codec::Geometry;
use crate::placement::{
    Insets, MonitorMetrics, Point, anchored_placement, anchored_spec, centered_placement,
    centered_spec, half_side, quarter_side,
};

verus! {

/// Width of the window border, in logical pixels.
pub const BORDER: u16 = 4;
pub const GAP_LEFT: u16 = 20;
pub const GAP_TOP: u16 = 10;
pub const GAP_RIGHT: u16 = 20;
pub const GAP_BOTTOM: u16 = 20;

/// Fullscreen state codes of the compositor's `fullscreenstate` dispatcher.
pub const FULLSCREEN_NONE: i8 = 0;
pub const FULLSCREEN_FULL: i8 = 3;
/// Leaves the state that the client is told about as it is.
pub const FULLSCREEN_KEEP: i8 = -1;

/// A command for the compositor, about the active window.
#[derive(Clone, Copy, Debug, PartialEq, Eq, Structural)]
pub enum WmCommand {
    ToggleFloating,
    ResizeActive { width: i16, height: i16 },
    MoveActive { x: i16, y: i16 },
    FullscreenState { internal: i8, client: i8 },
}

pub open spec fn gaps_spec() -> Insets {
    Insets { left: GAP_LEFT, top: GAP_TOP, right: GAP_RIGHT, bottom: GAP_BOTTOM }
}

/// The gaps kept around a floating window.
pub fn float_gaps() -> (r: Insets)
    ensures
        r == gaps_spec(),
{
    Insets { left: GAP_LEFT, top: GAP_TOP, right: GAP_RIGHT, bottom: GAP_BOTTOM }
}

/// The nearest value of `i16`.
pub open spec fn saturate_i16(v: int) -> i16 {
    if v < i16::MIN {
        i16::MIN
    } else if v > i16::MAX {
        i16::MAX
    } else {
        v as i16
    }
}

pub fn to_i16_saturating(v: i64) -> (r: i16)
    ensures
        r == saturate_i16(v as int),
{
    if v < i16::MIN as i64 {
        i16::MIN
    } else if v > i16::MAX as i64 {
        i16::MAX
    } else {
        v as i16
    }
}

/// Make the window float, give it the size of `g`, then move it to `g`'s corner.
pub open spec fn float_into(g: Geometry) -> Seq<WmCommand> {
    seq![
        WmCommand::ToggleFloating,
        WmCommand::ResizeActive {
            width: saturate_i16(g.width as int),
            height: saturate_i16(g.height as int),
        },
        WmCommand::MoveActive { x: saturate_i16(g.x as int), y: saturate_i16(g.y as int) },
    ]
}

/// A floating window goes back to the tiled layout; a tiled one floats at
/// half the monitor's size, in its middle or at the cursor.
pub open spec fn toggle_float_spec(floating: bool, center: bool, m: MonitorMetrics, cursor: Point) -> Seq<WmCommand> {
    if floating {
        seq![WmCommand::ToggleFloating]
    } else if center {
        float_into(centered_spec(m))
    } else {
        float_into(anchored_spec(m, cursor, BORDER, gaps_spec()))
    }
}

/// Whether the cursor position takes part in toggling the active window.
pub fn needs_cursor(floating: bool, center: bool) -> (r: bool)
    ensures
        r == (!floating && !center),
{
    !floating && !center
}

fn float_into_commands(g: Geometry) -> (r: Vec<WmCommand>)
    ensures
        r@ == float_into(g),
{
    let mut v: Vec<WmCommand> = Vec::new();
    v.push(WmCommand::ToggleFloating);
    v.push(WmCommand::ResizeActive {
        width: to_i16_saturating(g.width as i64),
        height: to_i16_saturating(g.height as i64),
    });
    v.push(WmCommand::MoveActive { x: to_i16_saturating(g.x as i64), y: to_i16_saturating(g.y as i64) });
    proof {
        assert(v@ =~= float_into(g));
    }
    v
}

/// The commands that toggle the floating state of the active window.
pub fn toggle_float_commands(floating: bool, center: bool, m: &MonitorMetrics, cursor: Point) -> (r: Vec<WmCommand>)
    requires
        m.scale_120 > 0,
    ensures
        r@ == toggle_float_spec(floating, center, *m, cursor),
{
    if floating {
        let mut v: Vec<WmCommand> = Vec::new();
        v.push(WmCommand::ToggleFloating);
        proof {
            assert(v@ =~= seq![WmCommand::ToggleFloating]);
        }
        v
    } else if center {
        float_into_commands(centered_placement(m))
    } else {
        float_into_commands(anchored_placement(m, cursor, BORDER, float_gaps()))
    }
}

/// A centred window takes half the monitor's logical size and starts at a
/// quarter of it, wherever the cursor is.
pub proof fn lemma_centered_ignores_cursor(m: MonitorMetrics, c1: Point, c2: Point)
    requires
        m.scale_120 > 0,
    ensures
        toggle_float_spec(false, true, m, c1) == toggle_float_spec(false, true, m, c2),
        toggle_float_spec(false, true, m, c1) == float_into(
            Geometry {
                x: quarter_side(m.width as int, m.scale_120 as int) as i32,
                y: quarter_side(m.height as int, m.scale_120 as int) as i32,
                width: half_side(m.width as int, m.scale_120 as int) as u32,
                height: half_side(m.height as int, m.scale_120 as int) as u32,
            },
        ),
{
}

/// The command that takes the active window into fullscreen, or out of it,
/// keeping the state that its client was told about.
pub fn fullscreen_command(is_fullscreen: bool) -> (r: WmCommand)
    ensures
        r == (WmCommand::FullscreenState {
            internal: if is_fullscreen { FULLSCREEN_NONE } else { FULLSCREEN_FULL },
            client: FULLSCREEN_KEEP,
        }),
{
    WmCommand::FullscreenState {
        internal: if is_fullscreen { FULLSCREEN_NONE } else { FULLSCREEN_FULL },
        client: FULLSCREEN_KEEP,
    }
}

} // verus!
