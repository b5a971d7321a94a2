//! What each capture mode selects: the selection tool's answer, the window
//! list it snaps to, or the whole monitor.

use vstd::prelude::*;
use crate::codec::{Geometry, NEWLINE, ParseGeometryError, parse_spec, push_rect_text, rect_text};
use crate::placement::MonitorMetrics;

verus! {

/// What a capture covers.
#[derive(Clone, Copy, Debug, PartialEq, Eq, Structural)]
pub enum CaptureMode {
    Region,
    Window,
    Display,
}

impl CaptureMode {
    /// The mode's name as the screenshot tools know it.
    pub fn label(&self) -> (r: &'static str)
        ensures
            r@ == (match *self {
                CaptureMode::Region => "region"@,
                CaptureMode::Window => "window"@,
                CaptureMode::Display => "active"@,
            }),
    {
        match self {
            CaptureMode::Region => "region",
            CaptureMode::Window => "window",
            CaptureMode::Display => "active",
        }
    }
}

/// A window on some workspace, as the compositor reports it.
#[derive(Clone, Copy, Debug, PartialEq, Eq, Structural)]
pub struct WindowFrame {
    pub workspace: i32,
    pub x: i16,
    pub y: i16,
    pub width: i16,
    pub height: i16,
}

pub open spec fn frame_text(f: WindowFrame) -> Seq<u8> {
    rect_text(f.x as int, f.y as int, f.width as int, f.height as int)
}

/// The frames' rectangles, one line each, joined by newlines.
pub open spec fn join_lines(fs: Seq<WindowFrame>) -> Seq<u8>
    decreases fs.len(),
{
    if fs.len() == 0 {
        seq![]
    } else if fs.len() == 1 {
        frame_text(fs[0])
    } else {
        join_lines(fs.drop_last()) + seq![NEWLINE] + frame_text(fs.last())
    }
}

/// The snapping targets offered when a window is picked: the windows of the
/// active workspace.
pub open spec fn candidates_spec(fs: Seq<WindowFrame>, workspace: i32) -> Seq<u8> {
    join_lines(fs.filter(|f: WindowFrame| f.workspace == workspace))
}

/// The rectangle inside a selection's one-pixel outline.
pub open spec fn interior(g: Geometry) -> Option<Geometry> {
    if g.x == i32::MAX || g.y == i32::MAX {
        None
    } else {
        Some(Geometry { x: (g.x + 1) as i32, y: (g.y + 1) as i32, width: (g.width - 2) as u32, height: (g.height - 2) as u32 })
    }
}

/// What the output of the interactive selection tool means: nothing is a
/// cancelled selection, and so is a degenerate rectangle; a region loses its
/// outline.
pub open spec fn selection_spec(mode: CaptureMode, out: Seq<u8>) -> Result<Option<Geometry>, ParseGeometryError> {
    if out.len() == 0 {
        Ok(None)
    } else {
        match parse_spec(out) {
            Err(e) => Err(e),
            Ok(g) => if g.is_degenerate_spec() {
                Ok(None)
            } else if mode == CaptureMode::Region {
                Ok(interior(g))
            } else {
                Ok(Some(g))
            },
        }
    }
}

/// A side of `phys` physical pixels in logical pixels, to the nearest one.
pub open spec fn rounded_side(phys: int, scale_120: int) -> int {
    (240 * phys + scale_120) / (2 * scale_120)
}

/// The whole monitor: its position as it is, its size in logical pixels.
pub open spec fn display_spec(m: MonitorMetrics) -> Geometry {
    Geometry {
        x: m.x,
        y: m.y,
        width: rounded_side(m.width as int, m.scale_120 as int) as u32,
        height: rounded_side(m.height as int, m.scale_120 as int) as u32,
    }
}

/// Reads what the selection tool printed.
pub fn interpret_selection(mode: CaptureMode, out: &[u8]) -> (r: Result<Option<Geometry>, ParseGeometryError>)
    ensures
        r == selection_spec(mode, out@),
        r matches Ok(Some(g)) ==> !g.is_degenerate_spec() || mode == CaptureMode::Region,
{
    if out.len() == 0 {
        return Ok(None);
    }
    match Geometry::parse(out) {
        Err(e) => Err(e),
        Ok(g) => if g.is_degenerate() {
            Ok(None)
        } else if mode == CaptureMode::Region {
            if g.x == i32::MAX || g.y == i32::MAX {
                Ok(None)
            } else {
                Ok(Some(Geometry { x: g.x + 1, y: g.y + 1, width: g.width - 2, height: g.height - 2 }))
            }
        } else {
            Ok(Some(g))
        },
    }
}

/// A selection that the tool reports as a rectangle with a side of two
/// pixels or less is taken as cancelled, in every mode.
pub proof fn lemma_degenerate_is_cancelled(mode: CaptureMode, out: Seq<u8>)
    requires
        out.len() > 0,
        parse_spec(out) matches Ok(g) && g.is_degenerate_spec(),
    ensures
        selection_spec(mode, out) == Ok::<Option<Geometry>, ParseGeometryError>(None),
{
}

/// The rectangle of the whole monitor.
pub fn display_geometry(m: &MonitorMetrics) -> (r: Geometry)
    requires
        m.scale_120 > 0,
    ensures
        r == display_spec(*m),
{
    let s = m.scale_120 as u64;
    let w = m.width as u64;
    let h = m.height as u64;
    assert((240 * w + s) / (2 * s) <= 240 * w / 2 + 1) by (nonlinear_arith)
        requires s > 0, w <= u16::MAX;
    assert((240 * h + s) / (2 * s) <= 240 * h / 2 + 1) by (nonlinear_arith)
        requires s > 0, h <= u16::MAX;
    Geometry { x: m.x, y: m.y, width: ((240 * w + s) / (2 * s)) as u32, height: ((240 * h + s) / (2 * s)) as u32 }
}

/// The windows of `workspace`, one `x,y WxH` line each.
pub fn candidate_text(frames: &[WindowFrame], workspace: i32) -> (r: Vec<u8>)
    ensures
        r@ == candidates_spec(frames@, workspace),
{
    let ghost pred = |f: WindowFrame| f.workspace == workspace;
    let mut out: Vec<u8> = Vec::new();
    let mut i: usize = 0;
    while i < frames.len()
        invariant
            i <= frames@.len(),
            pred == (|f: WindowFrame| f.workspace == workspace),
            out@ == join_lines(frames@.take(i as int).filter(pred)),
        decreases frames.len() - i,
    {
        let f = frames[i];
        let ghost kept = frames@.take(i as int).filter(pred);
        proof {
            reveal(Seq::filter);
            assert(frames@.take(i as int + 1).drop_last() =~= frames@.take(i as int));
            assert(frames@.take(i as int + 1).last() == f);
        }
        if f.workspace == workspace {
            let ghost next = kept.push(f);
            proof {
                assert(next.drop_last() =~= kept);
                if kept.len() > 0 {
                    assert(join_lines(kept).len() > 0) by {
                        lemma_frame_text_nonempty(kept.last());
                        lemma_join_nonempty(kept);
                    }
                }
            }
            if out.len() > 0 {
                out.push(NEWLINE);
            } else {
                proof {
                    if kept.len() > 0 {
                        lemma_join_nonempty(kept);
                    }
                }
            }
            let ghost before = out@;
            push_rect_text(&mut out, f.x as i64, f.y as i64, f.width as i64, f.height as i64);
            proof {
                if kept.len() == 0 {
                    assert(out@ =~= frame_text(f));
                } else {
                    assert(out@ =~= join_lines(kept) + seq![NEWLINE] + frame_text(f));
                }
            }
        }
        i += 1;
    }
    proof {
        assert(frames@.take(frames@.len() as int) =~= frames@);
    }
    out
}

proof fn lemma_frame_text_nonempty(f: WindowFrame)
    ensures
        frame_text(f).len() > 0,
{
}

proof fn lemma_join_nonempty(fs: Seq<WindowFrame>)
    requires
        fs.len() > 0,
    ensures
        join_lines(fs).len() > 0,
    decreases fs.len(),
{
    lemma_frame_text_nonempty(fs.last());
    if fs.len() == 1 {
        lemma_frame_text_nonempty(fs[0]);
    }
}

} // verus!
