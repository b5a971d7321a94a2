//! Where a window goes when it starts floating.

use vstd::prelude::*;
use crate::codec::Geometry;

verus! {

/// Space kept free along each edge of a monitor, in logical pixels.
#[derive(Clone, Copy, Debug, PartialEq, Eq, Structural)]
pub struct Insets {
    pub left: u16,
    pub top: u16,
    pub right: u16,
    pub bottom: u16,
}

/// What the placement reads of a monitor. The scale factor is held exactly,
/// in 120ths (the unit of fractional scaling on Wayland): a monitor of
/// `width` physical pixels is `width * 120 / scale_120` logical pixels wide.
#[derive(Clone, Copy, Debug, PartialEq, Eq, Structural)]
pub struct MonitorMetrics {
    pub x: i32,
    pub y: i32,
    pub width: u16,
    pub height: u16,
    pub scale_120: u32,
    pub reserved: Insets,
}

/// A cursor position in logical pixels.
#[derive(Clone, Copy, Debug, PartialEq, Eq, Structural)]
pub struct Point {
    pub x: i64,
    pub y: i64,
}

/// Fine subdivisions of a logical pixel (`4 * scale_120` of them) in which
/// every quantity of the placement is a whole number: a side of `phys`
/// physical pixels measures `480 * phys` of them, its quarter `120 * phys`.
pub open spec fn units_per_pixel(scale_120: int) -> int {
    4 * scale_120
}

/// Half of a logical side, rounded down.
pub open spec fn half_side(phys: int, scale_120: int) -> int {
    (120 * phys) / (2 * scale_120)
}

/// A quarter of a logical side, rounded down.
pub open spec fn quarter_side(phys: int, scale_120: int) -> int {
    (120 * phys) / (4 * scale_120)
}

/// The cursor coordinate `c` kept between the least and the greatest centre
/// that leaves the margins free (`min`, then `max`), in subdivisions.
pub open spec fn clamped_centre(c: int, phys: int, scale_120: int, lo_margin: int, hi_margin: int) -> int {
    let k = units_per_pixel(scale_120);
    let lo = 120 * phys + k * lo_margin;
    let hi = 360 * phys - k * hi_margin;
    let m = if k * c < hi { k * c } else { hi };
    if m > lo { m } else { lo }
}

/// Where a half-size window centred on the clamped cursor starts, rounded down.
pub open spec fn anchored_start(c: int, phys: int, scale_120: int, lo_margin: int, hi_margin: int) -> int {
    (clamped_centre(c, phys, scale_120, lo_margin, hi_margin) - 120 * phys) / units_per_pixel(scale_120)
}

pub open spec fn lo_margin_x(m: MonitorMetrics, border: u16, gaps: Insets) -> int {
    gaps.left + m.reserved.left + border
}

pub open spec fn hi_margin_x(m: MonitorMetrics, border: u16, gaps: Insets) -> int {
    gaps.right + m.reserved.right + border
}

pub open spec fn lo_margin_y(m: MonitorMetrics, border: u16, gaps: Insets) -> int {
    gaps.top + m.reserved.top + border
}

pub open spec fn hi_margin_y(m: MonitorMetrics, border: u16, gaps: Insets) -> int {
    gaps.bottom + m.reserved.bottom + border
}

/// A half-size window at the middle of the monitor.
pub open spec fn centered_spec(m: MonitorMetrics) -> Geometry {
    Geometry {
        x: quarter_side(m.width as int, m.scale_120 as int) as i32,
        y: quarter_side(m.height as int, m.scale_120 as int) as i32,
        width: half_side(m.width as int, m.scale_120 as int) as u32,
        height: half_side(m.height as int, m.scale_120 as int) as u32,
    }
}

/// A half-size window centred on the cursor, moved as little as needed to
/// keep the gaps, the reserved space and the border free.
pub open spec fn anchored_spec(m: MonitorMetrics, c: Point, border: u16, gaps: Insets) -> Geometry {
    let s = m.scale_120 as int;
    Geometry {
        x: anchored_start(c.x as int, m.width as int, s, lo_margin_x(m, border, gaps), hi_margin_x(m, border, gaps)) as i32,
        y: anchored_start(c.y as int, m.height as int, s, lo_margin_y(m, border, gaps), hi_margin_y(m, border, gaps)) as i32,
        width: half_side(m.width as int, s) as u32,
        height: half_side(m.height as int, s) as u32,
    }
}

/// The margins fit on the monitor with room for a half-size window.
pub open spec fn margins_fit(m: MonitorMetrics, border: u16, gaps: Insets) -> bool {
    let k = units_per_pixel(m.scale_120 as int);
    &&& 120 * m.width + k * lo_margin_x(m, border, gaps) <= 360 * m.width - k * hi_margin_x(m, border, gaps)
    &&& 120 * m.height + k * lo_margin_y(m, border, gaps) <= 360 * m.height - k * hi_margin_y(m, border, gaps)
}

proof fn lemma_sides(phys: int, s: int)
    requires
        0 <= phys <= u16::MAX,
        s > 0,
    ensures
        0 <= half_side(phys, s) <= 60 * u16::MAX,
        0 <= quarter_side(phys, s) <= 30 * u16::MAX,
        half_side(phys, s) * (4 * s) <= 240 * phys,
{
    assert(0 <= (120 * phys) / (2 * s) <= 120 * phys / 2) by (nonlinear_arith)
        requires 0 <= phys, s > 0;
    assert(0 <= (120 * phys) / (4 * s) <= 120 * phys / 4) by (nonlinear_arith)
        requires 0 <= phys, s > 0;
    let h = (120 * phys) / (2 * s);
    assert(h * (2 * s) <= 120 * phys) by (nonlinear_arith)
        requires 0 <= phys, s > 0, h == (120 * phys) / (2 * s);
    assert(h * (4 * s) == 2 * (h * (2 * s))) by (nonlinear_arith);
}

proof fn lemma_anchored_start(c: int, phys: int, s: int, lo: int, hi: int)
    requires
        0 <= phys <= u16::MAX,
        0 < s <= u32::MAX,
        0 <= lo <= 3 * u16::MAX,
        0 <= hi <= 3 * u16::MAX,
    ensures
        lo <= anchored_start(c, phys, s, lo, hi) <= 3 * u16::MAX + 60 * u16::MAX,
        120 * phys + units_per_pixel(s) * lo <= 360 * phys - units_per_pixel(s) * hi
            ==> anchored_start(c, phys, s, lo, hi) * units_per_pixel(s) + units_per_pixel(s) * hi
            <= 240 * phys,
{
    let k = units_per_pixel(s);
    let a = clamped_centre(c, phys, s, lo, hi);
    let d = a - 120 * phys;
    assert(d >= k * lo);
    assert(d <= 240 * phys || d == k * lo);
    assert((k * lo) / k == lo) by (nonlinear_arith)
        requires k > 0;
    assert(d / k >= lo) by (nonlinear_arith)
        requires k > 0, d >= k * lo, (k * lo) / k == lo;
    assert(d / k <= 3 * u16::MAX + 60 * u16::MAX) by (nonlinear_arith)
        requires k >= 4, d <= 240 * phys || d == k * lo, 0 <= phys <= u16::MAX, 0 <= lo <= 3 * u16::MAX, (k * lo) / k == lo;
    if 120 * phys + k * lo <= 360 * phys - k * hi {
        assert(d <= 240 * phys - k * hi);
        assert((d / k) * k <= d) by (nonlinear_arith)
            requires k > 0, d >= 0;
    }
}

/// Half the monitor's logical size, in its middle.
pub fn centered_placement(m: &MonitorMetrics) -> (r: Geometry)
    requires
        m.scale_120 > 0,
    ensures
        r == centered_spec(*m),
{
    proof {
        lemma_sides(m.width as int, m.scale_120 as int);
        lemma_sides(m.height as int, m.scale_120 as int);
    }
    let s = m.scale_120 as u64;
    let w = m.width as u64;
    let h = m.height as u64;
    Geometry {
        x: ((120 * w) / (4 * s)) as i32,
        y: ((120 * h) / (4 * s)) as i32,
        width: ((120 * w) / (2 * s)) as u32,
        height: ((120 * h) / (2 * s)) as u32,
    }
}

fn axis_start(c: i64, phys: u16, scale_120: u32, lo: u32, hi: u32) -> (r: i32)
    requires
        scale_120 > 0,
        lo <= 3 * u16::MAX,
        hi <= 3 * u16::MAX,
    ensures
        r == anchored_start(c as int, phys as int, scale_120 as int, lo as int, hi as int),
{
    proof {
        lemma_anchored_start(c as int, phys as int, scale_120 as int, lo as int, hi as int);
    }
    let k: i128 = 4 * scale_120 as i128;
    let p: i128 = phys as i128;
    assert(k * (lo as i128) <= 4 * u32::MAX * 3 * u16::MAX) by (nonlinear_arith)
        requires k <= 4 * u32::MAX, lo <= 3 * u16::MAX, 0 <= lo;
    assert(k * (hi as i128) <= 4 * u32::MAX * 3 * u16::MAX) by (nonlinear_arith)
        requires k <= 4 * u32::MAX, hi <= 3 * u16::MAX, 0 <= hi;
    assert(-k * 0x8000_0000_0000_0000 <= k * (c as i128) <= k * 0x8000_0000_0000_0000) by (nonlinear_arith)
        requires 0 < k <= 4 * u32::MAX, i64::MIN <= c <= i64::MAX;
    assert(k * 0x8000_0000_0000_0000 <= 4 * u32::MAX * 0x8000_0000_0000_0000) by (nonlinear_arith)
        requires 0 < k <= 4 * u32::MAX;
    let lo_c: i128 = 120 * p + k * (lo as i128);
    let hi_c: i128 = 360 * p - k * (hi as i128);
    let mut a: i128 = k * (c as i128);
    if a >= hi_c {
        a = hi_c;
    }
    if a <= lo_c {
        a = lo_c;
    }
    let d = (a - 120 * p) as u128;
    (d / (k as u128)) as i32
}

/// A half-size window centred on the cursor, kept clear of the gaps, the
/// reserved space and the border on every side.
pub fn anchored_placement(m: &MonitorMetrics, cursor: Point, border: u16, gaps: Insets) -> (r: Geometry)
    requires
        m.scale_120 > 0,
    ensures
        r == anchored_spec(*m, cursor, border, gaps),
{
    let c = centered_placement(m);
    let x = axis_start(cursor.x, m.width, m.scale_120,
        gaps.left as u32 + m.reserved.left as u32 + border as u32,
        gaps.right as u32 + m.reserved.right as u32 + border as u32);
    let y = axis_start(cursor.y, m.height, m.scale_120,
        gaps.top as u32 + m.reserved.top as u32 + border as u32,
        gaps.bottom as u32 + m.reserved.bottom as u32 + border as u32);
    Geometry { x, y, width: c.width, height: c.height }
}

/// Wherever the cursor is, a window placed at it stays inside the monitor's
/// logical area with the gaps, the reserved space and the border free on
/// every side, as long as those margins leave room for it at all.
pub proof fn lemma_anchored_on_screen(m: MonitorMetrics, c: Point, border: u16, gaps: Insets)
    requires
        m.scale_120 > 0,
        margins_fit(m, border, gaps),
    ensures
        ({
            let r = anchored_spec(m, c, border, gaps);
            let s = m.scale_120 as int;
            &&& r.x >= lo_margin_x(m, border, gaps)
            &&& r.y >= lo_margin_y(m, border, gaps)
            &&& (r.x + r.width + hi_margin_x(m, border, gaps)) * s <= 120 * m.width
            &&& (r.y + r.height + hi_margin_y(m, border, gaps)) * s <= 120 * m.height
        }),
{
    let s = m.scale_120 as int;
    let k = units_per_pixel(s);
    lemma_sides(m.width as int, s);
    lemma_sides(m.height as int, s);
    let (lx, hx) = (lo_margin_x(m, border, gaps), hi_margin_x(m, border, gaps));
    let (ly, hy) = (lo_margin_y(m, border, gaps), hi_margin_y(m, border, gaps));
    lemma_anchored_start(c.x as int, m.width as int, s, lx, hx);
    lemma_anchored_start(c.y as int, m.height as int, s, ly, hy);
    let r = anchored_spec(m, c, border, gaps);
    let ax = anchored_start(c.x as int, m.width as int, s, lx, hx);
    let ay = anchored_start(c.y as int, m.height as int, s, ly, hy);
    let hw = half_side(m.width as int, s);
    let hh = half_side(m.height as int, s);
    assert(r.x == ax && r.width == hw);
    assert(r.y == ay && r.height == hh);
    assert((ax + hw + hx) * s <= 120 * m.width) by (nonlinear_arith)
        requires ax * k + k * hx <= 240 * m.width, hw * k <= 240 * m.width, k == 4 * s, s > 0;
    assert((ay + hh + hy) * s <= 120 * m.height) by (nonlinear_arith)
        requires ay * k + k * hy <= 240 * m.height, hh * k <= 240 * m.height, k == 4 * s, s > 0;
}

} // verus!
