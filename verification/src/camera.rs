//! The 2D view transform: a pan offset and a zoom factor anchored at a
//! fixed screen point.
//!
//! Screen and world coordinates are micro-pixels; the zoom factor is in
//! thousandths, so `zoom == 1000` is a one-to-one view. Mapping a world
//! point to the screen multiplies its offset from the zoom center by the
//! zoom factor and adds the pan; mapping back divides instead. Division
//! truncates toward zero, and every theorem below carries the exact
//! truncation bound. Over the whole clamped zoom range the error stays
//! strictly below `MILLI_PIXEL` — one thousandth of a pixel — and at
//! unit zoom both maps are exact inverses.
//!
//! Zooming toward an anchor keeps the world point under the anchor
//! visually fixed by adjusting the pan, never the zoom center. The zoom
//! factor is clamped to a sane positive range and the pan saturates at a
//! generous limit, so the transform never degenerates.

use vstd::prelude::*;

use crate::geom::{in_coord_range, Pos, ScreenRect, COORD_LIMIT};
use crate::num::{abs, clamp_i64, clamp_wide_to_i64, div_trunc, div_trunc_wide, div_tz, spec_clamp};
use crate::num::{lemma_div_tz_bound, lemma_div_tz_exact, lemma_div_tz_le, lemma_div_tz_ordered};

verus! {

/// Smallest zoom factor kept after clamping: one hundredth.
pub const ZOOM_MIN: i64 = 10;

/// Largest zoom factor kept after clamping: one hundred.
pub const ZOOM_MAX: i64 = 100_000;

/// The pan offset saturates at this magnitude, in micro-pixels.
pub const PAN_LIMIT: i64 = 1_000_000_000_000_000;

/// Magnitude bound on any screen coordinate the transform produces.
pub const SCREEN_BOUND: i64 = 250_000_000_000_000_000;

/// Magnitude bound on any world coordinate the inverse transform produces.
pub const WORLD_BOUND: i64 = 400_000_000_000_000_000;

/// One thousandth of a pixel, in micro-pixels: the tolerance the
/// round-trip and zoom-anchor theorems guarantee over the whole clamped
/// zoom range.
pub const MILLI_PIXEL: i64 = 1000;

/// One screen/world axis of the forward transform:
/// `center + (w - center) * zoom / 1000 + pan`, division truncating.
pub open spec fn w2s_axis(center: int, pan: int, zoom: int, w: int) -> int
    recommends
        zoom > 0,
{
    center + div_tz((w - center) * zoom, 1000) + pan
}

/// One axis of the inverse transform:
/// `center + (s - center - pan) * 1000 / zoom`, division truncating.
pub open spec fn s2w_axis(center: int, pan: int, zoom: int, s: int) -> int
    recommends
        zoom > 0,
{
    center + div_tz((s - center - pan) * 1000, zoom)
}

/// The zoom factor after applying `factor` (in thousandths) and clamping.
pub open spec fn spec_zoomed(zoom: int, factor: int) -> int {
    spec_clamp(div_tz(zoom * factor, 1000), ZOOM_MIN as int, ZOOM_MAX as int)
}

/// The pan correction, along one axis, that keeps the anchor point `m`
/// over the same world point when the zoom moves from `z0` to `z1`.
pub open spec fn spec_zoom_delta(center: int, pan: int, z0: int, z1: int, m: int) -> int {
    div_tz((s2w_axis(center, pan, z1, m) - s2w_axis(center, pan, z0, m)) * z1, 1000)
}

/// The view transform: pan offset, zoom factor in thousandths, and the
/// fixed screen-space zoom anchor.
#[derive(Debug, Clone, Copy)]
pub struct Camera {
    pub pan: Pos,
    pub zoom: i64,
    pub zoom_center: Pos,
}

impl Camera {
    /// The camera's operating range: clamped zoom, saturated pan, and a
    /// zoom center on the canvas.
    pub open spec fn wf(self) -> bool {
        &&& ZOOM_MIN <= self.zoom <= ZOOM_MAX
        &&& -PAN_LIMIT <= self.pan.x <= PAN_LIMIT
        &&& -PAN_LIMIT <= self.pan.y <= PAN_LIMIT
        &&& in_coord_range(self.zoom_center)
    }

    pub fn new(x: i64, y: i64, zoom: i64, zoom_center_x: i64, zoom_center_y: i64) -> (cam:
        Camera)
        requires
            -PAN_LIMIT <= x <= PAN_LIMIT,
            -PAN_LIMIT <= y <= PAN_LIMIT,
            ZOOM_MIN <= zoom <= ZOOM_MAX,
            -COORD_LIMIT <= zoom_center_x <= COORD_LIMIT,
            -COORD_LIMIT <= zoom_center_y <= COORD_LIMIT,
        ensures
            cam == (Camera {
                pan: Pos { x, y },
                zoom,
                zoom_center: Pos { x: zoom_center_x, y: zoom_center_y },
            }),
            cam.wf(),
    {
        Camera { pan: Pos { x, y }, zoom, zoom_center: Pos { x: zoom_center_x, y: zoom_center_y } }
    }

    /// Shift the view by a screen-space drag delta; the pan saturates at
    /// `PAN_LIMIT` on each axis.
    pub fn pan(&mut self, delta: Pos)
        requires
            old(self).wf(),
            in_coord_range(delta),
        ensures
            final(self).pan.x == spec_clamp(
                old(self).pan.x + delta.x,
                -PAN_LIMIT as int,
                PAN_LIMIT as int,
            ),
            final(self).pan.y == spec_clamp(
                old(self).pan.y + delta.y,
                -PAN_LIMIT as int,
                PAN_LIMIT as int,
            ),
            final(self).zoom == old(self).zoom,
            final(self).zoom_center == old(self).zoom_center,
            final(self).wf(),
    {
        self.pan.x = clamp_i64(self.pan.x + delta.x, -PAN_LIMIT, PAN_LIMIT);
        self.pan.y = clamp_i64(self.pan.y + delta.y, -PAN_LIMIT, PAN_LIMIT);
    }

    /// Scale the view by `zoom_factor` (in thousandths) while keeping the
    /// world point under `mouse_pos` visually fixed: the new zoom is
    /// applied first, then the pan is corrected by how far the anchor's
    /// world point moved, scaled back to screen space.
    pub fn zoom(&mut self, zoom_factor: i64, mouse_pos: Pos)
        requires
            old(self).wf(),
            in_coord_range(mouse_pos),
            1 <= zoom_factor <= 1_000_000,
        ensures
            final(self).wf(),
            final(self).zoom_center == old(self).zoom_center,
            final(self).zoom == spec_zoomed(old(self).zoom as int, zoom_factor as int),
            final(self).pan.x == spec_clamp(
                old(self).pan.x + spec_zoom_delta(
                    old(self).zoom_center.x as int,
                    old(self).pan.x as int,
                    old(self).zoom as int,
                    spec_zoomed(old(self).zoom as int, zoom_factor as int),
                    mouse_pos.x as int,
                ),
                -PAN_LIMIT as int,
                PAN_LIMIT as int,
            ),
            final(self).pan.y == spec_clamp(
                old(self).pan.y + spec_zoom_delta(
                    old(self).zoom_center.y as int,
                    old(self).pan.y as int,
                    old(self).zoom as int,
                    spec_zoomed(old(self).zoom as int, zoom_factor as int),
                    mouse_pos.y as int,
                ),
                -PAN_LIMIT as int,
                PAN_LIMIT as int,
            ),
    {
        let before = self.screen_to_world(mouse_pos);
        let z0 = self.zoom;
        proof {
            assert(0 < (z0 as int) * (zoom_factor as int) <= 100_000_000_000) by (nonlinear_arith)
                requires
                    0 < z0 <= 100_000,
                    0 < zoom_factor <= 1_000_000,
            ;
        }
        let scaled = div_trunc(z0 * zoom_factor, 1000);
        let z1 = clamp_i64(scaled, ZOOM_MIN, ZOOM_MAX);
        self.zoom = z1;
        let after = self.screen_to_world(mouse_pos);

        let dx = after.x - before.x;
        let dy = after.y - before.y;
        proof {
            assert(-100_000_000_000_000_000_000_000 <= (dx as int) * (z1 as int)
                <= 100_000_000_000_000_000_000_000) by (nonlinear_arith)
                requires
                    -800_000_000_000_000_000 <= dx <= 800_000_000_000_000_000,
                    0 < z1 <= 100_000,
            ;
            assert(-100_000_000_000_000_000_000_000 <= (dy as int) * (z1 as int)
                <= 100_000_000_000_000_000_000_000) by (nonlinear_arith)
                requires
                    -800_000_000_000_000_000 <= dy <= 800_000_000_000_000_000,
                    0 < z1 <= 100_000,
            ;
            lemma_div_tz_le((dx as int) * (z1 as int), 1000, 100_000_000_000_000_000_000);
            lemma_div_tz_le((dy as int) * (z1 as int), 1000, 100_000_000_000_000_000_000);
        }
        let delta_x = div_trunc_wide((dx as i128) * (z1 as i128), 1000);
        let delta_y = div_trunc_wide((dy as i128) * (z1 as i128), 1000);
        self.pan.x = clamp_wide_to_i64((self.pan.x as i128) + delta_x, -PAN_LIMIT, PAN_LIMIT);
        self.pan.y = clamp_wide_to_i64((self.pan.y as i128) + delta_y, -PAN_LIMIT, PAN_LIMIT);
    }

    /// Map a world point to the screen.
    pub fn world_to_screen(&self, world: Pos) -> (s: Pos)
        requires
            self.wf(),
            in_coord_range(world),
        ensures
            s.x == w2s_axis(
                self.zoom_center.x as int,
                self.pan.x as int,
                self.zoom as int,
                world.x as int,
            ),
            s.y == w2s_axis(
                self.zoom_center.y as int,
                self.pan.y as int,
                self.zoom as int,
                world.y as int,
            ),
            -SCREEN_BOUND <= s.x <= SCREEN_BOUND,
            -SCREEN_BOUND <= s.y <= SCREEN_BOUND,
    {
        let x = w2s_axis_exec(self.zoom_center.x, self.pan.x, self.zoom, world.x);
        let y = w2s_axis_exec(self.zoom_center.y, self.pan.y, self.zoom, world.y);
        Pos { x, y }
    }

    /// Map a screen point back to the world.
    pub fn screen_to_world(&self, screen: Pos) -> (w: Pos)
        requires
            self.wf(),
            in_coord_range(screen),
        ensures
            w.x == s2w_axis(
                self.zoom_center.x as int,
                self.pan.x as int,
                self.zoom as int,
                screen.x as int,
            ),
            w.y == s2w_axis(
                self.zoom_center.y as int,
                self.pan.y as int,
                self.zoom as int,
                screen.y as int,
            ),
            -WORLD_BOUND <= w.x <= WORLD_BOUND,
            -WORLD_BOUND <= w.y <= WORLD_BOUND,
    {
        let x = s2w_axis_exec(self.zoom_center.x, self.pan.x, self.zoom, screen.x);
        let y = s2w_axis_exec(self.zoom_center.y, self.pan.y, self.zoom, screen.y);
        Pos { x, y }
    }

    /// Screen rectangle covering the world-space rectangle anchored at
    /// `pos` with the given extent. The forward map is monotone, so the
    /// returned corners are ordered.
    pub fn rect_with_size(&self, pos: Pos, width: i64, height: i64) -> (r: ScreenRect)
        requires
            self.wf(),
            in_coord_range(pos),
            0 <= width,
            0 <= height,
            pos.x + width <= COORD_LIMIT,
            pos.y + height <= COORD_LIMIT,
        ensures
            r.min == self.spec_world_to_screen(pos),
            r.max == self.spec_world_to_screen(
                Pos { x: (pos.x + width) as i64, y: (pos.y + height) as i64 },
            ),
            r.min.x <= r.max.x,
            r.min.y <= r.max.y,
    {
        let min = self.world_to_screen(pos);
        let max = self.world_to_screen(Pos { x: pos.x + width, y: pos.y + height });
        proof {
            lemma_w2s_axis_ordered(
                self.zoom_center.x as int,
                self.pan.x as int,
                self.zoom as int,
                pos.x as int,
                pos.x + width,
            );
            lemma_w2s_axis_ordered(
                self.zoom_center.y as int,
                self.pan.y as int,
                self.zoom as int,
                pos.y as int,
                pos.y + height,
            );
        }
        ScreenRect { min, max }
    }

    /// The forward transform as a whole-point spec value.
    pub open spec fn spec_world_to_screen(self, world: Pos) -> Pos {
        Pos {
            x: w2s_axis(
                self.zoom_center.x as int,
                self.pan.x as int,
                self.zoom as int,
                world.x as int,
            ) as i64,
            y: w2s_axis(
                self.zoom_center.y as int,
                self.pan.y as int,
                self.zoom as int,
                world.y as int,
            ) as i64,
        }
    }
}

fn w2s_axis_exec(center: i64, pan: i64, zoom: i64, w: i64) -> (r: i64)
    requires
        -COORD_LIMIT <= center <= COORD_LIMIT,
        -PAN_LIMIT <= pan <= PAN_LIMIT,
        ZOOM_MIN <= zoom <= ZOOM_MAX,
        -COORD_LIMIT <= w <= COORD_LIMIT,
    ensures
        r == w2s_axis(center as int, pan as int, zoom as int, w as int),
        -SCREEN_BOUND <= r <= SCREEN_BOUND,
{
    let d = w - center;
    proof {
        assert(-200_000_000_000_000_000_000 <= (d as int) * (zoom as int)
            <= 200_000_000_000_000_000_000) by (nonlinear_arith)
            requires
                -2_000_000_000_000_000 <= d <= 2_000_000_000_000_000,
                0 < zoom <= 100_000,
        ;
        lemma_div_tz_le((d as int) * (zoom as int), 1000, 200_000_000_000_000_000);
    }
    let q = div_trunc_wide((d as i128) * (zoom as i128), 1000);
    center + (q as i64) + pan
}

fn s2w_axis_exec(center: i64, pan: i64, zoom: i64, s: i64) -> (r: i64)
    requires
        -COORD_LIMIT <= center <= COORD_LIMIT,
        -PAN_LIMIT <= pan <= PAN_LIMIT,
        ZOOM_MIN <= zoom <= ZOOM_MAX,
        -COORD_LIMIT <= s <= COORD_LIMIT,
    ensures
        r == s2w_axis(center as int, pan as int, zoom as int, s as int),
        -WORLD_BOUND <= r <= WORLD_BOUND,
{
    let d = s - center - pan;
    let prod = d * 1000;
    let q = div_trunc(prod, zoom);
    proof {
        assert((3_000_000_000_000_000_000int) <= 300_000_000_000_000_000 * (zoom as int))
            by (nonlinear_arith)
            requires
                zoom >= 10,
        ;
        lemma_div_tz_le(prod as int, zoom as int, 300_000_000_000_000_000);
    }
    center + q
}

/// The forward transform is monotone along each axis.
pub proof fn lemma_w2s_axis_ordered(center: int, pan: int, zoom: int, w1: int, w2: int)
    requires
        zoom > 0,
        w1 <= w2,
    ensures
        w2s_axis(center, pan, zoom, w1) <= w2s_axis(center, pan, zoom, w2),
{
    assert((w1 - center) * zoom <= (w2 - center) * zoom) by (nonlinear_arith)
        requires
            zoom > 0,
            w1 <= w2,
    ;
    lemma_div_tz_ordered((w1 - center) * zoom, (w2 - center) * zoom, 1000);
}

/// Round trip along one axis, screen first: mapping a screen coordinate
/// to the world and back lands within `(zoom + 998) / 1000` micro-pixels
/// of where it started. At unit zoom the trip is exact.
pub proof fn lemma_round_trip_axis(center: int, pan: int, zoom: int, s: int)
    requires
        zoom >= 1,
    ensures
        1000 * abs(w2s_axis(center, pan, zoom, s2w_axis(center, pan, zoom, s)) - s) <= zoom + 998,
        zoom == 1000 ==> w2s_axis(center, pan, zoom, s2w_axis(center, pan, zoom, s)) == s,
{
    let a = s - center - pan;
    let q = div_tz(a * 1000, zoom);
    let t = div_tz(q * zoom, 1000);
    lemma_div_tz_bound(a * 1000, zoom);
    lemma_div_tz_bound(q * zoom, 1000);
    assert(zoom * q == q * zoom) by (nonlinear_arith);
    assert(w2s_axis(center, pan, zoom, s2w_axis(center, pan, zoom, s)) - s == t - a);
    if zoom == 1000 {
        lemma_div_tz_exact(a, 1000);
        assert(a * 1000 == 1000 * a) by (nonlinear_arith);
        assert(q == a);
        assert(q * zoom == a * 1000) by (nonlinear_arith)
            requires
                q == a,
                zoom == 1000,
        ;
        assert(t == a);
    }
}

/// Round trip along one axis, world first: mapping a world coordinate to
/// the screen and back lands within `(zoom + 998) / zoom` micro-pixels
/// of where it started. At unit zoom the trip is exact.
pub proof fn lemma_round_trip_world_axis(center: int, pan: int, zoom: int, w: int)
    requires
        zoom >= 1,
    ensures
        zoom * abs(s2w_axis(center, pan, zoom, w2s_axis(center, pan, zoom, w)) - w) <= zoom + 998,
        zoom == 1000 ==> s2w_axis(center, pan, zoom, w2s_axis(center, pan, zoom, w)) == w,
{
    let a = w - center;
    let t = div_tz(a * zoom, 1000);
    let q = div_tz(t * 1000, zoom);
    lemma_div_tz_bound(a * zoom, 1000);
    let r1 = a * zoom - 1000 * t;
    lemma_div_tz_bound(t * 1000, zoom);
    let r2 = t * 1000 - zoom * q;
    assert(t * 1000 == 1000 * t) by (nonlinear_arith);
    assert(zoom * q == a * zoom - r1 - r2);
    assert(zoom * (q - a) == zoom * q - a * zoom) by (nonlinear_arith);
    assert(zoom * (q - a) == -(r1 + r2));
    assert(w2s_axis(center, pan, zoom, w) - center - pan == t);
    let rt = s2w_axis(center, pan, zoom, w2s_axis(center, pan, zoom, w));
    assert(rt - w == q - a);
    let diff = rt - w;
    if diff >= 0 {
        assert(zoom * abs(diff) == zoom * (q - a)) by (nonlinear_arith)
            requires
                diff == q - a,
                diff >= 0,
                abs(diff) == diff,
        ;
    } else {
        assert(zoom * abs(diff) == -(zoom * (q - a))) by (nonlinear_arith)
            requires
                diff == q - a,
                diff < 0,
                abs(diff) == -diff,
        ;
    }
    if zoom == 1000 {
        lemma_div_tz_exact(a, 1000);
        assert(a * zoom == a * 1000) by (nonlinear_arith)
            requires
                zoom == 1000,
        ;
        assert(t == a);
        assert(t * 1000 == a * 1000) by (nonlinear_arith)
            requires
                t == a,
        ;
        assert(q == a);
    }
}

/// Zoom-anchor invariance along one axis: after the two-step zoom update
/// (re-derive the anchor's world point under the new zoom, then shift the
/// pan by the difference scaled back to screen space), the anchor's world
/// point moves by at most `2 + 997 / z1` micro-pixels.
pub proof fn lemma_zoom_anchor_axis(center: int, pan: int, z0: int, z1: int, m: int)
    requires
        z0 >= 1,
        z1 >= 1,
    ensures
        z1 * abs(
            s2w_axis(center, pan + spec_zoom_delta(center, pan, z0, z1, m), z1, m) - s2w_axis(
                center,
                pan,
                z0,
                m,
            ),
        ) <= 2 * z1 + 997,
{
    let a = m - center - pan;
    let q0 = div_tz(a * 1000, z0);
    let q1 = div_tz(a * 1000, z1);
    let delta = div_tz((q1 - q0) * z1, 1000);
    let qp = div_tz((m - center - (pan + delta)) * 1000, z1);

    lemma_div_tz_bound(a * 1000, z1);
    let r1 = a * 1000 - z1 * q1;
    lemma_div_tz_bound((q1 - q0) * z1, 1000);
    let r2 = (q1 - q0) * z1 - 1000 * delta;
    assert((m - center - (pan + delta)) * 1000 == a * 1000 - delta * 1000) by (nonlinear_arith)
        requires
            a == m - center - pan,
    ;
    lemma_div_tz_bound(a * 1000 - delta * 1000, z1);
    let r3 = (a * 1000 - delta * 1000) - z1 * qp;

    assert(z1 * qp == a * 1000 - delta * 1000 - r3);
    assert(delta * 1000 == 1000 * delta) by (nonlinear_arith);
    assert((q1 - q0) * z1 == z1 * q1 - z1 * q0) by (nonlinear_arith);
    assert(z1 * qp == z1 * q0 + r1 + r2 - r3);
    assert(z1 * (qp - q0) == z1 * qp - z1 * q0) by (nonlinear_arith);
    assert(z1 * (qp - q0) == r1 + r2 - r3);
    assert(-(2 * z1 + 997) <= r1 + r2 - r3 <= 2 * z1 + 997);
    let diff = s2w_axis(center, pan + delta, z1, m) - s2w_axis(center, pan, z0, m);
    assert(diff == qp - q0);
    if diff >= 0 {
        assert(z1 * abs(diff) == z1 * (qp - q0)) by (nonlinear_arith)
            requires
                diff == qp - q0,
                diff >= 0,
                abs(diff) == diff,
        ;
    } else {
        assert(z1 * abs(diff) == -(z1 * (qp - q0))) by (nonlinear_arith)
            requires
                diff == qp - q0,
                diff < 0,
                abs(diff) == -diff,
        ;
    }
}

/// Round trip through a camera, screen first: for every well-formed
/// camera state, `world_to_screen(screen_to_world(p))` returns within
/// `(zoom + 998) / 1000` micro-pixels of `p` on each axis — strictly
/// inside one thousandth of a pixel over the whole clamped zoom range —
/// and exactly at unit zoom.
pub proof fn lemma_camera_round_trip(cam: Camera, p: Pos)
    requires
        cam.wf(),
    ensures
        1000 * abs(
            w2s_axis(
                cam.zoom_center.x as int,
                cam.pan.x as int,
                cam.zoom as int,
                s2w_axis(cam.zoom_center.x as int, cam.pan.x as int, cam.zoom as int, p.x as int),
            ) - p.x,
        ) <= cam.zoom + 998,
        1000 * abs(
            w2s_axis(
                cam.zoom_center.y as int,
                cam.pan.y as int,
                cam.zoom as int,
                s2w_axis(cam.zoom_center.y as int, cam.pan.y as int, cam.zoom as int, p.y as int),
            ) - p.y,
        ) <= cam.zoom + 998,
        abs(
            w2s_axis(
                cam.zoom_center.x as int,
                cam.pan.x as int,
                cam.zoom as int,
                s2w_axis(cam.zoom_center.x as int, cam.pan.x as int, cam.zoom as int, p.x as int),
            ) - p.x,
        ) < MILLI_PIXEL,
        abs(
            w2s_axis(
                cam.zoom_center.y as int,
                cam.pan.y as int,
                cam.zoom as int,
                s2w_axis(cam.zoom_center.y as int, cam.pan.y as int, cam.zoom as int, p.y as int),
            ) - p.y,
        ) < MILLI_PIXEL,
        cam.zoom == 1000 ==> w2s_axis(
            cam.zoom_center.x as int,
            cam.pan.x as int,
            cam.zoom as int,
            s2w_axis(cam.zoom_center.x as int, cam.pan.x as int, cam.zoom as int, p.x as int),
        ) == p.x,
        cam.zoom == 1000 ==> w2s_axis(
            cam.zoom_center.y as int,
            cam.pan.y as int,
            cam.zoom as int,
            s2w_axis(cam.zoom_center.y as int, cam.pan.y as int, cam.zoom as int, p.y as int),
        ) == p.y,
{
    lemma_round_trip_axis(cam.zoom_center.x as int, cam.pan.x as int, cam.zoom as int, p.x as int);
    lemma_round_trip_axis(cam.zoom_center.y as int, cam.pan.y as int, cam.zoom as int, p.y as int);
}

/// Round trip through a camera, world first: for every well-formed
/// camera state, `screen_to_world(world_to_screen(p))` returns within
/// `(zoom + 998) / zoom` micro-pixels of `p` on each axis — strictly
/// inside one thousandth of a pixel over the whole clamped zoom range —
/// and exactly at unit zoom.
pub proof fn lemma_camera_round_trip_world(cam: Camera, p: Pos)
    requires
        cam.wf(),
    ensures
        cam.zoom * abs(
            s2w_axis(
                cam.zoom_center.x as int,
                cam.pan.x as int,
                cam.zoom as int,
                w2s_axis(cam.zoom_center.x as int, cam.pan.x as int, cam.zoom as int, p.x as int),
            ) - p.x,
        ) <= cam.zoom + 998,
        cam.zoom * abs(
            s2w_axis(
                cam.zoom_center.y as int,
                cam.pan.y as int,
                cam.zoom as int,
                w2s_axis(cam.zoom_center.y as int, cam.pan.y as int, cam.zoom as int, p.y as int),
            ) - p.y,
        ) <= cam.zoom + 998,
        abs(
            s2w_axis(
                cam.zoom_center.x as int,
                cam.pan.x as int,
                cam.zoom as int,
                w2s_axis(cam.zoom_center.x as int, cam.pan.x as int, cam.zoom as int, p.x as int),
            ) - p.x,
        ) < MILLI_PIXEL,
        abs(
            s2w_axis(
                cam.zoom_center.y as int,
                cam.pan.y as int,
                cam.zoom as int,
                w2s_axis(cam.zoom_center.y as int, cam.pan.y as int, cam.zoom as int, p.y as int),
            ) - p.y,
        ) < MILLI_PIXEL,
        cam.zoom == 1000 ==> s2w_axis(
            cam.zoom_center.x as int,
            cam.pan.x as int,
            cam.zoom as int,
            w2s_axis(cam.zoom_center.x as int, cam.pan.x as int, cam.zoom as int, p.x as int),
        ) == p.x,
        cam.zoom == 1000 ==> s2w_axis(
            cam.zoom_center.y as int,
            cam.pan.y as int,
            cam.zoom as int,
            w2s_axis(cam.zoom_center.y as int, cam.pan.y as int, cam.zoom as int, p.y as int),
        ) == p.y,
{
    lemma_round_trip_world_axis(
        cam.zoom_center.x as int,
        cam.pan.x as int,
        cam.zoom as int,
        p.x as int,
    );
    lemma_round_trip_world_axis(
        cam.zoom_center.y as int,
        cam.pan.y as int,
        cam.zoom as int,
        p.y as int,
    );
    let dx = abs(
        s2w_axis(
            cam.zoom_center.x as int,
            cam.pan.x as int,
            cam.zoom as int,
            w2s_axis(cam.zoom_center.x as int, cam.pan.x as int, cam.zoom as int, p.x as int),
        ) - p.x,
    );
    let dy = abs(
        s2w_axis(
            cam.zoom_center.y as int,
            cam.pan.y as int,
            cam.zoom as int,
            w2s_axis(cam.zoom_center.y as int, cam.pan.y as int, cam.zoom as int, p.y as int),
        ) - p.y,
    );
    assert(dx < 1000) by (nonlinear_arith)
        requires
            cam.zoom >= 10,
            dx >= 0,
            cam.zoom * dx <= cam.zoom + 998,
    ;
    assert(dy < 1000) by (nonlinear_arith)
        requires
            cam.zoom >= 10,
            dy >= 0,
            cam.zoom * dy <= cam.zoom + 998,
    ;
}

/// Zoom-anchor invariance for a camera: when neither pan axis saturates,
/// the world point under the anchor after `zoom(factor, anchor)` is
/// within `2 + 997 / zoom'` micro-pixels of the one before on each axis
/// — strictly inside one thousandth of a pixel over the whole clamped
/// zoom range.
pub proof fn lemma_zoom_preserves_anchor(cam: Camera, factor: int, mouse: Pos)
    requires
        cam.wf(),
        factor >= 1,
        abs(
            cam.pan.x + spec_zoom_delta(
                cam.zoom_center.x as int,
                cam.pan.x as int,
                cam.zoom as int,
                spec_zoomed(cam.zoom as int, factor),
                mouse.x as int,
            ),
        ) <= PAN_LIMIT,
        abs(
            cam.pan.y + spec_zoom_delta(
                cam.zoom_center.y as int,
                cam.pan.y as int,
                cam.zoom as int,
                spec_zoomed(cam.zoom as int, factor),
                mouse.y as int,
            ),
        ) <= PAN_LIMIT,
    ensures
        ({
            let z1 = spec_zoomed(cam.zoom as int, factor);
            let new_pan_x = spec_clamp(
                cam.pan.x + spec_zoom_delta(
                    cam.zoom_center.x as int,
                    cam.pan.x as int,
                    cam.zoom as int,
                    z1,
                    mouse.x as int,
                ),
                -PAN_LIMIT as int,
                PAN_LIMIT as int,
            );
            let moved = abs(
                s2w_axis(cam.zoom_center.x as int, new_pan_x, z1, mouse.x as int) - s2w_axis(
                    cam.zoom_center.x as int,
                    cam.pan.x as int,
                    cam.zoom as int,
                    mouse.x as int,
                ),
            );
            z1 * moved <= 2 * z1 + 997 && moved < MILLI_PIXEL
        }),
        ({
            let z1 = spec_zoomed(cam.zoom as int, factor);
            let new_pan_y = spec_clamp(
                cam.pan.y + spec_zoom_delta(
                    cam.zoom_center.y as int,
                    cam.pan.y as int,
                    cam.zoom as int,
                    z1,
                    mouse.y as int,
                ),
                -PAN_LIMIT as int,
                PAN_LIMIT as int,
            );
            let moved = abs(
                s2w_axis(cam.zoom_center.y as int, new_pan_y, z1, mouse.y as int) - s2w_axis(
                    cam.zoom_center.y as int,
                    cam.pan.y as int,
                    cam.zoom as int,
                    mouse.y as int,
                ),
            );
            z1 * moved <= 2 * z1 + 997 && moved < MILLI_PIXEL
        }),
{
    let z1 = spec_zoomed(cam.zoom as int, factor);
    lemma_zoom_anchor_axis(
        cam.zoom_center.x as int,
        cam.pan.x as int,
        cam.zoom as int,
        z1,
        mouse.x as int,
    );
    lemma_zoom_anchor_axis(
        cam.zoom_center.y as int,
        cam.pan.y as int,
        cam.zoom as int,
        z1,
        mouse.y as int,
    );
    let new_pan_x = spec_clamp(
        cam.pan.x + spec_zoom_delta(
            cam.zoom_center.x as int,
            cam.pan.x as int,
            cam.zoom as int,
            z1,
            mouse.x as int,
        ),
        -PAN_LIMIT as int,
        PAN_LIMIT as int,
    );
    let new_pan_y = spec_clamp(
        cam.pan.y + spec_zoom_delta(
            cam.zoom_center.y as int,
            cam.pan.y as int,
            cam.zoom as int,
            z1,
            mouse.y as int,
        ),
        -PAN_LIMIT as int,
        PAN_LIMIT as int,
    );
    let moved_x = abs(
        s2w_axis(cam.zoom_center.x as int, new_pan_x, z1, mouse.x as int) - s2w_axis(
            cam.zoom_center.x as int,
            cam.pan.x as int,
            cam.zoom as int,
            mouse.x as int,
        ),
    );
    let moved_y = abs(
        s2w_axis(cam.zoom_center.y as int, new_pan_y, z1, mouse.y as int) - s2w_axis(
            cam.zoom_center.y as int,
            cam.pan.y as int,
            cam.zoom as int,
            mouse.y as int,
        ),
    );
    assert(moved_x < 1000) by (nonlinear_arith)
        requires
            z1 >= 10,
            moved_x >= 0,
            z1 * moved_x <= 2 * z1 + 997,
    ;
    assert(moved_y < 1000) by (nonlinear_arith)
        requires
            z1 >= 10,
            moved_y >= 0,
            z1 * moved_y <= 2 * z1 + 997,
    ;
}

} // verus!
