//! Axis-aligned bounding boxes on an integer coordinate grid: the overlap
//! test and the minimum-translation correction that separates an overlapping
//! pair along the axis of least penetration.

use vstd::prelude::*;

verus! {

/// Largest magnitude a box center may have where the arithmetic of this
/// module is used; generous enough for any level plus accumulated movement.
pub const MAX_COORD: i64 = 10_000_000_000;

/// Largest side length of a box.
pub const MAX_SIZE: i64 = 2_000_000_000;

/// A pair of integer coordinates, used for positions and sizes.
#[derive(Clone, Copy, Debug, PartialEq, Eq, Structural)]
pub struct Vec2 {
    pub x: i64,
    pub y: i64,
}

/// An axis-aligned box given by its center and its full side lengths.
#[derive(Clone, Copy, Debug, PartialEq, Eq, Structural)]
pub struct Aabb {
    pub center: Vec2,
    pub size: Vec2,
}

/// A signed per-axis displacement; subtracting it from an overlapping box's
/// center eliminates the overlap.
#[derive(Clone, Copy, Debug, PartialEq, Eq, Structural)]
pub struct Correction {
    pub x: i64,
    pub y: i64,
}

pub open spec fn iabs(v: int) -> int {
    if v < 0 {
        -v
    } else {
        v
    }
}

impl Vec2 {
    pub open spec fn within(self, bound: int) -> bool {
        iabs(self.x as int) <= bound && iabs(self.y as int) <= bound
    }

    pub fn new(x: i64, y: i64) -> (r: Vec2)
        ensures
            r == (Vec2 { x, y }),
    {
        Vec2 { x, y }
    }
}

impl Aabb {
    /// Both side lengths are nonnegative and small enough for the overlap
    /// arithmetic.
    pub open spec fn size_ok(self) -> bool {
        0 <= self.size.x <= MAX_SIZE && 0 <= self.size.y <= MAX_SIZE
    }

    /// The box is safe to feed to the overlap and correction functions.
    pub open spec fn wf(self) -> bool {
        self.size_ok() && self.center.within(MAX_COORD as int)
    }

    pub fn new(center: Vec2, size: Vec2) -> (r: Aabb)
        ensures
            r == (Aabb { center, size }),
    {
        Aabb { center, size }
    }
}

/// Two boxes overlap when they intersect with positive area: on each axis the
/// center distance is strictly less than the sum of the half extents (stated
/// doubled to stay on the integer grid). Boxes that merely touch along an
/// edge do not overlap.
pub open spec fn overlaps_spec(a: Aabb, b: Aabb) -> bool {
    &&& 2 * iabs(a.center.x - b.center.x) < a.size.x + b.size.x
    &&& 2 * iabs(a.center.y - b.center.y) < a.size.y + b.size.y
}

/// Doubled penetration depth along the x axis; positive exactly when the
/// boxes' x extents overlap with positive width.
pub open spec fn pen2_x(m: Aabb, f: Aabb) -> int {
    m.size.x + f.size.x - 2 * iabs(m.center.x - f.center.x)
}

/// Doubled penetration depth along the y axis.
pub open spec fn pen2_y(m: Aabb, f: Aabb) -> int {
    m.size.y + f.size.y - 2 * iabs(m.center.y - f.center.y)
}

/// The smallest whole-unit displacement that separates the boxes along one
/// axis, signed so that subtracting it pushes the moving center away from the
/// fixed one.
pub open spec fn axis_shift(pen2: int, moving_c: int, fixed_c: int) -> int {
    let d = (pen2 + 1) / 2;
    if moving_c < fixed_c {
        d
    } else {
        -d
    }
}

/// The correction for an overlapping pair: the axis with the smaller
/// penetration carries the minimum separating displacement, the other axis
/// carries zero. A non-overlapping pair needs no correction.
pub open spec fn correction_spec(m: Aabb, f: Aabb) -> (int, int) {
    if !overlaps_spec(m, f) {
        (0, 0)
    } else if pen2_x(m, f) <= pen2_y(m, f) {
        (axis_shift(pen2_x(m, f), m.center.x as int, f.center.x as int), 0)
    } else {
        (0, axis_shift(pen2_y(m, f), m.center.y as int, f.center.y as int))
    }
}

/// The box `m` moved by subtracting a correction from its center.
pub open spec fn shifted(m: Aabb, cx: int, cy: int) -> Aabb {
    Aabb { center: Vec2 { x: (m.center.x - cx) as i64, y: (m.center.y - cy) as i64 }, size: m.size }
}

/// Overlap test. Touching edges report `false`.
pub fn overlaps(a: &Aabb, b: &Aabb) -> (r: bool)
    requires
        a.wf(),
        b.wf(),
    ensures
        r == overlaps_spec(*a, *b),
{
    let dx = a.center.x - b.center.x;
    let adx = if dx < 0 { -dx } else { dx };
    let dy = a.center.y - b.center.y;
    let ady = if dy < 0 { -dy } else { dy };
    2 * adx < a.size.x + b.size.x && 2 * ady < a.size.y + b.size.y
}

/// When `moving` overlaps `fixed`, the minimum-translation correction along
/// the axis of least penetration; `None` exactly when they do not overlap.
pub fn resolve(moving: &Aabb, fixed: &Aabb) -> (r: Option<Correction>)
    requires
        moving.wf(),
        fixed.wf(),
    ensures
        r is Some <==> overlaps_spec(*moving, *fixed),
        r matches Some(c) ==> ({
            &&& c.x as int == correction_spec(*moving, *fixed).0
            &&& c.y as int == correction_spec(*moving, *fixed).1
            &&& -MAX_SIZE <= c.x <= MAX_SIZE
            &&& -MAX_SIZE <= c.y <= MAX_SIZE
        }),
{
    let dx = moving.center.x - fixed.center.x;
    let adx = if dx < 0 { -dx } else { dx };
    let dy = moving.center.y - fixed.center.y;
    let ady = if dy < 0 { -dy } else { dy };
    let sx = moving.size.x + fixed.size.x;
    let sy = moving.size.y + fixed.size.y;
    if 2 * adx < sx && 2 * ady < sy {
        let px2 = sx - 2 * adx;
        let py2 = sy - 2 * ady;
        if px2 <= py2 {
            let d = (px2 + 1) / 2;
            let cx = if moving.center.x < fixed.center.x { d } else { -d };
            Some(Correction { x: cx, y: 0 })
        } else {
            let d = (py2 + 1) / 2;
            let cy = if moving.center.y < fixed.center.y { d } else { -d };
            Some(Correction { x: 0, y: cy })
        }
    } else {
        None
    }
}

/// Overlap is symmetric: the test never depends on the order of its
/// arguments.
pub proof fn lemma_overlaps_symmetric(a: Aabb, b: Aabb)
    ensures
        overlaps_spec(a, b) == overlaps_spec(b, a),
{
}

/// Boxes that share an edge exactly (the center distance on some axis equals
/// the sum of the half extents) do not overlap.
pub proof fn lemma_touching_not_overlapping(a: Aabb, b: Aabb)
    requires
        2 * iabs(a.center.x - b.center.x) == a.size.x + b.size.x || 2 * iabs(
            a.center.y - b.center.y,
        ) == a.size.y + b.size.y,
    ensures
        !overlaps_spec(a, b),
{
}

/// The correction really is the minimum translation: no displacement of
/// strictly smaller magnitude along the chosen axis separates the boxes.
pub proof fn lemma_correction_is_minimal(m: Aabb, f: Aabb, ex: int, ey: int)
    requires
        m.wf(),
        f.wf(),
        overlaps_spec(m, f),
    ensures
        correction_spec(m, f).1 == 0 && iabs(ex) < iabs(correction_spec(m, f).0) ==> overlaps_spec(
            shifted(m, ex, 0),
            f,
        ),
        correction_spec(m, f).0 == 0 && iabs(ey) < iabs(correction_spec(m, f).1) ==> overlaps_spec(
            shifted(m, 0, ey),
            f,
        ),
{
}

/// Applying the correction returned for an overlapping pair to the moving
/// box's center yields a box that no longer overlaps the fixed one.
pub proof fn lemma_correction_eliminates_overlap(m: Aabb, f: Aabb)
    requires
        m.wf(),
        f.wf(),
        overlaps_spec(m, f),
    ensures
        !overlaps_spec(shifted(m, correction_spec(m, f).0, correction_spec(m, f).1), f),
{
}

} // verus!
