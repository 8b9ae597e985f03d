//! Input-driven movement and wall resolution: the per-tick input snapshot
//! becomes a tentative displacement, which is then corrected against every
//! wall so the player never ends a tick embedded in the one wall it entered.

use vstd::prelude::*;

use crate::geometry::{
    correction_spec, overlaps_spec, resolve, shifted, Aabb, Vec2, MAX_COORD, MAX_SIZE,
};
use crate::world::Wall;

verus! {

/// Displacement per held direction key, in units per tick.
pub const SPEED: i64 = 2;

/// Tentative positions are clamped to this magnitude, far outside any level,
/// so that coordinates can never creep toward the arithmetic bound no matter
/// how many ticks run.
pub const MOVE_CLAMP: i64 = 4_000_000_000;

/// The set of momentary input conditions sampled by the host for one tick,
/// consumed read-only by the movement resolver and the UI toggles.
#[derive(Clone, Copy, Debug, PartialEq, Eq, Structural)]
pub struct InputSnapshot {
    pub left: bool,
    pub right: bool,
    pub up: bool,
    pub down: bool,
    pub open_modal: bool,
    pub close_modal: bool,
    pub begin_transform: bool,
    pub finalize_transform: bool,
}

impl Default for InputSnapshot {
    /// The snapshot with nothing pressed.
    fn default() -> (r: InputSnapshot)
        ensures
            !r.left && !r.right && !r.up && !r.down,
            !r.open_modal && !r.close_modal,
            !r.begin_transform && !r.finalize_transform,
    {
        InputSnapshot {
            left: false,
            right: false,
            up: false,
            down: false,
            open_modal: false,
            close_modal: false,
            begin_transform: false,
            finalize_transform: false,
        }
    }
}

/// Horizontal displacement for one tick: `right` wins over `left`; both axes
/// are independent, so diagonal movement runs at full per-axis speed.
pub open spec fn x_delta(input: InputSnapshot) -> int {
    if input.right {
        SPEED as int
    } else if input.left {
        -(SPEED as int)
    } else {
        0
    }
}

/// Vertical displacement for one tick: `up` wins over `down`.
pub open spec fn y_delta(input: InputSnapshot) -> int {
    if input.up {
        SPEED as int
    } else if input.down {
        -(SPEED as int)
    } else {
        0
    }
}

/// A coordinate held inside the movement clamp.
pub open spec fn clamp_move(v: int) -> int {
    if v > MOVE_CLAMP {
        MOVE_CLAMP as int
    } else if v < -MOVE_CLAMP {
        -(MOVE_CLAMP as int)
    } else {
        v
    }
}

/// The tentative position for this tick: the input displacement applied to
/// the current position, held inside the movement clamp.
pub fn apply_input(input: &InputSnapshot, pos: Vec2) -> (r: Vec2)
    requires
        pos.within(MAX_COORD as int),
    ensures
        r.x as int == clamp_move(pos.x + x_delta(*input)),
        r.y as int == clamp_move(pos.y + y_delta(*input)),
        r.within(MOVE_CLAMP as int),
{
    let dx: i64 = if input.right {
        SPEED
    } else if input.left {
        -SPEED
    } else {
        0
    };
    let dy: i64 = if input.up {
        SPEED
    } else if input.down {
        -SPEED
    } else {
        0
    };
    let tx = pos.x + dx;
    let ty = pos.y + dy;
    let cx = if tx > MOVE_CLAMP {
        MOVE_CLAMP
    } else if tx < -MOVE_CLAMP {
        -MOVE_CLAMP
    } else {
        tx
    };
    let cy = if ty > MOVE_CLAMP {
        MOVE_CLAMP
    } else if ty < -MOVE_CLAMP {
        -MOVE_CLAMP
    } else {
        ty
    };
    Vec2 { x: cx, y: cy }
}

/// The correction accumulated over a wall list, one slot per axis, where a
/// later wall's non-zero correction on an axis overwrites an earlier one.
pub open spec fn wall_corrections(pbox: Aabb, walls: Seq<Wall>) -> (int, int)
    decreases walls.len(),
{
    if walls.len() == 0 {
        (0, 0)
    } else {
        let prev = wall_corrections(pbox, walls.drop_last());
        let c = correction_spec(pbox, walls.last().bbox_spec());
        (
            if c.0 != 0 {
                c.0
            } else {
                prev.0
            },
            if c.1 != 0 {
                c.1
            } else {
                prev.1
            },
        )
    }
}

/// A wall list with no overlapping member contributes no correction.
pub proof fn lemma_wall_corrections_none(pbox: Aabb, walls: Seq<Wall>)
    requires
        forall|j: int| 0 <= j < walls.len() ==> !overlaps_spec(
            pbox,
            (#[trigger] walls[j]).bbox_spec(),
        ),
    ensures
        wall_corrections(pbox, walls) == (0int, 0int),
    decreases walls.len(),
{
    if walls.len() > 0 {
        lemma_wall_corrections_none(pbox, walls.drop_last());
    }
}

/// When exactly one wall overlaps the box, the accumulated correction is that
/// wall's own correction.
pub proof fn lemma_wall_corrections_single(pbox: Aabb, walls: Seq<Wall>, i: int)
    requires
        0 <= i < walls.len(),
        forall|j: int|
            0 <= j < walls.len() && j != i ==> !overlaps_spec(
                pbox,
                (#[trigger] walls[j]).bbox_spec(),
            ),
    ensures
        wall_corrections(pbox, walls) == correction_spec(pbox, walls[i].bbox_spec()),
    decreases walls.len(),
{
    let c = correction_spec(pbox, walls[i].bbox_spec());
    if i == walls.len() - 1 {
        lemma_wall_corrections_none(pbox, walls.drop_last());
    } else {
        lemma_wall_corrections_single(pbox, walls.drop_last(), i);
    }
}

/// Starting the player just outside a wall and moving into it, the resolved
/// position no longer overlaps the wall that was entered: whenever exactly
/// one wall overlaps the tentative box, applying the accumulated correction
/// eliminates that overlap. (With several walls overlapping at once a later
/// wall's correction can overwrite an earlier one, so no such promise can be
/// made for every member of the list.)
pub proof fn lemma_single_wall_containment(pbox: Aabb, walls: Seq<Wall>, i: int)
    requires
        pbox.wf(),
        0 <= i < walls.len(),
        walls[i].wf(),
        overlaps_spec(pbox, walls[i].bbox_spec()),
        forall|j: int|
            0 <= j < walls.len() && j != i ==> !overlaps_spec(
                pbox,
                (#[trigger] walls[j]).bbox_spec(),
            ),
    ensures
        !overlaps_spec(
            shifted(pbox, wall_corrections(pbox, walls).0, wall_corrections(pbox, walls).1),
            walls[i].bbox_spec(),
        ),
{
    lemma_wall_corrections_single(pbox, walls, i);
    crate::geometry::lemma_correction_eliminates_overlap(pbox, walls[i].bbox_spec());
}

/// Resolve the tentative box against every wall: iterate the list in order,
/// keep the last non-zero correction per axis, then subtract the accumulated
/// correction from the tentative center.
pub fn resolve_against_walls(pbox: &Aabb, walls: &Vec<Wall>) -> (r: Vec2)
    requires
        pbox.size_ok(),
        pbox.center.within(MOVE_CLAMP as int),
        forall|i: int| 0 <= i < walls@.len() ==> (#[trigger] walls@[i]).wf(),
    ensures
        r.x as int == pbox.center.x - wall_corrections(*pbox, walls@).0,
        r.y as int == pbox.center.y - wall_corrections(*pbox, walls@).1,
        r.within(MOVE_CLAMP + MAX_SIZE as int),
{
    let n = walls.len();
    let mut cx: i64 = 0;
    let mut cy: i64 = 0;
    let mut i: usize = 0;
    while i < n
        invariant
            0 <= i <= n,
            n == walls@.len(),
            pbox.size_ok(),
            pbox.center.within(MOVE_CLAMP as int),
            forall|k: int| 0 <= k < walls@.len() ==> (#[trigger] walls@[k]).wf(),
            cx as int == wall_corrections(*pbox, walls@.take(i as int)).0,
            cy as int == wall_corrections(*pbox, walls@.take(i as int)).1,
            -MAX_SIZE <= cx <= MAX_SIZE,
            -MAX_SIZE <= cy <= MAX_SIZE,
        decreases n - i,
    {
        let wall = &walls[i];
        proof {
            assert(walls@.take(i as int + 1).drop_last() =~= walls@.take(i as int));
            assert(walls@.take(i as int + 1).last() == walls@[i as int]);
        }
        match resolve(pbox, &wall.bbox()) {
            Some(c) => {
                if c.x != 0 {
                    cx = c.x;
                }
                if c.y != 0 {
                    cy = c.y;
                }
            },
            None => {},
        }
        i = i + 1;
    }
    proof {
        assert(walls@.take(n as int) =~= walls@);
    }
    Vec2 { x: pbox.center.x - cx, y: pbox.center.y - cy }
}

} // verus!
