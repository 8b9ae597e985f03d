//! The session's starting scene: the maze's wall rectangles (described by
//! opposite corners, converted to the center/size convention), the player,
//! and the two collectibles.

use vstd::prelude::*;

use crate::driver::Sim;
use crate::geometry::{Vec2, MAX_SIZE};
use crate::world::{rects_valid, walls_of, Collectible, CollectibleKind, Entity, Player, SimError, WORLD_BOUND};

verus! {

/// A rectangle given by its corners `(x1, y1)` (low) and `(x2, y2)` (high),
/// as a center and a size.
pub open spec fn rect_from_corners(x1: int, y1: int, x2: int, y2: int) -> (Vec2, Vec2) {
    (
        Vec2 { x: ((x1 + x2) / 2) as i64, y: ((y1 + y2) / 2) as i64 },
        Vec2 { x: (x2 - x1) as i64, y: (y2 - y1) as i64 },
    )
}

/// Convert a corner-described rectangle to the center/size convention. The
/// corner sums must be even so the center lies on the integer grid.
pub fn from_corners(x1: i64, y1: i64, x2: i64, y2: i64) -> (r: (Vec2, Vec2))
    requires
        x1 <= x2,
        y1 <= y2,
        (x1 + x2) % 2 == 0,
        (y1 + y2) % 2 == 0,
        -WORLD_BOUND <= x1 && x2 <= WORLD_BOUND,
        -WORLD_BOUND <= y1 && y2 <= WORLD_BOUND,
    ensures
        r == rect_from_corners(x1 as int, y1 as int, x2 as int, y2 as int),
        r.0.within(WORLD_BOUND as int),
        0 <= r.1.x <= MAX_SIZE,
        0 <= r.1.y <= MAX_SIZE,
{
    let half_w = (x2 - x1) / 2;
    let half_h = (y2 - y1) / 2;
    let cx = x1 + half_w;
    let cy = y1 + half_h;
    proof {
        assert(cx as int == (x1 + x2) / 2);
        assert(cy as int == (y1 + y2) / 2);
    }
    (Vec2 { x: cx, y: cy }, Vec2 { x: x2 - x1, y: y2 - y1 })
}

/// The maze's wall rectangles: the outer frame, then the interior walls.
pub open spec fn level_rects_spec() -> Seq<(Vec2, Vec2)> {
    seq![
        rect_from_corners(-630, -350, -610, 350),
        rect_from_corners(610, -350, 630, 350),
        rect_from_corners(-494, 330, 610, 350),
        rect_from_corners(-610, -350, 494, -330),
        rect_from_corners(-610, -68, -474, -48),
        rect_from_corners(-86, -330, -66, -194),
        rect_from_corners(186, -330, 206, -194),
        rect_from_corners(-242, 78, -222, 330),
        rect_from_corners(-494, 58, -66, 78),
        rect_from_corners(-494, 78, -474, 194),
        rect_from_corners(-494, 194, -358, 214),
        rect_from_corners(-378, -78, -358, 58),
        rect_from_corners(338, -214, 610, -194),
        rect_from_corners(-86, -330, -66, -194),
        rect_from_corners(494, 78, 610, 98),
        rect_from_corners(474, -58, 494, 98),
        rect_from_corners(-494, -234, -202, -214),
    ]
}

/// Build the level's wall rectangles.
pub fn level_rects() -> (r: Vec<(Vec2, Vec2)>)
    ensures
        r@ == level_rects_spec(),
        r@.len() == 17,
        rects_valid(r@),
        forall|i: int|
            0 <= i < r@.len() ==> (#[trigger] r@[i]).0.within(WORLD_BOUND as int) && r@[i].1.x
                <= MAX_SIZE && r@[i].1.y <= MAX_SIZE,
{
    let mut v: Vec<(Vec2, Vec2)> = Vec::new();
    v.push(from_corners(-630, -350, -610, 350));
    v.push(from_corners(610, -350, 630, 350));
    v.push(from_corners(-494, 330, 610, 350));
    v.push(from_corners(-610, -350, 494, -330));
    v.push(from_corners(-610, -68, -474, -48));
    v.push(from_corners(-86, -330, -66, -194));
    v.push(from_corners(186, -330, 206, -194));
    v.push(from_corners(-242, 78, -222, 330));
    v.push(from_corners(-494, 58, -66, 78));
    v.push(from_corners(-494, 78, -474, 194));
    v.push(from_corners(-494, 194, -358, 214));
    v.push(from_corners(-378, -78, -358, 58));
    v.push(from_corners(338, -214, 610, -194));
    v.push(from_corners(-86, -330, -66, -194));
    v.push(from_corners(494, 78, 610, 98));
    v.push(from_corners(474, -58, 494, 98));
    v.push(from_corners(-494, -234, -202, -214));
    proof {
        assert(v@ =~= level_rects_spec());
    }
    v
}

/// Where the session starts the player.
pub open spec fn initial_player_spec() -> Player {
    Player { center: Vec2 { x: 0, y: 0 }, size: Vec2 { x: 20, y: 20 } }
}

/// The collectibles the session starts with, given the first id the registry
/// hands them.
pub open spec fn initial_collectibles_spec(base: int) -> Seq<Collectible> {
    seq![
        Collectible {
            id: Entity(base as u64),
            center: Vec2 { x: -400i64, y: 300 },
            size: Vec2 { x: 10, y: 10 },
            kind: CollectibleKind::Resistor,
        },
        Collectible {
            id: Entity((base + 1) as u64),
            center: Vec2 { x: 50, y: 0 },
            size: Vec2 { x: 10, y: 10 },
            kind: CollectibleKind::Capacitor,
        },
    ]
}

/// Build the starting session: the maze loaded, the player at the origin,
/// one resistor and one capacitor placed, nothing collected, both toggles
/// closed. The level description is well formed, so this never fails.
pub fn initial_sim() -> (r: Result<Sim, SimError>)
    ensures
        r matches Ok(sim) && ({
            &&& sim.wf()
            &&& sim.world.walls@ == walls_of(level_rects_spec(), 0)
            &&& sim.world.player == Some(initial_player_spec())
            &&& sim.world.collectibles@ == initial_collectibles_spec(17)
            &&& !sim.inventory.has_resistor && !sim.inventory.has_capacitor
            &&& !sim.modal.open && !sim.transform_mode.open
        }),
{
    let mut sim = Sim::new();
    let rects = level_rects();
    match sim.load_level(&rects) {
        Ok(()) => {},
        Err(e) => {
            proof {
                assert(false);
            }
            return Err(e);
        },
    }
    match sim.spawn_player(Vec2 { x: 0, y: 0 }, Vec2 { x: 20, y: 20 }) {
        Ok(()) => {},
        Err(e) => {
            proof {
                assert(false);
            }
            return Err(e);
        },
    }
    match sim.spawn_collectible(
        Vec2 { x: -400, y: 300 },
        Vec2 { x: 10, y: 10 },
        CollectibleKind::Resistor,
    ) {
        Ok(_) => {},
        Err(e) => {
            proof {
                assert(false);
            }
            return Err(e);
        },
    }
    match sim.spawn_collectible(
        Vec2 { x: 50, y: 0 },
        Vec2 { x: 10, y: 10 },
        CollectibleKind::Capacitor,
    ) {
        Ok(_) => {},
        Err(e) => {
            proof {
                assert(false);
            }
            return Err(e);
        },
    }
    proof {
        assert(sim.world.collectibles@ =~= initial_collectibles_spec(17));
    }
    Ok(sim)
}

} // verus!
