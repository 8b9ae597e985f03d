//! The frame driver: one call of `tick` is one simulation step, running the
//! phases in fixed order — input-driven movement, wall resolution, collectible
//! interaction, then the UI toggles — and reporting everything the host needs
//! to update the scene.

use vstd::prelude::*;

use crate::geometry::{Aabb, Vec2, MAX_SIZE};
use crate::interaction::{collected_ids, collects_kind, run_interaction, surviving, Inventory};
use crate::movement::{
    apply_input, clamp_move, resolve_against_walls, wall_corrections, x_delta, y_delta,
    InputSnapshot, MOVE_CLAMP,
};
use crate::ui::{toggle_edge, toggle_next, ToggleEdge, UIState};
use crate::world::{CollectibleKind, Entity, Player, SimError, Wall, World, WORLD_BOUND};

verus! {

/// A UI command emitted for the presentation collaborator to consume.
#[derive(Clone, Copy, Debug, PartialEq, Eq, Structural)]
pub enum UiEvent {
    Open,
    Close,
    BeginTransform,
    FinalizeTransform,
}

/// What one tick reports back to the host: the player's new position, the
/// inventory flags, the ids despawned this tick (for removal from the scene),
/// and the emitted UI events in order.
#[derive(Debug, PartialEq, Eq)]
pub struct FrameOutcome {
    pub position: Vec2,
    pub inventory: Inventory,
    pub removed: Vec<Entity>,
    pub events: Vec<UiEvent>,
}

/// The player box as tentatively moved by this tick's input, before wall
/// resolution.
pub open spec fn tentative_box(p: Player, input: InputSnapshot) -> Aabb {
    Aabb {
        center: Vec2 {
            x: clamp_move(p.center.x + x_delta(input)) as i64,
            y: clamp_move(p.center.y + y_delta(input)) as i64,
        },
        size: p.size,
    }
}

/// The player center after wall resolution: the tentative center minus the
/// correction accumulated over the wall list.
pub open spec fn resolved_center(p: Player, input: InputSnapshot, walls: Seq<Wall>) -> Vec2 {
    let t = tentative_box(p, input);
    let c = wall_corrections(t, walls);
    Vec2 { x: (t.center.x - c.0) as i64, y: (t.center.y - c.1) as i64 }
}

/// The UI events one tick emits: the modal toggle's edge mapped to
/// `Open`/`Close`, then the transform toggle's edge mapped to
/// `BeginTransform`/`FinalizeTransform`.
pub open spec fn tick_events(modal: bool, transform: bool, input: InputSnapshot) -> Seq<UiEvent> {
    let m = match toggle_edge(modal, input.open_modal, input.close_modal) {
        Some(ToggleEdge::Opened) => seq![UiEvent::Open],
        Some(ToggleEdge::Closed) => seq![UiEvent::Close],
        None => Seq::empty(),
    };
    let t = match toggle_edge(transform, input.begin_transform, input.finalize_transform) {
        Some(ToggleEdge::Opened) => seq![UiEvent::BeginTransform],
        Some(ToggleEdge::Closed) => seq![UiEvent::FinalizeTransform],
        None => Seq::empty(),
    };
    m + t
}

/// The whole simulation state, owned by the frame driver and threaded through
/// each phase; no ambient globals.
pub struct Sim {
    pub world: World,
    pub inventory: Inventory,
    pub modal: UIState,
    pub transform_mode: UIState,
}

impl Sim {
    pub open spec fn wf(self) -> bool {
        self.world.wf()
    }

    /// A fresh session: empty registry, empty inventory, both toggles closed.
    pub fn new() -> (r: Sim)
        ensures
            r.wf(),
            r.world.walls@ == Seq::<Wall>::empty(),
            r.world.collectibles@ == Seq::<crate::world::Collectible>::empty(),
            r.world.player is None,
            r.world.next_id == 0,
            !r.inventory.has_resistor && !r.inventory.has_capacitor,
            !r.modal.open && !r.transform_mode.open,
    {
        Sim {
            world: World::new(),
            inventory: Inventory { has_resistor: false, has_capacitor: false },
            modal: UIState { open: false },
            transform_mode: UIState { open: false },
        }
    }

    /// Setup call: load the level's wall geometry; all-or-nothing.
    pub fn load_level(&mut self, rects: &Vec<(Vec2, Vec2)>) -> (r: Result<(), SimError>)
        requires
            old(self).wf(),
            old(self).world.next_id as int + rects@.len() < u64::MAX,
            forall|i: int|
                0 <= i < rects@.len() ==> (#[trigger] rects@[i]).0.within(WORLD_BOUND as int)
                    && rects@[i].1.x <= MAX_SIZE && rects@[i].1.y <= MAX_SIZE,
        ensures
            final(self).wf(),
            final(self).inventory == old(self).inventory,
            final(self).modal == old(self).modal,
            final(self).transform_mode == old(self).transform_mode,
            crate::world::rects_valid(rects@) ==> ({
                &&& r == Ok::<(), SimError>(())
                &&& final(self).world.walls@ == old(self).world.walls@ + crate::world::walls_of(
                    rects@,
                    old(self).world.next_id as int,
                )
                &&& final(self).world.next_id == old(self).world.next_id + rects@.len()
                &&& final(self).world.collectibles == old(self).world.collectibles
                &&& final(self).world.player == old(self).world.player
            }),
            !crate::world::rects_valid(rects@) ==> ({
                &&& r == Err::<(), SimError>(SimError::ConfigurationError)
                &&& *final(self) == *old(self)
            }),
    {
        self.world.load_level(rects)
    }

    /// Setup call: place a collectible of the given kind.
    pub fn spawn_collectible(&mut self, center: Vec2, size: Vec2, kind: CollectibleKind) -> (r:
        Result<Entity, SimError>)
        requires
            old(self).wf(),
            old(self).world.next_id < u64::MAX,
            center.within(WORLD_BOUND as int),
            size.x <= MAX_SIZE,
            size.y <= MAX_SIZE,
        ensures
            final(self).wf(),
            final(self).inventory == old(self).inventory,
            final(self).modal == old(self).modal,
            final(self).transform_mode == old(self).transform_mode,
            size.x >= 0 && size.y >= 0 ==> ({
                &&& r == Ok::<Entity, SimError>(Entity(old(self).world.next_id))
                &&& final(self).world.collectibles@ == old(self).world.collectibles@.push(
                    crate::world::Collectible {
                        id: Entity(old(self).world.next_id),
                        center,
                        size,
                        kind,
                    },
                )
                &&& final(self).world.walls == old(self).world.walls
                &&& final(self).world.player == old(self).world.player
                &&& final(self).world.next_id == old(self).world.next_id + 1
            }),
            size.x < 0 || size.y < 0 ==> ({
                &&& r == Err::<Entity, SimError>(SimError::ConfigurationError)
                &&& *final(self) == *old(self)
            }),
    {
        self.world.spawn_collectible(center, size, kind)
    }

    /// Setup call: place the player.
    pub fn spawn_player(&mut self, center: Vec2, size: Vec2) -> (r: Result<(), SimError>)
        requires
            old(self).wf(),
            center.within(WORLD_BOUND as int),
            size.x <= MAX_SIZE,
            size.y <= MAX_SIZE,
        ensures
            final(self).wf(),
            final(self).inventory == old(self).inventory,
            final(self).modal == old(self).modal,
            final(self).transform_mode == old(self).transform_mode,
            size.x >= 0 && size.y >= 0 ==> r == Ok::<(), SimError>(()) && final(self).world.player
                == Some(Player { center, size }) && final(self).world.walls == old(
                self,
            ).world.walls && final(self).world.collectibles == old(self).world.collectibles
                && final(self).world.next_id == old(self).world.next_id,
            size.x < 0 || size.y < 0 ==> r == Err::<(), SimError>(SimError::ConfigurationError)
                && *final(self) == *old(self),
    {
        self.world.spawn_player(center, size)
    }

    /// Run one simulation tick: apply the input to the player, resolve the
    /// tentative position against every wall, collect overlapping
    /// collectibles, then drive both UI toggles. Requested before a player
    /// exists, the tick reports `MissingPlayer` and changes nothing.
    pub fn tick(&mut self, input: &InputSnapshot) -> (r: Result<FrameOutcome, SimError>)
        requires
            old(self).wf(),
        ensures
            final(self).wf(),
            old(self).world.player is None ==> r == Err::<FrameOutcome, SimError>(
                SimError::MissingPlayer,
            ) && *final(self) == *old(self),
            old(self).world.player matches Some(p) ==> ({
                let newp = Player {
                    center: resolved_center(p, *input, old(self).world.walls@),
                    size: p.size,
                };
                let pbox = newp.bbox_spec();
                &&& r matches Ok(out)
                &&& final(self).world.walls == old(self).world.walls
                &&& final(self).world.next_id == old(self).world.next_id
                &&& final(self).world.player == Some(newp)
                &&& final(self).world.collectibles@ == surviving(
                    old(self).world.collectibles@,
                    pbox,
                )
                &&& final(self).inventory.has_resistor == (old(self).inventory.has_resistor
                    || collects_kind(
                    old(self).world.collectibles@,
                    pbox,
                    CollectibleKind::Resistor,
                ))
                &&& final(self).inventory.has_capacitor == (old(self).inventory.has_capacitor
                    || collects_kind(
                    old(self).world.collectibles@,
                    pbox,
                    CollectibleKind::Capacitor,
                ))
                &&& final(self).modal.open == toggle_next(
                    old(self).modal.open,
                    input.open_modal,
                    input.close_modal,
                )
                &&& final(self).transform_mode.open == toggle_next(
                    old(self).transform_mode.open,
                    input.begin_transform,
                    input.finalize_transform,
                )
                &&& out.position == newp.center
                &&& out.inventory == final(self).inventory
                &&& out.removed@ == collected_ids(old(self).world.collectibles@, pbox)
                &&& out.events@ == tick_events(
                    old(self).modal.open,
                    old(self).transform_mode.open,
                    *input,
                )
            }),
            old(self).inventory.has_resistor ==> final(self).inventory.has_resistor,
            old(self).inventory.has_capacitor ==> final(self).inventory.has_capacitor,
    {
        let p = match self.world.player {
            Some(p) => p,
            None => {
                return Err(SimError::MissingPlayer);
            },
        };
        let tentative = apply_input(input, p.center);
        let tbox = Aabb { center: tentative, size: p.size };
        proof {
            assert(tbox == tentative_box(p, *input));
        }
        let corrected = resolve_against_walls(&tbox, &self.world.walls);
        proof {
            assert(corrected == resolved_center(p, *input, self.world.walls@));
        }
        self.world.player = Some(Player { center: corrected, size: p.size });
        let removed = run_interaction(&mut self.world, &mut self.inventory);
        let mut events: Vec<UiEvent> = Vec::new();
        match self.modal.step(input.open_modal, input.close_modal) {
            Some(ToggleEdge::Opened) => events.push(UiEvent::Open),
            Some(ToggleEdge::Closed) => events.push(UiEvent::Close),
            None => {},
        }
        match self.transform_mode.step(input.begin_transform, input.finalize_transform) {
            Some(ToggleEdge::Opened) => events.push(UiEvent::BeginTransform),
            Some(ToggleEdge::Closed) => events.push(UiEvent::FinalizeTransform),
            None => {},
        }
        proof {
            assert(events@ =~= tick_events(
                old(self).modal.open,
                old(self).transform_mode.open,
                *input,
            ));
        }
        Ok(
            FrameOutcome {
                position: corrected,
                inventory: Inventory {
                    has_resistor: self.inventory.has_resistor,
                    has_capacitor: self.inventory.has_capacitor,
                },
                removed,
                events,
            },
        )
    }
}

} // verus!
