//! The world registry: owns the static walls, the singleton player and the
//! collectible entities, hands out fresh entity ids, and removes collectibles
//! on despawn.

use vstd::prelude::*;

use crate::geometry::{Aabb, Vec2, MAX_COORD, MAX_SIZE};

verus! {

/// Largest magnitude a wall or collectible center, or a freshly placed
/// player center, may have. Movement may carry the player further out, but
/// never past the geometry module's arithmetic bound.
pub const WORLD_BOUND: i64 = 1_000_000_000;

/// An opaque identifier for a registered entity.
#[derive(Clone, Copy, Debug, PartialEq, Eq, Hash, Structural)]
pub struct Entity(pub u64);

/// The closed set of collectible kinds.
#[derive(Clone, Copy, Debug, PartialEq, Eq, Structural)]
pub enum CollectibleKind {
    Resistor,
    Capacitor,
}

/// The error kinds the core can report. `MissingPlayer` marks a tick
/// requested before setup completed; `ConfigurationError` marks a malformed
/// setup call (a degenerate box with a negative size).
#[derive(Clone, Copy, Debug, PartialEq, Eq, Structural)]
pub enum SimError {
    MissingPlayer,
    ConfigurationError,
}

/// A static obstacle; created at level load and never mutated afterwards.
#[derive(Clone, Copy, Debug, PartialEq, Eq, Structural)]
pub struct Wall {
    pub id: Entity,
    pub center: Vec2,
    pub size: Vec2,
}

/// The player-controlled entity; exactly one exists after setup.
#[derive(Clone, Copy, Debug, PartialEq, Eq, Structural)]
pub struct Player {
    pub center: Vec2,
    pub size: Vec2,
}

/// An item the player can pick up; despawned the tick it overlaps the player.
#[derive(Clone, Copy, Debug, PartialEq, Eq, Structural)]
pub struct Collectible {
    pub id: Entity,
    pub center: Vec2,
    pub size: Vec2,
    pub kind: CollectibleKind,
}

impl Wall {
    pub open spec fn bbox_spec(self) -> Aabb {
        Aabb { center: self.center, size: self.size }
    }

    /// The wall sits within the world bound with a valid size.
    pub open spec fn wf(self) -> bool {
        self.bbox_spec().size_ok() && self.center.within(WORLD_BOUND as int)
    }

    pub fn bbox(&self) -> (b: Aabb)
        ensures
            b == self.bbox_spec(),
    {
        Aabb { center: self.center, size: self.size }
    }
}

impl Collectible {
    pub open spec fn bbox_spec(self) -> Aabb {
        Aabb { center: self.center, size: self.size }
    }

    pub open spec fn wf(self) -> bool {
        self.bbox_spec().size_ok() && self.center.within(WORLD_BOUND as int)
    }

    pub fn bbox(&self) -> (b: Aabb)
        ensures
            b == self.bbox_spec(),
    {
        Aabb { center: self.center, size: self.size }
    }
}

impl Player {
    pub open spec fn bbox_spec(self) -> Aabb {
        Aabb { center: self.center, size: self.size }
    }

    /// The player's box stays within the geometry arithmetic bound; movement
    /// keeps it there.
    pub open spec fn wf(self) -> bool {
        self.bbox_spec().size_ok() && self.center.within(MAX_COORD as int)
    }

    pub fn bbox(&self) -> (b: Aabb)
        ensures
            b == self.bbox_spec(),
    {
        Aabb { center: self.center, size: self.size }
    }
}

/// All ids in a collectible sequence are pairwise distinct.
pub open spec fn ids_unique(cs: Seq<Collectible>) -> bool {
    forall|i: int, j: int| 0 <= i < j < cs.len() ==> cs[i].id != cs[j].id
}

/// Every id in the sequence is below the registry's next fresh id.
pub open spec fn collectible_ids_below(cs: Seq<Collectible>, next: int) -> bool {
    forall|i: int| 0 <= i < cs.len() ==> cs[i].id.0 < next
}

pub open spec fn wall_ids_below(ws: Seq<Wall>, next: int) -> bool {
    forall|i: int| 0 <= i < ws.len() ==> ws[i].id.0 < next
}

/// The collectibles of `cs` whose id differs from `id`, in order.
pub open spec fn remove_id(cs: Seq<Collectible>, id: Entity) -> Seq<Collectible>
    decreases cs.len(),
{
    if cs.len() == 0 {
        Seq::empty()
    } else {
        let rest = remove_id(cs.drop_last(), id);
        if cs.last().id == id {
            rest
        } else {
            rest.push(cs.last())
        }
    }
}

/// Every rectangle of a level description has a nonnegative size.
pub open spec fn rects_valid(rects: Seq<(Vec2, Vec2)>) -> bool {
    forall|i: int| 0 <= i < rects.len() ==> (#[trigger] rects[i]).1.x >= 0 && rects[i].1.y >= 0
}

/// The walls a level description produces, with ids counting up from `base`.
pub open spec fn walls_of(rects: Seq<(Vec2, Vec2)>, base: int) -> Seq<Wall> {
    Seq::new(rects.len(), |i: int| Wall { id: Entity((base + i) as u64), center: rects[i].0, size: rects[i].1 })
}

/// The registry owning all spatial entities of the session.
pub struct World {
    pub walls: Vec<Wall>,
    pub collectibles: Vec<Collectible>,
    pub player: Option<Player>,
    pub next_id: u64,
}

impl World {
    /// The registry invariant: geometry within bounds, ids fresh and unique.
    pub open spec fn wf(self) -> bool {
        &&& forall|i: int| 0 <= i < self.walls@.len() ==> self.walls@[i].wf()
        &&& forall|i: int| 0 <= i < self.collectibles@.len() ==> self.collectibles@[i].wf()
        &&& self.player matches Some(p) ==> p.wf()
        &&& ids_unique(self.collectibles@)
        &&& collectible_ids_below(self.collectibles@, self.next_id as int)
        &&& wall_ids_below(self.walls@, self.next_id as int)
    }

    pub fn new() -> (r: World)
        ensures
            r.wf(),
            r.walls@ == Seq::<Wall>::empty(),
            r.collectibles@ == Seq::<Collectible>::empty(),
            r.player is None,
            r.next_id == 0,
    {
        World { walls: Vec::new(), collectibles: Vec::new(), player: None, next_id: 0 }
    }

    /// Insert a static wall with a fresh id. Rejects a degenerate (negative)
    /// size without touching the registry.
    pub fn spawn_wall(&mut self, center: Vec2, size: Vec2) -> (r: Result<Entity, SimError>)
        requires
            old(self).wf(),
            old(self).next_id < u64::MAX,
            center.within(WORLD_BOUND as int),
            size.x <= MAX_SIZE,
            size.y <= MAX_SIZE,
        ensures
            final(self).wf(),
            size.x >= 0 && size.y >= 0 ==> ({
                &&& r == Ok::<Entity, SimError>(Entity(old(self).next_id))
                &&& final(self).walls@ == old(self).walls@.push(
                    Wall { id: Entity(old(self).next_id), center, size },
                )
                &&& final(self).next_id == old(self).next_id + 1
                &&& final(self).collectibles == old(self).collectibles
                &&& final(self).player == old(self).player
            }),
            size.x < 0 || size.y < 0 ==> ({
                &&& r == Err::<Entity, SimError>(SimError::ConfigurationError)
                &&& *final(self) == *old(self)
            }),
    {
        if size.x < 0 || size.y < 0 {
            return Err(SimError::ConfigurationError);
        }
        let id = Entity(self.next_id);
        self.walls.push(Wall { id, center, size });
        self.next_id = self.next_id + 1;
        Ok(id)
    }

    /// Insert a collectible with a fresh id. Rejects a degenerate size
    /// without touching the registry.
    pub fn spawn_collectible(&mut self, center: Vec2, size: Vec2, kind: CollectibleKind) -> (r:
        Result<Entity, SimError>)
        requires
            old(self).wf(),
            old(self).next_id < u64::MAX,
            center.within(WORLD_BOUND as int),
            size.x <= MAX_SIZE,
            size.y <= MAX_SIZE,
        ensures
            final(self).wf(),
            size.x >= 0 && size.y >= 0 ==> ({
                &&& r == Ok::<Entity, SimError>(Entity(old(self).next_id))
                &&& final(self).collectibles@ == old(self).collectibles@.push(
                    Collectible { id: Entity(old(self).next_id), center, size, kind },
                )
                &&& final(self).next_id == old(self).next_id + 1
                &&& final(self).walls == old(self).walls
                &&& final(self).player == old(self).player
            }),
            size.x < 0 || size.y < 0 ==> ({
                &&& r == Err::<Entity, SimError>(SimError::ConfigurationError)
                &&& *final(self) == *old(self)
            }),
    {
        if size.x < 0 || size.y < 0 {
            return Err(SimError::ConfigurationError);
        }
        let id = Entity(self.next_id);
        self.collectibles.push(Collectible { id, center, size, kind });
        self.next_id = self.next_id + 1;
        Ok(id)
    }

    /// Place (or replace) the singleton player. Rejects a degenerate size
    /// without touching the registry.
    pub fn spawn_player(&mut self, center: Vec2, size: Vec2) -> (r: Result<(), SimError>)
        requires
            old(self).wf(),
            center.within(WORLD_BOUND as int),
            size.x <= MAX_SIZE,
            size.y <= MAX_SIZE,
        ensures
            final(self).wf(),
            size.x >= 0 && size.y >= 0 ==> ({
                &&& r == Ok::<(), SimError>(())
                &&& final(self).player == Some(Player { center, size })
                &&& final(self).walls == old(self).walls
                &&& final(self).collectibles == old(self).collectibles
                &&& final(self).next_id == old(self).next_id
            }),
            size.x < 0 || size.y < 0 ==> ({
                &&& r == Err::<(), SimError>(SimError::ConfigurationError)
                &&& *final(self) == *old(self)
            }),
    {
        if size.x < 0 || size.y < 0 {
            return Err(SimError::ConfigurationError);
        }
        self.player = Some(Player { center, size });
        Ok(())
    }

    /// Load a level's wall geometry in one setup call. A malformed
    /// description (any rectangle with a negative size) is rejected whole:
    /// nothing is applied.
    pub fn load_level(&mut self, rects: &Vec<(Vec2, Vec2)>) -> (r: Result<(), SimError>)
        requires
            old(self).wf(),
            old(self).next_id as int + rects@.len() < u64::MAX,
            forall|i: int|
                0 <= i < rects@.len() ==> (#[trigger] rects@[i]).0.within(WORLD_BOUND as int)
                    && rects@[i].1.x <= MAX_SIZE && rects@[i].1.y <= MAX_SIZE,
        ensures
            final(self).wf(),
            rects_valid(rects@) ==> ({
                &&& r == Ok::<(), SimError>(())
                &&& final(self).walls@ == old(self).walls@ + walls_of(
                    rects@,
                    old(self).next_id as int,
                )
                &&& final(self).next_id == old(self).next_id + rects@.len()
                &&& final(self).collectibles == old(self).collectibles
                &&& final(self).player == old(self).player
            }),
            !rects_valid(rects@) ==> ({
                &&& r == Err::<(), SimError>(SimError::ConfigurationError)
                &&& *final(self) == *old(self)
            }),
    {
        let n = rects.len();
        let mut i: usize = 0;
        while i < n
            invariant
                0 <= i <= n,
                n == rects@.len(),
                *self == *old(self),
                old(self).wf(),
                forall|k: int|
                    0 <= k < i ==> (#[trigger] rects@[k]).1.x >= 0 && rects@[k].1.y >= 0,
            decreases n - i,
        {
            let (_, size) = rects[i];
            if size.x < 0 || size.y < 0 {
                return Err(SimError::ConfigurationError);
            }
            i = i + 1;
        }
        let ghost base = self.next_id as int;
        let mut j: usize = 0;
        while j < n
            invariant
                0 <= j <= n,
                n == rects@.len(),
                old(self).wf(),
                old(self).next_id as int + rects@.len() < u64::MAX,
                rects_valid(rects@),
                forall|k: int|
                    0 <= k < rects@.len() ==> (#[trigger] rects@[k]).0.within(WORLD_BOUND as int)
                        && rects@[k].1.x <= MAX_SIZE && rects@[k].1.y <= MAX_SIZE,
                base == old(self).next_id as int,
                self.next_id as int == base + j,
                self.walls@ == old(self).walls@ + walls_of(rects@.take(j as int), base),
                self.collectibles == old(self).collectibles,
                self.player == old(self).player,
                self.wf(),
            decreases n - j,
        {
            let (center, size) = rects[j];
            let id = Entity(self.next_id);
            self.walls.push(Wall { id, center, size });
            self.next_id = self.next_id + 1;
            proof {
                assert(self.walls@ =~= old(self).walls@ + walls_of(
                    rects@.take(j as int + 1),
                    base,
                ));
            }
            j = j + 1;
        }
        proof {
            assert(rects@.take(n as int) =~= rects@);
            assert(self.walls@ =~= old(self).walls@ + walls_of(rects@, base));
        }
        Ok(())
    }

    /// Remove the collectible with the given id; a documented no-op when the
    /// id is already absent.
    pub fn despawn(&mut self, id: Entity)
        requires
            old(self).wf(),
        ensures
            final(self).wf(),
            final(self).collectibles@ == remove_id(old(self).collectibles@, id),
            final(self).walls == old(self).walls,
            final(self).player == old(self).player,
            final(self).next_id == old(self).next_id,
    {
        let n = self.collectibles.len();
        let mut kept: Vec<Collectible> = Vec::new();
        let mut i: usize = 0;
        while i < n
            invariant
                n == self.collectibles@.len(),
                0 <= i <= n,
                self == old(self),
                old(self).wf(),
                kept@ == remove_id(self.collectibles@.take(i as int), id),
                forall|k: int|
                    0 <= k < kept@.len() ==> exists|j: int|
                        0 <= j < i && (#[trigger] kept@[k]) == (#[trigger] self.collectibles@[j]),
                forall|k: int| 0 <= k < kept@.len() ==> (#[trigger] kept@[k]).wf(),
                ids_unique(kept@),
                collectible_ids_below(kept@, self.next_id as int),
            decreases n - i,
        {
            let c = self.collectibles[i];
            proof {
                assert(self.collectibles@.take(i as int + 1).drop_last() =~= self.collectibles@.take(
                    i as int,
                ));
                assert(self.collectibles@.take(i as int + 1).last() == self.collectibles@[i as int]);
            }
            if c.id.0 != id.0 {
                proof {
                    assert forall|k: int| 0 <= k < kept@.len() implies (#[trigger] kept@[k]).id
                        != c.id by {
                        let j = choose|j: int|
                            0 <= j < i && kept@[k] == self.collectibles@[j];
                        assert(self.collectibles@[j].id != self.collectibles@[i as int].id);
                    }
                }
                kept.push(c);
            }
            i = i + 1;
        }
        proof {
            assert(self.collectibles@.take(n as int) =~= self.collectibles@);
        }
        self.collectibles = kept;
    }

    /// The player, or `MissingPlayer` before setup has placed one.
    pub fn player(&self) -> (r: Result<&Player, SimError>)
        ensures
            self.player matches Some(p) ==> (r matches Ok(q) && *q == p),
            self.player is None ==> r == Err::<&Player, SimError>(SimError::MissingPlayer),
    {
        match &self.player {
            Some(p) => Ok(p),
            None => Err(SimError::MissingPlayer),
        }
    }

    /// Mutable access to the player, or `MissingPlayer` before setup has
    /// placed one. Callers that move the player are responsible for keeping
    /// its box within the registry invariant's bounds.
    pub fn player_mut(&mut self) -> (r: Result<&mut Player, SimError>)
        ensures
            old(self).player matches Some(p) ==> (r matches Ok(q) && ({
                &&& *q == p
                &&& final(self).player == Some(*final(q))
                &&& final(self).walls == old(self).walls
                &&& final(self).collectibles == old(self).collectibles
                &&& final(self).next_id == old(self).next_id
            })),
            old(self).player is None ==> (r matches Err(e) && e == SimError::MissingPlayer
                && *final(self) == *old(self)),
    {
        match &mut self.player {
            Some(p) => Ok(p),
            None => Err(SimError::MissingPlayer),
        }
    }

    /// Every registered wall, as a read-only view.
    pub fn iter_walls(&self) -> (r: &Vec<Wall>)
        ensures
            r == &self.walls,
    {
        &self.walls
    }

    /// Every live collectible, as a read-only view.
    pub fn iter_collectibles(&self) -> (r: &Vec<Collectible>)
        ensures
            r == &self.collectibles,
    {
        &self.collectibles
    }
}

} // verus!
