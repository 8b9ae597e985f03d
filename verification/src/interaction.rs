//! The interaction system: each tick, every collectible overlapping the
//! player is collected — its inventory flag is set and the entity is
//! despawned. Flags are only ever set, never cleared, so the inventory is
//! monotonic.

use vstd::prelude::*;

use crate::geometry::{overlaps, overlaps_spec, Aabb, Vec2};
use crate::world::{ids_unique, Collectible, CollectibleKind, Entity, World};

verus! {

/// What the player has picked up so far. Once a flag is true it stays true
/// for the session.
#[derive(Clone, Copy, Debug, PartialEq, Eq, Structural)]
pub struct Inventory {
    pub has_resistor: bool,
    pub has_capacitor: bool,
}

impl Default for Inventory {
    /// The empty inventory.
    fn default() -> (r: Inventory)
        ensures
            !r.has_resistor,
            !r.has_capacitor,
    {
        Inventory { has_resistor: false, has_capacitor: false }
    }
}

/// The collectibles that survive a tick against the player box `pbox`: those
/// whose boxes do not overlap it, in their original order.
pub open spec fn surviving(cs: Seq<Collectible>, pbox: Aabb) -> Seq<Collectible>
    decreases cs.len(),
{
    if cs.len() == 0 {
        Seq::empty()
    } else {
        let rest = surviving(cs.drop_last(), pbox);
        if overlaps_spec(pbox, cs.last().bbox_spec()) {
            rest
        } else {
            rest.push(cs.last())
        }
    }
}

/// The ids of the collectibles that a tick against `pbox` collects, in their
/// original order.
pub open spec fn collected_ids(cs: Seq<Collectible>, pbox: Aabb) -> Seq<Entity>
    decreases cs.len(),
{
    if cs.len() == 0 {
        Seq::empty()
    } else {
        let rest = collected_ids(cs.drop_last(), pbox);
        if overlaps_spec(pbox, cs.last().bbox_spec()) {
            rest.push(cs.last().id)
        } else {
            rest
        }
    }
}

/// Some collectible of the given kind overlaps `pbox`.
pub open spec fn collects_kind(cs: Seq<Collectible>, pbox: Aabb, kind: CollectibleKind) -> bool {
    exists|i: int|
        0 <= i < cs.len() && (#[trigger] cs[i]).kind == kind && overlaps_spec(
            pbox,
            cs[i].bbox_spec(),
        )
}

/// Appending one collectible adds exactly its own potential pickup.
pub proof fn lemma_collects_kind_push(
    cs: Seq<Collectible>,
    c: Collectible,
    pbox: Aabb,
    kind: CollectibleKind,
)
    ensures
        collects_kind(cs.push(c), pbox, kind) == (collects_kind(cs, pbox, kind) || (c.kind == kind
            && overlaps_spec(pbox, c.bbox_spec()))),
{
    if collects_kind(cs, pbox, kind) {
        let j = choose|j: int|
            0 <= j < cs.len() && (#[trigger] cs[j]).kind == kind && overlaps_spec(
                pbox,
                cs[j].bbox_spec(),
            );
        assert(cs.push(c)[j] == cs[j]);
    }
    if c.kind == kind && overlaps_spec(pbox, c.bbox_spec()) {
        assert(cs.push(c)[cs.len() as int] == c);
    }
    if collects_kind(cs.push(c), pbox, kind) {
        let j = choose|j: int|
            0 <= j < cs.push(c).len() && (#[trigger] cs.push(c)[j]).kind == kind && overlaps_spec(
                pbox,
                cs.push(c)[j].bbox_spec(),
            );
        if j < cs.len() {
            assert(cs[j] == cs.push(c)[j]);
        } else {
            assert(cs.push(c)[j] == c);
        }
    }
}

/// Every survivor was already registered before the tick.
pub proof fn lemma_surviving_contains(cs: Seq<Collectible>, pbox: Aabb)
    ensures
        forall|k: int|
            0 <= k < surviving(cs, pbox).len() ==> cs.contains(#[trigger] surviving(cs, pbox)[k]),
    decreases cs.len(),
{
    if cs.len() > 0 {
        lemma_surviving_contains(cs.drop_last(), pbox);
        let rest = surviving(cs.drop_last(), pbox);
        assert forall|k: int|
            0 <= k < surviving(cs, pbox).len() implies cs.contains(
            #[trigger] surviving(cs, pbox)[k],
        ) by {
            if k < rest.len() {
                assert(cs.drop_last().contains(rest[k]));
                let j = choose|j: int|
                    0 <= j < cs.drop_last().len() && cs.drop_last()[j] == rest[k];
                assert(cs[j] == rest[k]);
            } else {
                assert(surviving(cs, pbox)[k] == cs.last());
                assert(cs[cs.len() - 1] == cs.last());
            }
        }
    }
}

/// A collected entity is gone: no survivor carries the id of a collectible
/// that overlapped the player box.
pub proof fn lemma_pickup_removes(cs: Seq<Collectible>, pbox: Aabb, i: int)
    requires
        ids_unique(cs),
        0 <= i < cs.len(),
        overlaps_spec(pbox, cs[i].bbox_spec()),
    ensures
        forall|k: int|
            0 <= k < surviving(cs, pbox).len() ==> (#[trigger] surviving(cs, pbox)[k]).id
                != cs[i].id,
    decreases cs.len(),
{
    let rest = surviving(cs.drop_last(), pbox);
    if i == cs.len() - 1 {
        lemma_surviving_contains(cs.drop_last(), pbox);
        assert forall|k: int|
            0 <= k < surviving(cs, pbox).len() implies (#[trigger] surviving(cs, pbox)[k]).id
            != cs[i].id by {
            assert(cs.drop_last().contains(rest[k]));
            let j = choose|j: int| 0 <= j < cs.drop_last().len() && cs.drop_last()[j] == rest[k];
            assert(cs[j] == rest[k]);
        }
    } else {
        assert(ids_unique(cs.drop_last())) by {
            assert(forall|a: int, b: int|
                0 <= a < b < cs.drop_last().len() ==> cs.drop_last()[a] == cs[a]
                    && cs.drop_last()[b] == cs[b]);
        }
        assert(cs.drop_last()[i] == cs[i]);
        lemma_pickup_removes(cs.drop_last(), pbox, i);
        if !overlaps_spec(pbox, cs.last().bbox_spec()) {
            assert(cs.last().id != cs[i].id);
        }
    }
}

/// Run one tick of the interaction system: collect every collectible that
/// overlaps the player, set the matching inventory flags, and despawn the
/// collected entities. Returns the despawned ids in registration order.
pub fn run_interaction(world: &mut World, inventory: &mut Inventory) -> (removed: Vec<Entity>)
    requires
        old(world).wf(),
        old(world).player is Some,
    ensures
        final(world).wf(),
        final(world).player == old(world).player,
        final(world).walls == old(world).walls,
        final(world).next_id == old(world).next_id,
        old(world).player matches Some(p) ==> ({
            &&& final(world).collectibles@ == surviving(old(world).collectibles@, p.bbox_spec())
            &&& removed@ == collected_ids(old(world).collectibles@, p.bbox_spec())
            &&& final(inventory).has_resistor == (old(inventory).has_resistor || collects_kind(
                old(world).collectibles@,
                p.bbox_spec(),
                CollectibleKind::Resistor,
            ))
            &&& final(inventory).has_capacitor == (old(inventory).has_capacitor || collects_kind(
                old(world).collectibles@,
                p.bbox_spec(),
                CollectibleKind::Capacitor,
            ))
        }),
{
    let pbox = match &world.player {
        Some(p) => p.bbox(),
        None => {
            proof {
                assert(false);
            }
            Aabb::new(Vec2::new(0, 0), Vec2::new(0, 0))
        },
    };
    let n = world.collectibles.len();
    let mut kept: Vec<Collectible> = Vec::new();
    let mut removed: Vec<Entity> = Vec::new();
    let mut i: usize = 0;
    while i < n
        invariant
            0 <= i <= n,
            n == world.collectibles@.len(),
            *world == *old(world),
            old(world).wf(),
            old(world).player matches Some(p) && pbox == p.bbox_spec(),
            kept@ == surviving(world.collectibles@.take(i as int), pbox),
            removed@ == collected_ids(world.collectibles@.take(i as int), pbox),
            inventory.has_resistor == (old(inventory).has_resistor || collects_kind(
                world.collectibles@.take(i as int),
                pbox,
                CollectibleKind::Resistor,
            )),
            inventory.has_capacitor == (old(inventory).has_capacitor || collects_kind(
                world.collectibles@.take(i as int),
                pbox,
                CollectibleKind::Capacitor,
            )),
            forall|k: int|
                0 <= k < kept@.len() ==> exists|j: int|
                    0 <= j < i && (#[trigger] kept@[k]) == (#[trigger] world.collectibles@[j]),
            forall|k: int| 0 <= k < kept@.len() ==> (#[trigger] kept@[k]).wf(),
            ids_unique(kept@),
            forall|k: int| 0 <= k < kept@.len() ==> (#[trigger] kept@[k]).id.0 < world.next_id,
        decreases n - i,
    {
        let c = world.collectibles[i];
        proof {
            let cs = world.collectibles@;
            assert(cs.take(i as int + 1).drop_last() =~= cs.take(i as int));
            assert(cs.take(i as int + 1).last() == cs[i as int]);
            assert(cs.take(i as int + 1) =~= cs.take(i as int).push(cs[i as int]));
            lemma_collects_kind_push(cs.take(i as int), c, pbox, CollectibleKind::Resistor);
            lemma_collects_kind_push(cs.take(i as int), c, pbox, CollectibleKind::Capacitor);
        }
        if overlaps(&pbox, &c.bbox()) {
            match c.kind {
                CollectibleKind::Resistor => {
                    inventory.has_resistor = true;
                },
                CollectibleKind::Capacitor => {
                    inventory.has_capacitor = true;
                },
            }
            removed.push(c.id);
        } else {
            proof {
                assert forall|k: int| 0 <= k < kept@.len() implies (#[trigger] kept@[k]).id
                    != c.id by {
                    let j = choose|j: int|
                        0 <= j < i && kept@[k] == (#[trigger] world.collectibles@[j]);
                    assert(world.collectibles@[j].id != world.collectibles@[i as int].id);
                }
            }
            kept.push(c);
        }
        i = i + 1;
    }
    proof {
        assert(world.collectibles@.take(n as int) =~= world.collectibles@);
    }
    world.collectibles = kept;
    removed
}

} // verus!
