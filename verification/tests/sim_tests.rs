use maze_core::driver::{Sim, UiEvent};
use maze_core::geometry::{overlaps, Vec2};
use maze_core::movement::InputSnapshot;
use maze_core::world::{CollectibleKind, Entity, SimError};

fn v(x: i64, y: i64) -> Vec2 {
    Vec2 { x, y }
}

fn idle() -> InputSnapshot {
    InputSnapshot::default()
}

fn press_right() -> InputSnapshot {
    InputSnapshot { right: true, ..idle() }
}

/// A session with the player at the origin and one vertical wall to the right,
/// as in the movement scenario.
fn wall_to_the_right() -> Sim {
    let mut sim = Sim::new();
    sim.load_level(&vec![(v(15, 0), v(10, 350))]).unwrap();
    sim.spawn_player(v(0, 0), v(20, 20)).unwrap();
    sim
}

#[test]
fn scenario_right_into_wall_corrects_exactly() {
    let mut sim = wall_to_the_right();
    let out = sim.tick(&press_right()).unwrap();
    // Tentative position (2, 0) overlaps the wall; the resolved x is pushed
    // back so the player's right edge (x = 10) touches the wall's left edge
    // (x = 15 - 5) exactly, and y stays 0.
    assert_eq!(out.position, v(0, 0));
    let player = *sim.world.player().unwrap();
    assert_eq!(player.center, v(0, 0));
    let wall_box = sim.world.iter_walls()[0].bbox();
    assert!(!overlaps(&player.bbox(), &wall_box));
}

#[test]
fn wall_containment_after_embedding_input() {
    let mut sim = wall_to_the_right();
    // Drive the player into the wall for several ticks; it must never end a
    // tick overlapping any wall.
    for _ in 0..10 {
        sim.tick(&press_right()).unwrap();
        let pbox = sim.world.player().unwrap().bbox();
        for w in sim.world.iter_walls() {
            assert!(!overlaps(&pbox, &w.bbox()));
        }
    }
}

#[test]
fn later_wall_wins_ties_per_axis() {
    // Two walls overlap the player on the x axis; the correction computed for
    // the later one in iteration order overwrites the earlier one.
    let mut sim = Sim::new();
    sim.load_level(&vec![(v(12, 0), v(10, 350)), (v(14, 0), v(10, 350))]).unwrap();
    sim.spawn_player(v(0, 0), v(20, 20)).unwrap();
    let out = sim.tick(&idle()).unwrap();
    // First wall alone would push x back by 3; the second wall's shallower
    // penetration (push by 1) is what actually applies.
    assert_eq!(out.position, v(-1, 0));
}

#[test]
fn diagonal_movement_runs_full_speed_per_axis() {
    let mut sim = Sim::new();
    sim.spawn_player(v(0, 0), v(20, 20)).unwrap();
    let input = InputSnapshot { right: true, up: true, ..idle() };
    let out = sim.tick(&input).unwrap();
    assert_eq!(out.position, v(2, 2));
    let out = sim.tick(&InputSnapshot { left: true, down: true, ..idle() }).unwrap();
    assert_eq!(out.position, v(0, 0));
}

#[test]
fn opposed_keys_right_and_up_win() {
    let mut sim = Sim::new();
    sim.spawn_player(v(0, 0), v(20, 20)).unwrap();
    let input = InputSnapshot { left: true, right: true, up: true, down: true, ..idle() };
    let out = sim.tick(&input).unwrap();
    assert_eq!(out.position, v(2, 2));
}

#[test]
fn tick_before_setup_reports_missing_player() {
    let mut sim = Sim::new();
    assert_eq!(sim.tick(&idle()).unwrap_err(), SimError::MissingPlayer);
}

#[test]
fn player_mut_requires_setup() {
    let mut sim = Sim::new();
    assert_eq!(sim.world.player_mut().unwrap_err(), SimError::MissingPlayer);
    sim.spawn_player(v(0, 0), v(20, 20)).unwrap();
    let p = sim.world.player_mut().unwrap();
    p.center = v(4, 4);
    assert_eq!(sim.world.player().unwrap().center, v(4, 4));
}

#[test]
fn negative_size_is_a_configuration_error() {
    let mut sim = Sim::new();
    assert_eq!(
        sim.spawn_collectible(v(0, 0), v(-1, 10), CollectibleKind::Resistor).unwrap_err(),
        SimError::ConfigurationError
    );
    assert_eq!(sim.spawn_player(v(0, 0), v(10, -10)).unwrap_err(), SimError::ConfigurationError);
    assert_eq!(sim.world.spawn_wall(v(0, 0), v(-2, -2)).unwrap_err(), SimError::ConfigurationError);
}

#[test]
fn malformed_level_is_rejected_whole() {
    let mut sim = Sim::new();
    let rects = vec![(v(0, 0), v(10, 10)), (v(40, 0), v(10, -10))];
    assert_eq!(sim.load_level(&rects).unwrap_err(), SimError::ConfigurationError);
    assert_eq!(sim.world.iter_walls().len(), 0);
}

#[test]
fn staged_loads_append_with_fresh_ids() {
    let mut sim = Sim::new();
    sim.load_level(&vec![(v(100, 0), v(10, 10))]).unwrap();
    sim.load_level(&vec![(v(200, 0), v(10, 10)), (v(300, 0), v(10, 10))]).unwrap();
    let c = sim.spawn_collectible(v(400, 0), v(10, 10), CollectibleKind::Resistor).unwrap();
    let walls = sim.world.iter_walls();
    assert_eq!(walls.len(), 3);
    assert_eq!(walls[0].id, Entity(0));
    assert_eq!(walls[1].id, Entity(1));
    assert_eq!(walls[2].id, Entity(2));
    assert_eq!(c, Entity(3));
    assert_eq!(walls[1].center, v(200, 0));
}

#[test]
fn free_movement_accumulates_per_tick() {
    let mut sim = Sim::new();
    sim.spawn_player(v(0, 0), v(20, 20)).unwrap();
    for step in 1..=3 {
        let out = sim.tick(&press_right()).unwrap();
        assert_eq!(out.position, v(2 * step, 0));
    }
}

#[test]
fn pickup_removes_entity() {
    let mut sim = Sim::new();
    sim.spawn_player(v(0, 0), v(20, 20)).unwrap();
    let id = sim.spawn_collectible(v(0, 0), v(10, 10), CollectibleKind::Resistor).unwrap();
    let out = sim.tick(&idle()).unwrap();
    assert_eq!(out.removed, vec![id]);
    assert!(out.inventory.has_resistor);
    assert!(!out.inventory.has_capacitor);
    assert!(sim.world.iter_collectibles().iter().all(|c| c.id != id));
    assert_eq!(sim.world.iter_collectibles().len(), 0);
}

#[test]
fn touching_collectible_is_not_picked_up() {
    let mut sim = Sim::new();
    sim.spawn_player(v(0, 0), v(20, 20)).unwrap();
    // Player box spans x in [-10, 10]; a (10, 10) collectible centered at
    // (15, 0) shares the edge x = 10 exactly and must not be collected.
    sim.spawn_collectible(v(15, 0), v(10, 10), CollectibleKind::Resistor).unwrap();
    let out = sim.tick(&idle()).unwrap();
    assert!(out.removed.is_empty());
    assert!(!out.inventory.has_resistor);
    assert_eq!(sim.world.iter_collectibles().len(), 1);
}

#[test]
fn two_collectibles_collected_in_one_tick() {
    let mut sim = Sim::new();
    sim.spawn_player(v(0, 0), v(20, 20)).unwrap();
    let a = sim.spawn_collectible(v(-3, 0), v(10, 10), CollectibleKind::Resistor).unwrap();
    let b = sim.spawn_collectible(v(3, 0), v(10, 10), CollectibleKind::Capacitor).unwrap();
    let out = sim.tick(&idle()).unwrap();
    assert_eq!(out.removed, vec![a, b]);
    assert!(out.inventory.has_resistor);
    assert!(out.inventory.has_capacitor);
    assert_eq!(sim.world.iter_collectibles().len(), 0);
}

#[test]
fn inventory_is_monotonic_across_ticks() {
    let mut sim = Sim::new();
    sim.spawn_player(v(0, 0), v(20, 20)).unwrap();
    sim.spawn_collectible(v(0, 0), v(10, 10), CollectibleKind::Resistor).unwrap();
    sim.tick(&idle()).unwrap();
    assert!(sim.inventory.has_resistor);
    // No sequence of further ticks clears the flag.
    for step in 0..20 {
        let input = match step % 4 {
            0 => press_right(),
            1 => InputSnapshot { open_modal: true, ..idle() },
            2 => InputSnapshot { close_modal: true, ..idle() },
            _ => InputSnapshot { left: true, down: true, ..idle() },
        };
        let out = sim.tick(&input).unwrap();
        assert!(out.inventory.has_resistor);
        assert!(sim.inventory.has_resistor);
    }
}

#[test]
fn despawn_is_a_noop_on_absent_id() {
    let mut sim = Sim::new();
    sim.spawn_player(v(0, 0), v(20, 20)).unwrap();
    let id = sim.spawn_collectible(v(100, 100), v(10, 10), CollectibleKind::Capacitor).unwrap();
    sim.world.despawn(Entity(999));
    assert_eq!(sim.world.iter_collectibles().len(), 1);
    sim.world.despawn(id);
    assert_eq!(sim.world.iter_collectibles().len(), 0);
    // Despawning the same id twice is not an error.
    sim.world.despawn(id);
    assert_eq!(sim.world.iter_collectibles().len(), 0);
}

#[test]
fn modal_opens_once_per_edge() {
    let mut sim = Sim::new();
    sim.spawn_player(v(0, 0), v(20, 20)).unwrap();
    let out = sim.tick(&InputSnapshot { open_modal: true, ..idle() }).unwrap();
    assert_eq!(out.events, vec![UiEvent::Open]);
    assert!(sim.modal.open);
    // Holding or re-issuing the open trigger while already open emits nothing.
    let out = sim.tick(&InputSnapshot { open_modal: true, ..idle() }).unwrap();
    assert_eq!(out.events, vec![]);
    assert!(sim.modal.open);
    let out = sim.tick(&InputSnapshot { close_modal: true, ..idle() }).unwrap();
    assert_eq!(out.events, vec![UiEvent::Close]);
    assert!(!sim.modal.open);
}

#[test]
fn both_triggers_while_closed_open_wins() {
    let mut sim = Sim::new();
    sim.spawn_player(v(0, 0), v(20, 20)).unwrap();
    let both = InputSnapshot { open_modal: true, close_modal: true, ..idle() };
    let out = sim.tick(&both).unwrap();
    assert_eq!(out.events, vec![UiEvent::Open]);
    assert!(sim.modal.open);
    // While open with both triggers, the close transition fires.
    let out = sim.tick(&both).unwrap();
    assert_eq!(out.events, vec![UiEvent::Close]);
    assert!(!sim.modal.open);
}

#[test]
fn transform_toggle_mirrors_modal_shape() {
    let mut sim = Sim::new();
    sim.spawn_player(v(0, 0), v(20, 20)).unwrap();
    let out = sim.tick(&InputSnapshot { begin_transform: true, ..idle() }).unwrap();
    assert_eq!(out.events, vec![UiEvent::BeginTransform]);
    let out = sim.tick(&InputSnapshot { begin_transform: true, ..idle() }).unwrap();
    assert_eq!(out.events, vec![]);
    let out = sim.tick(&InputSnapshot { finalize_transform: true, ..idle() }).unwrap();
    assert_eq!(out.events, vec![UiEvent::FinalizeTransform]);
}

#[test]
fn modal_and_transform_events_in_order() {
    let mut sim = Sim::new();
    sim.spawn_player(v(0, 0), v(20, 20)).unwrap();
    let input = InputSnapshot { open_modal: true, begin_transform: true, ..idle() };
    let out = sim.tick(&input).unwrap();
    assert_eq!(out.events, vec![UiEvent::Open, UiEvent::BeginTransform]);
}
