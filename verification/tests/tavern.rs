use lunas_libations::direction::{unit_toward, UNIT};
use lunas_libations::fixture::{Container, Interactable, Mixer};
use lunas_libations::item::{Beverage, Item, ItemOwner, ItemRecord, Stats, STAT_UNIT};
use lunas_libations::npc::{Behavior, NPC};
use lunas_libations::player::{Actions, PlayerHeading};
use lunas_libations::timer::Timer;
use lunas_libations::vector::{IVec2, IVec3};
use lunas_libations::world::{Errand, Passable, System, Tile, TileKind, World};

const FRAME: u64 = 16;
const STEP: i32 = 4;

fn idle() -> Actions {
    Actions { player_movement: None, pick_up: (false, false), interact: (false, false) }
}

/// Steering along one axis: a whole step that way.
fn steer(x: i32, y: i32) -> Actions {
    Actions { player_movement: Some(IVec2::new(x * UNIT, y * UNIT)), ..idle() }
}

fn press_pick_up() -> Actions {
    Actions { pick_up: (true, false), ..idle() }
}

fn press_interact() -> Actions {
    Actions { interact: (true, false), ..idle() }
}

fn frame(world: &mut World, actions: Actions) {
    world.tick(&actions, FRAME, STEP);
}

fn tile_of(world: &World, actor: usize) -> IVec2 {
    let position = world.actor(actor).unwrap().position;
    world.tile_map().camera_to_tile(world.origin(), position)
}

fn walk_to(world: &mut World, actor: usize, goal: IVec2) {
    for _ in 0..2_000 {
        let here = tile_of(world, actor);
        if here == goal {
            frame(world, idle());
            return;
        }
        let intent = unit_toward((goal.x - here.x) as i64, (here.y - goal.y) as i64);
        frame(world, Actions { player_movement: Some(intent), ..idle() });
    }
    panic!("the actor never arrived");
}

fn fixture_on(world: &World, index: IVec2) -> usize {
    let tile = world.tile_map().tile_at(index).unwrap();
    world.tile(tile).unwrap().fixtures[0]
}

fn mind(world: &World, actor: usize) -> NPC {
    world.actor(actor).unwrap().npc.unwrap()
}

/// How many slots hold the item: cells, actors and containers.
fn holders(world: &World, id: usize) -> usize {
    let mut count = 0;
    for tile in 0..world.tile_count() {
        let node = world.tile(tile).unwrap();
        if node.alive {
            count += node.items.iter().filter(|held| **held == id).count();
        }
    }
    for actor in 0..world.actor_count() {
        if world.actor(actor).unwrap().player.holding == Some(id) {
            count += 1;
        }
    }
    for fixture in 0..world.fixture_count() {
        let node = world.fixture(fixture).unwrap();
        if let Interactable::Container(container) = &node.fixture {
            if node.alive && container.holding() == Some(id) {
                count += 1;
            }
        }
    }
    count
}

fn assert_exclusive_ownership(world: &World) {
    for id in 0..world.item_registry().len() {
        let expected = if world.item_registry().get(id).is_some() { 1 } else { 0 };
        assert_eq!(holders(world, id), expected, "item {}", id);
    }
}

#[test]
fn the_tavern_is_furnished() {
    let world = World::spawn_world_tiles();
    assert_eq!(world.tile_map().size(), IVec2::new(25, 18));
    assert_eq!(world.origin(), IVec3::new(-400, -300, 0));
    assert_eq!(world.item_registry().len(), 0);
    assert_eq!(world.actor_count(), 0);
    let kind_at = |x: i32, y: i32| {
        world
            .tile_map()
            .tile_at(IVec2::new(x, y))
            .map(|tile| world.tile(tile).unwrap().tile)
    };
    let floor = Some(Tile { passable: Passable::Passable, kind: TileKind::Floor });
    let bar = Some(Tile { passable: Passable::Blocking, kind: TileKind::Bar });
    let back = Some(Tile { passable: Passable::Blocking, kind: TileKind::BarBack });
    let table = Some(Tile { passable: Passable::Blocking, kind: TileKind::Table });
    assert_eq!(kind_at(0, 0), None);
    assert_eq!(kind_at(1, 3), None);
    assert_eq!(kind_at(22, 3), None);
    assert_eq!(kind_at(12, 0), None);
    assert_eq!(kind_at(12, 14), None);
    assert_eq!(kind_at(2, 1), floor);
    assert_eq!(kind_at(3, 1), floor);
    assert_eq!(kind_at(4, 1), back);
    assert_eq!(kind_at(19, 1), back);
    assert_eq!(kind_at(20, 1), floor);
    assert_eq!(kind_at(12, 3), floor);
    assert_eq!(kind_at(3, 5), floor);
    assert_eq!(kind_at(4, 5), bar);
    assert_eq!(kind_at(19, 5), bar);
    assert_eq!(kind_at(21, 5), floor);
    for x in [4, 8, 16, 20] {
        assert_eq!(kind_at(x, 7), table);
    }
    assert_eq!(kind_at(12, 7), floor);
    assert_eq!(kind_at(21, 13), floor);
    assert_eq!(world.tile_count(), 20 * 13);
    assert_eq!(world.fixture_count(), 4);
    let spawner = fixture_on(&world, IVec2::new(12, 1));
    assert!(matches!(world.fixture(spawner).unwrap().fixture, Interactable::Spawner(Item::Banana)));
    let trash = fixture_on(&world, IVec2::new(6, 1));
    assert!(matches!(world.fixture(trash).unwrap().fixture, Interactable::Trash));
    let mixer = fixture_on(&world, IVec2::new(6, 5));
    assert!(matches!(world.fixture(mixer).unwrap().fixture, Interactable::Mixer(_)));
    let container = fixture_on(&world, IVec2::new(12, 5));
    assert!(matches!(world.fixture(container).unwrap().fixture, Interactable::Container(_)));
    assert!(world.tile(world.tile_map().tile_at(IVec2::new(12, 3)).unwrap()).unwrap().fixtures.is_empty());
}

#[test]
fn the_person_and_the_patron_start_on_their_tiles() {
    let mut world = World::spawn_world_tiles();
    let (person, patron) = world.spawn_player();
    assert_eq!((person, patron), (0, 1));
    assert_eq!(world.actor(person).unwrap().position, IVec3::new(0, 188, 15));
    assert_eq!(world.actor(patron).unwrap().position, IVec3::new(0, -68, 7));
    assert_eq!(tile_of(&world, person), IVec2::new(12, 3));
    assert_eq!(tile_of(&world, patron), IVec2::new(12, 11));
    assert!(world.actor(person).unwrap().user_controllable);
    assert!(world.actor(person).unwrap().npc.is_none());
    assert!(!world.actor(patron).unwrap().user_controllable);
    assert_eq!(mind(&world, patron).behavior, Behavior::Idle);
    assert!(world.actor(2).is_none());
}

#[test]
fn pickup_next_to_the_spawner_gives_a_new_banana() {
    let mut world = World::spawn_world_tiles();
    let position = world.tile_center(IVec2::new(12, 2));
    let actor = world.spawn_actor(position, None, true);
    // Face the back of the bar without leaving the tile.
    world.handle_actions(&steer(0, 1));
    world.move_player(1);
    assert_eq!(world.actor(actor).unwrap().player.heading, PlayerHeading::Up);
    assert_eq!(tile_of(&world, actor), IVec2::new(12, 2));
    world.handle_actions(&press_pick_up());
    assert!(world.actor(actor).unwrap().player.pickup_action);
    world.player_pickup();
    let player = world.actor(actor).unwrap().player;
    assert!(!player.pickup_action);
    assert_eq!(player.holding, Some(0));
    assert_eq!(
        world.item_registry().get(0),
        Some(ItemRecord { item: Item::Banana, owner: ItemOwner::Actor(actor) })
    );
    assert!(world.item_registry().visible(0));
    let spawner = fixture_on(&world, IVec2::new(12, 1));
    assert!(matches!(world.fixture(spawner).unwrap().fixture, Interactable::Spawner(Item::Banana)));
    assert_exclusive_ownership(&world);
    assert_eq!(world.position_held(), vec![(0, IVec2::new(4, 16))]);
}

#[test]
fn the_spawner_gives_again_once_the_hands_are_free() {
    let mut world = World::spawn_world_tiles();
    let position = world.tile_center(IVec2::new(6, 2));
    let actor = world.spawn_actor(position, None, true);
    let spawner = Interactable::Spawner(Item::Orange)
        .spawn(world.tile_map().tile_at(IVec2::new(6, 2)).unwrap(), &mut world)
        .unwrap();
    // On its own tile the spawner comes before the trash it faces.
    world.handle_actions(&steer(0, 1));
    world.move_player(1);
    assert_eq!(world.reachable(actor), vec![spawner, fixture_on(&world, IVec2::new(6, 1))]);
    world.handle_actions(&press_pick_up());
    world.player_pickup();
    assert_eq!(world.actor(actor).unwrap().player.holding, Some(0));
    // Holding the orange, the next press offers it: the spawner refuses, the trash takes it.
    world.handle_actions(&press_pick_up());
    world.player_pickup();
    assert_eq!(world.actor(actor).unwrap().player.holding, None);
    assert_eq!(world.item_registry().get(0), None);
    world.handle_actions(&press_pick_up());
    world.player_pickup();
    assert_eq!(world.actor(actor).unwrap().player.holding, Some(1));
    assert_eq!(
        world.item_registry().get(1),
        Some(ItemRecord { item: Item::Orange, owner: ItemOwner::Actor(actor) })
    );
    assert_exclusive_ownership(&world);
}

#[test]
fn each_of_two_actors_at_the_spawner_gets_a_banana_of_its_own() {
    let mut world = World::spawn_world_tiles();
    let place = world.tile_center(IVec2::new(12, 2));
    let first = world.spawn_actor(place, None, true);
    let second = world.spawn_actor(place, None, true);
    world.handle_actions(&steer(0, 1));
    world.move_player(1);
    world.handle_actions(&press_pick_up());
    world.player_pickup();
    for (actor, id) in [(first, 0), (second, 1)] {
        let player = world.actor(actor).unwrap().player;
        assert_eq!(player.holding, Some(id));
        assert!(!player.pickup_action);
        assert_eq!(
            world.item_registry().get(id),
            Some(ItemRecord { item: Item::Banana, owner: ItemOwner::Actor(actor) })
        );
    }
    let spawner = fixture_on(&world, IVec2::new(12, 1));
    assert!(matches!(world.fixture(spawner).unwrap().fixture, Interactable::Spawner(Item::Banana)));
    assert_exclusive_ownership(&world);
}

#[test]
fn without_the_flag_nothing_is_picked_up() {
    let mut world = World::spawn_world_tiles();
    let position = world.tile_center(IVec2::new(12, 2));
    let actor = world.spawn_actor(position, None, true);
    world.handle_actions(&steer(0, 1));
    world.move_player(1);
    world.handle_actions(&Actions { pick_up: (true, true), ..idle() });
    world.player_pickup();
    assert_eq!(world.actor(actor).unwrap().player.holding, None);
    assert_eq!(world.item_registry().len(), 0);
}

#[test]
fn pickup_out_of_reach_only_clears_the_flag() {
    let mut world = World::spawn_world_tiles();
    let position = world.tile_center(IVec2::new(12, 3));
    let actor = world.spawn_actor(position, None, true);
    world.handle_actions(&press_pick_up());
    world.player_pickup();
    let player = world.actor(actor).unwrap().player;
    assert!(!player.pickup_action);
    assert_eq!(player.holding, None);
    assert_eq!(world.item_registry().len(), 0);
    assert!(world.reachable(actor).is_empty());
}

#[test]
fn movement_within_a_tile_is_free() {
    let mut world = World::spawn_world_tiles();
    let position = world.tile_center(IVec2::new(12, 3));
    let actor = world.spawn_actor(position, None, true);
    world.handle_actions(&steer(1, 0));
    world.move_player(5);
    let moved = world.actor(actor).unwrap();
    assert_eq!(moved.position, IVec3::new(5, 188, 15));
    assert_eq!(moved.player.heading, PlayerHeading::Right);
    assert_eq!(moved.sprite_index, 3);
}

#[test]
fn a_blocking_tile_stops_the_move_but_not_the_turn() {
    let mut world = World::spawn_world_tiles();
    let position = world.tile_center(IVec2::new(12, 2));
    let actor = world.spawn_actor(position, None, true);
    world.handle_actions(&steer(0, 1));
    world.move_player(32);
    let stopped = world.actor(actor).unwrap();
    assert_eq!(stopped.position, position);
    assert_eq!(stopped.player.heading, PlayerHeading::Up);
    assert_eq!(stopped.sprite_index, 1);
}

#[test]
fn crossing_onto_floor_takes_the_layer_of_the_row() {
    let mut world = World::spawn_world_tiles();
    let position = world.tile_center(IVec2::new(12, 3));
    let actor = world.spawn_actor(position, None, true);
    world.handle_actions(&steer(0, -1));
    world.move_player(32);
    let moved = world.actor(actor).unwrap();
    assert_eq!(moved.position, IVec3::new(0, 156, 14));
    assert_eq!(tile_of(&world, actor), IVec2::new(12, 4));
    assert_eq!(moved.player.heading, PlayerHeading::Down);
}

#[test]
fn a_cell_without_a_tile_can_be_entered() {
    let mut world = World::spawn_world_tiles();
    let position = world.tile_center(IVec2::new(2, 3));
    let actor = world.spawn_actor(position, None, true);
    world.handle_actions(&steer(-1, 0));
    world.move_player(32);
    assert_eq!(tile_of(&world, actor), IVec2::new(1, 3));
    // And so can the space beyond the grid.
    world.move_player(96);
    assert_eq!(tile_of(&world, actor), IVec2::new(-1, 3));
    assert_eq!(world.tile_map().tile_at(tile_of(&world, actor)), None);
}

#[test]
fn a_diagonal_intent_covers_no_more_ground_than_a_straight_one() {
    let mut world = World::spawn_world_tiles();
    let position = world.tile_center(IVec2::new(12, 3));
    let actor = world.spawn_actor(position, None, true);
    let diagonal = unit_toward(1, -1);
    assert_eq!(diagonal, IVec2::new(707, -707));
    world.handle_actions(&Actions { player_movement: Some(diagonal), ..idle() });
    world.move_player(10);
    // 7.07 world units each way, cut to whole ones.
    assert_eq!(world.actor(actor).unwrap().position, IVec3::new(7, 181, 15));
    assert_eq!(world.actor(actor).unwrap().player.heading, PlayerHeading::Down);
}

#[test]
fn the_heading_follows_the_intent_however_short_the_way() {
    let mut world = World::spawn_world_tiles();
    let position = world.tile_center(IVec2::new(12, 3));
    let actor = world.spawn_actor(position, None, true);
    world.handle_actions(&Actions { player_movement: Some(IVec2::new(-300, 0)), ..idle() });
    world.move_player(3);
    // Nine tenths of a world unit is no whole one, but it is to the left.
    assert_eq!(world.actor(actor).unwrap().position, position);
    assert_eq!(world.actor(actor).unwrap().player.heading, PlayerHeading::Left);
    world.move_player(0);
    assert_eq!(world.actor(actor).unwrap().player.heading, PlayerHeading::Down);
}

#[test]
fn a_patron_walks_straight_to_its_goal() {
    let mut world = World::spawn_world_tiles();
    let walker = NPC { move_to: Some(IVec2::new(16, 9)), behavior: Behavior::Chat, ..NPC::default() };
    let patron = world.spawn_actor(world.tile_center(IVec2::new(12, 11)), Some(walker), false);
    world.npc_move();
    // Four columns to the right and two rows up.
    assert_eq!(world.actor(patron).unwrap().player.movement, Some(IVec2::new(894, 447)));
    for _ in 0..400 {
        world.npc_move();
        world.move_player(STEP);
        if mind(&world, patron).move_to.is_none() {
            break;
        }
    }
    assert_eq!(tile_of(&world, patron), IVec2::new(16, 9));
    assert_eq!(mind(&world, patron).move_to, None);
    assert_eq!(world.actor(patron).unwrap().player.movement, None);
}

#[test]
fn without_an_intent_the_actor_stands() {
    let mut world = World::spawn_world_tiles();
    let position = world.tile_center(IVec2::new(12, 3));
    let actor = world.spawn_actor(position, None, false);
    world.handle_actions(&steer(1, 0));
    world.move_player(5);
    let same = world.actor(actor).unwrap();
    assert_eq!(same.position, position);
    assert_eq!(same.player.movement, None);
    assert_eq!(same.player.heading, PlayerHeading::Down);
}

#[test]
fn two_actors_may_share_a_tile() {
    let mut world = World::spawn_world_tiles();
    let position = world.tile_center(IVec2::new(12, 3));
    let standing = world.spawn_actor(position, None, false);
    let walking = world.spawn_actor(world.tile_center(IVec2::new(11, 3)), None, true);
    world.handle_actions(&steer(1, 0));
    world.move_player(32);
    assert_eq!(tile_of(&world, walking), IVec2::new(12, 3));
    assert_eq!(tile_of(&world, standing), IVec2::new(12, 3));
    assert_eq!(world.actor(walking).unwrap().position, position);
}

#[test]
fn insert_outside_the_grid_leaves_the_world_alone() {
    let mut world = World::spawn_world_tiles();
    let floor = Tile { passable: Passable::Passable, kind: TileKind::Floor };
    for location in [IVec2::new(-1, 0), IVec2::new(25, 3), IVec2::new(3, 18), IVec2::new(0, -7)] {
        assert_eq!(world.insert(floor, location), None);
    }
    assert_eq!(world.tile_count(), 20 * 13);
    assert_eq!(world.fixture_count(), 4);
}

#[test]
fn a_new_tile_destroys_the_one_it_replaces_with_all_it_owns() {
    let mut world = World::spawn_world_tiles();
    let counter = IVec2::new(12, 5);
    let old_tile = world.tile_map().tile_at(counter).unwrap();
    let container = fixture_on(&world, counter);
    let on_the_tile = world.place_item(old_tile, Item::Orange).unwrap();
    let elsewhere =
        world.place_item(world.tile_map().tile_at(IVec2::new(3, 3)).unwrap(), Item::Banana).unwrap();
    // Put a banana into the container.
    let actor = world.spawn_actor(world.tile_center(IVec2::new(12, 4)), None, true);
    let in_hand = Interactable::Spawner(Item::Banana)
        .spawn(world.tile_map().tile_at(IVec2::new(12, 4)).unwrap(), &mut world)
        .unwrap();
    world.handle_actions(&steer(0, -1));
    world.move_player(1);
    world.handle_actions(&press_pick_up());
    world.player_pickup();
    let stored = world.actor(actor).unwrap().player.holding.unwrap();
    world.handle_actions(&press_pick_up());
    world.player_pickup();
    assert_eq!(
        world.item_registry().get(stored),
        Some(ItemRecord { item: Item::Banana, owner: ItemOwner::Fixture(container) })
    );
    assert_exclusive_ownership(&world);

    let floor = Tile { passable: Passable::Passable, kind: TileKind::Floor };
    let new_tile = world.insert(floor, counter).unwrap();
    assert_ne!(new_tile, old_tile);
    assert_eq!(world.tile_map().tile_at(counter), Some(new_tile));
    assert!(!world.tile(old_tile).unwrap().alive);
    assert!(world.tile(new_tile).unwrap().alive);
    assert!(world.tile(new_tile).unwrap().fixtures.is_empty());
    assert!(!world.fixture(container).unwrap().alive);
    assert!(world.fixture(in_hand).unwrap().alive);
    assert_eq!(world.item_registry().get(on_the_tile), None);
    assert_eq!(world.item_registry().get(stored), None);
    assert_eq!(
        world.item_registry().get(elsewhere).map(|record| record.item),
        Some(Item::Banana)
    );
    assert_exclusive_ownership(&world);
    // The counter is floor now, and nothing is in reach there.
    assert!(world.all_containers().is_empty());
}

#[test]
fn fixtures_and_items_need_a_standing_tile() {
    let mut world = World::spawn_world_tiles();
    assert_eq!(Interactable::Trash.spawn(9_999, &mut world), None);
    assert_eq!(world.place_item(9_999, Item::Orange), None);
    assert_eq!(world.fixture_count(), 4);
    assert_eq!(world.item_registry().len(), 0);
}

#[test]
fn containers_and_tables_are_found() {
    let world = World::spawn_world_tiles();
    let containers = world.all_containers();
    assert_eq!(containers.len(), 1);
    assert_eq!(containers[0].0, IVec2::new(12, 5));
    let tables: Vec<IVec2> = world.all_tables().iter().map(|found| found.0).collect();
    assert_eq!(
        tables,
        vec![IVec2::new(4, 7), IVec2::new(8, 7), IVec2::new(16, 7), IVec2::new(20, 7)]
    );
    assert_eq!(world.all_serving(Errand::Table).len(), 4);
    assert_eq!(World::standing_place(Errand::Counter, containers[0]), IVec2::new(12, 6));
    assert_eq!(
        World::standing_place(Errand::Table, (IVec2::new(4, 7), 0)),
        IVec2::new(4, 6)
    );
}

#[test]
fn a_thirsty_patron_heads_for_the_counter() {
    let mut world = World::spawn_world_tiles();
    let (_, patron) = world.spawn_player();
    assert_eq!(world.errand_of(patron, FRAME), Some(Errand::Counter));
    world.npc_ai(FRAME);
    let npc = mind(&world, patron);
    assert_eq!(npc.behavior, Behavior::Request(Item::Beverage(Beverage::default())));
    // There is one container, so chance has no choice.
    assert_eq!(npc.move_to, Some(IVec2::new(12, 6)));
    assert_eq!(
        world.actor(patron).unwrap().player.requesting,
        Some(Item::Beverage(Beverage::default()))
    );
    world.npc_move();
    assert_eq!(world.actor(patron).unwrap().player.movement, Some(IVec2::new(0, 1000)));
}

#[test]
fn without_a_container_the_patron_orders_and_stays() {
    let mut world = World::new(
        IVec2::new(4, 4),
        IVec2::new(16, 16),
        IVec2::new(2, 2),
        IVec3::new(0, 0, 0),
    );
    let patron = world.spawn_actor(IVec3::new(40, -40, 0), Some(NPC::default()), false);
    world.npc_ai(FRAME);
    let npc = mind(&world, patron);
    assert!(matches!(npc.behavior, Behavior::Request(_)));
    assert_eq!(npc.move_to, None);
    // With nowhere to go it has arrived, and turns to grab.
    world.npc_move();
    assert_eq!(world.actor(patron).unwrap().player.movement, None);
    world.npc_ai(FRAME);
    assert_eq!(mind(&world, patron).behavior, Behavior::Grab);
    assert_eq!(world.actor(patron).unwrap().player.heading, PlayerHeading::Up);
    world.npc_ai(FRAME);
    assert_eq!(mind(&world, patron).behavior, Behavior::Grab);
    assert!(world.actor(patron).unwrap().player.pickup_action);
}

#[test]
fn the_timer_gates_the_mind() {
    let mut world = World::spawn_world_tiles();
    let resting = NPC {
        stats: Stats::new(50 * STAT_UNIT, 0, 0),
        timer: Timer::from_millis(100),
        ..NPC::default()
    };
    let patron = world.spawn_actor(world.tile_center(IVec2::new(12, 11)), Some(resting), false);
    for remaining in [84, 68, 52, 36, 20, 4] {
        world.npc_ai(FRAME);
        let npc = mind(&world, patron);
        assert_eq!(npc.behavior, Behavior::Idle);
        assert_eq!(npc.timer.remaining(), remaining);
    }
    // The frame in which the timer runs out brings one change, and only one.
    world.npc_ai(FRAME);
    assert_eq!(mind(&world, patron).behavior, Behavior::Chat);
    assert!(!world.actor(patron).unwrap().animation.is_running());
    world.npc_ai(FRAME);
    let npc = mind(&world, patron);
    assert_eq!(npc.behavior, Behavior::Idle);
    assert_eq!(npc.timer.remaining(), 6_500);
    assert!(world.actor(patron).unwrap().animation.is_running());
    world.npc_ai(FRAME);
    assert_eq!(mind(&world, patron).behavior, Behavior::Idle);
    assert_eq!(mind(&world, patron).timer.remaining(), 6_484);
}

#[test]
fn a_given_goal_is_taken_as_it_is() {
    let mut world = World::spawn_world_tiles();
    let (_, patron) = world.spawn_player();
    world.npc_advance(patron, FRAME, Some(IVec2::new(3, 9)));
    assert_eq!(mind(&world, patron).move_to, Some(IVec2::new(3, 9)));
    // A step that sets out on no errand does not look at the goal.
    world.npc_advance(patron, FRAME, Some(IVec2::new(20, 2)));
    assert_eq!(mind(&world, patron).move_to, Some(IVec2::new(3, 9)));
    world.npc_move();
    // Nine columns to the left and two rows up: a unit vector along that way.
    assert_eq!(world.actor(patron).unwrap().player.movement, Some(IVec2::new(-976, 216)));
}

#[test]
fn a_patron_without_a_mind_is_left_alone() {
    let mut world = World::spawn_world_tiles();
    let (person, _) = world.spawn_player();
    world.npc_advance(person, FRAME, Some(IVec2::new(1, 1)));
    world.run(System::Mind(FRAME));
    world.update_npc_stats(FRAME);
    world.npc_move();
    let actor = world.actor(person).unwrap();
    assert!(actor.npc.is_none());
    assert_eq!(actor.position, IVec3::new(0, 188, 15));
    assert_eq!(world.errand_of(person, FRAME), None);
}

#[test]
fn an_evening_at_the_bar() {
    let mut world = World::spawn_world_tiles();
    let (person, patron) = world.spawn_player();

    // The patron is thirsty, orders, and walks up to the counter.
    for _ in 0..400 {
        frame(&mut world, idle());
        if mind(&world, patron).behavior == Behavior::Grab {
            break;
        }
    }
    assert_eq!(mind(&world, patron).behavior, Behavior::Grab);
    assert_eq!(tile_of(&world, patron), IVec2::new(12, 6));
    assert_eq!(world.actor(patron).unwrap().player.heading, PlayerHeading::Up);
    assert_eq!(world.actor(patron).unwrap().player.holding, None);
    assert!(world.actor(patron).unwrap().player.requesting.is_some());

    // The person fetches a banana from the back of the bar.
    walk_to(&mut world, person, IVec2::new(12, 2));
    assert_eq!(world.actor(person).unwrap().player.heading, PlayerHeading::Up);
    frame(&mut world, press_pick_up());
    let banana = world.actor(person).unwrap().player.holding.unwrap();
    assert_eq!(world.item_registry().get(banana).unwrap().item, Item::Banana);
    assert_exclusive_ownership(&world);

    // Into the mixer with it, mix, and take the drink.
    walk_to(&mut world, person, IVec2::new(6, 2));
    walk_to(&mut world, person, IVec2::new(6, 4));
    assert_eq!(world.actor(person).unwrap().player.heading, PlayerHeading::Down);
    frame(&mut world, press_pick_up());
    assert_eq!(world.actor(person).unwrap().player.holding, None);
    assert_eq!(world.item_registry().get(banana), None);
    frame(&mut world, press_interact());
    let mixer = fixture_on(&world, IVec2::new(6, 5));
    match &world.fixture(mixer).unwrap().fixture {
        Interactable::Mixer(inner) => {
            assert_eq!(inner.len(), 0);
            assert_eq!(inner.result(), Some(Item::Beverage(Beverage::default())));
        }
        _ => panic!("the mixer turned into something else"),
    }
    frame(&mut world, press_pick_up());
    let drink = world.actor(person).unwrap().player.holding.unwrap();
    assert_eq!(
        world.item_registry().get(drink).unwrap().item,
        Item::Beverage(Beverage::default())
    );
    assert_exclusive_ownership(&world);

    // Onto the counter, where the patron is waiting with its hands out.
    walk_to(&mut world, person, IVec2::new(12, 4));
    frame(&mut world, steer(0, -1));
    assert_eq!(tile_of(&world, person), IVec2::new(12, 4));
    frame(&mut world, press_pick_up());
    assert_eq!(world.actor(person).unwrap().player.holding, None);
    for _ in 0..4 {
        if world.actor(patron).unwrap().player.holding.is_some() {
            break;
        }
        frame(&mut world, idle());
    }
    assert_eq!(world.actor(patron).unwrap().player.holding, Some(drink));
    assert_eq!(
        world.item_registry().get(drink).unwrap().owner,
        ItemOwner::Actor(patron)
    );
    assert_exclusive_ownership(&world);

    // It carries the drink to a table and drinks it there.
    for _ in 0..4 {
        if mind(&world, patron).behavior == Behavior::Drink {
            break;
        }
        frame(&mut world, idle());
    }
    let npc = mind(&world, patron);
    assert_eq!(npc.behavior, Behavior::Drink);
    assert_eq!(world.actor(patron).unwrap().player.requesting, None);
    let goal = npc.move_to.unwrap();
    assert_eq!(goal.y, 6);
    assert!([4, 8, 16, 20].contains(&goal.x));
    for _ in 0..400 {
        frame(&mut world, idle());
        if mind(&world, patron).behavior == Behavior::Idle {
            break;
        }
    }
    let npc = mind(&world, patron);
    assert_eq!(npc.behavior, Behavior::Idle);
    assert_eq!(tile_of(&world, patron), goal);
    assert_eq!(npc.timer.remaining(), 3_500);
    assert_eq!(world.actor(patron).unwrap().player.holding, None);
    assert_eq!(world.item_registry().get(drink), None);
    assert!(world.actor(patron).unwrap().animation.is_running());
    assert!(npc.stats.quench >= 0);
    assert_exclusive_ownership(&world);
    assert!(world.position_held().is_empty());
}

#[test]
fn a_drink_changes_the_stats_of_the_one_who_drinks_it() {
    let mut world = World::spawn_world_tiles();
    let about_to_drink = NPC {
        stats: Stats::new(5 * STAT_UNIT, STAT_UNIT, 0),
        behavior: Behavior::Grab,
        ..NPC::default()
    };
    let here = IVec2::new(12, 6);
    let patron = world.spawn_actor(world.tile_center(here), Some(about_to_drink), false);
    // A spawner of strong drinks stands in for the container on the counter.
    let strong = Item::Beverage(Beverage {
        stats: Stats::new(40 * STAT_UNIT, 2 * STAT_UNIT, 35 * STAT_UNIT),
    });
    Interactable::Spawner(strong).spawn(world.tile_map().tile_at(here).unwrap(), &mut world);
    world.npc_ai(0);
    assert!(world.actor(patron).unwrap().player.pickup_action);
    world.player_pickup();
    let drink = world.actor(patron).unwrap().player.holding.unwrap();
    world.npc_advance(patron, 0, None);
    assert_eq!(mind(&world, patron).behavior, Behavior::Drink);
    world.npc_advance(patron, 0, None);
    let npc = mind(&world, patron);
    assert_eq!(npc.behavior, Behavior::Idle);
    assert_eq!(npc.stats, Stats::new(45 * STAT_UNIT, 3 * STAT_UNIT, 35 * STAT_UNIT));
    assert_eq!(world.item_registry().get(drink), None);
    assert_eq!(world.actor(patron).unwrap().player.holding, None);
    assert_exclusive_ownership(&world);
}

#[test]
fn a_banana_is_a_poor_drink() {
    let mut world = World::spawn_world_tiles();
    let about_to_drink = NPC {
        stats: Stats::new(20 * STAT_UNIT, 0, 10 * STAT_UNIT),
        behavior: Behavior::Grab,
        ..NPC::default()
    };
    let here = IVec2::new(12, 2);
    let patron = world.spawn_actor(world.tile_center(here), Some(about_to_drink), false);
    world.npc_advance(patron, 0, None);
    // Grabbing turns no head: the patron must face the bananas.
    world.player_pickup();
    assert_eq!(world.actor(patron).unwrap().player.holding, None);
    let facing = NPC { behavior: Behavior::Request(Item::Banana), ..about_to_drink };
    let patron = world.spawn_actor(world.tile_center(here), Some(facing), false);
    world.npc_advance(patron, 0, None);
    assert_eq!(world.actor(patron).unwrap().player.heading, PlayerHeading::Up);
    world.npc_advance(patron, 0, None);
    world.player_pickup();
    assert!(world.actor(patron).unwrap().player.holding.is_some());
    world.npc_advance(patron, 0, None);
    world.npc_advance(patron, 0, None);
    assert_eq!(
        mind(&world, patron).stats,
        Stats::new(10 * STAT_UNIT, -5 * STAT_UNIT, 7 * STAT_UNIT)
    );
    assert_exclusive_ownership(&world);
}

#[test]
fn a_frame_is_its_systems_in_order() {
    let build = || {
        let mut world = World::spawn_world_tiles();
        let resting = NPC {
            stats: Stats::new(50 * STAT_UNIT, 0, 0),
            move_to: Some(IVec2::new(12, 9)),
            behavior: Behavior::Dance,
            ..NPC::default()
        };
        let person = world.spawn_actor(world.tile_center(IVec2::new(12, 2)), None, true);
        let patron = world.spawn_actor(world.tile_center(IVec2::new(10, 9)), Some(resting), false);
        (world, person, patron)
    };
    let actions = Actions {
        player_movement: Some(IVec2::new(0, 1000)),
        pick_up: (true, false),
        interact: (false, false),
    };
    let (mut whole, person, patron) = build();
    whole.tick(&actions, 40, 3);
    let (mut stepwise, _, _) = build();
    stepwise.handle_actions(&actions);
    stepwise.update_npc_stats(40);
    stepwise.npc_move();
    stepwise.move_player(3);
    stepwise.player_pickup();
    stepwise.player_interact();
    stepwise.npc_ai(40);
    stepwise.animate_sprites(40);
    for actor in [person, patron] {
        let left = whole.actor(actor).unwrap();
        let right = stepwise.actor(actor).unwrap();
        assert_eq!(left.player, right.player);
        assert_eq!(left.npc, right.npc);
        assert_eq!(left.position, right.position);
        assert_eq!(left.sprite_index, right.sprite_index);
    }
    // The pickup came after the turn of the same frame, and found the bananas.
    assert_eq!(whole.actor(person).unwrap().player.holding, Some(0));
    assert_eq!(whole.actor(person).unwrap().player.heading, PlayerHeading::Up);
    assert_eq!(whole.actor(patron).unwrap().position.x, -61);
    assert_eq!(mind(&whole, patron).stats, Stats::new(500_000 - 200, -120, -40));
}

#[test]
fn interact_mixes_what_is_in_reach() {
    let mut world = World::spawn_world_tiles();
    let actor = world.spawn_actor(world.tile_center(IVec2::new(6, 4)), None, true);
    world.handle_actions(&steer(0, -1));
    world.move_player(1);
    world.handle_actions(&press_interact());
    world.player_interact();
    assert!(!world.actor(actor).unwrap().player.interact_action);
    let mixer = fixture_on(&world, IVec2::new(6, 5));
    match &world.fixture(mixer).unwrap().fixture {
        Interactable::Mixer(inner) => assert_eq!(inner.result(), None),
        _ => panic!("the mixer turned into something else"),
    }
    // With something in it, it mixes.
    Interactable::Spawner(Item::Orange)
        .spawn(world.tile_map().tile_at(IVec2::new(6, 4)).unwrap(), &mut world);
    world.handle_actions(&press_pick_up());
    world.player_pickup();
    world.handle_actions(&press_pick_up());
    world.player_pickup();
    assert_eq!(world.actor(actor).unwrap().player.holding, None);
    world.handle_actions(&press_interact());
    world.player_interact();
    match &world.fixture(mixer).unwrap().fixture {
        Interactable::Mixer(inner) => {
            assert_eq!(inner.result(), Some(Item::Beverage(Beverage::default())))
        }
        _ => panic!("the mixer turned into something else"),
    }
    assert_exclusive_ownership(&world);
}

#[test]
fn the_first_fixture_that_goes_along_wins() {
    let mut world = World::new(
        IVec2::new(2, 2),
        IVec2::new(16, 16),
        IVec2::new(2, 2),
        IVec3::new(0, 0, 0),
    );
    let floor = Tile { passable: Passable::Passable, kind: TileKind::Floor };
    let tile = world.insert(floor, IVec2::new(0, 0)).unwrap();
    let full = Interactable::Container(Container::new()).spawn(tile, &mut world).unwrap();
    let empty = Interactable::Container(Container::new()).spawn(tile, &mut world).unwrap();
    let trash = Interactable::Trash.spawn(tile, &mut world).unwrap();
    let source = Interactable::Spawner(Item::Orange).spawn(tile, &mut world).unwrap();
    let _mixer = Interactable::Mixer(Mixer::new()).spawn(tile, &mut world).unwrap();
    let actor = world.spawn_actor(IVec3::new(16, -16, 0), None, true);
    assert_eq!(world.reachable(actor), vec![full, empty, trash, source, 4]);
    let press = |world: &mut World| {
        world.handle_actions(&press_pick_up());
        world.player_pickup();
    };
    // Nothing is stored yet, so the spawner is the first to give.
    press(&mut world);
    assert_eq!(world.actor(actor).unwrap().player.holding, Some(0));
    // The first container takes it, not the trash behind it.
    press(&mut world);
    assert_eq!(world.item_registry().get(0).unwrap().owner, ItemOwner::Fixture(full));
    // Now the first container is the first to give.
    press(&mut world);
    assert_eq!(world.actor(actor).unwrap().player.holding, Some(0));
    assert_eq!(world.item_registry().len(), 1);
    press(&mut world);
    press(&mut world);
    press(&mut world);
    // Given back, taken again, and given back: the second container was never needed.
    assert_eq!(world.item_registry().get(0).unwrap().owner, ItemOwner::Fixture(full));
    let _ = empty;
    assert_exclusive_ownership(&world);
}
