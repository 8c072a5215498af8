//! Building a world: tiles, fixtures, items and actors are put in, a tile
//! that is replaced is destroyed with all it owns, and the tavern is
//! furnished.

use vstd::prelude::*;
use super::{
    SCALE, SCREEN_HEIGHT, SCREEN_WIDTH, TILE_PIXELS, WORLD_HEIGHT, WORLD_WIDTH,
    lemma_fixture_lists_kept, lemma_grid_kept, lemma_ownership_kept, Actor, FixtureNode, Passable, Tile, TileKind,
    TileNode, World,
};
use crate::animate::AnimationComponent;
use crate::fixture::{Container, FixtureId, FixtureState, Interactable, Mixer};
use crate::item::{Item, ItemId, ItemOwner, ItemRecord};
use crate::npc::{Behavior, NPC};
use crate::player::{Player, PlayerHeading};
use crate::tilemap::{TileId, TileMap};
use crate::vector::{add_clamped, clamp_i32, mul_clamped, IVec2, IVec3};

verus! {

/// What stands on cell `index` of the tavern. Row 1 is the back of the bar,
/// row 5 the counter, row 7 has the tables, and floor lies around them.
pub open spec fn tavern_tile(index: IVec2) -> Option<Tile> {
    if !(2 <= index.x < 22 && 1 <= index.y < 14) {
        None
    } else if index.y == 1 && 4 <= index.x < 20 {
        Some(Tile { passable: Passable::Blocking, kind: TileKind::BarBack })
    } else if index.y == 5 && 4 <= index.x < 20 {
        Some(Tile { passable: Passable::Blocking, kind: TileKind::Bar })
    } else if index.y == 7 && (index.x == 4 || index.x == 8 || index.x == 16 || index.x == 20) {
        Some(Tile { passable: Passable::Blocking, kind: TileKind::Table })
    } else {
        Some(Tile { passable: Passable::Passable, kind: TileKind::Floor })
    }
}

/// The fixture on cell `index` of the tavern: bananas and the trash at the
/// back of the bar, the mixer and the container on the counter.
pub open spec fn tavern_fixture(index: IVec2) -> Option<FixtureState> {
    if index.y == 1 && index.x == 12 {
        Some(FixtureState::Spawner(Item::Banana))
    } else if index.y == 1 && index.x == 6 {
        Some(FixtureState::Trash)
    } else if index.y == 5 && index.x == 6 {
        Some(FixtureState::Mixer { accumulated: Seq::empty(), result: None })
    } else if index.y == 5 && index.x == 12 {
        Some(FixtureState::Container { holding: None })
    } else {
        None
    }
}

fn tavern_tile_at(index: IVec2) -> (tile: Option<Tile>)
    ensures
        tile == tavern_tile(index),
{
    if !(2 <= index.x && index.x < 22 && 1 <= index.y && index.y < 14) {
        None
    } else if index.y == 1 && 4 <= index.x && index.x < 20 {
        Some(Tile { passable: Passable::Blocking, kind: TileKind::BarBack })
    } else if index.y == 5 && 4 <= index.x && index.x < 20 {
        Some(Tile { passable: Passable::Blocking, kind: TileKind::Bar })
    } else if index.y == 7 && (index.x == 4 || index.x == 8 || index.x == 16 || index.x == 20) {
        Some(Tile { passable: Passable::Blocking, kind: TileKind::Table })
    } else {
        Some(Tile { passable: Passable::Passable, kind: TileKind::Floor })
    }
}

fn tavern_fixture_at(index: IVec2) -> (fixture: Option<Interactable>)
    ensures
        fixture is Some <==> tavern_fixture(index) is Some,
        fixture matches Some(made) ==> made@ == tavern_fixture(index)->0 && made.stored() is None,
{
    if index.y == 1 && index.x == 12 {
        Some(Interactable::Spawner(Item::Banana))
    } else if index.y == 1 && index.x == 6 {
        Some(Interactable::Trash)
    } else if index.y == 5 && index.x == 6 {
        Some(Interactable::Mixer(Mixer::new()))
    } else if index.y == 5 && index.x == 12 {
        Some(Interactable::Container(Container::new()))
    } else {
        None
    }
}

impl World {
    /// Whether `slot` is the tile `tile` itself or a fixture standing on it.
    pub open spec fn slot_on_tile(&self, tile: TileId, slot: ItemOwner) -> bool {
        match slot {
            ItemOwner::Cell(on) => on == tile,
            ItemOwner::Fixture(fixture) => self.fixture_alive(fixture)
                && self.fixtures()[fixture as int].tile == tile,
            ItemOwner::Actor(_) => false,
        }
    }

    /// Whether the item `id` lies on the tile `tile` or is stored in a
    /// fixture standing on it.
    pub open spec fn item_on_tile(&self, tile: TileId, id: ItemId) -> bool {
        self.item_live(id) && self.slot_on_tile(tile, self.items().record(id).owner)
    }

    /// The world `after` has what this one has, but for the tile
    /// `destroyed`, if any, the fixtures standing on that tile, and the
    /// items that they and it own. Tiles made since are not spoken of.
    pub open spec fn contents_kept(&self, after: &World, destroyed: Option<TileId>) -> bool {
        &&& after.tiles().len() >= self.tiles().len()
        &&& forall|other: TileId|
            other < self.tiles().len() ==> {
                &&& (#[trigger] after.tiles()[other as int]).tile == self.tiles()[other as int].tile
                &&& after.tiles()[other as int].location == self.tiles()[other as int].location
                &&& after.tiles()[other as int].fixtures@ == self.tiles()[other as int].fixtures@
                &&& after.tiles()[other as int].items@ == self.tiles()[other as int].items@
                &&& after.tiles()[other as int].alive == (self.tiles()[other as int].alive && Some(
                    other,
                ) != destroyed)
            }
        &&& after.fixtures().len() == self.fixtures().len()
        &&& forall|fixture: FixtureId|
            fixture < self.fixtures().len() ==> {
                &&& (#[trigger] after.fixtures()[fixture as int]).fixture@
                    == self.fixtures()[fixture as int].fixture@
                &&& after.fixtures()[fixture as int].tile == self.fixtures()[fixture as int].tile
                &&& after.fixtures()[fixture as int].alive == (self.fixtures()[fixture as int].alive
                    && Some(self.fixtures()[fixture as int].tile) != destroyed)
            }
        &&& after.items()@.len() == self.items()@.len()
        &&& forall|id: ItemId|
            id < self.items()@.len() ==> #[trigger] after.items()@[id as int] == (if destroyed is Some
                && self.item_on_tile(destroyed->0, id) {
                None
            } else {
                self.items()@[id as int]
            })
        &&& after.actors() == self.actors()
        &&& after.animations() == self.animations()
        &&& after.spec_origin() == self.spec_origin()
    }

    fn destroy_tile(&mut self, tile: TileId)
        requires
            old(self).tile_alive(tile),
            old(self).fixtures_wf(),
            old(self).items_wf(),
            old(self).actors_wf(),
        ensures
            old(self).contents_kept(final(self), Some(tile)),
            final(self).tiles().len() == old(self).tiles().len(),
            final(self).map() == old(self).map(),
            final(self).fixtures_wf(),
            final(self).items_wf(),
            final(self).actors_wf(),
    {
        let count: usize = self.items.len();
        let mut id: usize = 0;
        while id < count
            invariant
                id <= count,
                count == old(self).items@.len(),
                self.items@.len() == count,
                self.tiles == old(self).tiles,
                self.fixtures == old(self).fixtures,
                self.actors == old(self).actors,
                self.tile_map == old(self).tile_map,
                self.origin == old(self).origin,
                self.npc_animations == old(self).npc_animations,
                forall|j: ItemId|
                    j < id ==> #[trigger] self.items@[j as int] == (if old(self).item_on_tile(
                        tile,
                        j,
                    ) {
                        None
                    } else {
                        old(self).items@[j as int]
                    }),
                forall|j: ItemId| id <= j < count ==> #[trigger] self.items@[j as int] == old(self).items@[j as int],
            decreases count - id,
        {
            match self.items.get(id) {
                Some(record) => {
                    let doomed: bool = match record.owner {
                        ItemOwner::Cell(on) => on == tile,
                        ItemOwner::Fixture(fixture) => fixture < self.fixtures.len()
                            && self.fixtures[fixture].alive && self.fixtures[fixture].tile == tile,
                        ItemOwner::Actor(_) => false,
                    };
                    if doomed {
                        self.items.despawn(id);
                    }
                },
                None => {},
            }
            id = id + 1;
        }
        let fixture_count: usize = self.fixtures.len();
        let mut fixture: usize = 0;
        while fixture < fixture_count
            invariant
                fixture <= fixture_count,
                fixture_count == old(self).fixtures@.len(),
                self.fixtures@.len() == fixture_count,
                self.tiles == old(self).tiles,
                self.actors == old(self).actors,
                self.tile_map == old(self).tile_map,
                self.origin == old(self).origin,
                self.npc_animations == old(self).npc_animations,
                self.items@.len() == old(self).items@.len(),
                forall|j: ItemId|
                    j < self.items@.len() ==> #[trigger] self.items@[j as int] == (if old(self).item_on_tile(tile, j) {
                        None
                    } else {
                        old(self).items@[j as int]
                    }),
                forall|f: FixtureId|
                    f < fixture_count ==> {
                        &&& (#[trigger] self.fixtures@[f as int]).fixture == old(self).fixtures@[f as int].fixture
                        &&& self.fixtures@[f as int].tile == old(self).fixtures@[f as int].tile
                        &&& self.fixtures@[f as int].alive == (old(self).fixtures@[f as int].alive
                            && (f >= fixture || old(self).fixtures@[f as int].tile != tile))
                    },
            decreases fixture_count - fixture,
        {
            if self.fixtures[fixture].tile == tile {
                self.fixtures[fixture].alive = false;
            }
            fixture = fixture + 1;
        }
        self.tiles[tile].alive = false;
        proof {
            lemma_ownership_kept(old(self), self);
        }
    }

    /// Stands a new tile on cell `location`. A tile that stood there is
    /// destroyed, with its fixtures and the items on it and in them. Outside
    /// the grid nothing happens.
    pub fn insert(&mut self, tile: Tile, location: IVec2) -> (placed: Option<TileId>)
        requires
            old(self).wf(),
        ensures
            final(self).wf(),
            placed is Some <==> old(self).map().in_bounds(location),
            final(self).spec_origin() == old(self).spec_origin(),
            final(self).animations() == old(self).animations(),
            !old(self).map().in_bounds(location) ==> {
                &&& final(self).map() == old(self).map()
                &&& final(self).tiles() == old(self).tiles()
                &&& final(self).fixtures() == old(self).fixtures()
                &&& final(self).items() == old(self).items()
                &&& final(self).actors() == old(self).actors()
            },
            old(self).map().in_bounds(location) ==> {
                let id = old(self).tiles().len() as usize;
                &&& placed == Some(id)
                &&& final(self).map().occupant(location) == Some(id)
                &&& forall|other: IVec2|
                    other != location ==> #[trigger] final(self).map().occupant(other) == old(self).map().occupant(other)
                &&& final(self).map().spec_size() == old(self).map().spec_size()
                &&& final(self).map().spec_tile_size() == old(self).map().spec_tile_size()
                &&& final(self).map().spec_scale() == old(self).map().spec_scale()
                &&& final(self).tiles().len() == id + 1
                &&& final(self).tiles()[id as int].tile == tile
                &&& final(self).tiles()[id as int].location == location
                &&& final(self).tiles()[id as int].alive
                &&& final(self).tiles()[id as int].fixtures@.len() == 0
                &&& final(self).tiles()[id as int].items@.len() == 0
                &&& old(self).contents_kept(final(self), old(self).map().occupant(location))
            },
    {
        if location.x < 0 || location.x >= self.tile_map.size().x {
            return None;
        }
        if location.y < 0 || location.y >= self.tile_map.size().y {
            return None;
        }
        let id: TileId = self.tiles.len();
        match self.tile_map.tile_at(location) {
            Some(displaced) => {
                self.destroy_tile(displaced);
            },
            None => {},
        }
        let ghost middle = *self;
        self.tile_map.insert(id, location);
        self.tiles.push(
            TileNode { tile, location, alive: true, fixtures: Vec::new(), items: Vec::new() },
        );
        proof {
            let before = old(self);
            assert(before.tiles().len() == id);
            assert forall|other: TileId| before.tile_alive(other) && middle.tile_alive(
                other,
            ) implies before.tiles()[other as int].location != location by {
                assert(before.map().occupant(before.tiles()[other as int].location) == Some(other));
            }
            assert forall|index: IVec2| (#[trigger] self.map().occupant(index)) is Some implies {
                let t = self.map().occupant(index)->0;
                self.tile_alive(t) && self.tiles()[t as int].location == index
            } by {
                if index != location {
                    assert(before.map().occupant(index) == self.map().occupant(index));
                }
            }
            assert forall|t: TileId| #[trigger] self.tile_alive(t) implies self.map().occupant(
                self.tiles()[t as int].location,
            ) == Some(t) by {
                if t != id {
                    assert(middle.tile_alive(t));
                    assert(before.tile_alive(t));
                }
            }
            assert forall|t: TileId, k: int|
                self.tile_alive(t) && 0 <= k < self.tiles()[t as int].fixtures@.len() implies {
                let fixture = #[trigger] self.tiles()[t as int].fixtures@[k];
                self.fixture_alive(fixture) && self.fixtures()[fixture as int].tile == t
            } by {
                assert(middle.tile_alive(t));
                let fixture = middle.tiles()[t as int].fixtures@[k];
            }
            lemma_ownership_kept(&middle, self);
        }
        Some(id)
    }

    /// Lays a new item of kind `item` on the tile `tile`. Nothing happens
    /// where `tile` names no standing tile.
    pub fn place_item(&mut self, tile: TileId, item: Item) -> (placed: Option<ItemId>)
        requires
            old(self).wf(),
        ensures
            final(self).wf(),
            final(self).spec_origin() == old(self).spec_origin(),
            final(self).animations() == old(self).animations(),
            placed is Some <==> old(self).tile_alive(tile),
            final(self).map() == old(self).map(),
            final(self).fixtures() == old(self).fixtures(),
            final(self).actors() == old(self).actors(),
            final(self).tiles().len() == old(self).tiles().len(),
            !old(self).tile_alive(tile) ==> final(self).tiles() == old(self).tiles()
                && final(self).items() == old(self).items(),
            old(self).tile_alive(tile) ==> {
                let id = old(self).items()@.len() as usize;
                &&& placed == Some(id)
                &&& final(self).items()@ == old(self).items()@.push(
                    Some(ItemRecord { item, owner: ItemOwner::Cell(tile) }),
                )
                &&& final(self).tiles()[tile as int].items@ == old(self).tiles()[tile as int].items@.push(id)
                &&& final(self).tiles()[tile as int].fixtures@ == old(self).tiles()[tile as int].fixtures@
                &&& final(self).tiles()[tile as int].tile == old(self).tiles()[tile as int].tile
                &&& final(self).tiles()[tile as int].location == old(self).tiles()[tile as int].location
                &&& final(self).tiles()[tile as int].alive
                &&& forall|other: TileId|
                    other < old(self).tiles().len() && other != tile ==> #[trigger] final(self).tiles()[other as int] == old(self).tiles()[other as int]
            },
    {
        if tile >= self.tiles.len() || !self.tiles[tile].alive {
            return None;
        }
        let id: ItemId = item.spawn(tile, &mut self.items);
        self.tiles[tile].items.push(id);
        proof {
            let before = old(self);
            lemma_grid_kept(before, self);
            lemma_fixture_lists_kept(before, self);
            assert forall|slot: ItemOwner, held: ItemId| #[trigger] self.holds(slot, held) implies {
                self.item_live(held) && self.items().record(held).owner == slot
            } by {
                if held == id {
                    if slot != ItemOwner::Cell(tile) {
                        assert(before.holds(slot, held));
                    }
                } else {
                    match slot {
                        ItemOwner::Cell(t) => {
                            if t == tile {
                                let k = choose|k: int|
                                    0 <= k < self.tiles()[t as int].items@.len()
                                        && self.tiles()[t as int].items@[k] == held;
                                assert(before.tiles()[t as int].items@[k] == held);
                            }
                            assert(before.holds(slot, held));
                        },
                        _ => {
                            assert(before.holds(slot, held));
                        },
                    }
                }
            }
            assert forall|held: ItemId| #[trigger] self.item_live(held) implies self.holds(
                self.items().record(held).owner,
                held,
            ) by {
                if held == id {
                    assert(self.tiles()[tile as int].items@[before.tiles()[tile as int].items@.len() as int]
                        == id);
                } else {
                    assert(before.item_live(held));
                    let slot = before.items().record(held).owner;
                    assert(before.holds(slot, held));
                    match slot {
                        ItemOwner::Cell(t) => {
                            if t == tile {
                                let k = choose|k: int|
                                    0 <= k < before.tiles()[t as int].items@.len()
                                        && before.tiles()[t as int].items@[k] == held;
                                assert(self.tiles()[t as int].items@[k] == held);
                            }
                        },
                        _ => {},
                    }
                }
            }
        }
        Some(id)
    }

    /// Adds an actor standing at `position`, holding nothing. With `npc` it
    /// steers itself; `user_controllable` puts it under the input devices.
    pub fn spawn_actor(&mut self, position: IVec3, npc: Option<NPC>, user_controllable: bool) -> (actor:
        usize)
        requires
            old(self).wf(),
        ensures
            final(self).wf(),
            final(self).spec_origin() == old(self).spec_origin(),
            final(self).animations() == old(self).animations(),
            actor == old(self).actors().len(),
            final(self).actors().len() == actor + 1,
            forall|other: int|
                0 <= other < actor ==> #[trigger] final(self).actors()[other] == old(self).actors()[other],
            final(self).actors()[actor as int].player == (Player {
                movement: None,
                holding: None,
                requesting: None,
                heading: PlayerHeading::Down,
                pickup_action: false,
                interact_action: false,
            }),
            final(self).actors()[actor as int].npc == npc,
            final(self).actors()[actor as int].position == position,
            final(self).actors()[actor as int].animation@ is None,
            final(self).actors()[actor as int].sprite_index == 0,
            final(self).actors()[actor as int].user_controllable == user_controllable,
            final(self).map() == old(self).map(),
            final(self).tiles() == old(self).tiles(),
            final(self).fixtures() == old(self).fixtures(),
            final(self).items() == old(self).items(),
    {
        let actor: usize = self.actors.len();
        self.actors.push(
            Actor {
                player: Player::default(),
                npc,
                position,
                animation: AnimationComponent::default(),
                sprite_index: 0,
                user_controllable,
            },
        );
        proof {
            let before = old(self);
            lemma_grid_kept(before, self);
            lemma_fixture_lists_kept(before, self);
            lemma_ownership_kept(before, self);
        }
        actor
    }

    /// Whether cell `index` is as the tavern has it: the tile, and on it
    /// the one fixture or none.
    pub open spec fn furnished(&self, index: IVec2) -> bool {
        match tavern_tile(index) {
            None => self.map().occupant(index) is None,
            Some(tile) => {
                &&& self.map().occupant(index) matches Some(id)
                &&& self.tiles()[id as int].tile == tile
                &&& self.tiles()[id as int].items@.len() == 0
                &&& match tavern_fixture(index) {
                    None => self.fixtures_at(index).len() == 0,
                    Some(state) => self.fixtures_at(index).len() == 1 && self.fixture_state(
                        self.fixtures_at(index)[0],
                    ) == state,
                }
            },
        }
    }

    /// The tavern: the grid of 25 by 18 tiles, translated by half the
    /// screen so that its top-left corner lies at the screen's, furnished,
    /// with no item and no actor yet.
    pub fn spawn_world_tiles() -> (world: World)
        ensures
            world.wf(),
            world.map().spec_size() == (IVec2 { x: WORLD_WIDTH, y: WORLD_HEIGHT }),
            world.map().spec_tile_size() == (IVec2 { x: TILE_PIXELS, y: TILE_PIXELS }),
            world.map().spec_scale() == (IVec2 { x: SCALE, y: SCALE }),
            world.spec_origin() == (IVec3 { x: -400i32, y: -300i32, z: 0 }),
            world.items()@.len() == 0,
            world.actors().len() == 0,
            forall|index: IVec2| #[trigger] world.furnished(index),
    {
        let mut world = World::new(
            IVec2 { x: WORLD_WIDTH, y: WORLD_HEIGHT },
            IVec2 { x: TILE_PIXELS, y: TILE_PIXELS },
            IVec2 { x: SCALE, y: SCALE },
            IVec3 { x: -SCREEN_WIDTH / 2, y: -SCREEN_HEIGHT / 2, z: 0 },
        );
        let mut y: i32 = 0;
        while y < WORLD_HEIGHT
            invariant
                0 <= y <= WORLD_HEIGHT,
                world.wf(),
                world.map().spec_size() == (IVec2 { x: WORLD_WIDTH, y: WORLD_HEIGHT }),
                world.map().spec_tile_size() == (IVec2 { x: TILE_PIXELS, y: TILE_PIXELS }),
                world.map().spec_scale() == (IVec2 { x: SCALE, y: SCALE }),
                world.spec_origin() == (IVec3 { x: -400i32, y: -300i32, z: 0 }),
                world.items()@.len() == 0,
                world.actors().len() == 0,
                forall|index: IVec2| index.y < y ==> #[trigger] world.furnished(index),
                forall|index: IVec2| index.y >= y ==> #[trigger] world.map().occupant(index) is None,
            decreases WORLD_HEIGHT - y,
        {
            let mut x: i32 = 0;
            while x < WORLD_WIDTH
                invariant
                    0 <= y < WORLD_HEIGHT,
                    0 <= x <= WORLD_WIDTH,
                    world.wf(),
                    world.map().spec_size() == (IVec2 { x: WORLD_WIDTH, y: WORLD_HEIGHT }),
                    world.map().spec_tile_size() == (IVec2 { x: TILE_PIXELS, y: TILE_PIXELS }),
                    world.map().spec_scale() == (IVec2 { x: SCALE, y: SCALE }),
                    world.spec_origin() == (IVec3 { x: -400i32, y: -300i32, z: 0 }),
                    world.items()@.len() == 0,
                    world.actors().len() == 0,
                    forall|index: IVec2|
                        index.y < y || (index.y == y && index.x < x) ==> #[trigger] world.furnished(
                            index,
                        ),
                    forall|index: IVec2|
                        index.y > y || (index.y == y && index.x >= x)
                            ==> #[trigger] world.map().occupant(index) is None,
                decreases WORLD_WIDTH - x,
            {
                let position: IVec2 = IVec2 { x, y };
                let ghost before = world;
                match tavern_tile_at(position) {
                    None => {},
                    Some(tile) => {
                        let placed: Option<TileId> = world.insert(tile, position);
                        let ghost bare = world;
                        match tavern_fixture_at(position) {
                            None => {},
                            Some(fixture) => {
                                fixture.spawn(placed.unwrap(), &mut world);
                            },
                        }
                        proof {
                            assert forall|index: IVec2|
                                index.y < y || (index.y == y && index.x < x) implies #[trigger] world.furnished(
                                index,
                            ) by {
                                assert(before.furnished(index));
                                assert(bare.map().occupant(index) == before.map().occupant(index));
                                if tavern_tile(index) is Some {
                                    let id = before.map().occupant(index)->0;
                                    assert(before.tile_alive(id));
                                    assert(bare.tiles()[id as int].fixtures@
                                        == before.tiles()[id as int].fixtures@);
                                    if before.fixtures_at(index).len() == 1 {
                                        let listed = before.tiles()[id as int].fixtures@[0];
                                        assert(before.fixture_alive(listed));
                                        assert(bare.fixtures()[listed as int].fixture@
                                            == before.fixtures()[listed as int].fixture@);
                                    }
                                }
                            }
                            before.lemma_counts_fit();
                            bare.lemma_counts_fit();
                            assert(world.furnished(position));
                        }
                    },
                }
                x = x + 1;
            }
            y = y + 1;
        }
        world
    }

    /// The middle of cell `index`, in world space, on the layer of its row.
    pub open spec fn spec_tile_center(&self, index: IVec2) -> IVec3 {
        let width = self.map().spec_tile_size().x * self.map().spec_scale().x;
        let height = self.map().spec_tile_size().y * self.map().spec_scale().y;
        TileMap::spec_to_camera_space(
            self.spec_origin(),
            IVec3 {
                x: clamp_i32(clamp_i32(index.x * clamp_i32(width)) + clamp_i32(width) / 2) as i32,
                y: clamp_i32(clamp_i32(index.y * clamp_i32(height)) + clamp_i32(height) / 2) as i32,
                z: self.map().spec_tile_z(index) as i32,
            },
        )
    }

    /// The middle of cell `index`, in world space, on the layer of its row.
    pub fn tile_center(&self, index: IVec2) -> (center: IVec3)
        requires
            self.wf(),
        ensures
            center == self.spec_tile_center(index),
    {
        let width: i32 = mul_clamped(self.tile_map.tile_size().x, self.tile_map.scale().x);
        let height: i32 = mul_clamped(self.tile_map.tile_size().y, self.tile_map.scale().y);
        assert(width > 0 && height > 0) by (nonlinear_arith)
            requires
                self.map().spec_tile_size().x > 0,
                self.map().spec_scale().x > 0,
                self.map().spec_tile_size().y > 0,
                self.map().spec_scale().y > 0,
                width == clamp_i32(self.map().spec_tile_size().x * self.map().spec_scale().x),
                height == clamp_i32(self.map().spec_tile_size().y * self.map().spec_scale().y),
        ;
        self.tile_map.to_camera_space(
            self.origin,
            IVec3 {
                x: add_clamped(mul_clamped(index.x, width), width / 2),
                y: add_clamped(mul_clamped(index.y, height), height / 2),
                z: self.tile_map.tile_z(&index),
            },
        )
    }

    /// Adds the person's actor and one patron, each in the middle of its
    /// starting tile: the person behind the counter, the patron on the
    /// floor before it.
    pub fn spawn_player(&mut self) -> (spawned: (usize, usize))
        requires
            old(self).wf(),
        ensures
            final(self).wf(),
            spawned.0 == old(self).actors().len(),
            spawned.1 == old(self).actors().len() + 1,
            final(self).actors().len() == old(self).actors().len() + 2,
            forall|other: int|
                0 <= other < old(self).actors().len() ==> #[trigger] final(self).actors()[other]
                    == old(self).actors()[other],
            final(self).actors()[spawned.0 as int].user_controllable,
            final(self).actors()[spawned.0 as int].npc is None,
            final(self).actors()[spawned.0 as int].position == old(self).spec_tile_center(
                IVec2 { x: 12, y: 3 },
            ),
            final(self).actors()[spawned.0 as int].player.holding is None,
            !final(self).actors()[spawned.1 as int].user_controllable,
            final(self).actors()[spawned.1 as int].npc matches Some(npc) && npc.behavior
                == Behavior::Idle && npc.move_to is None && npc.timer.spec_remaining() == 0
                && npc.stats == (crate::item::Stats { quench: 0, mood: 0, drunk: 0 }),
            final(self).actors()[spawned.1 as int].position == old(self).spec_tile_center(
                IVec2 { x: 12, y: 11 },
            ),
            final(self).actors()[spawned.1 as int].player.holding is None,
            final(self).map() == old(self).map(),
            final(self).tiles() == old(self).tiles(),
            final(self).fixtures() == old(self).fixtures(),
            final(self).items() == old(self).items(),
    {
        let position: IVec3 = self.tile_center(IVec2 { x: 12, y: 3 });
        let person: usize = self.spawn_actor(position, None, true);
        let position: IVec3 = self.tile_center(IVec2 { x: 12, y: 11 });
        let patron: usize = self.spawn_actor(position, Some(NPC::default()), false);
        (person, patron)
    }
}

impl Interactable {
    /// Stands this fixture on the tile `tile` of `world`, behind the
    /// fixtures already on it. A container must come empty. Nothing happens
    /// where `tile` names no standing tile.
    pub fn spawn(self, tile: TileId, world: &mut World) -> (added: Option<FixtureId>)
        requires
            old(world).wf(),
            self.stored() is None,
        ensures
            final(world).wf(),
            final(world).spec_origin() == old(world).spec_origin(),
            final(world).animations() == old(world).animations(),
            added is Some <==> old(world).tile_alive(tile),
            final(world).map() == old(world).map(),
            final(world).items() == old(world).items(),
            final(world).actors() == old(world).actors(),
            final(world).tiles().len() == old(world).tiles().len(),
            !old(world).tile_alive(tile) ==> final(world).tiles() == old(world).tiles()
                && final(world).fixtures() == old(world).fixtures(),
            old(world).tile_alive(tile) ==> {
                let id = old(world).fixtures().len() as usize;
                &&& added == Some(id)
                &&& final(world).fixtures() == old(world).fixtures().push(
                    FixtureNode { fixture: self, tile, alive: true },
                )
                &&& final(world).tiles()[tile as int].fixtures@ == old(world).tiles()[tile as int].fixtures@.push(id)
                &&& final(world).tiles()[tile as int].items@ == old(world).tiles()[tile as int].items@
                &&& final(world).tiles()[tile as int].tile == old(world).tiles()[tile as int].tile
                &&& final(world).tiles()[tile as int].location == old(world).tiles()[tile as int].location
                &&& final(world).tiles()[tile as int].alive
                &&& forall|other: TileId|
                    other < old(world).tiles().len() && other != tile ==> #[trigger] final(world).tiles()[other as int] == old(world).tiles()[other as int]
            },
    {
        if tile >= world.tiles.len() || !world.tiles[tile].alive {
            return None;
        }
        let id: FixtureId = world.fixtures.len();
        world.fixtures.push(FixtureNode { fixture: self, tile, alive: true });
        world.tiles[tile].fixtures.push(id);
        proof {
            let before = old(world);
            assert forall|t: TileId, k: int|
                world.tile_alive(t) && 0 <= k < world.tiles()[t as int].fixtures@.len() implies {
                let listed = #[trigger] world.tiles()[t as int].fixtures@[k];
                world.fixture_alive(listed) && world.fixtures()[listed as int].tile == t
            } by {
                assert(before.tile_alive(t));
                if t != tile || k < before.tiles()[t as int].fixtures@.len() {
                    let listed = before.tiles()[t as int].fixtures@[k];
                    assert(before.fixture_alive(listed));
                }
            }
            lemma_grid_kept(before, world);
            lemma_ownership_kept(before, world);
        }
        Some(id)
    }
}

} // verus!
