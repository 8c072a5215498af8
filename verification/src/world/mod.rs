//! The world: the grid with its tiles, the fixtures that stand on them, the
//! items, and the actors. Every item has exactly one owner, and every
//! operation here keeps it so.
//!
//! This file holds the state and what it means to be in order. The
//! operations stand beside it: [`furnish`] builds a world, [`movement`]
//! takes the input and moves the actors, [`interaction`] resolves the
//! pickup and interact actions, [`behavior`] runs the patrons' minds, and
//! [`frame`] puts one frame together.

use vstd::prelude::*;
use crate::animate::{AnimationComponent, Playback};
use crate::fixture::{FixtureId, FixtureState, Interactable};
use crate::item::{ItemId, ItemOwner, ItemRegistry};
use crate::npc::{NPCAnimations, NPC};
use crate::player::Player;
use crate::tilemap::{TileId, TileMap};
use crate::vector::{IVec2, IVec3};

pub mod furnish;
pub mod interaction;
pub mod movement;
pub mod behavior;
pub mod frame;

verus! {

/// The tavern's grid, in tiles.
pub const WORLD_WIDTH: i32 = 25;

pub const WORLD_HEIGHT: i32 = 18;

/// The side of a tile, in pixels.
pub const TILE_PIXELS: i32 = 16;

/// World units per pixel.
pub const SCALE: i32 = 2;

/// The screen, in world units. The world's origin lies at its centre, and
/// the grid is translated by half of it each way.
pub const SCREEN_WIDTH: i32 = 800;

pub const SCREEN_HEIGHT: i32 = 600;

#[derive(Clone, Copy, Debug, PartialEq, Eq, Structural)]
pub enum Passable {
    Passable,
    Blocking,
}

impl Default for Passable {
    fn default() -> (passable: Passable)
        ensures
            passable == Passable::Passable,
    {
        Passable::Passable
    }
}

/// What a tile is made of. Patrons drink at tables.
#[derive(Clone, Copy, Debug, PartialEq, Eq, Structural)]
pub enum TileKind {
    Floor,
    Bar,
    BarBack,
    Table,
}

#[derive(Clone, Copy, Debug, PartialEq, Eq, Structural)]
pub struct Tile {
    pub passable: Passable,
    pub kind: TileKind,
}

/// A tile as the world keeps it: where it stands, the fixtures on it in the
/// order in which they are tried, and the items lying on it.
pub struct TileNode {
    pub tile: Tile,
    pub location: IVec2,
    /// False once another tile took this one's cell.
    pub alive: bool,
    pub fixtures: Vec<FixtureId>,
    pub items: Vec<ItemId>,
}

/// A fixture as the world keeps it, with the tile it stands on.
pub struct FixtureNode {
    pub fixture: Interactable,
    pub tile: TileId,
    /// False once the tile under it was destroyed.
    pub alive: bool,
}

pub struct Actor {
    pub player: Player,
    /// The patron's mind, for an actor that steers itself.
    pub npc: Option<NPC>,
    pub position: IVec3,
    pub animation: AnimationComponent,
    pub sprite_index: usize,
    /// Whether the input devices steer this actor.
    pub user_controllable: bool,
}

/// An actor as the contracts see it: all of it, with the animation as
/// what is playing.
pub struct ActorView {
    pub player: Player,
    pub npc: Option<NPC>,
    pub position: IVec3,
    pub playback: Option<Playback>,
    pub sprite_index: usize,
    pub user_controllable: bool,
}

impl View for Actor {
    type V = ActorView;

    open spec fn view(&self) -> ActorView {
        ActorView {
            player: self.player,
            npc: self.npc,
            position: self.position,
            playback: self.animation@,
            sprite_index: self.sprite_index,
            user_controllable: self.user_controllable,
        }
    }
}

/// What a patron goes looking for.
#[derive(Clone, Copy, Debug, PartialEq, Eq, Structural)]
pub enum Errand {
    /// A container to order at.
    Counter,
    /// A table to drink at.
    Table,
}

/// The systems that go through the actors one after another, each actor
/// seeing what the ones before it did.
#[derive(Clone, Copy, Debug, PartialEq, Eq, Structural)]
pub enum System {
    /// The pickup actions.
    Pickup,
    /// The interact actions.
    Interact,
    /// The patrons' minds, given this many milliseconds.
    Mind(u64),
}

pub struct World {
    tile_map: TileMap,
    /// The translation of the grid in the world.
    origin: IVec3,
    tiles: Vec<TileNode>,
    fixtures: Vec<FixtureNode>,
    items: ItemRegistry,
    actors: Vec<Actor>,
    npc_animations: NPCAnimations,
}

impl World {
    pub closed spec fn map(&self) -> TileMap {
        self.tile_map
    }

    pub closed spec fn spec_origin(&self) -> IVec3 {
        self.origin
    }

    pub closed spec fn tiles(&self) -> Seq<TileNode> {
        self.tiles@
    }

    pub closed spec fn fixtures(&self) -> Seq<FixtureNode> {
        self.fixtures@
    }

    pub closed spec fn items(&self) -> ItemRegistry {
        self.items
    }

    pub closed spec fn actors(&self) -> Seq<Actor> {
        self.actors@
    }

    pub closed spec fn animations(&self) -> NPCAnimations {
        self.npc_animations
    }

    /// Every table of the world is small enough for its handles.
    pub proof fn lemma_counts_fit(&self)
        ensures
            self.tiles().len() <= usize::MAX,
            self.fixtures().len() <= usize::MAX,
            self.actors().len() <= usize::MAX,
            self.items()@.len() <= usize::MAX,
    {
        assert(self.tiles.len() == self.tiles@.len());
        assert(self.fixtures.len() == self.fixtures@.len());
        assert(self.actors.len() == self.actors@.len());
        self.items.lemma_count_fits();
    }

    /// Whether `tile` names a tile that stands on the grid.
    pub open spec fn tile_alive(&self, tile: TileId) -> bool {
        tile < self.tiles().len() && self.tiles()[tile as int].alive
    }

    /// Whether `fixture` names a fixture that exists.
    pub open spec fn fixture_alive(&self, fixture: FixtureId) -> bool {
        fixture < self.fixtures().len() && self.fixtures()[fixture as int].alive
    }

    /// The state of a fixture that exists.
    pub open spec fn fixture_state(&self, fixture: FixtureId) -> FixtureState
        recommends
            self.fixture_alive(fixture),
    {
        self.fixtures()[fixture as int].fixture@
    }

    /// The fixtures on the tile that occupies cell `index`, in the order in
    /// which they are tried; none where no tile stands.
    pub open spec fn fixtures_at(&self, index: IVec2) -> Seq<FixtureId> {
        match self.map().occupant(index) {
            Some(tile) => self.tiles()[tile as int].fixtures@,
            None => Seq::empty(),
        }
    }

    /// Whether the slot `slot` holds the item `id`: a tile with the item
    /// lying on it, an actor holding it, or a fixture storing it.
    pub open spec fn holds(&self, slot: ItemOwner, id: ItemId) -> bool {
        match slot {
            ItemOwner::Cell(tile) => self.tile_alive(tile) && self.tiles()[tile as int].items@.contains(
                id,
            ),
            ItemOwner::Actor(actor) => actor < self.actors().len()
                && self.actors()[actor as int].player.holding == Some(id),
            ItemOwner::Fixture(fixture) => self.fixture_alive(fixture)
                && self.fixtures()[fixture as int].fixture.stored() == Some(id),
        }
    }

    /// Whether `id` names an item that exists.
    pub open spec fn item_live(&self, id: ItemId) -> bool {
        self.items().live(id)
    }

    /// The grid and the table of tiles agree: each occupied cell names a
    /// standing tile that knows its cell, and each standing tile occupies
    /// the cell it knows.
    pub open spec fn grid_wf(&self) -> bool {
        &&& self.map().wf()
        &&& forall|index: IVec2|
            (#[trigger] self.map().occupant(index)) matches Some(tile) ==> self.tile_alive(tile)
                && self.tiles()[tile as int].location == index
        &&& forall|tile: TileId| #[trigger]
            self.tile_alive(tile) ==> self.map().occupant(self.tiles()[tile as int].location)
                == Some(tile)
    }

    /// Each fixture listed on a standing tile exists and stands on that
    /// tile.
    pub open spec fn fixtures_wf(&self) -> bool {
        forall|tile: TileId, k: int|
            self.tile_alive(tile) && 0 <= k < self.tiles()[tile as int].fixtures@.len() ==> {
                let fixture = #[trigger] self.tiles()[tile as int].fixtures@[k];
                self.fixture_alive(fixture) && self.fixtures()[fixture as int].tile == tile
            }
    }

    /// Ownership is exclusive: what a slot holds is an existing item that
    /// names that slot as its owner, and each existing item is held by the
    /// slot it names.
    pub open spec fn items_wf(&self) -> bool {
        &&& forall|slot: ItemOwner, id: ItemId| #[trigger]
            self.holds(slot, id) ==> self.item_live(id) && self.items().record(id).owner == slot
        &&& forall|id: ItemId| #[trigger]
            self.item_live(id) ==> self.holds(self.items().record(id).owner, id)
    }

    /// The animations are in order.
    pub open spec fn actors_wf(&self) -> bool {
        &&& self.animations().wf()
        &&& forall|actor: int|
            0 <= actor < self.actors().len() ==> (#[trigger] self.actors()[actor]).animation.wf()
    }

    /// What every operation of the world keeps true.
    pub open spec fn wf(&self) -> bool {
        &&& self.grid_wf()
        &&& self.fixtures_wf()
        &&& self.items_wf()
        &&& self.actors_wf()
    }

    /// An empty world: a grid of `size` tiles with the translation `origin`,
    /// with no tile, fixture, item or actor.
    pub fn new(size: IVec2, tile_size: IVec2, scale: IVec2, origin: IVec3) -> (world: Self)
        requires
            TileMap::valid_dimensions(size, tile_size, scale),
        ensures
            world.wf(),
            world.map().spec_size() == size,
            world.map().spec_tile_size() == tile_size,
            world.map().spec_scale() == scale,
            world.spec_origin() == origin,
            world.tiles().len() == 0,
            world.fixtures().len() == 0,
            world.items()@.len() == 0,
            world.actors().len() == 0,
            forall|index: IVec2| world.map().occupant(index) is None,
    {
        let tile_map = TileMap::new(size, tile_size, scale);
        proof {
            assert forall|index: IVec2| tile_map.occupant(index) is None by {
                if tile_map.in_bounds(index) {
                    tile_map.lemma_cell_index_in_range(index);
                }
            }
        }
        World {
            tile_map,
            origin,
            tiles: Vec::new(),
            fixtures: Vec::new(),
            items: ItemRegistry::new(),
            actors: Vec::new(),
            npc_animations: NPCAnimations::new(),
        }
    }

    pub fn tile_map(&self) -> (map: &TileMap)
        ensures
            *map == self.map(),
    {
        &self.tile_map
    }

    #[verifier::when_used_as_spec(spec_origin)]
    pub fn origin(&self) -> (origin: IVec3)
        ensures
            origin == self.spec_origin(),
    {
        self.origin
    }

    pub fn item_registry(&self) -> (items: &ItemRegistry)
        ensures
            *items == self.items(),
    {
        &self.items
    }

    pub fn actor_count(&self) -> (n: usize)
        ensures
            n == self.actors().len(),
    {
        self.actors.len()
    }

    pub fn actor(&self, actor: usize) -> (found: Option<&Actor>)
        ensures
            actor < self.actors().len() ==> found == Some(&self.actors()[actor as int]),
            actor >= self.actors().len() ==> found is None,
    {
        if actor < self.actors.len() {
            Some(&self.actors[actor])
        } else {
            None
        }
    }

    pub fn tile_count(&self) -> (n: usize)
        ensures
            n == self.tiles().len(),
    {
        self.tiles.len()
    }

    pub fn tile(&self, tile: TileId) -> (found: Option<&TileNode>)
        ensures
            tile < self.tiles().len() ==> found == Some(&self.tiles()[tile as int]),
            tile >= self.tiles().len() ==> found is None,
    {
        if tile < self.tiles.len() {
            Some(&self.tiles[tile])
        } else {
            None
        }
    }

    pub fn fixture_count(&self) -> (n: usize)
        ensures
            n == self.fixtures().len(),
    {
        self.fixtures.len()
    }

    pub fn fixture(&self, fixture: FixtureId) -> (found: Option<&FixtureNode>)
        ensures
            fixture < self.fixtures().len() ==> found == Some(&self.fixtures()[fixture as int]),
            fixture >= self.fixtures().len() ==> found is None,
    {
        if fixture < self.fixtures.len() {
            Some(&self.fixtures[fixture])
        } else {
            None
        }
    }

    /// The tile that the actor stands on.
    pub open spec fn here(&self, actor: int) -> IVec2 {
        self.map().spec_camera_to_tile(self.spec_origin(), self.actors()[actor].position)
    }

    /// `after` is this world with nothing changed but the player part of
    /// the actor `actor`, which is `player`.
    pub open spec fn only_player_changed(&self, after: &World, actor: int, player: Player) -> bool {
        self.only_actor_changed(
            after,
            actor,
            Actor {
                player,
                npc: self.actors()[actor].npc,
                position: self.actors()[actor].position,
                animation: self.actors()[actor].animation,
                sprite_index: self.actors()[actor].sprite_index,
                user_controllable: self.actors()[actor].user_controllable,
            },
        )
    }

    /// `after` differs from this world in its actors at most, and has as
    /// many.
    pub open spec fn only_actors_changed(&self, after: &World) -> bool {
        &&& after.map() == self.map()
        &&& after.spec_origin() == self.spec_origin()
        &&& after.tiles() == self.tiles()
        &&& after.fixtures() == self.fixtures()
        &&& after.items() == self.items()
        &&& after.animations() == self.animations()
        &&& after.actors().len() == self.actors().len()
    }

    /// `after` is this world with nothing changed but the actor `actor`,
    /// which is `changed`.
    pub open spec fn only_actor_changed(&self, after: &World, actor: int, changed: Actor) -> bool {
        &&& after.map() == self.map()
        &&& after.spec_origin() == self.spec_origin()
        &&& after.tiles() == self.tiles()
        &&& after.fixtures() == self.fixtures()
        &&& after.items() == self.items()
        &&& after.animations() == self.animations()
        &&& after.actors() == self.actors().update(actor, changed)
    }

    /// A change to one actor that leaves its holding slot alone keeps the
    /// world in order.
    proof fn lemma_actor_only(&self, after: &World, actor: usize)
        requires
            self.wf(),
            actor < self.actors().len(),
            self.only_actor_changed(after, actor as int, after.actors()[actor as int]),
            after.actors()[actor as int].player.holding == self.actors()[actor as int].player.holding,
            after.actors()[actor as int].animation.wf(),
        ensures
            after.wf(),
    {
        lemma_grid_kept(self, after);
        lemma_fixture_lists_kept(self, after);
        lemma_ownership_kept(self, after);
    }
}

/// Ownership exclusivity: in a well-formed world each existing item is
/// held by exactly one slot, the one its record names.
pub proof fn lemma_exactly_one_owner(world: &World, id: ItemId)
    requires
        world.wf(),
        world.item_live(id),
    ensures
        world.holds(world.items().record(id).owner, id),
        forall|slot: ItemOwner| world.holds(slot, id) ==> slot == world.items().record(id).owner,
{
}

/// A slot holds nothing but existing items.
pub proof fn lemma_held_items_exist(world: &World, slot: ItemOwner, id: ItemId)
    requires
        world.wf(),
        world.holds(slot, id),
    ensures
        world.item_live(id),
        world.items().record(id).owner == slot,
{
}

/// Ownership stays in order where nothing is gained: every item that
/// exists existed with the same record, every slot holds only what it
/// held, an item that is gone is held no more, and every item that exists
/// is still held where it was.
proof fn lemma_ownership_kept(before: &World, after: &World)
    requires
        before.items_wf(),
        forall|id: ItemId| #[trigger]
            after.item_live(id) ==> before.item_live(id) && after.items().record(id)
                == before.items().record(id),
        forall|slot: ItemOwner, id: ItemId| #[trigger]
            after.holds(slot, id) ==> before.holds(slot, id),
        forall|id: ItemId| #[trigger]
            before.item_live(id) && !after.item_live(id) ==> !after.holds(
                before.items().record(id).owner,
                id,
            ),
        forall|slot: ItemOwner, id: ItemId|
            #![trigger before.holds(slot, id), after.item_live(id)]
            before.holds(slot, id) && after.item_live(id) ==> after.holds(slot, id),
    ensures
        after.items_wf(),
{
    assert forall|slot: ItemOwner, id: ItemId| #[trigger] after.holds(slot, id) implies {
        after.item_live(id) && after.items().record(id).owner == slot
    } by {
        assert(before.holds(slot, id));
        assert(before.item_live(id));
    }
    assert forall|id: ItemId| #[trigger] after.item_live(id) implies after.holds(
        after.items().record(id).owner,
        id,
    ) by {
        assert(before.item_live(id));
        assert(before.holds(before.items().record(id).owner, id));
    }
}

/// The grid stays in order where the map and each tile's place and
/// standing stay the same.
proof fn lemma_grid_kept(before: &World, after: &World)
    requires
        before.grid_wf(),
        after.map() == before.map(),
        after.tiles().len() == before.tiles().len(),
        forall|tile: TileId|
            tile < before.tiles().len() ==> (#[trigger] after.tiles()[tile as int]).alive
                == before.tiles()[tile as int].alive && after.tiles()[tile as int].location
                == before.tiles()[tile as int].location,
    ensures
        after.grid_wf(),
{
    assert forall|index: IVec2| (#[trigger] after.map().occupant(index)) is Some implies {
        let t = after.map().occupant(index)->0;
        after.tile_alive(t) && after.tiles()[t as int].location == index
    } by {
        let t = before.map().occupant(index)->0;
        assert(before.tile_alive(t));
    }
    assert forall|t: TileId| #[trigger] after.tile_alive(t) implies after.map().occupant(
        after.tiles()[t as int].location,
    ) == Some(t) by {
        assert(before.tile_alive(t));
    }
}

/// The lists of fixtures stay in order where they, and each fixture's tile
/// and existence, stay the same.
proof fn lemma_fixture_lists_kept(before: &World, after: &World)
    requires
        before.fixtures_wf(),
        after.tiles().len() == before.tiles().len(),
        forall|tile: TileId|
            tile < before.tiles().len() ==> (#[trigger] after.tiles()[tile as int]).alive
                == before.tiles()[tile as int].alive && after.tiles()[tile as int].fixtures@
                == before.tiles()[tile as int].fixtures@,
        after.fixtures().len() == before.fixtures().len(),
        forall|fixture: FixtureId|
            fixture < before.fixtures().len() ==> (#[trigger] after.fixtures()[fixture as int]).alive
                == before.fixtures()[fixture as int].alive && after.fixtures()[fixture as int].tile
                == before.fixtures()[fixture as int].tile,
    ensures
        after.fixtures_wf(),
{
    assert forall|t: TileId, k: int|
        after.tile_alive(t) && 0 <= k < after.tiles()[t as int].fixtures@.len() implies {
        let listed = #[trigger] after.tiles()[t as int].fixtures@[k];
        after.fixture_alive(listed) && after.fixtures()[listed as int].tile == t
    } by {
        assert(before.tile_alive(t));
        let listed = before.tiles()[t as int].fixtures@[k];
        assert(before.fixture_alive(listed));
    }
}

} // verus!
