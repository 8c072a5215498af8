//! The pickup and interact actions: what an actor can reach, which fixture
//! goes along first, and what changes hands.

use vstd::prelude::*;
use super::{
    lemma_fixture_lists_kept, lemma_grid_kept, lemma_ownership_kept, Actor, World,
};
use crate::fixture::{FixtureId, FixtureState, Probe};
use crate::item::{Item, ItemId, ItemOwner, ItemRecord};
use crate::player::Player;
use crate::vector::IVec2;

verus! {

impl World {
    /// The fixtures that the actor can reach, in the order in which they
    /// are tried: those on its own tile, then those on the tile it faces.
    pub open spec fn reach(&self, actor: int) -> Seq<FixtureId> {
        self.fixtures_at(self.here(actor)) + self.fixtures_at(
            self.here(actor).plus(self.actors()[actor].player.heading.spec_as_offset()),
        )
    }

    /// The first fixture of `order` that would go along with `probe`.
    pub open spec fn first_responding(&self, order: Seq<FixtureId>, probe: Probe) -> Option<
        FixtureId,
    >
        decreases order.len(),
    {
        if order.len() == 0 {
            None
        } else if self.fixture_state(order[0]).responds(probe) {
            Some(order[0])
        } else {
            self.first_responding(order.subrange(1, order.len() as int), probe)
        }
    }

    /// `after` is this world with nothing changed but the player part of
    /// the actor `actor`, the state of the fixture `fixture`, and the table
    /// of items.
    pub open spec fn exchanged(
        &self,
        after: &World,
        actor: int,
        player: Player,
        fixture: FixtureId,
        state: FixtureState,
        items: Seq<Option<ItemRecord>>,
    ) -> bool {
        &&& after.map() == self.map()
        &&& after.spec_origin() == self.spec_origin()
        &&& after.tiles() == self.tiles()
        &&& after.animations() == self.animations()
        &&& after.items()@ == items
        &&& after.fixtures().len() == self.fixtures().len()
        &&& forall|other: FixtureId|
            other < self.fixtures().len() && other != fixture ==> #[trigger] after.fixtures()[other as int]
                == self.fixtures()[other as int]
        &&& after.fixtures()[fixture as int].tile == self.fixtures()[fixture as int].tile
        &&& after.fixtures()[fixture as int].alive == self.fixtures()[fixture as int].alive
        &&& after.fixtures()[fixture as int].fixture@ == state
        &&& after.actors() == self.actors().update(
            actor,
            Actor {
                player,
                npc: self.actors()[actor].npc,
                position: self.actors()[actor].position,
                animation: self.actors()[actor].animation,
                sprite_index: self.actors()[actor].sprite_index,
                user_controllable: self.actors()[actor].user_controllable,
            },
        )
    }

    /// What one actor's pickup action does. Without the flag, nothing. With
    /// it, the flag is cleared, and an actor holding an item offers it to
    /// the first fixture in reach that accepts it, while an actor holding
    /// none takes one from the first fixture in reach that yields one.
    pub open spec fn pickup_step(&self, after: &World, actor: int) -> bool {
        let player = self.actors()[actor].player;
        let settled = Player { pickup_action: false, ..player };
        if !player.pickup_action {
            *after == *self
        } else {
            match player.holding {
                Some(held) => match self.first_responding(self.reach(actor), Probe::Consume) {
                    Some(fixture) => self.exchanged(
                        after,
                        actor,
                        Player { holding: None, ..settled },
                        fixture,
                        self.fixture_state(fixture).after_consume(
                            self.items().record(held).item,
                            held,
                        ),
                        self.fixture_state(fixture).items_after_consume(fixture, held, self.items()@),
                    ),
                    None => self.only_player_changed(after, actor, settled),
                },
                None => match self.first_responding(self.reach(actor), Probe::Pickup) {
                    Some(fixture) => self.exchanged(
                        after,
                        actor,
                        Player {
                            holding: self.fixture_state(fixture).picked(self.items()@.len()),
                            ..settled
                        },
                        fixture,
                        self.fixture_state(fixture).after_pickup(),
                        self.fixture_state(fixture).items_after_pickup(
                            actor as usize,
                            self.items()@,
                        ),
                    ),
                    None => self.only_player_changed(after, actor, settled),
                },
            }
        }
    }

    /// What one actor's interact action does. Without the flag, nothing.
    /// With it, the flag is cleared and the first fixture in reach that has
    /// an action of its own performs it.
    pub open spec fn interact_step(&self, after: &World, actor: int) -> bool {
        let player = self.actors()[actor].player;
        let settled = Player { interact_action: false, ..player };
        if !player.interact_action {
            *after == *self
        } else {
            match self.first_responding(self.reach(actor), Probe::Interact) {
                Some(fixture) => self.exchanged(
                    after,
                    actor,
                    settled,
                    fixture,
                    self.fixture_state(fixture).after_interact(),
                    self.items()@,
                ),
                None => self.only_player_changed(after, actor, settled),
            }
        }
    }

    fn fixtures_on(&self, index: IVec2, out: &mut Vec<FixtureId>)
        requires
            self.wf(),
            forall|k: int| 0 <= k < old(out)@.len() ==> self.fixture_alive(#[trigger] old(out)@[k]),
        ensures
            final(out)@ == old(out)@ + self.fixtures_at(index),
            forall|k: int| 0 <= k < final(out)@.len() ==> self.fixture_alive(#[trigger] final(out)@[k]),
    {
        match self.tile_map.tile_at(index) {
            None => {
                assert(out@ + Seq::<FixtureId>::empty() == out@);
            },
            Some(tile) => {
                assert(self.tile_alive(tile));
                let count: usize = self.tiles[tile].fixtures.len();
                let mut k: usize = 0;
                while k < count
                    invariant
                        k <= count,
                        self.wf(),
                        self.tile_alive(tile),
                        count == self.tiles@[tile as int].fixtures@.len(),
                        out@ == old(out)@ + self.tiles@[tile as int].fixtures@.subrange(0, k as int),
                        forall|j: int| 0 <= j < out@.len() ==> self.fixture_alive(#[trigger] out@[j]),
                    decreases count - k,
                {
                    let fixture: FixtureId = self.tiles[tile].fixtures[k];
                    assert(self.fixture_alive(self.tiles()[tile as int].fixtures@[k as int]));
                    out.push(fixture);
                    k = k + 1;
                    assert(out@ == old(out)@ + self.tiles@[tile as int].fixtures@.subrange(
                        0,
                        k as int,
                    ));
                }
                assert(self.tiles@[tile as int].fixtures@.subrange(0, count as int)
                    == self.tiles@[tile as int].fixtures@);
            },
        }
    }

    /// The fixtures in reach of the actor, in the order in which they are
    /// tried.
    pub fn reachable(&self, actor: usize) -> (order: Vec<FixtureId>)
        requires
            self.wf(),
            actor < self.actors().len(),
        ensures
            order@ == self.reach(actor as int),
            forall|k: int| 0 <= k < order@.len() ==> self.fixture_alive(#[trigger] order@[k]),
    {
        let here: IVec2 = self.tile_map.camera_to_tile(self.origin, self.actors[actor].position);
        let facing: IVec2 = here.offset(self.actors[actor].player.heading.as_offset());
        let mut order: Vec<FixtureId> = Vec::new();
        self.fixtures_on(here, &mut order);
        self.fixtures_on(facing, &mut order);
        assert(order@ == self.fixtures_at(here) + self.fixtures_at(facing));
        order
    }

    /// The first fixture of `order` that would go along with `probe`.
    pub fn first_to_respond(&self, order: &Vec<FixtureId>, probe: Probe) -> (found: Option<FixtureId>)
        requires
            forall|k: int| 0 <= k < order@.len() ==> self.fixture_alive(#[trigger] order@[k]),
        ensures
            found == self.first_responding(order@, probe),
            found matches Some(fixture) ==> self.fixture_alive(fixture) && self.fixture_state(
                fixture,
            ).responds(probe),
    {
        let mut k: usize = 0;
        assert(order@.subrange(0, order@.len() as int) == order@);
        while k < order.len()
            invariant
                k <= order@.len(),
                forall|j: int| 0 <= j < order@.len() ==> self.fixture_alive(#[trigger] order@[j]),
                self.first_responding(order@, probe) == self.first_responding(
                    order@.subrange(k as int, order@.len() as int),
                    probe,
                ),
            decreases order@.len() - k,
        {
            let fixture: FixtureId = order[k];
            assert(self.fixture_alive(order@[k as int]));
            let rest = Ghost(order@.subrange(k as int, order@.len() as int));
            assert(rest@[0] == fixture);
            if self.fixtures[fixture].fixture.responds(probe) {
                return Some(fixture);
            }
            assert(rest@.subrange(1, rest@.len() as int) == order@.subrange(
                k as int + 1,
                order@.len() as int,
            ));
            k = k + 1;
        }
        assert(order@.subrange(k as int, order@.len() as int).len() == 0);
        None
    }

    /// Resolves the pickup action of one actor; see [`World::pickup_step`].
    pub fn player_pickup_for(&mut self, actor: usize)
        requires
            old(self).wf(),
            actor < old(self).actors().len(),
        ensures
            final(self).wf(),
            old(self).pickup_step(final(self), actor as int),
    {
        if !self.actors[actor].player.pickup_action {
            return;
        }
        let order: Vec<FixtureId> = self.reachable(actor);
        let holding: Option<ItemId> = self.actors[actor].player.holding;
        // Look for a fixture that can receive the held item, or give one.
        let target: Option<FixtureId> = match holding {
            Some(_) => self.first_to_respond(&order, Probe::Consume),
            None => self.first_to_respond(&order, Probe::Pickup),
        };
        self.actors[actor].player.pickup_action = false;
        match holding {
            Some(holding) => {
                proof {
                    assert(old(self).holds(ItemOwner::Actor(actor), holding));
                }
                // Get the held item.
                let item: Item = self.items.get(holding).unwrap().item;
                match target {
                    Some(fixture) => {
                        let accepted: bool = self.fixtures[fixture].fixture.consume(
                            fixture,
                            item,
                            holding,
                            &mut self.items,
                        );
                        if accepted {
                            // Drop the item, hold nothing.
                            self.actors[actor].player.holding = None;
                        }
                        proof {
                            assert(self.actors() =~= old(self).actors().update(
                                actor as int,
                                Actor {
                                    player: self.actors()[actor as int].player,
                                    npc: old(self).actors()[actor as int].npc,
                                    position: old(self).actors()[actor as int].position,
                                    animation: old(self).actors()[actor as int].animation,
                                    sprite_index: old(self).actors()[actor as int].sprite_index,
                                    user_controllable: old(self).actors()[actor as int].user_controllable,
                                },
                            ));
                            old(self).lemma_gave(self, actor, fixture, holding);
                        }
                    },
                    None => {
                        proof {
                            old(self).lemma_actor_only(self, actor);
                        }
                    },
                }
            },
            None => {
                // Try to pick up.
                match target {
                    Some(fixture) => {
                        proof {
                            let stored = old(self).fixtures()[fixture as int].fixture.stored();
                            if stored is Some {
                                assert(old(self).holds(ItemOwner::Fixture(fixture), stored->0));
                            }
                        }
                        let picked: Option<ItemId> = self.fixtures[fixture].fixture.pickup(
                            actor,
                            &mut self.items,
                        );
                        match picked {
                            Some(item_entity) => {
                                self.actors[actor].player.hold_item(item_entity);
                            },
                            None => {},
                        }
                        proof {
                            assert(self.actors() =~= old(self).actors().update(
                                actor as int,
                                Actor {
                                    player: self.actors()[actor as int].player,
                                    npc: old(self).actors()[actor as int].npc,
                                    position: old(self).actors()[actor as int].position,
                                    animation: old(self).actors()[actor as int].animation,
                                    sprite_index: old(self).actors()[actor as int].sprite_index,
                                    user_controllable: old(self).actors()[actor as int].user_controllable,
                                },
                            ));
                            old(self).lemma_took(self, actor, fixture);
                        }
                    },
                    None => {
                        proof {
                            old(self).lemma_actor_only(self, actor);
                        }
                    },
                }
            },
        }
    }

    /// Resolves the interact action of one actor; see
    /// [`World::interact_step`].
    pub fn player_interact_for(&mut self, actor: usize)
        requires
            old(self).wf(),
            actor < old(self).actors().len(),
        ensures
            final(self).wf(),
            old(self).interact_step(final(self), actor as int),
    {
        if !self.actors[actor].player.interact_action {
            return;
        }
        let order: Vec<FixtureId> = self.reachable(actor);
        let target: Option<FixtureId> = self.first_to_respond(&order, Probe::Interact);
        self.actors[actor].player.interact_action = false;
        match target {
            Some(fixture) => {
                self.fixtures[fixture].fixture.interact();
                proof {
                    old(self).lemma_interacted(self, actor, fixture);
                }
            },
            None => {
                proof {
                    old(self).lemma_actor_only(self, actor);
                }
            },
        }
    }

    /// Handing a held item to a fixture that accepts it keeps the world in
    /// order.
    proof fn lemma_gave(&self, after: &World, actor: usize, fixture: FixtureId, held: ItemId)
        requires
            self.wf(),
            actor < self.actors().len(),
            self.fixture_alive(fixture),
            self.fixture_state(fixture).accepts(),
            self.actors()[actor as int].player.holding == Some(held),
            self.exchanged(
                after,
                actor as int,
                after.actors()[actor as int].player,
                fixture,
                self.fixture_state(fixture).after_consume(self.items().record(held).item, held),
                self.fixture_state(fixture).items_after_consume(fixture, held, self.items()@),
            ),
            after.actors()[actor as int].player.holding is None,
        ensures
            after.wf(),
    {
        lemma_grid_kept(self, after);
        lemma_fixture_lists_kept(self, after);
        assert(self.holds(ItemOwner::Actor(actor), held));
        assert forall|slot: ItemOwner, id: ItemId| #[trigger] after.holds(slot, id) implies {
            after.item_live(id) && after.items().record(id).owner == slot
        } by {
            if slot == ItemOwner::Fixture(fixture) && id == held {
            } else {
                assert(self.holds(slot, id));
            }
        }
        assert forall|id: ItemId| #[trigger] after.item_live(id) implies after.holds(
            after.items().record(id).owner,
            id,
        ) by {
            if id != held {
                assert(self.item_live(id));
                assert(self.holds(self.items().record(id).owner, id));
            }
        }
    }

    /// Taking an item from a fixture that yields one keeps the world in
    /// order.
    proof fn lemma_took(&self, after: &World, actor: usize, fixture: FixtureId)
        requires
            self.wf(),
            actor < self.actors().len(),
            self.fixture_alive(fixture),
            self.fixture_state(fixture).pickup_yields(),
            self.actors()[actor as int].player.holding is None,
            self.exchanged(
                after,
                actor as int,
                after.actors()[actor as int].player,
                fixture,
                self.fixture_state(fixture).after_pickup(),
                self.fixture_state(fixture).items_after_pickup(actor, self.items()@),
            ),
            after.actors()[actor as int].player.holding == self.fixture_state(fixture).picked(
                self.items()@.len(),
            ),
        ensures
            after.wf(),
    {
        lemma_grid_kept(self, after);
        lemma_fixture_lists_kept(self, after);
        let picked = self.fixture_state(fixture).picked(self.items()@.len())->0;
        let stored = self.fixtures()[fixture as int].fixture.stored();
        let state = self.fixture_state(fixture);
        if stored is Some {
            assert(self.holds(ItemOwner::Fixture(fixture), stored->0));
            assert(state == FixtureState::Container { holding: stored });
            assert(picked == stored->0);
        } else {
            self.items().lemma_count_fits();
            assert(picked == self.items()@.len());
            assert(after.items()@.len() == self.items()@.len() + 1);
            assert(after.items()@[picked as int] is Some);
            assert(after.fixtures()[fixture as int].fixture.stored() is None);
        }
        assert(after.items().live(picked));
        assert(after.items().record(picked).owner == ItemOwner::Actor(actor));
        assert forall|slot: ItemOwner, id: ItemId| #[trigger] after.holds(slot, id) implies {
            after.item_live(id) && after.items().record(id).owner == slot
        } by {
            if slot == ItemOwner::Actor(actor) {
            } else {
                assert(self.holds(slot, id));
            }
        }
        assert forall|id: ItemId| #[trigger] after.item_live(id) implies after.holds(
            after.items().record(id).owner,
            id,
        ) by {
            if id != picked {
                assert(self.item_live(id));
                assert(self.holds(self.items().record(id).owner, id));
            }
        }
    }

    /// A fixture's own action keeps the world in order.
    proof fn lemma_interacted(&self, after: &World, actor: usize, fixture: FixtureId)
        requires
            self.wf(),
            actor < self.actors().len(),
            self.fixture_alive(fixture),
            self.exchanged(
                after,
                actor as int,
                after.actors()[actor as int].player,
                fixture,
                self.fixture_state(fixture).after_interact(),
                self.items()@,
            ),
            after.actors()[actor as int].player.holding == self.actors()[actor as int].player.holding,
        ensures
            after.wf(),
    {
        lemma_grid_kept(self, after);
        lemma_fixture_lists_kept(self, after);
        lemma_ownership_kept(self, after);
    }

    /// The held items with the place where each is drawn, relative to the
    /// actor holding it, over the first `count` actors. These are the items
    /// that are shown; all others are hidden.
    pub open spec fn held(&self, count: int) -> Seq<(ItemId, IVec2)>
        decreases count,
    {
        if count <= 0 {
            Seq::empty()
        } else {
            match self.actors()[count - 1].player.holding {
                Some(id) => self.held(count - 1).push(
                    (id, self.actors()[count - 1].player.heading.spec_held_offset()),
                ),
                None => self.held(count - 1),
            }
        }
    }

    /// Each held item with the place where it is drawn, relative to the
    /// actor holding it; every listed item is shown, being held.
    pub fn position_held(&self) -> (placed: Vec<(ItemId, IVec2)>)
        requires
            self.wf(),
        ensures
            placed@ == self.held(self.actors().len() as int),
            forall|k: int| 0 <= k < placed@.len() ==> self.items().spec_visible((#[trigger] placed@[k]).0),
    {
        let mut placed: Vec<(ItemId, IVec2)> = Vec::new();
        let count: usize = self.actors.len();
        let mut actor: usize = 0;
        while actor < count
            invariant
                actor <= count,
                count == self.actors().len(),
                self.wf(),
                placed@ == self.held(actor as int),
                forall|k: int|
                    0 <= k < placed@.len() ==> self.items().spec_visible((#[trigger] placed@[k]).0),
            decreases count - actor,
        {
            match self.actors[actor].player.holding {
                Some(item_entity) => {
                    proof {
                        assert(self.holds(ItemOwner::Actor(actor), item_entity));
                    }
                    placed.push((item_entity, self.actors[actor].player.heading.held_offset()));
                },
                None => {},
            }
            actor = actor + 1;
        }
        placed
    }
}

/// The first fixture that goes along is one of those tried, and does go
/// along.
pub proof fn lemma_first_responding_responds(world: &World, order: Seq<FixtureId>, probe: Probe)
    ensures
        world.first_responding(order, probe) matches Some(fixture) ==> order.contains(fixture)
            && world.fixture_state(fixture).responds(probe),
    decreases order.len(),
{
    if order.len() > 0 && !world.fixture_state(order[0]).responds(probe) {
        let rest = order.subrange(1, order.len() as int);
        lemma_first_responding_responds(world, rest, probe);
        if world.first_responding(rest, probe) is Some {
            let fixture = world.first_responding(rest, probe)->0;
            let k = choose|k: int| 0 <= k < rest.len() && rest[k] == fixture;
            assert(order[k + 1] == fixture);
        }
    }
}

} // verus!
