//! The patrons in the world: their decay, their steering, their errands,
//! and the steps of their minds.

use vstd::prelude::*;
use super::{
    lemma_fixture_lists_kept, lemma_grid_kept, lemma_ownership_kept, Actor, ActorView, Errand,
    TileKind, World,
};
use crate::animate::Playback;
use crate::chance::choose_tile;
use crate::direction::{
    abs, lemma_unit_toward_is_unit, lemma_unit_toward_on_axis, lemma_unit_toward_points_along,
    spec_unit_toward, unit_toward,
};
use crate::fixture::FixtureId;
use crate::item::{Item, ItemId, ItemOwner};
use crate::npc::{
    after_drinking, decayed, next_action, npc_consume_drink, npc_decide_next_action,
    npc_start_act, npc_to_act, npc_to_grab, update_npc_stats, Behavior, NPC,
};
use crate::player::{Player, PlayerHeading};
use crate::tilemap::TileId;
use crate::timer::Timer;
use crate::vector::IVec2;

verus! {

impl World {
    /// `after` is this world after `delta` milliseconds of decay; see
    /// [`World::decayed_actor`].
    pub open spec fn stats_decayed(&self, after: &World, delta: u64) -> bool {
        &&& self.only_actors_changed(after)
        &&& forall|actor: int|
            0 <= actor < self.actors().len() ==> #[trigger] after.actors()[actor]
                == Self::decayed_actor(self.actors()[actor], delta)
    }

    /// `after` is this world after every patron looked at its goal; see
    /// [`World::steered_to_goal`].
    pub open spec fn goals_steered(&self, after: &World) -> bool {
        &&& self.only_actors_changed(after)
        &&& forall|actor: int|
            0 <= actor < self.actors().len() ==> #[trigger] after.actors()[actor]
                == self.steered_to_goal(actor)
    }

    /// The actor after `delta` milliseconds of decay: a patron's stats
    /// drop, anyone else is left alone.
    pub open spec fn decayed_actor(actor: Actor, delta: u64) -> Actor {
        match actor.npc {
            Some(npc) => Actor {
                player: actor.player,
                npc: Some(NPC { stats: decayed(npc.stats, delta), ..npc }),
                position: actor.position,
                animation: actor.animation,
                sprite_index: actor.sprite_index,
                user_controllable: actor.user_controllable,
            },
            None => actor,
        }
    }

    /// Lets `delta` milliseconds pass over the stats of every patron.
    pub fn update_npc_stats(&mut self, delta: u64)
        requires
            old(self).wf(),
        ensures
            final(self).wf(),
            old(self).stats_decayed(final(self), delta),
            forall|actor: int|
                0 <= actor < old(self).actors().len() ==> ((#[trigger] final(self).actors()[actor]).npc matches Some(npc) ==> npc.stats.quench >= 0),
    {
        let count: usize = self.actors.len();
        let mut actor: usize = 0;
        while actor < count
            invariant
                actor <= count,
                count == old(self).actors().len(),
                self.actors().len() == count,
                self.wf(),
                self.map() == old(self).map(),
                self.spec_origin() == old(self).spec_origin(),
                self.tiles() == old(self).tiles(),
                self.fixtures() == old(self).fixtures(),
                self.items() == old(self).items(),
                self.animations() == old(self).animations(),
                forall|other: int|
                    0 <= other < actor ==> #[trigger] self.actors()[other] == Self::decayed_actor(
                        old(self).actors()[other],
                        delta,
                    ),
                forall|other: int|
                    actor <= other < count ==> #[trigger] self.actors()[other] == old(self).actors()[other],
            decreases count - actor,
        {
            let ghost before = *self;
            match self.actors[actor].npc {
                Some(mut npc) => {
                    update_npc_stats(&mut npc, delta);
                    self.actors[actor].npc = Some(npc);
                },
                None => {},
            }
            proof {
                assert(self.actors() =~= before.actors().update(
                    actor as int,
                    Self::decayed_actor(before.actors()[actor as int], delta),
                ));
                before.lemma_actor_only(self, actor);
            }
            actor = actor + 1;
        }
    }

    /// The intent that leads from tile `here` toward tile `goal`: the unit
    /// vector along the difference of the two, in thousandths. Rows count
    /// downwards and the world's `y` upwards, so the vertical difference is
    /// mirrored.
    pub open spec fn steering(here: IVec2, goal: IVec2) -> IVec2 {
        spec_unit_toward(goal.x - here.x, here.y - goal.y)
    }

    /// The actor after its patron looked at its goal: without one it
    /// stands still; away from it, it heads there; on it, the goal is
    /// cleared and it stands still.
    pub open spec fn steered_to_goal(&self, actor: int) -> Actor {
        let before = self.actors()[actor];
        match before.npc {
            None => before,
            Some(npc) => {
                let arrived = npc.move_to matches Some(goal) && goal == self.here(actor);
                Actor {
                    player: Player {
                        movement: match npc.move_to {
                            Some(goal) => if goal != self.here(actor) {
                                Some(Self::steering(self.here(actor), goal))
                            } else {
                                None
                            },
                            None => None,
                        },
                        ..before.player
                    },
                    npc: Some(
                        NPC {
                            move_to: if arrived {
                                None
                            } else {
                                npc.move_to
                            },
                            ..npc
                        },
                    ),
                    position: before.position,
                    animation: before.animation,
                    sprite_index: before.sprite_index,
                    user_controllable: before.user_controllable,
                }
            },
        }
    }

    /// Points every patron toward its goal; see
    /// [`World::steered_to_goal`].
    pub fn npc_move(&mut self)
        requires
            old(self).wf(),
        ensures
            final(self).wf(),
            old(self).goals_steered(final(self)),
    {
        let count: usize = self.actors.len();
        let mut actor: usize = 0;
        while actor < count
            invariant
                actor <= count,
                count == old(self).actors().len(),
                self.actors().len() == count,
                self.wf(),
                self.map() == old(self).map(),
                self.spec_origin() == old(self).spec_origin(),
                self.tiles() == old(self).tiles(),
                self.fixtures() == old(self).fixtures(),
                self.items() == old(self).items(),
                self.animations() == old(self).animations(),
                forall|other: int|
                    0 <= other < actor ==> #[trigger] self.actors()[other] == old(self).steered_to_goal(other),
                forall|other: int|
                    actor <= other < count ==> #[trigger] self.actors()[other] == old(self).actors()[other],
            decreases count - actor,
        {
            let ghost before = *self;
            match self.actors[actor].npc {
                None => {},
                Some(mut npc) => {
                    match npc.move_to {
                        None => {
                            self.actors[actor].player.movement = None;
                        },
                        Some(move_to) => {
                            let npc_tile: IVec2 = self.tile_map.camera_to_tile(
                                self.origin,
                                self.actors[actor].position,
                            );
                            if npc_tile != move_to {
                                let movement: IVec2 = unit_toward(
                                    move_to.x as i64 - npc_tile.x as i64,
                                    npc_tile.y as i64 - move_to.y as i64,
                                );
                                self.actors[actor].player.movement = Some(movement);
                            } else {
                                npc.move_to = None;
                                self.actors[actor].npc = Some(npc);
                                self.actors[actor].player.movement = None;
                            }
                        },
                    }
                },
            }
            proof {
                assert(before.steered_to_goal(actor as int) == old(self).steered_to_goal(
                    actor as int,
                ));
                assert(self.actors() =~= before.actors().update(
                    actor as int,
                    before.steered_to_goal(actor as int),
                ));
                before.lemma_actor_only(self, actor);
            }
            actor = actor + 1;
        }
    }

    /// Whether the tile `tile` has a container among its fixtures.
    pub open spec fn has_container(&self, tile: TileId) -> bool {
        exists|k: int|
            0 <= k < self.tiles()[tile as int].fixtures@.len() && self.fixture_state(
                #[trigger] self.tiles()[tile as int].fixtures@[k],
            ) is Container
    }

    /// Whether the standing tile `tile` serves the errand.
    pub open spec fn serves(&self, errand: Errand, tile: TileId) -> bool {
        self.tile_alive(tile) && match errand {
            Errand::Counter => self.has_container(tile),
            Errand::Table => self.tiles()[tile as int].tile.kind == TileKind::Table,
        }
    }

    /// The tiles among the first `count` that serve the errand, each with
    /// its cell, in the order in which the tiles were made.
    pub open spec fn serving(&self, errand: Errand, count: int) -> Seq<(IVec2, TileId)>
        decreases count,
    {
        if count <= 0 {
            Seq::empty()
        } else if self.serves(errand, (count - 1) as usize) {
            self.serving(errand, count - 1).push(
                (self.tiles()[count - 1].location, (count - 1) as usize),
            )
        } else {
            self.serving(errand, count - 1)
        }
    }

    /// Where a patron stands for the errand at the tile `picked`: one tile
    /// below a counter, facing up to it, and one tile above a table.
    pub open spec fn destination(errand: Errand, picked: (IVec2, TileId)) -> IVec2 {
        match errand {
            Errand::Counter => picked.0.plus(PlayerHeading::Down.spec_as_offset()),
            Errand::Table => picked.0.plus(PlayerHeading::Up.spec_as_offset()),
        }
    }

    /// The errand that the patron `actor` sets out on when `delta`
    /// milliseconds pass: to a counter when it is rested and thirsty, to a
    /// table when it has grabbed its drink, and none otherwise.
    pub open spec fn errand(&self, actor: int, delta: u64) -> Option<Errand> {
        match self.actors()[actor].npc {
            None => None,
            Some(npc) => if Timer::after(npc.timer.spec_remaining(), delta) != 0 {
                None
            } else {
                match npc.behavior {
                    Behavior::Idle => if next_action(npc.stats) is Request {
                        Some(Errand::Counter)
                    } else {
                        None
                    },
                    Behavior::Grab => if self.actors()[actor].player.holding is Some {
                        Some(Errand::Table)
                    } else {
                        None
                    },
                    _ => None,
                }
            },
        }
    }

    /// Whether `goal` is a goal that chance may give the patron `actor`:
    /// none without an errand or without a tile that serves it, otherwise
    /// the standing place at one of the tiles that serve it.
    pub open spec fn may_head_for(&self, actor: int, delta: u64, goal: Option<IVec2>) -> bool {
        match self.errand(actor, delta) {
            None => goal is None,
            Some(errand) => {
                let tiles = self.serving(errand, self.tiles().len() as int);
                if tiles.len() == 0 {
                    goal is None
                } else {
                    exists|k: int|
                        0 <= k < tiles.len() && goal == Some(
                            Self::destination(errand, #[trigger] tiles[k]),
                        )
                }
            },
        }
    }

    /// Whether the patron `actor` finishes its drink when `delta`
    /// milliseconds pass: rested, about to drink, arrived, and holding
    /// something.
    pub open spec fn drinks_now(&self, actor: int, delta: u64) -> bool {
        &&& self.actors()[actor].npc matches Some(npc)
        &&& Timer::after(npc.timer.spec_remaining(), delta) == 0
        &&& npc.behavior == Behavior::Drink
        &&& npc.move_to is None
        &&& self.actors()[actor].player.holding is Some
    }

    /// The actor `actor` after its patron's mind had `delta` milliseconds,
    /// where chance gave `goal` for an errand it sets out on.
    ///
    /// While the timer runs nothing but the timer changes. Once it has run
    /// out, exactly one thing happens: a rested patron takes up what its
    /// stats choose, ordering at a counter if thirsty; one that ordered and
    /// arrived turns to the counter to grab; one grabbing asks to pick up,
    /// or sets out for a table once it holds something; one that arrived
    /// where it acts, acts: a drink is drunk, the animation starts, and it
    /// rests for as long as the act asks.
    pub open spec fn advanced(&self, actor: int, delta: u64, goal: Option<IVec2>) -> ActorView {
        let before = self.actors()[actor];
        match before.npc {
            None => before@,
            Some(npc) => {
                let remaining = Timer::after(npc.timer.spec_remaining(), delta);
                let ticked = NPC { timer: Timer::of(remaining), ..npc };
                let waiting = ActorView { npc: Some(ticked), ..before@ };
                if remaining != 0 {
                    waiting
                } else {
                    match npc.behavior {
                        Behavior::Idle => match next_action(npc.stats) {
                            Behavior::Request(item) => ActorView {
                                player: Player { requesting: Some(item), ..before.player },
                                npc: Some(
                                    NPC { move_to: goal, behavior: Behavior::Request(item), ..ticked },
                                ),
                                playback: None,
                                ..before@
                            },
                            chosen => ActorView {
                                npc: Some(NPC { behavior: chosen, ..ticked }),
                                ..before@
                            },
                        },
                        Behavior::Request(_) => if npc.move_to is None {
                            ActorView {
                                player: Player { heading: PlayerHeading::Up, ..before.player },
                                npc: Some(NPC { behavior: Behavior::Grab, ..ticked }),
                                ..before@
                            }
                        } else {
                            waiting
                        },
                        Behavior::Grab => if before.player.holding is Some {
                            ActorView {
                                player: Player { requesting: None, ..before.player },
                                npc: Some(NPC { move_to: goal, behavior: Behavior::Drink, ..ticked }),
                                ..before@
                            }
                        } else {
                            ActorView {
                                player: Player { pickup_action: true, ..before.player },
                                ..waiting
                            }
                        },
                        act => if npc.move_to is None {
                            ActorView {
                                player: if act == Behavior::Drink {
                                    Player { holding: None, ..before.player }
                                } else {
                                    before.player
                                },
                                npc: Some(
                                    NPC {
                                        stats: if self.drinks_now(actor, delta) {
                                            after_drinking(
                                                npc.stats,
                                                self.items().record(before.player.holding->0).item,
                                            )
                                        } else {
                                            npc.stats
                                        },
                                        move_to: None,
                                        behavior: Behavior::Idle,
                                        timer: Timer::of(act.spec_duration()),
                                    },
                                ),
                                playback: Some(
                                    Playback {
                                        frames: self.animations().spec_get(
                                            act.spec_motion()->0,
                                        ).spec_frames(),
                                        timing: self.animations().spec_get(
                                            act.spec_motion()->0,
                                        ).spec_timing(),
                                        frame_idx: 0,
                                        remaining: self.animations().spec_get(
                                            act.spec_motion()->0,
                                        ).spec_timing(),
                                    },
                                ),
                                ..before@
                            }
                        } else {
                            waiting
                        },
                    }
                }
            },
        }
    }

    /// `after` is this world after the mind of the patron `actor` had
    /// `delta` milliseconds, with `goal` for its errand: the actor is as
    /// [`World::advanced`] says, a drink that was drunk is gone, and
    /// nothing else changed.
    pub open spec fn ai_step(&self, after: &World, actor: int, delta: u64, goal: Option<IVec2>) -> bool {
        &&& after.map() == self.map()
        &&& after.spec_origin() == self.spec_origin()
        &&& after.tiles() == self.tiles()
        &&& after.fixtures() == self.fixtures()
        &&& after.animations() == self.animations()
        &&& after.items()@ == (if self.drinks_now(actor, delta) {
            self.items()@.update(self.actors()[actor].player.holding->0 as int, None)
        } else {
            self.items()@
        })
        &&& after.actors().len() == self.actors().len()
        &&& forall|other: int|
            0 <= other < self.actors().len() && other != actor ==> #[trigger] after.actors()[other]
                == self.actors()[other]
        &&& after.actors()[actor]@ == self.advanced(actor, delta, goal)
    }

    fn tile_has_container(&self, tile: TileId) -> (yes: bool)
        requires
            self.wf(),
            self.tile_alive(tile),
        ensures
            yes == self.has_container(tile),
    {
        let count: usize = self.tiles[tile].fixtures.len();
        let mut k: usize = 0;
        while k < count
            invariant
                k <= count,
                self.wf(),
                self.tile_alive(tile),
                count == self.tiles()[tile as int].fixtures@.len(),
                forall|j: int|
                    0 <= j < k ==> !(self.fixture_state(
                        #[trigger] self.tiles()[tile as int].fixtures@[j],
                    ) is Container),
            decreases count - k,
        {
            let fixture: FixtureId = self.tiles[tile].fixtures[k];
            assert(self.fixture_alive(self.tiles()[tile as int].fixtures@[k as int]));
            if self.fixtures[fixture].fixture.is_container() {
                return true;
            }
            k = k + 1;
        }
        false
    }

    /// The standing tiles that serve `errand`, each with its cell, in the
    /// order in which the tiles were made.
    pub fn all_serving(&self, errand: Errand) -> (found: Vec<(IVec2, TileId)>)
        requires
            self.wf(),
        ensures
            found@ == self.serving(errand, self.tiles().len() as int),
    {
        let mut found: Vec<(IVec2, TileId)> = Vec::new();
        let count: usize = self.tiles.len();
        let mut tile: usize = 0;
        while tile < count
            invariant
                tile <= count,
                count == self.tiles().len(),
                self.wf(),
                found@ == self.serving(errand, tile as int),
            decreases count - tile,
        {
            let serves: bool = self.tiles[tile].alive && match errand {
                Errand::Counter => self.tile_has_container(tile),
                Errand::Table => match self.tiles[tile].tile.kind {
                    TileKind::Table => true,
                    _ => false,
                },
            };
            if serves {
                found.push((self.tiles[tile].location, tile));
            }
            tile = tile + 1;
        }
        found
    }

    /// The tiles with a container on them, where patrons order.
    pub fn all_containers(&self) -> (found: Vec<(IVec2, TileId)>)
        requires
            self.wf(),
        ensures
            found@ == self.serving(Errand::Counter, self.tiles().len() as int),
    {
        self.all_serving(Errand::Counter)
    }

    /// The tables, where patrons drink.
    pub fn all_tables(&self) -> (found: Vec<(IVec2, TileId)>)
        requires
            self.wf(),
        ensures
            found@ == self.serving(Errand::Table, self.tiles().len() as int),
    {
        self.all_serving(Errand::Table)
    }

    /// Gives the mind of the patron `actor` its `delta` milliseconds, with
    /// `goal` as the goal for an errand it sets out on; see
    /// [`World::advanced`]. An actor without a mind is left alone.
    pub fn npc_advance(&mut self, actor: usize, delta: u64, goal: Option<IVec2>)
        requires
            old(self).wf(),
            actor < old(self).actors().len(),
        ensures
            final(self).wf(),
            old(self).ai_step(final(self), actor as int, delta, goal),
    {
        let mut npc: NPC = match self.actors[actor].npc {
            None => {
                return;
            },
            Some(npc) => npc,
        };
        let mut player: Player = self.actors[actor].player;
        npc.timer.tick(delta);
        if npc.timer.finished() {
            match npc.behavior {
                Behavior::Idle => {
                    match npc_decide_next_action(&npc) {
                        Behavior::Request(item) => {
                            self.actors[actor].animation.stop_animation();
                            npc.move_to = goal;
                            player.request(item);
                            npc.behavior = Behavior::Request(item);
                        },
                        chosen => {
                            npc_to_act(&mut npc, chosen);
                        },
                    }
                },
                Behavior::Request(_) => {
                    if npc.move_to.is_none() {
                        npc_to_grab(&mut npc, &mut player);
                    }
                },
                Behavior::Grab => {
                    if player.holding.is_some() {
                        player.stop_requesting();
                        npc.move_to = goal;
                        npc.behavior = Behavior::Drink;
                    } else {
                        player.pickup_action = true;
                    }
                },
                act => {
                    if npc.move_to.is_none() {
                        if act == Behavior::Drink {
                            match player.holding {
                                Some(holding) => {
                                    proof {
                                        assert(old(self).holds(ItemOwner::Actor(actor), holding));
                                    }
                                    let item: Item = self.items.get(holding).unwrap().item;
                                    npc_consume_drink(&mut npc, &item);
                                    self.items.despawn(holding);
                                    player.holding = None;
                                },
                                None => {},
                            }
                        }
                        npc_start_act(
                            &mut npc,
                            &mut self.actors[actor].animation,
                            &self.npc_animations,
                        );
                    }
                },
            }
        }
        self.actors[actor].npc = Some(npc);
        self.actors[actor].player = player;
        proof {
            old(self).actors()[actor as int].npc->0.timer.lemma_of_remaining();
            npc.timer.lemma_of_remaining();
            old(self).lemma_advanced(self, actor, delta);
        }
    }

    /// A step of a patron's mind keeps the world in order.
    proof fn lemma_advanced(&self, after: &World, actor: usize, delta: u64)
        requires
            self.wf(),
            actor < self.actors().len(),
            after.map() == self.map(),
            after.tiles() == self.tiles(),
            after.fixtures() == self.fixtures(),
            after.animations() == self.animations(),
            after.actors().len() == self.actors().len(),
            forall|other: int|
                0 <= other < self.actors().len() && other != actor ==> #[trigger] after.actors()[other]
                    == self.actors()[other],
            after.actors()[actor as int].animation.wf(),
            self.actors()[actor as int].player.holding is Some && after.actors()[actor as int].player.holding is None
                ==> after.items()@ == self.items()@.update(
                self.actors()[actor as int].player.holding->0 as int,
                None,
            ),
            !(self.actors()[actor as int].player.holding is Some && after.actors()[actor as int].player.holding is None)
                ==> after.items()@ == self.items()@ && after.actors()[actor as int].player.holding
                == self.actors()[actor as int].player.holding,
        ensures
            after.wf(),
    {
        lemma_grid_kept(self, after);
        lemma_fixture_lists_kept(self, after);
        let held = self.actors()[actor as int].player.holding;
        if held is Some {
            assert(self.holds(ItemOwner::Actor(actor), held->0));
        }
        lemma_ownership_kept(self, after);
    }

    /// Gives the mind of the patron `actor` its `delta` milliseconds. Where
    /// it sets out on an errand, chance picks among the tiles that serve
    /// it, and the patron heads for its standing place there; without such
    /// a tile it stays where it is.
    pub fn npc_ai_for(&mut self, actor: usize, delta: u64)
        requires
            old(self).wf(),
            actor < old(self).actors().len(),
        ensures
            final(self).wf(),
            exists|goal: Option<IVec2>| #[trigger]
                old(self).may_head_for(actor as int, delta, goal) && old(self).ai_step(
                    final(self),
                    actor as int,
                    delta,
                    goal,
                ),
    {
        let goal: Option<IVec2> = match self.errand_of(actor, delta) {
            None => None,
            Some(errand) => {
                let tiles: Vec<(IVec2, TileId)> = self.all_serving(errand);
                match choose_tile(&tiles) {
                    None => None,
                    Some(picked) => {
                        proof {
                            let k = choose|k: int| 0 <= k < tiles@.len() && tiles@[k] == picked;
                            assert(tiles@[k] == picked);
                        }
                        Some(Self::standing_place(errand, picked))
                    },
                }
            },
        };
        assert(self.may_head_for(actor as int, delta, goal));
        self.npc_advance(actor, delta, goal);
    }

    /// The errand that the patron `actor` is about to set out on.
    pub fn errand_of(&self, actor: usize, delta: u64) -> (errand: Option<Errand>)
        requires
            actor < self.actors().len(),
        ensures
            errand == self.errand(actor as int, delta),
    {
        match self.actors[actor].npc {
            None => None,
            Some(npc) => {
                let mut timer: Timer = npc.timer;
                timer.tick(delta);
                if !timer.finished() {
                    None
                } else {
                    match npc.behavior {
                        Behavior::Idle => match npc_decide_next_action(&npc) {
                            Behavior::Request(_) => Some(Errand::Counter),
                            _ => None,
                        },
                        Behavior::Grab => if self.actors[actor].player.holding.is_some() {
                            Some(Errand::Table)
                        } else {
                            None
                        },
                        _ => None,
                    }
                }
            },
        }
    }

    /// Where a patron stands for the errand at the tile `picked`.
    pub fn standing_place(errand: Errand, picked: (IVec2, TileId)) -> (place: IVec2)
        ensures
            place == Self::destination(errand, picked),
    {
        match errand {
            Errand::Counter => picked.0.offset(PlayerHeading::Down.as_offset()),
            Errand::Table => picked.0.offset(PlayerHeading::Up.as_offset()),
        }
    }
}

/// The intent toward a goal elsewhere is a unit vector along the way there,
/// within the rounding of its thousandths: shorter than 1001, longer than
/// 1000 once each component has one more, each component with the sign of
/// its difference, and the two in the proportion of the differences. On a
/// goal in the same row or column it is exactly one step.
pub proof fn lemma_steering_is_a_unit_vector(here: IVec2, goal: IVec2)
    requires
        here != goal,
    ensures
        ({
            let intent = World::steering(here, goal);
            let across = goal.x - here.x;
            let up = here.y - goal.y;
            &&& intent.x * intent.x + intent.y * intent.y < 1001 * 1001
            &&& (abs(intent.x as int) + 1) * (abs(intent.x as int) + 1) + (abs(intent.y as int) + 1)
                * (abs(intent.y as int) + 1) > 1000 * 1000
            &&& across >= 0 ==> intent.x >= 0
            &&& across <= 0 ==> intent.x <= 0
            &&& up >= 0 ==> intent.y >= 0
            &&& up <= 0 ==> intent.y <= 0
            &&& abs(abs(intent.x as int) * abs(up) - abs(intent.y as int) * abs(across)) < abs(across)
                + abs(up)
            &&& up == 0 && across > 0 ==> intent == (IVec2 { x: 1000, y: 0 })
            &&& up == 0 && across < 0 ==> intent == (IVec2 { x: -1000i32, y: 0 })
            &&& across == 0 && up > 0 ==> intent == (IVec2 { x: 0, y: 1000 })
            &&& across == 0 && up < 0 ==> intent == (IVec2 { x: 0, y: -1000i32 })
        }),
{
    let across = goal.x - here.x;
    let up = here.y - goal.y;
    lemma_unit_toward_is_unit(across, up);
    lemma_unit_toward_points_along(across, up);
    if up == 0 {
        lemma_unit_toward_on_axis(abs(across));
    }
    if across == 0 {
        lemma_unit_toward_on_axis(abs(up));
    }
}

/// A patron at its standing place has the tile of its errand before it:
/// at a counter it faces up to it, as it does to grab, and at a table it
/// has the table below. This holds wherever the row next to the tile can
/// be named at all.
pub proof fn lemma_standing_place_faces_the_tile(picked: (IVec2, TileId))
    requires
        i32::MIN < picked.0.y < i32::MAX,
    ensures
        World::destination(Errand::Counter, picked).plus(PlayerHeading::Up.spec_as_offset())
            == picked.0,
        World::destination(Errand::Table, picked).plus(PlayerHeading::Down.spec_as_offset())
            == picked.0,
{
}

/// The timer gates the patron's mind. While it runs, a step changes nothing
/// but the timer: the behaviour stays, and no drink is drunk. Once it has
/// run out, a rested patron takes up what its stats choose, which is never
/// to stay idle, and no step goes further than one behaviour on.
pub proof fn lemma_timer_gates_behavior(world: &World, actor: int, delta: u64, goal: Option<IVec2>)
    requires
        0 <= actor < world.actors().len(),
        world.actors()[actor].npc is Some,
    ensures
        ({
            let before = world.actors()[actor];
            let npc = before.npc->0;
            let after = world.advanced(actor, delta, goal);
            let remaining = Timer::after(npc.timer.spec_remaining(), delta);
            &&& remaining != 0 ==> after == (ActorView {
                npc: Some(NPC { timer: Timer::of(remaining), ..npc }),
                ..before@
            }) && !world.drinks_now(actor, delta)
            &&& remaining == 0 && npc.behavior == Behavior::Idle ==> after.npc->0.behavior
                == next_action(npc.stats) && after.npc->0.behavior != Behavior::Idle
            &&& remaining == 0 && npc.behavior is Request ==> after.npc->0.behavior
                == Behavior::Grab || after.npc->0.behavior == npc.behavior
            &&& remaining == 0 && npc.behavior == Behavior::Grab ==> after.npc->0.behavior
                == Behavior::Drink || after.npc->0.behavior == npc.behavior
            &&& remaining == 0 && npc.behavior.spec_is_act() ==> after.npc->0.behavior
                == Behavior::Idle || after.npc->0.behavior == npc.behavior
        }),
{
}

} // verus!
