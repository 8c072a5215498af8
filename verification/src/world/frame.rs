//! The systems that go through all actors, and one whole frame.

use vstd::prelude::*;
use super::interaction::lemma_first_responding_responds;
use super::{ActorView, System, World};
use crate::fixture::{FixtureId, FixtureState, Probe};
use crate::item::{Item, ItemOwner, ItemRecord};
use crate::player::Actions;
use crate::vector::IVec2;

verus! {

impl World {
    /// `after` is this world after one frame of animation; see
    /// [`World::animated`].
    pub open spec fn sprites_animated(&self, after: &World, delta: u64) -> bool {
        &&& self.only_actors_changed(after)
        &&& forall|actor: int|
            0 <= actor < self.actors().len() ==> (#[trigger] after.actors()[actor])@
                == Self::animated(self.actors()[actor]@, delta)
    }

    /// What `system` does for one actor.
    pub open spec fn system_step(&self, system: System, after: &World, actor: int) -> bool {
        match system {
            System::Pickup => self.pickup_step(after, actor),
            System::Interact => self.interact_step(after, actor),
            System::Mind(delta) => exists|goal: Option<IVec2>| #[trigger]
                self.may_head_for(actor, delta, goal) && self.ai_step(after, actor, delta, goal),
        }
    }

    /// `after` is this world after `system` went through the first `count`
    /// actors in turn.
    pub open spec fn system_ran(&self, system: System, after: &World, count: int) -> bool {
        exists|trace: Seq<World>| #[trigger] self.system_trace(system, after, count, trace)
    }

    /// `trace` lists the worlds that `system` went through on its way from
    /// this one to `after`: this one first, then the world after each of
    /// the first `count` actors. Each of them is in order and has as many
    /// actors as this one.
    #[verifier::opaque]
    pub open spec fn system_trace(
        &self,
        system: System,
        after: &World,
        count: int,
        trace: Seq<World>,
    ) -> bool {
        &&& trace.len() == count + 1
        &&& trace[0] == *self
        &&& trace[count] == *after
        &&& forall|actor: int|
            0 <= actor < count ==> (#[trigger] trace[actor]).system_step(
                system,
                &trace[actor + 1],
                actor,
            )
        &&& forall|k: int|
            0 <= k <= count ==> (#[trigger] trace[k]).wf() && trace[k].actors().len()
                == self.actors().len()
    }

    /// Lets `system` go through all actors in turn.
    pub fn run(&mut self, system: System)
        requires
            old(self).wf(),
        ensures
            final(self).wf(),
            final(self).actors().len() == old(self).actors().len(),
            old(self).system_ran(system, final(self), old(self).actors().len() as int),
    {
        let count: usize = self.actors.len();
        let mut actor: usize = 0;
        let ghost mut trace: Seq<World> = seq![*self];
        proof {
            reveal(World::system_trace);
        }
        while actor < count
            invariant
                actor <= count,
                count == old(self).actors().len(),
                self.actors().len() == count,
                self.wf(),
                old(self).system_trace(system, self, actor as int, trace),
            decreases count - actor,
        {
            let ghost mid = *self;
            match system {
                System::Pickup => {
                    self.player_pickup_for(actor);
                },
                System::Interact => {
                    self.player_interact_for(actor);
                },
                System::Mind(delta) => {
                    self.npc_ai_for(actor, delta);
                },
            }
            proof {
                reveal(World::system_trace);
                let longer = trace.push(*self);
                assert forall|before: int| 0 <= before < actor + 1 implies (#[trigger] longer[before]
                    ).system_step(system, &longer[before + 1], before) by {
                    if before < actor {
                        assert(trace[before].system_step(system, &trace[before + 1], before));
                    }
                }
                assert forall|k: int| 0 <= k <= actor + 1 implies (#[trigger] longer[k]).wf()
                    && longer[k].actors().len() == old(self).actors().len() by {
                    if k <= actor {
                        assert(trace[k].wf());
                    }
                }
                trace = longer;
            }
            actor = actor + 1;
        }
    }

    /// Resolves the pickup action of every actor in turn; see
    /// [`World::pickup_step`].
    pub fn player_pickup(&mut self)
        requires
            old(self).wf(),
        ensures
            final(self).wf(),
            final(self).actors().len() == old(self).actors().len(),
            old(self).system_ran(System::Pickup, final(self), old(self).actors().len() as int),
    {
        self.run(System::Pickup)
    }

    /// Resolves the interact action of every actor in turn; see
    /// [`World::interact_step`].
    pub fn player_interact(&mut self)
        requires
            old(self).wf(),
        ensures
            final(self).wf(),
            final(self).actors().len() == old(self).actors().len(),
            old(self).system_ran(System::Interact, final(self), old(self).actors().len() as int),
    {
        self.run(System::Interact)
    }

    /// Gives every patron's mind `delta` milliseconds, one after another;
    /// see [`World::npc_ai_for`].
    pub fn npc_ai(&mut self, delta: u64)
        requires
            old(self).wf(),
        ensures
            final(self).wf(),
            final(self).actors().len() == old(self).actors().len(),
            old(self).system_ran(System::Mind(delta), final(self), old(self).actors().len() as int),
    {
        self.run(System::Mind(delta))
    }

    /// One frame of time for the sprite of every actor; see
    /// [`crate::animate::animate_sprites`].
    pub fn animate_sprites(&mut self, delta: u64)
        requires
            old(self).wf(),
        ensures
            final(self).wf(),
            old(self).sprites_animated(final(self), delta),
    {
        let count: usize = self.actors.len();
        let mut actor: usize = 0;
        while actor < count
            invariant
                actor <= count,
                count == old(self).actors().len(),
                self.actors().len() == count,
                self.wf(),
                self.map() == old(self).map(),
                self.spec_origin() == old(self).spec_origin(),
                self.tiles() == old(self).tiles(),
                self.fixtures() == old(self).fixtures(),
                self.items() == old(self).items(),
                self.animations() == old(self).animations(),
                forall|other: int|
                    0 <= other < actor ==> (#[trigger] self.actors()[other])@ == Self::animated(
                        old(self).actors()[other]@,
                        delta,
                    ),
                forall|other: int|
                    actor <= other < count ==> #[trigger] self.actors()[other] == old(self).actors()[other],
            decreases count - actor,
        {
            let ghost before = *self;
            let mut sprite_index: usize = self.actors[actor].sprite_index;
            crate::animate::animate_sprites(
                &mut sprite_index,
                &mut self.actors[actor].animation,
                delta,
            );
            self.actors[actor].sprite_index = sprite_index;
            proof {
                assert(self.only_actor_changed(&before, actor as int, before.actors()[actor as int]))
                    by {
                    assert(before.actors() =~= self.actors().update(
                        actor as int,
                        before.actors()[actor as int],
                    ));
                }
                assert(before.only_actor_changed(self, actor as int, self.actors()[actor as int])) by {
                    assert(self.actors() =~= before.actors().update(
                        actor as int,
                        self.actors()[actor as int],
                    ));
                }
                before.lemma_actor_only(self, actor);
            }
            actor = actor + 1;
        }
    }

    /// An actor after one frame of animation: a playing animation shows
    /// its current frame and moves on, and without one nothing changes.
    pub open spec fn animated(actor: ActorView, delta: u64) -> ActorView {
        match actor.playback {
            Some(playback) => ActorView {
                sprite_index: playback.frames[playback.frame_idx as int],
                playback: Some(playback.advance(delta)),
                ..actor
            },
            None => actor,
        }
    }

    /// `stages` lists the worlds that one frame goes through on its way
    /// from this one to `after`, each of them in order, in the order that
    /// the rules fix: input,
    /// decay of the stats, steering and movement, then the pickup and the
    /// interact actions, then the patrons' minds, which see what the
    /// actions brought, and the animation last.
    pub open spec fn frame_stages(
        &self,
        after: &World,
        actions: &Actions,
        delta: u64,
        step: i32,
        stages: Seq<World>,
    ) -> bool {
        &&& stages.len() == 9
        &&& stages[0] == *self
        &&& stages[8] == *after
        &&& stages[0].input_taken(&stages[1], actions)
        &&& stages[1].stats_decayed(&stages[2], delta)
        &&& stages[2].goals_steered(&stages[3])
        &&& stages[3].actors_moved(&stages[4], step)
        &&& stages[4].system_ran(System::Pickup, &stages[5], stages[4].actors().len() as int)
        &&& stages[5].system_ran(System::Interact, &stages[6], stages[5].actors().len() as int)
        &&& stages[6].system_ran(System::Mind(delta), &stages[7], stages[6].actors().len() as int)
        &&& stages[7].sprites_animated(&stages[8], delta)
        &&& forall|k: int| 0 <= k < 9 ==> (#[trigger] stages[k]).wf()
    }

    /// `after` is this world one frame later.
    pub open spec fn frame_ran(&self, after: &World, actions: &Actions, delta: u64, step: i32) -> bool {
        exists|stages: Seq<World>| #[trigger] self.frame_stages(after, actions, delta, step, stages)
    }

    /// One frame of `delta` milliseconds, in which an actor covers `step`
    /// world units: every system once, in the order that
    /// [`World::frame_stages`] lists.
    pub fn tick(&mut self, actions: &Actions, delta: u64, step: i32)
        requires
            old(self).wf(),
        ensures
            final(self).wf(),
            final(self).actors().len() == old(self).actors().len(),
            old(self).frame_ran(final(self), actions, delta, step),
    {
        let ghost start = *self;
        self.handle_actions(actions);
        let ghost steered = *self;
        self.update_npc_stats(delta);
        let ghost decayed = *self;
        self.npc_move();
        let ghost aimed = *self;
        self.move_player(step);
        let ghost moved = *self;
        self.player_pickup();
        let ghost picked = *self;
        self.player_interact();
        let ghost interacted = *self;
        self.npc_ai(delta);
        let ghost minded = *self;
        self.animate_sprites(delta);
        proof {
            Self::lemma_frame(
                seq![start, steered, decayed, aimed, moved, picked, interacted, minded, *self],
                actions,
                delta,
                step,
            );
        }
    }

    /// Nine worlds, each following from the one before by its system, are
    /// one frame.
    proof fn lemma_frame(stages: Seq<World>, actions: &Actions, delta: u64, step: i32)
        requires
            stages.len() == 9,
            stages[0].input_taken(&stages[1], actions),
            stages[1].stats_decayed(&stages[2], delta),
            stages[2].goals_steered(&stages[3]),
            stages[3].actors_moved(&stages[4], step),
            stages[4].system_ran(System::Pickup, &stages[5], stages[4].actors().len() as int),
            stages[5].system_ran(System::Interact, &stages[6], stages[5].actors().len() as int),
            stages[6].system_ran(System::Mind(delta), &stages[7], stages[6].actors().len() as int),
            stages[7].sprites_animated(&stages[8], delta),
            forall|k: int| 0 <= k < 9 ==> (#[trigger] stages[k]).wf(),
        ensures
            stages[0].frame_ran(&stages[8], actions, delta, step),
    {
        assert(stages[0].frame_stages(&stages[8], actions, delta, step, stages));
    }
}

/// What holds of the world `now`, `done` actors into the pickup actions
/// that began in `before`, for an actor that began with free hands, its
/// pickup flag set, and nothing in reach but the spawner `spawner`: until
/// its turn nothing about it has changed, and from its turn on it holds the
/// item that its turn made.
pub open spec fn awaiting_spawner(
    before: &World,
    trace: Seq<World>,
    done: int,
    actor: int,
    spawner: FixtureId,
    kind: Item,
) -> bool {
    let now = trace[done];
    let made = trace[actor].items()@.len() as usize;
    &&& now.map() == before.map()
    &&& now.spec_origin() == before.spec_origin()
    &&& now.tiles() == before.tiles()
    &&& now.items()@.len() >= before.items()@.len()
    &&& now.fixture_alive(spawner)
    &&& now.fixture_state(spawner) == FixtureState::Spawner(kind)
    &&& done <= actor ==> now.actors()[actor] == before.actors()[actor]
    &&& done > actor ==> {
        &&& now.actors()[actor].player.holding == Some(made)
        &&& !now.actors()[actor].player.pickup_action
        &&& made >= before.items()@.len()
        &&& now.item_live(made)
        &&& now.items().record(made) == (ItemRecord { item: kind, owner: ItemOwner::Actor(actor as usize) })
    }
}

/// One turn of the pickup actions, as it bears on an actor that waits for
/// its turn at a spawner or has had it: the turn of another actor leaves
/// the actor, what it holds and the spawner alone, and its own turn gives
/// it the item that the turn makes.
proof fn lemma_turn_at_spawner(
    was: &World,
    now: &World,
    turn: int,
    actor: int,
    spawner: FixtureId,
    kind: Item,
    made: usize,
)
    requires
        was.wf(),
        0 <= turn < was.actors().len(),
        0 <= actor < was.actors().len(),
        was.pickup_step(now, turn),
        was.fixture_alive(spawner),
        was.fixture_state(spawner) == FixtureState::Spawner(kind),
        turn == actor ==> {
            &&& was.actors()[actor].player.holding is None
            &&& was.actors()[actor].player.pickup_action
            &&& was.reach(actor) == seq![spawner]
            &&& made == was.items()@.len()
        },
        turn > actor ==> {
            &&& was.actors()[actor].player.holding == Some(made)
            &&& !was.actors()[actor].player.pickup_action
            &&& was.item_live(made)
            &&& was.items().record(made) == (ItemRecord {
                item: kind,
                owner: ItemOwner::Actor(actor as usize),
            })
        },
    ensures
        now.map() == was.map(),
        now.spec_origin() == was.spec_origin(),
        now.tiles() == was.tiles(),
        now.items()@.len() >= was.items()@.len(),
        now.fixture_alive(spawner),
        now.fixture_state(spawner) == FixtureState::Spawner(kind),
        turn != actor ==> now.actors()[actor] == was.actors()[actor],
        turn >= actor ==> {
            &&& now.actors()[actor].player.holding == Some(made)
            &&& !now.actors()[actor].player.pickup_action
            &&& now.item_live(made)
            &&& now.items().record(made) == (ItemRecord {
                item: kind,
                owner: ItemOwner::Actor(actor as usize),
            })
        },
{
    was.lemma_counts_fit();
    let player = was.actors()[turn].player;
    if turn > actor {
        assert(was.holds(ItemOwner::Actor(actor as usize), made));
    }
    if player.pickup_action {
        match player.holding {
            Some(held) => {
                assert(was.holds(ItemOwner::Actor(turn as usize), held));
                lemma_first_responding_responds(was, was.reach(turn), Probe::Consume);
            },
            None => {
                lemma_first_responding_responds(was, was.reach(turn), Probe::Pickup);
                if turn == actor {
                    assert(was.first_responding(was.reach(actor), Probe::Pickup) == Some(spawner));
                } else {
                    let target = was.first_responding(was.reach(turn), Probe::Pickup);
                    if target is Some {
                        let stored = was.fixtures()[target->0 as int].fixture.stored();
                        if stored is Some && was.fixture_alive(target->0) {
                            assert(was.holds(ItemOwner::Fixture(target->0), stored->0));
                        }
                    }
                }
            },
        }
    }
}

proof fn lemma_awaiting_spawner(
    before: &World,
    trace: Seq<World>,
    count: int,
    done: int,
    actor: int,
    spawner: FixtureId,
    kind: Item,
)
    requires
        before.system_trace(System::Pickup, &trace[count], count, trace),
        count == before.actors().len(),
        0 <= done <= count,
        0 <= actor < count,
        before.actors()[actor].player.holding is None,
        before.actors()[actor].player.pickup_action,
        before.reach(actor) == seq![spawner],
        before.fixture_alive(spawner),
        before.fixture_state(spawner) == FixtureState::Spawner(kind),
    ensures
        awaiting_spawner(before, trace, done, actor, spawner, kind),
    decreases done,
{
    reveal(World::system_trace);
    if done > 0 {
        let turn = done - 1;
        lemma_awaiting_spawner(before, trace, count, turn, actor, spawner, kind);
        assert(trace[turn].system_step(System::Pickup, &trace[turn + 1], turn));
        assert(trace[turn].wf() && trace[turn].actors().len() == count);
        if turn == actor {
            assert(trace[turn].reach(actor) == before.reach(actor));
        }
        trace[actor].lemma_counts_fit();
        lemma_turn_at_spawner(
            &trace[turn],
            &trace[done],
            turn,
            actor,
            spawner,
            kind,
            trace[actor].items()@.len() as usize,
        );
    }
}

/// An actor with free hands, its pickup flag set, and nothing in reach but
/// a spawner: when the pickup actions of all actors are through, it holds
/// an item that did not exist before, of the spawner's kind and owned by
/// it, its flag is cleared, and the spawner is as it was. What the other
/// actors did in the same pass changes none of this.
pub proof fn lemma_pickup_from_spawner(
    before: &World,
    after: &World,
    actor: int,
    spawner: FixtureId,
    kind: Item,
)
    requires
        before.wf(),
        0 <= actor < before.actors().len(),
        before.system_ran(System::Pickup, after, before.actors().len() as int),
        before.actors()[actor].player.holding is None,
        before.actors()[actor].player.pickup_action,
        before.reach(actor) == seq![spawner],
        before.fixture_alive(spawner),
        before.fixture_state(spawner) == FixtureState::Spawner(kind),
    ensures
        after.actors()[actor].player.holding is Some,
        !after.actors()[actor].player.pickup_action,
        after.actors()[actor].player.holding->0 >= before.items()@.len(),
        after.item_live(after.actors()[actor].player.holding->0),
        after.items().record(after.actors()[actor].player.holding->0) == (ItemRecord {
            item: kind,
            owner: ItemOwner::Actor(actor as usize),
        }),
        after.fixture_alive(spawner),
        after.fixture_state(spawner) == FixtureState::Spawner(kind),
{
    reveal(World::system_trace);
    let count = before.actors().len() as int;
    let trace = choose|trace: Seq<World>|
        #[trigger] before.system_trace(System::Pickup, after, count, trace);
    lemma_awaiting_spawner(before, trace, count, count, actor, spawner, kind);
}

} // verus!
