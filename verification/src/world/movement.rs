//! Input and movement: the intent of each actor, and where it leads on
//! the grid.

use vstd::prelude::*;
use super::{Actor, Passable, World};
use crate::player::{Actions, Player, PlayerHeading};
use crate::vector::{
    add_clamped, clamp_i32, div_toward_zero, mul_clamped, thousandth_clamped, IVec2, IVec3,
};

verus! {

impl World {
    /// `after` is this world after one frame of input; see
    /// [`World::steered`].
    pub open spec fn input_taken(&self, after: &World, actions: &Actions) -> bool {
        &&& self.only_actors_changed(after)
        &&& forall|actor: int|
            0 <= actor < self.actors().len() ==> #[trigger] after.actors()[actor] == Self::steered(
                self.actors()[actor],
                actions,
            )
    }

    /// `after` is this world after every actor moved for a frame that
    /// covers `step` world units; see [`World::moved`].
    pub open spec fn actors_moved(&self, after: &World, step: i32) -> bool {
        &&& self.only_actors_changed(after)
        &&& forall|actor: int|
            0 <= actor < self.actors().len() ==> #[trigger] after.actors()[actor] == self.moved(
                actor,
                step,
            )
    }

    /// Whether an actor may step onto cell `index`: a cell without a tile
    /// is free, a tile decides by its own flag.
    pub open spec fn enterable(&self, index: IVec2) -> bool {
        match self.map().occupant(index) {
            Some(tile) => self.tiles()[tile as int].tile.passable == Passable::Passable,
            None => true,
        }
    }

    /// The way an intent leads in one frame in which a unit intent covers
    /// `step` world units, in thousandths of a world unit.
    pub open spec fn drift(intent: IVec2, step: i32) -> IVec2 {
        IVec2 {
            x: clamp_i32(intent.x * step) as i32,
            y: clamp_i32(intent.y * step) as i32,
        }
    }

    /// The way an intent leads in one frame in which a unit intent covers
    /// `step` world units: the intent counts thousandths, and what is left
    /// of a world unit is dropped.
    pub open spec fn displacement(intent: IVec2, step: i32) -> IVec2 {
        IVec2 {
            x: clamp_i32(div_toward_zero(intent.x * step, 1000)) as i32,
            y: clamp_i32(div_toward_zero(intent.y * step, 1000)) as i32,
        }
    }

    /// The actor after one frame of movement. Without an intent only the
    /// sprite follows the heading. With one, the heading follows the
    /// direction of the intent, however short the way; the actor moves
    /// freely within its tile, and onto another tile only if that one may
    /// be entered, taking its layer.
    pub open spec fn moved(&self, actor: int, step: i32) -> Actor {
        let before = self.actors()[actor];
        match before.player.movement {
            None => Actor {
                player: before.player,
                npc: before.npc,
                position: before.position,
                animation: before.animation,
                sprite_index: before.player.heading.spec_sprite_index(),
                user_controllable: before.user_controllable,
            },
            Some(intent) => {
                let movement = Self::displacement(intent, step);
                let heading = PlayerHeading::spec_from_vec(Self::drift(intent, step));
                let target = IVec3 {
                    x: clamp_i32(before.position.x + movement.x) as i32,
                    y: clamp_i32(before.position.y + movement.y) as i32,
                    z: before.position.z,
                };
                let to = self.map().spec_camera_to_tile(self.spec_origin(), target);
                Actor {
                    player: Player { heading, ..before.player },
                    npc: before.npc,
                    position: if to == self.here(actor) {
                        target
                    } else if self.enterable(to) {
                        IVec3 { z: self.map().spec_tile_z(to) as i32, ..target }
                    } else {
                        before.position
                    },
                    animation: before.animation,
                    sprite_index: heading.spec_sprite_index(),
                    user_controllable: before.user_controllable,
                }
            },
        }
    }

    /// Moves one actor by its intent, for a frame that covers `step` world
    /// units; see [`World::moved`].
    pub fn move_player_for(&mut self, actor: usize, step: i32)
        requires
            old(self).wf(),
            actor < old(self).actors().len(),
        ensures
            final(self).wf(),
            old(self).only_actor_changed(
                final(self),
                actor as int,
                old(self).moved(actor as int, step),
            ),
    {
        let heading: PlayerHeading = self.actors[actor].player.heading;
        self.actors[actor].sprite_index = heading.sprite_index();
        match self.actors[actor].player.movement {
            None => {},
            Some(player_movement) => {
                let drift: IVec2 = IVec2 {
                    x: mul_clamped(player_movement.x, step),
                    y: mul_clamped(player_movement.y, step),
                };
                let movement: IVec2 = IVec2 {
                    x: thousandth_clamped(player_movement.x, step),
                    y: thousandth_clamped(player_movement.y, step),
                };
                let heading: PlayerHeading = PlayerHeading::from_vec(drift);
                self.actors[actor].player.heading = heading;
                self.actors[actor].sprite_index = heading.sprite_index();
                let position: IVec3 = self.actors[actor].position;
                let new_translation: IVec3 = IVec3 {
                    x: add_clamped(position.x, movement.x),
                    y: add_clamped(position.y, movement.y),
                    z: position.z,
                };
                let new_tile: IVec2 = self.tile_map.camera_to_tile(self.origin, new_translation);
                if new_tile == self.tile_map.camera_to_tile(self.origin, position) {
                    self.actors[actor].position = new_translation;
                } else {
                    let free: bool = match self.tile_map.tile_at(new_tile) {
                        Some(tile_entity) => {
                            assert(self.tile_alive(tile_entity));
                            match self.tiles[tile_entity].tile.passable {
                                Passable::Passable => true,
                                Passable::Blocking => false,
                            }
                        },
                        None => true,
                    };
                    if free {
                        self.actors[actor].position = IVec3 {
                            x: new_translation.x,
                            y: new_translation.y,
                            z: self.tile_map.tile_z(&new_tile),
                        };
                    }
                }
            },
        }
        proof {
            assert(self.actors() =~= old(self).actors().update(
                actor as int,
                old(self).moved(actor as int, step),
            ));
            old(self).lemma_actor_only(self, actor);
        }
    }

    /// Takes over one frame of input for the actors under the input
    /// devices.
    pub fn handle_actions(&mut self, actions: &Actions)
        requires
            old(self).wf(),
        ensures
            final(self).wf(),
            old(self).input_taken(final(self), actions),
    {
        let count: usize = self.actors.len();
        let mut actor: usize = 0;
        while actor < count
            invariant
                actor <= count,
                count == old(self).actors().len(),
                self.actors().len() == count,
                self.wf(),
                self.map() == old(self).map(),
                self.spec_origin() == old(self).spec_origin(),
                self.tiles() == old(self).tiles(),
                self.fixtures() == old(self).fixtures(),
                self.items() == old(self).items(),
                self.animations() == old(self).animations(),
                forall|other: int|
                    0 <= other < actor ==> #[trigger] self.actors()[other] == Self::steered(
                        old(self).actors()[other],
                        actions,
                    ),
                forall|other: int|
                    actor <= other < count ==> #[trigger] self.actors()[other] == old(self).actors()[other],
            decreases count - actor,
        {
            let ghost before = *self;
            if self.actors[actor].user_controllable {
                self.actors[actor].player.handle_actions(actions);
            }
            proof {
                assert(self.actors() =~= before.actors().update(
                    actor as int,
                    Self::steered(before.actors()[actor as int], actions),
                ));
                before.lemma_actor_only(self, actor);
            }
            actor = actor + 1;
        }
    }

    /// An actor after one frame of input: one under the input devices
    /// takes the steering and the rising edges of the buttons, another is
    /// left alone.
    pub open spec fn steered(actor: Actor, actions: &Actions) -> Actor {
        if actor.user_controllable {
            Actor {
                player: Player {
                    movement: actions.player_movement,
                    pickup_action: actions.pick_up.0 && !actions.pick_up.1,
                    interact_action: actions.interact.0 && !actions.interact.1,
                    ..actor.player
                },
                npc: actor.npc,
                position: actor.position,
                animation: actor.animation,
                sprite_index: actor.sprite_index,
                user_controllable: actor.user_controllable,
            }
        } else {
            actor
        }
    }

    /// Moves every actor by its intent; see [`World::moved`].
    pub fn move_player(&mut self, step: i32)
        requires
            old(self).wf(),
        ensures
            final(self).wf(),
            old(self).actors_moved(final(self), step),
    {
        let count: usize = self.actors.len();
        let mut actor: usize = 0;
        while actor < count
            invariant
                actor <= count,
                count == old(self).actors().len(),
                self.actors().len() == count,
                self.wf(),
                self.map() == old(self).map(),
                self.spec_origin() == old(self).spec_origin(),
                self.tiles() == old(self).tiles(),
                self.fixtures() == old(self).fixtures(),
                self.items() == old(self).items(),
                self.animations() == old(self).animations(),
                forall|other: int|
                    0 <= other < actor ==> #[trigger] self.actors()[other] == old(self).moved(
                        other,
                        step,
                    ),
                forall|other: int|
                    actor <= other < count ==> #[trigger] self.actors()[other] == old(self).actors()[other],
            decreases count - actor,
        {
            let ghost before = *self;
            self.move_player_for(actor, step);
            proof {
                assert(before.moved(actor as int, step) == old(self).moved(actor as int, step));
            }
            actor = actor + 1;
        }
    }
}

} // verus!
