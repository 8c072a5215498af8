//! What every actor has, whether a person steers it or not: a heading, an
//! intent to move, a slot for one held item, a pending order, and the two
//! action flags.

use vstd::prelude::*;
use crate::item::{Item, ItemId};
use crate::vector::IVec2;

verus! {

/// The direction an actor faces. `Up` is toward greater `y` in world
/// space, which is toward row 0 of the grid.
#[derive(Clone, Copy, Debug, PartialEq, Eq, Structural)]
pub enum PlayerHeading {
    Down,
    Up,
    Left,
    Right,
}

impl PlayerHeading {
    /// The heading of a movement in world space: the vertical sign decides
    /// first, then the horizontal one; a zero vector faces down.
    pub open spec fn spec_from_vec(movement: IVec2) -> PlayerHeading {
        if movement.y < 0 {
            PlayerHeading::Down
        } else if movement.y > 0 {
            PlayerHeading::Up
        } else if movement.x < 0 {
            PlayerHeading::Left
        } else if movement.x > 0 {
            PlayerHeading::Right
        } else {
            PlayerHeading::Down
        }
    }

    /// One step in this direction, in world space.
    pub open spec fn world_direction(&self) -> IVec2 {
        match self {
            PlayerHeading::Down => IVec2 { x: 0, y: -1i32 },
            PlayerHeading::Up => IVec2 { x: 0, y: 1 },
            PlayerHeading::Left => IVec2 { x: -1i32, y: 0 },
            PlayerHeading::Right => IVec2 { x: 1, y: 0 },
        }
    }

    /// One tile in this direction, as an offset between tile indices. Rows
    /// count downwards, so facing up is toward the row before.
    pub open spec fn spec_as_offset(&self) -> IVec2 {
        match self {
            PlayerHeading::Down => IVec2 { x: 0, y: 1 },
            PlayerHeading::Up => IVec2 { x: 0, y: -1i32 },
            PlayerHeading::Left => IVec2 { x: -1i32, y: 0 },
            PlayerHeading::Right => IVec2 { x: 1, y: 0 },
        }
    }

    pub open spec fn spec_sprite_index(&self) -> usize {
        match self {
            PlayerHeading::Down => 0,
            PlayerHeading::Up => 1,
            PlayerHeading::Left => 2,
            PlayerHeading::Right => 3,
        }
    }

    /// Where a held item is drawn, relative to the actor who holds it.
    pub open spec fn spec_held_offset(&self) -> IVec2 {
        match self {
            PlayerHeading::Down => IVec2 { x: -4i32, y: 16 },
            PlayerHeading::Up => IVec2 { x: 4, y: 16 },
            PlayerHeading::Left => IVec2 { x: -8i32, y: 16 },
            PlayerHeading::Right => IVec2 { x: 0, y: 16 },
        }
    }

    pub fn from_vec(movement: IVec2) -> (heading: Self)
        ensures
            heading == Self::spec_from_vec(movement),
    {
        if movement.y < 0 {
            PlayerHeading::Down
        } else if movement.y > 0 {
            PlayerHeading::Up
        } else if movement.x < 0 {
            PlayerHeading::Left
        } else if movement.x > 0 {
            PlayerHeading::Right
        } else {
            PlayerHeading::Down
        }
    }

    #[verifier::when_used_as_spec(spec_sprite_index)]
    pub fn sprite_index(&self) -> (index: usize)
        ensures
            index == self.spec_sprite_index(),
    {
        match self {
            PlayerHeading::Down => 0,
            PlayerHeading::Up => 1,
            PlayerHeading::Left => 2,
            PlayerHeading::Right => 3,
        }
    }

    #[verifier::when_used_as_spec(spec_as_offset)]
    pub fn as_offset(&self) -> (offset: IVec2)
        ensures
            offset == self.spec_as_offset(),
    {
        match self {
            PlayerHeading::Down => IVec2 { x: 0, y: 1 },
            PlayerHeading::Up => IVec2 { x: 0, y: -1 },
            PlayerHeading::Left => IVec2 { x: -1, y: 0 },
            PlayerHeading::Right => IVec2 { x: 1, y: 0 },
        }
    }

    #[verifier::when_used_as_spec(spec_held_offset)]
    pub fn held_offset(&self) -> (offset: IVec2)
        ensures
            offset == self.spec_held_offset(),
    {
        match self {
            PlayerHeading::Down => IVec2 { x: -4, y: 16 },
            PlayerHeading::Up => IVec2 { x: 4, y: 16 },
            PlayerHeading::Left => IVec2 { x: -8, y: 16 },
            PlayerHeading::Right => IVec2 { x: 0, y: 16 },
        }
    }
}

/// The facing offset between tiles is the world direction with `y`
/// mirrored, as the transform to tile space mirrors it; and a movement in a
/// heading's own direction gives that heading back.
pub proof fn lemma_heading_offset_mirrors_direction(heading: PlayerHeading)
    ensures
        heading.spec_as_offset().x == heading.world_direction().x,
        heading.spec_as_offset().y == -heading.world_direction().y,
        PlayerHeading::spec_from_vec(heading.world_direction()) == heading,
{
}

/// What the input devices report for one frame: the steering, as a unit
/// vector in thousandths, and for each button whether it is down now and
/// whether it was down the frame before.
#[derive(Clone, Copy, Debug)]
pub struct Actions {
    pub player_movement: Option<IVec2>,
    pub pick_up: (bool, bool),
    pub interact: (bool, bool),
}

#[derive(Clone, Copy, Debug, PartialEq, Eq, Structural)]
pub struct Player {
    /// The direction the actor wants to move in, in world space: a unit
    /// vector in thousandths, so that `(1000, 0)` is a full step to the
    /// right.
    pub movement: Option<IVec2>,
    pub holding: Option<ItemId>,
    /// The order shown above the actor. It describes an item; it is none.
    pub requesting: Option<Item>,
    pub heading: PlayerHeading,
    pub pickup_action: bool,
    pub interact_action: bool,
}

impl Default for Player {
    fn default() -> (player: Player)
        ensures
            player == (Player {
                movement: None,
                holding: None,
                requesting: None,
                heading: PlayerHeading::Down,
                pickup_action: false,
                interact_action: false,
            }),
    {
        Player {
            movement: None,
            holding: None,
            requesting: None,
            heading: PlayerHeading::Down,
            pickup_action: false,
            interact_action: false,
        }
    }
}

impl Player {
    pub fn hold_item(&mut self, item_entity: ItemId)
        ensures
            *final(self) == (Player { holding: Some(item_entity), ..*old(self) }),
    {
        self.holding = Some(item_entity);
    }

    /// Shows `item` as this actor's order.
    pub fn request(&mut self, item: Item)
        ensures
            *final(self) == (Player { requesting: Some(item), ..*old(self) }),
    {
        self.requesting = Some(item);
    }

    pub fn stop_requesting(&mut self)
        ensures
            *final(self) == (Player { requesting: None, ..*old(self) }),
    {
        self.requesting = None;
    }

    /// Takes over one frame of input. An action fires only on the frame in
    /// which its button went down.
    pub fn handle_actions(&mut self, actions: &Actions)
        ensures
            *final(self) == (Player {
                movement: actions.player_movement,
                pickup_action: actions.pick_up.0 && !actions.pick_up.1,
                interact_action: actions.interact.0 && !actions.interact.1,
                ..*old(self)
            }),
    {
        self.pickup_action = actions.pick_up.0 == true && actions.pick_up.1 == false;
        self.interact_action = actions.interact.0 == true && actions.interact.1 == false;
        self.movement = actions.player_movement;
    }
}

} // verus!
