//! The fixtures that stand on tiles and trade items with actors: the
//! spawner, the mixer, the container and the trash. Each offers three
//! operations, `pickup`, `consume` and `interact`, whose effect on the
//! fixture is a function of its state alone.

use vstd::prelude::*;
use crate::item::{Beverage, Item, ItemId, ItemOwner, ItemRecord, ItemRegistry, Stats};

verus! {

/// The handle of a fixture: its index in the table of fixtures.
pub type FixtureId = usize;

/// What a fixture is, as the contracts see it.
pub enum FixtureState {
    Spawner(Item),
    Mixer { accumulated: Seq<Item>, result: Option<Item> },
    Container { holding: Option<ItemId> },
    Trash,
}

/// The three things an actor can try on a fixture.
#[derive(Clone, Copy, Debug, PartialEq, Eq, Structural)]
pub enum Probe {
    /// Take an item from it.
    Pickup,
    /// Give it an item.
    Consume,
    /// Trigger its own action.
    Interact,
}

/// The drink that mixing yields.
pub open spec fn mixed_drink() -> Item {
    Item::Beverage(Beverage { stats: Stats { quench: 0, mood: 0, drunk: 0 } })
}

impl FixtureState {
    /// Whether `pickup` yields an item.
    pub open spec fn pickup_yields(self) -> bool {
        match self {
            FixtureState::Spawner(_) => true,
            FixtureState::Mixer { result, .. } => result is Some,
            FixtureState::Container { holding } => holding is Some,
            FixtureState::Trash => false,
        }
    }

    /// The fixture after `pickup`.
    pub open spec fn after_pickup(self) -> FixtureState {
        match self {
            FixtureState::Mixer { accumulated, .. } => FixtureState::Mixer {
                accumulated,
                result: None,
            },
            FixtureState::Container { .. } => FixtureState::Container { holding: None },
            _ => self,
        }
    }

    /// The item that `pickup` yields, where the table of items has `count`
    /// entries: a stored item leaves under its own handle, a made one gets
    /// the next handle.
    pub open spec fn picked(self, count: nat) -> Option<ItemId> {
        match self {
            FixtureState::Spawner(_) => Some(count as usize),
            FixtureState::Mixer { result, .. } => if result is Some {
                Some(count as usize)
            } else {
                None
            },
            FixtureState::Container { holding } => holding,
            FixtureState::Trash => None,
        }
    }

    /// The table of items after `pickup` on behalf of `actor`.
    pub open spec fn items_after_pickup(
        self,
        actor: usize,
        items: Seq<Option<ItemRecord>>,
    ) -> Seq<Option<ItemRecord>> {
        match self {
            FixtureState::Spawner(item) => items.push(
                Some(ItemRecord { item, owner: ItemOwner::Actor(actor) }),
            ),
            FixtureState::Mixer { result: Some(item), .. } => items.push(
                Some(ItemRecord { item, owner: ItemOwner::Actor(actor) }),
            ),
            FixtureState::Container { holding: Some(id) } => items.update(
                id as int,
                Some(ItemRecord { item: items[id as int]->0.item, owner: ItemOwner::Actor(actor) }),
            ),
            _ => items,
        }
    }

    /// Whether `consume` accepts an item.
    pub open spec fn accepts(self) -> bool {
        match self {
            FixtureState::Spawner(_) => false,
            FixtureState::Mixer { .. } => true,
            FixtureState::Container { holding } => holding is None,
            FixtureState::Trash => true,
        }
    }

    /// The fixture after `consume` was offered the item `id` of kind `item`.
    pub open spec fn after_consume(self, item: Item, id: ItemId) -> FixtureState {
        match self {
            FixtureState::Mixer { accumulated, result } => FixtureState::Mixer {
                accumulated: accumulated.push(item),
                result,
            },
            FixtureState::Container { holding: None } => FixtureState::Container {
                holding: Some(id),
            },
            _ => self,
        }
    }

    /// The table of items after the fixture with handle `fixture` was
    /// offered the item `id`: destroyed by a mixer or the trash, stored by
    /// an empty container, untouched otherwise.
    pub open spec fn items_after_consume(
        self,
        fixture: FixtureId,
        id: ItemId,
        items: Seq<Option<ItemRecord>>,
    ) -> Seq<Option<ItemRecord>> {
        match self {
            FixtureState::Mixer { .. } => items.update(id as int, None),
            FixtureState::Trash => items.update(id as int, None),
            FixtureState::Container { holding: None } => items.update(
                id as int,
                Some(
                    ItemRecord { item: items[id as int]->0.item, owner: ItemOwner::Fixture(fixture) },
                ),
            ),
            _ => items,
        }
    }

    /// Whether the fixture would go along with `probe`.
    pub open spec fn responds(self, probe: Probe) -> bool {
        match probe {
            Probe::Pickup => self.pickup_yields(),
            Probe::Consume => self.accepts(),
            Probe::Interact => self.interact_succeeds(),
        }
    }

    /// Whether `interact` does anything: only a mixer that has accumulated
    /// something mixes.
    pub open spec fn interact_succeeds(self) -> bool {
        match self {
            FixtureState::Mixer { accumulated, .. } => accumulated.len() > 0,
            _ => false,
        }
    }

    /// The fixture after `interact`.
    pub open spec fn after_interact(self) -> FixtureState {
        match self {
            FixtureState::Mixer { accumulated, result } => if accumulated.len() > 0 {
                FixtureState::Mixer { accumulated: Seq::empty(), result: Some(mixed_drink()) }
            } else {
                self
            },
            _ => self,
        }
    }
}

pub struct Mixer {
    contains: Vec<Item>,
    result: Option<Item>,
}

impl Mixer {
    /// What was put in since the last mixing, in order.
    pub closed spec fn accumulated(&self) -> Seq<Item> {
        self.contains@
    }

    /// The drink waiting to be picked up, if any.
    pub closed spec fn spec_result(&self) -> Option<Item> {
        self.result
    }

    pub fn new() -> (mixer: Self)
        ensures
            mixer.accumulated() == Seq::<Item>::empty(),
            mixer.spec_result() is None,
    {
        Mixer { contains: Vec::new(), result: None }
    }

    pub fn add(&mut self, item: Item)
        ensures
            final(self).accumulated() == old(self).accumulated().push(item),
            final(self).spec_result() == old(self).spec_result(),
    {
        self.contains.push(item);
    }

    /// Turns what was accumulated into a drink; does nothing on an empty
    /// mixer.
    pub fn mix(&mut self) -> (mixed: bool)
        ensures
            mixed == (old(self).accumulated().len() > 0),
            mixed ==> final(self).accumulated() == Seq::<Item>::empty()
                && final(self).spec_result() == Some(mixed_drink()),
            !mixed ==> final(self).accumulated() == old(self).accumulated()
                && final(self).spec_result() == old(self).spec_result(),
    {
        if self.contains.len() > 0 {
            self.contains.clear();
            self.result = Some(Item::Beverage(Beverage { stats: Stats::default() }));
            true
        } else {
            false
        }
    }

    pub fn pickup(&mut self) -> (taken: Option<Item>)
        ensures
            taken == old(self).spec_result(),
            final(self).spec_result() is None,
            final(self).accumulated() == old(self).accumulated(),
    {
        let taken: Option<Item> = self.result;
        self.result = None;
        taken
    }

    #[verifier::when_used_as_spec(spec_result)]
    pub fn result(&self) -> (result: Option<Item>)
        ensures
            result == self.spec_result(),
    {
        self.result
    }

    /// How many items were put in since the last mixing.
    pub fn len(&self) -> (n: usize)
        ensures
            n == self.accumulated().len(),
    {
        self.contains.len()
    }
}

pub struct Container {
    holding: Option<ItemId>,
}

impl Container {
    pub closed spec fn spec_holding(&self) -> Option<ItemId> {
        self.holding
    }

    pub fn new() -> (container: Self)
        ensures
            container.spec_holding() is None,
    {
        Container { holding: None }
    }

    #[verifier::when_used_as_spec(spec_holding)]
    pub fn holding(&self) -> (holding: Option<ItemId>)
        ensures
            holding == self.spec_holding(),
    {
        self.holding
    }
}

pub enum Interactable {
    Spawner(Item),
    Mixer(Mixer),
    Container(Container),
    Trash,
}

impl View for Interactable {
    type V = FixtureState;

    open spec fn view(&self) -> FixtureState {
        match self {
            Interactable::Spawner(item) => FixtureState::Spawner(*item),
            Interactable::Mixer(mixer) => FixtureState::Mixer {
                accumulated: mixer.accumulated(),
                result: mixer.spec_result(),
            },
            Interactable::Container(container) => FixtureState::Container {
                holding: container.spec_holding(),
            },
            Interactable::Trash => FixtureState::Trash,
        }
    }
}

impl Interactable {
    /// The item that the fixture stores, if it stores one.
    pub open spec fn stored(&self) -> Option<ItemId> {
        match self@ {
            FixtureState::Container { holding } => holding,
            _ => None,
        }
    }

    /// Hands an item to `actor` if the fixture has one to give: a spawner
    /// makes a fresh one each time, a mixer gives its drink, a container
    /// gives what it stores.
    pub fn pickup(&mut self, actor: usize, items: &mut ItemRegistry) -> (picked: Option<ItemId>)
        requires
            old(self).stored() matches Some(id) ==> old(items).live(id),
        ensures
            picked is Some <==> old(self)@.pickup_yields(),
            picked == old(self)@.picked(old(items)@.len()),
            final(self)@ == old(self)@.after_pickup(),
            final(items)@ == old(self)@.items_after_pickup(actor, old(items)@),
    {
        match self {
            Interactable::Spawner(item) => {
                let made: Item = *item;
                Some(made.spawn_internal(ItemOwner::Actor(actor), items))
            },
            Interactable::Mixer(mixer) => {
                // Pick up and create the item from the mixer if available.
                if let Some(item) = mixer.pickup() {
                    Some(item.spawn_internal(ItemOwner::Actor(actor), items))
                } else {
                    None
                }
            },
            Interactable::Container(container) => {
                match container.holding {
                    None => None,
                    Some(item_entity) => {
                        container.holding = None;
                        items.set_owner(item_entity, ItemOwner::Actor(actor));
                        Some(item_entity)
                    },
                }
            },
            Interactable::Trash => None,
        }
    }

    /// Offers the item `item_entity`, of kind `item`, to the fixture whose
    /// handle is `entity`. A mixer and the trash destroy it, an empty
    /// container stores it, and nothing else accepts it.
    pub fn consume(
        &mut self,
        entity: FixtureId,
        item: Item,
        item_entity: ItemId,
        items: &mut ItemRegistry,
    ) -> (accepted: bool)
        requires
            old(items).live(item_entity),
        ensures
            accepted == old(self)@.accepts(),
            final(self)@ == old(self)@.after_consume(item, item_entity),
            final(items)@ == old(self)@.items_after_consume(entity, item_entity, old(items)@),
    {
        match self {
            Interactable::Spawner(_) => false,
            Interactable::Mixer(mixer) => {
                mixer.add(item);
                items.despawn(item_entity);
                true
            },
            Interactable::Container(container) => {
                match container.holding {
                    Some(_) => false,
                    None => {
                        container.holding = Some(item_entity);
                        items.set_owner(item_entity, ItemOwner::Fixture(entity));
                        true
                    },
                }
            },
            Interactable::Trash => {
                items.despawn(item_entity);
                true
            },
        }
    }

    /// Triggers the fixture's own action. Only a mixer has one.
    pub fn interact(&mut self) -> (done: bool)
        ensures
            done == old(self)@.interact_succeeds(),
            final(self)@ == old(self)@.after_interact(),
    {
        match self {
            Interactable::Spawner(_) => false,
            Interactable::Mixer(mixer) => mixer.mix(),
            Interactable::Container(_) => false,
            Interactable::Trash => false,
        }
    }

    /// Whether the fixture would go along with `probe`, without trying.
    pub fn responds(&self, probe: Probe) -> (yes: bool)
        ensures
            yes == self@.responds(probe),
    {
        match self {
            Interactable::Spawner(_) => match probe {
                Probe::Pickup => true,
                _ => false,
            },
            Interactable::Mixer(mixer) => match probe {
                Probe::Pickup => mixer.result().is_some(),
                Probe::Consume => true,
                Probe::Interact => mixer.len() > 0,
            },
            Interactable::Container(container) => match probe {
                Probe::Pickup => container.holding().is_some(),
                Probe::Consume => container.holding().is_none(),
                Probe::Interact => false,
            },
            Interactable::Trash => match probe {
                Probe::Consume => true,
                _ => false,
            },
        }
    }

    /// Whether the fixture is a container.
    pub fn is_container(&self) -> (yes: bool)
        ensures
            yes == (self@ is Container),
    {
        match self {
            Interactable::Container(_) => true,
            _ => false,
        }
    }
}

/// A container accepts an item exactly when it is empty. Right after it
/// accepted one, `pickup` yields that very item and leaves the container
/// empty again.
pub proof fn lemma_container_round_trip(holding: Option<ItemId>, item: Item, id: ItemId)
    ensures
        (FixtureState::Container { holding }).accepts() <==> holding is None,
        holding is None ==> {
            let filled = (FixtureState::Container { holding }).after_consume(item, id);
            &&& filled.pickup_yields()
            &&& forall|count: nat| filled.picked(count) == Some(id)
            &&& filled.after_pickup() == (FixtureState::Container { holding: None })
        },
{
}

/// A mixer accepts every item. Mixing succeeds exactly when something was
/// accumulated, and then leaves nothing accumulated and a drink as the
/// result. `pickup` yields exactly when a result is set, and clears it.
pub proof fn lemma_mixer_cycle(accumulated: Seq<Item>, result: Option<Item>)
    ensures
        (FixtureState::Mixer { accumulated, result }).accepts(),
        (FixtureState::Mixer { accumulated, result }).interact_succeeds() <==> accumulated.len() > 0,
        accumulated.len() > 0 ==> (FixtureState::Mixer { accumulated, result }).after_interact() == (
        FixtureState::Mixer { accumulated: Seq::empty(), result: Some(mixed_drink()) }),
        (FixtureState::Mixer { accumulated, result }).pickup_yields() <==> result is Some,
        (FixtureState::Mixer { accumulated, result }).after_pickup() == (FixtureState::Mixer {
            accumulated,
            result: None,
        }),
{
}

/// A spawner is stateless: no operation changes it, and `pickup` always
/// yields.
pub proof fn lemma_spawner_is_stateless(template: Item, item: Item, id: ItemId)
    ensures
        FixtureState::Spawner(template).pickup_yields(),
        FixtureState::Spawner(template).after_pickup() == FixtureState::Spawner(template),
        !FixtureState::Spawner(template).accepts(),
        FixtureState::Spawner(template).after_consume(item, id) == FixtureState::Spawner(template),
        FixtureState::Spawner(template).after_interact() == FixtureState::Spawner(template),
{
}

} // verus!
