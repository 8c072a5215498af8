//! Items and the table that keeps them. An item is a kind with an optional
//! payload; the table gives each item a handle and records the one slot that
//! owns it.

use vstd::prelude::*;

verus! {

/// The handle of an item: its index in the [`ItemRegistry`].
pub type ItemId = usize;

/// One whole point of a stat, in the fixed-point units that [`Stats`] counts.
pub const STAT_UNIT: i64 = 10_000;

/// The nearest value to `v` that an `i64` can hold.
pub open spec fn clamp_i64(v: int) -> int {
    if v < i64::MIN as int {
        i64::MIN as int
    } else if v > i64::MAX as int {
        i64::MAX as int
    } else {
        v
    }
}

/// Addition that stops at the ends of the `i64` range.
pub fn add_clamped_i64(a: i64, b: i64) -> (r: i64)
    ensures
        r as int == clamp_i64(a as int + b as int),
{
    let wide: i128 = a as i128 + b as i128;
    if wide < i64::MIN as i128 {
        i64::MIN
    } else if wide > i64::MAX as i128 {
        i64::MAX
    } else {
        wide as i64
    }
}

/// What drives an actor's choices, or what a drink changes in them. Each
/// field counts ten-thousandths of a point ([`STAT_UNIT`] to the point).
#[derive(Clone, Copy, Debug, PartialEq, Eq, Structural)]
pub struct Stats {
    /// How quenched or thirsty. Low is thirsty.
    pub quench: i64,
    /// Happy or sad. Positive is happy.
    pub mood: i64,
    /// How inebriated. Sober is 0 or below.
    pub drunk: i64,
}

impl Stats {
    /// The field-wise sum, each field clamped to the `i64` range.
    pub open spec fn spec_add(self, other: Stats) -> Stats {
        Stats {
            quench: clamp_i64(self.quench + other.quench) as i64,
            mood: clamp_i64(self.mood + other.mood) as i64,
            drunk: clamp_i64(self.drunk + other.drunk) as i64,
        }
    }

    pub fn new(quench: i64, mood: i64, drunk: i64) -> (stats: Stats)
        ensures
            stats == (Stats { quench, mood, drunk }),
    {
        Stats { quench, mood, drunk }
    }

    #[verifier::when_used_as_spec(spec_add)]
    pub fn add(self, other: Stats) -> (sum: Stats)
        ensures
            sum == self.spec_add(other),
    {
        Stats {
            quench: add_clamped_i64(self.quench, other.quench),
            mood: add_clamped_i64(self.mood, other.mood),
            drunk: add_clamped_i64(self.drunk, other.drunk),
        }
    }

    pub fn add_assign(&mut self, other: Stats)
        ensures
            *final(self) == old(self).spec_add(other),
    {
        *self = self.add(other);
    }
}

impl Default for Stats {
    fn default() -> (stats: Stats)
        ensures
            stats == (Stats { quench: 0, mood: 0, drunk: 0 }),
    {
        Stats { quench: 0, mood: 0, drunk: 0 }
    }
}

/// A mixed drink: what it does to the one who drinks it.
#[derive(Clone, Copy, Debug, PartialEq, Eq, Structural)]
pub struct Beverage {
    pub stats: Stats,
}

impl Default for Beverage {
    fn default() -> (beverage: Beverage)
        ensures
            beverage == (Beverage { stats: Stats { quench: 0, mood: 0, drunk: 0 } }),
    {
        Beverage { stats: Stats { quench: 0, mood: 0, drunk: 0 } }
    }
}

/// The kind of an item, with its payload.
#[derive(Clone, Copy, Debug, PartialEq, Eq, Structural)]
pub enum Item {
    Orange,
    Banana,
    Beverage(Beverage),
}

/// The slot that owns an item. An item has exactly one.
#[derive(Clone, Copy, Debug, PartialEq, Eq, Structural)]
pub enum ItemOwner {
    /// It lies on the tile with this handle.
    Cell(usize),
    /// The actor with this index holds it.
    Actor(usize),
    /// The fixture with this handle stores it.
    Fixture(usize),
}

/// An item as the table keeps it.
#[derive(Clone, Copy, Debug, PartialEq, Eq, Structural)]
pub struct ItemRecord {
    pub item: Item,
    pub owner: ItemOwner,
}

/// The table of items. A handle is never given out twice: the entry of a
/// destroyed item stays behind, empty.
pub struct ItemRegistry {
    slots: Vec<Option<ItemRecord>>,
}

impl View for ItemRegistry {
    type V = Seq<Option<ItemRecord>>;

    closed spec fn view(&self) -> Seq<Option<ItemRecord>> {
        self.slots@
    }
}

impl ItemRegistry {
    /// Whether `id` names an item that exists.
    pub open spec fn live(&self, id: ItemId) -> bool {
        id < self@.len() && self@[id as int] is Some
    }

    /// The record of a live item.
    pub open spec fn record(&self, id: ItemId) -> ItemRecord
        recommends
            self.live(id),
    {
        self@[id as int]->0
    }

    /// An item is shown exactly while an actor holds it.
    pub open spec fn spec_visible(&self, id: ItemId) -> bool {
        self.live(id) && self.record(id).owner is Actor
    }

    /// The table never has more entries than a handle can name.
    pub proof fn lemma_count_fits(&self)
        ensures
            self@.len() <= usize::MAX,
    {
        assert(self.slots.len() == self.slots@.len());
    }

    pub fn new() -> (registry: ItemRegistry)
        ensures
            registry@.len() == 0,
    {
        ItemRegistry { slots: Vec::new() }
    }

    /// How many handles were given out so far.
    pub fn len(&self) -> (n: usize)
        ensures
            n == self@.len(),
    {
        self.slots.len()
    }

    /// The record of `id`, if it names an item that exists.
    pub fn get(&self, id: ItemId) -> (found: Option<ItemRecord>)
        ensures
            found is Some <==> self.live(id),
            found is Some ==> found->0 == self.record(id),
    {
        if id < self.slots.len() {
            self.slots[id]
        } else {
            None
        }
    }

    pub fn visible(&self, id: ItemId) -> (shown: bool)
        ensures
            shown == self.spec_visible(id),
    {
        match self.get(id) {
            Some(record) => match record.owner {
                ItemOwner::Actor(_) => true,
                _ => false,
            },
            None => false,
        }
    }

    /// Creates an item owned by `owner`; its handle is the next unused one.
    pub fn spawn(&mut self, item: Item, owner: ItemOwner) -> (id: ItemId)
        ensures
            id == old(self)@.len(),
            final(self)@ == old(self)@.push(Some(ItemRecord { item, owner })),
    {
        let id: ItemId = self.slots.len();
        self.slots.push(Some(ItemRecord { item, owner }));
        id
    }

    /// Destroys the item `id`.
    pub fn despawn(&mut self, id: ItemId)
        requires
            old(self).live(id),
        ensures
            final(self)@ == old(self)@.update(id as int, None),
    {
        self.slots[id] = None;
    }

    /// Hands the item `id` to another owner.
    pub fn set_owner(&mut self, id: ItemId, owner: ItemOwner)
        requires
            old(self).live(id),
        ensures
            final(self)@ == old(self)@.update(
                id as int,
                Some(ItemRecord { item: old(self).record(id).item, owner }),
            ),
    {
        let record: ItemRecord = self.slots[id].unwrap();
        self.slots[id] = Some(ItemRecord { item: record.item, owner });
    }
}

impl Item {
    /// Creates this item lying on the tile `cell`.
    pub fn spawn(self, cell: usize, items: &mut ItemRegistry) -> (id: ItemId)
        ensures
            id == old(items)@.len(),
            final(items)@ == old(items)@.push(
                Some(ItemRecord { item: self, owner: ItemOwner::Cell(cell) }),
            ),
    {
        self.spawn_internal(ItemOwner::Cell(cell), items)
    }

    /// Creates this item in the slot `owner`.
    pub fn spawn_internal(self, owner: ItemOwner, items: &mut ItemRegistry) -> (id: ItemId)
        ensures
            id == old(items)@.len(),
            final(items)@ == old(items)@.push(Some(ItemRecord { item: self, owner })),
    {
        items.spawn(self, owner)
    }
}

} // verus!
