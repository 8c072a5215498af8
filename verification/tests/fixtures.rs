use lunas_libations::fixture::{Container, Interactable, Mixer, Probe};
use lunas_libations::item::{Beverage, Item, ItemOwner, ItemRecord, ItemRegistry, Stats};

fn held_by(actor: usize, item: Item, items: &mut ItemRegistry) -> usize {
    item.spawn_internal(ItemOwner::Actor(actor), items)
}

fn drink() -> Item {
    Item::Beverage(Beverage { stats: Stats::new(0, 0, 0) })
}

#[test]
fn registry_gives_each_item_the_next_handle() {
    let mut items = ItemRegistry::new();
    assert_eq!(items.len(), 0);
    assert_eq!(Item::Orange.spawn(4, &mut items), 0);
    assert_eq!(held_by(1, Item::Banana, &mut items), 1);
    assert_eq!(items.len(), 2);
    assert_eq!(
        items.get(0),
        Some(ItemRecord { item: Item::Orange, owner: ItemOwner::Cell(4) })
    );
    assert_eq!(
        items.get(1),
        Some(ItemRecord { item: Item::Banana, owner: ItemOwner::Actor(1) })
    );
    assert_eq!(items.get(2), None);
}

#[test]
fn registry_never_reuses_a_handle() {
    let mut items = ItemRegistry::new();
    let first = held_by(0, Item::Orange, &mut items);
    items.despawn(first);
    assert_eq!(items.get(first), None);
    let second = held_by(0, Item::Orange, &mut items);
    assert_ne!(first, second);
    assert_eq!(items.len(), 2);
}

#[test]
fn an_item_is_shown_exactly_while_an_actor_holds_it() {
    let mut items = ItemRegistry::new();
    let id = Item::Orange.spawn(0, &mut items);
    assert!(!items.visible(id));
    items.set_owner(id, ItemOwner::Actor(2));
    assert!(items.visible(id));
    items.set_owner(id, ItemOwner::Fixture(1));
    assert!(!items.visible(id));
    items.despawn(id);
    assert!(!items.visible(id));
    assert!(!items.visible(99));
}

#[test]
fn spawner_makes_a_fresh_item_each_time_and_stays_as_it_is() {
    let mut items = ItemRegistry::new();
    let mut spawner = Interactable::Spawner(Item::Banana);
    let first = spawner.pickup(3, &mut items);
    let second = spawner.pickup(3, &mut items);
    assert_eq!(first, Some(0));
    assert_eq!(second, Some(1));
    for id in [0, 1] {
        assert_eq!(
            items.get(id),
            Some(ItemRecord { item: Item::Banana, owner: ItemOwner::Actor(3) })
        );
    }
    assert!(matches!(spawner, Interactable::Spawner(Item::Banana)));
}

#[test]
fn spawner_never_accepts_and_has_no_action() {
    let mut items = ItemRegistry::new();
    let id = held_by(0, Item::Orange, &mut items);
    let mut spawner = Interactable::Spawner(Item::Banana);
    assert!(!spawner.consume(5, Item::Orange, id, &mut items));
    assert_eq!(
        items.get(id),
        Some(ItemRecord { item: Item::Orange, owner: ItemOwner::Actor(0) })
    );
    assert!(!spawner.interact());
    assert!(matches!(spawner, Interactable::Spawner(Item::Banana)));
}

#[test]
fn container_accepts_only_when_empty() {
    let mut items = ItemRegistry::new();
    let first = held_by(0, Item::Orange, &mut items);
    let second = held_by(0, Item::Banana, &mut items);
    let mut container = Interactable::Container(Container::new());
    assert!(container.consume(9, Item::Orange, first, &mut items));
    assert!(!container.consume(9, Item::Banana, second, &mut items));
    assert_eq!(
        items.get(first),
        Some(ItemRecord { item: Item::Orange, owner: ItemOwner::Fixture(9) })
    );
    assert_eq!(
        items.get(second),
        Some(ItemRecord { item: Item::Banana, owner: ItemOwner::Actor(0) })
    );
    match &container {
        Interactable::Container(inner) => assert_eq!(inner.holding(), Some(first)),
        _ => panic!("the container turned into something else"),
    }
}

#[test]
fn container_gives_back_the_very_item_and_is_empty_again() {
    let mut items = ItemRegistry::new();
    let id = held_by(0, Item::Orange, &mut items);
    let mut container = Interactable::Container(Container::new());
    assert_eq!(container.pickup(1, &mut items), None);
    assert!(container.consume(9, Item::Orange, id, &mut items));
    assert_eq!(container.pickup(1, &mut items), Some(id));
    assert_eq!(
        items.get(id),
        Some(ItemRecord { item: Item::Orange, owner: ItemOwner::Actor(1) })
    );
    assert_eq!(items.len(), 1);
    assert_eq!(container.pickup(1, &mut items), None);
    assert!(container.consume(9, Item::Orange, id, &mut items));
}

#[test]
fn container_has_no_action() {
    let mut container = Interactable::Container(Container::new());
    assert!(!container.interact());
}

#[test]
fn trash_destroys_what_it_is_given_and_gives_nothing() {
    let mut items = ItemRegistry::new();
    let id = held_by(0, Item::Orange, &mut items);
    let mut trash = Interactable::Trash;
    assert_eq!(trash.pickup(0, &mut items), None);
    assert!(trash.consume(2, Item::Orange, id, &mut items));
    assert_eq!(items.get(id), None);
    assert!(!trash.interact());
    assert_eq!(trash.pickup(0, &mut items), None);
}

#[test]
fn mixer_accepts_every_item_and_destroys_it() {
    let mut items = ItemRegistry::new();
    let mut mixer = Interactable::Mixer(Mixer::new());
    for kind in [Item::Orange, Item::Banana, drink(), Item::Orange] {
        let id = held_by(0, kind, &mut items);
        assert!(mixer.consume(1, kind, id, &mut items));
        assert_eq!(items.get(id), None);
    }
    match &mixer {
        Interactable::Mixer(inner) => {
            assert_eq!(inner.len(), 4);
            assert_eq!(inner.result(), None);
        }
        _ => panic!("the mixer turned into something else"),
    }
}

#[test]
fn empty_mixer_does_not_mix() {
    let mut items = ItemRegistry::new();
    let mut mixer = Interactable::Mixer(Mixer::new());
    assert!(!mixer.interact());
    assert_eq!(mixer.pickup(0, &mut items), None);
}

#[test]
fn two_items_mixed_give_a_beverage_that_can_be_picked_up_once() {
    let mut items = ItemRegistry::new();
    let mut mixer = Interactable::Mixer(Mixer::new());
    let orange = held_by(0, Item::Orange, &mut items);
    let banana = held_by(0, Item::Banana, &mut items);
    assert!(mixer.consume(1, Item::Orange, orange, &mut items));
    assert!(mixer.consume(1, Item::Banana, banana, &mut items));
    assert_eq!(mixer.pickup(0, &mut items), None);
    assert!(mixer.interact());
    match &mixer {
        Interactable::Mixer(inner) => {
            assert_eq!(inner.len(), 0);
            assert_eq!(inner.result(), Some(drink()));
        }
        _ => panic!("the mixer turned into something else"),
    }
    let picked = mixer.pickup(4, &mut items);
    assert_eq!(picked, Some(2));
    assert_eq!(
        items.get(2),
        Some(ItemRecord { item: drink(), owner: ItemOwner::Actor(4) })
    );
    match &mixer {
        Interactable::Mixer(inner) => assert_eq!(inner.result(), None),
        _ => panic!("the mixer turned into something else"),
    }
    assert_eq!(mixer.pickup(4, &mut items), None);
    assert!(!mixer.interact());
}

#[test]
fn mixer_by_itself() {
    let mut mixer = Mixer::new();
    assert!(!mixer.mix());
    mixer.add(Item::Orange);
    assert_eq!(mixer.len(), 1);
    assert_eq!(mixer.pickup(), None);
    assert!(mixer.mix());
    assert_eq!(mixer.len(), 0);
    assert_eq!(mixer.pickup(), Some(drink()));
    assert_eq!(mixer.pickup(), None);
}

#[test]
fn responds_tells_without_trying() {
    let mut items = ItemRegistry::new();
    let spawner = Interactable::Spawner(Item::Orange);
    assert!(spawner.responds(Probe::Pickup));
    assert!(!spawner.responds(Probe::Consume));
    assert!(!spawner.responds(Probe::Interact));
    let trash = Interactable::Trash;
    assert!(!trash.responds(Probe::Pickup));
    assert!(trash.responds(Probe::Consume));
    assert!(!trash.responds(Probe::Interact));
    let mut container = Interactable::Container(Container::new());
    assert!(!container.responds(Probe::Pickup));
    assert!(container.responds(Probe::Consume));
    let id = held_by(0, Item::Orange, &mut items);
    container.consume(0, Item::Orange, id, &mut items);
    assert!(container.responds(Probe::Pickup));
    assert!(!container.responds(Probe::Consume));
    assert!(container.is_container());
    let mut mixer = Interactable::Mixer(Mixer::new());
    assert!(mixer.responds(Probe::Consume));
    assert!(!mixer.responds(Probe::Interact));
    assert!(!mixer.responds(Probe::Pickup));
    let id = held_by(0, Item::Banana, &mut items);
    mixer.consume(1, Item::Banana, id, &mut items);
    assert!(mixer.responds(Probe::Interact));
    mixer.interact();
    assert!(mixer.responds(Probe::Pickup));
    assert!(!mixer.is_container());
}
