use world_cell::{BorrowError, Events, Mut, TypeId, World, BASE_ACCESS};

const TYPE_A: TypeId = TypeId(10);
const TYPE_B: TypeId = TypeId(u64::MAX);

fn count(world: &World, index: usize) -> Option<usize> {
    world.archetype_component_access.access.get(index).copied()
}

#[test]
fn identifiers_are_given_out_once() {
    let mut world = World::new();
    assert_eq!(world.components.get_resource_id(TYPE_A), None);
    let a = world.init_resource(TYPE_A);
    let b = world.init_resource(TYPE_B);
    assert_ne!(a, b);
    assert_eq!(a.index(), 0);
    assert_eq!(b.index(), 1);
    assert_eq!(world.init_resource(TYPE_A), a);
    assert_eq!(world.archetype_component_count, 2);
    assert_eq!(world.init_non_send_resource(TYPE_A), a);
    assert_eq!(world.archetype_component_count, 3);
    assert_eq!(world.components.get_resource_id(TYPE_A), Some(a));
    let id_a = world.get_resource_archetype_component_id(a).unwrap();
    let id_b = world.get_resource_archetype_component_id(b).unwrap();
    assert_ne!(id_a, id_b);
    assert_eq!(world.storages.non_send_resources.get(0).unwrap().id().index(), 2);
}

#[test]
fn component_without_resource_has_no_access_id() {
    let mut world = World::new();
    let a = world.init_non_send_resource(TYPE_A);
    assert_eq!(world.get_resource_archetype_component_id(a), None);
}

#[test]
fn missing_resources_are_not_recorded() {
    let mut world = World::new();
    world.init_non_send_resource(TYPE_A);
    world.init_resource(TYPE_B);
    let mut cell = world.cell();
    assert!(cell.get_resource::<u8, _>(TYPE_A, |_| panic!("fetched")).is_none());
    assert!(cell.get_resource_mut::<u8, _>(TYPE_A, |_| panic!("fetched")).is_none());
    assert!(cell.get_non_send_resource::<u8, _>(TYPE_B, |_| panic!("fetched")).is_none());
    assert!(cell.get_non_send_resource_mut::<u8, _>(TYPE_B, |_| panic!("fetched")).is_none());
    assert!(cell.get_resource::<u8, _>(TypeId(3), |_| panic!("fetched")).is_none());
    assert!(!cell.send_event(TypeId(3), |_| panic!("fetched"), 1u8));
    cell.drop();
    assert_eq!(world.archetype_component_access.access.len(), 0);
}

#[test]
fn conflicting_requests_are_refused() {
    let mut world = World::new();
    world.init_resource(TYPE_A);
    let value = 1u8;
    let (mut other, mut changed) = (2u8, 0);
    let mut cell = world.cell();

    let reader = cell.try_get_resource(TYPE_A, |_| Some(&value)).unwrap().unwrap();
    let refused = cell.try_get_resource_mut::<u8, _>(TYPE_A, |_| panic!("fetched"));
    assert_eq!(refused.err(), Some(BorrowError::Mutable));
    reader.drop(&mut cell.access);

    let access_to_other = Mut::new(&mut other, &mut changed, 1);
    let writer = cell.try_get_resource_mut(TYPE_A, |_| Some(access_to_other)).unwrap().unwrap();
    let refused = cell.try_get_resource_mut::<u8, _>(TYPE_A, |_| panic!("fetched"));
    assert_eq!(refused.err(), Some(BorrowError::Mutable));
    let refused = cell.try_get_resource::<u8, _>(TYPE_A, |_| panic!("fetched"));
    assert_eq!(refused.err(), Some(BorrowError::Immutable));
    let refused = cell.try_send_event_batch::<u8, _, _>(
        TYPE_A,
        |_| panic!("fetched"),
        || panic!("drawn"),
    );
    assert_eq!(refused.err(), Some(BorrowError::Mutable));
    writer.drop(&mut cell.access);

    cell.drop();
    assert_eq!(count(&world, 0), Some(BASE_ACCESS));
}

#[test]
fn conflicting_non_send_requests_are_refused() {
    let mut world = World::new();
    world.init_non_send_resource(TYPE_A);
    let value = 1u8;
    let (mut other, mut changed) = (2u8, 0);
    let mut cell = world.cell();

    let reader = cell.try_get_non_send_resource(TYPE_A, |_| Some(&value)).unwrap().unwrap();
    let refused = cell.try_get_non_send_resource_mut::<u8, _>(TYPE_A, |_| panic!("fetched"));
    assert_eq!(refused.err(), Some(BorrowError::Mutable));
    reader.drop(&mut cell.access);

    let access_to_other = Mut::new(&mut other, &mut changed, 1);
    let writer = cell.try_get_non_send_resource_mut(TYPE_A, |_| Some(access_to_other)).unwrap().unwrap();
    let refused = cell.try_get_non_send_resource::<u8, _>(TYPE_A, |_| panic!("fetched"));
    assert_eq!(refused.err(), Some(BorrowError::Immutable));
    writer.drop(&mut cell.access);
    cell.drop();
}

#[test]
fn send_and_non_send_are_apart() {
    let mut world = World::new();
    world.init_resource(TYPE_A);
    world.init_non_send_resource(TYPE_A);
    let (mut sendable, mut sendable_changed) = (1u8, 0);
    let (mut local, mut local_changed) = (2u8, 0);
    let mut cell = world.cell();
    let mut a = cell.resource_mut(TYPE_A, |_| {
        Some(Mut::new(&mut sendable, &mut sendable_changed, 1))
    });
    let mut b = cell.non_send_resource_mut(TYPE_A, |_| {
        Some(Mut::new(&mut local, &mut local_changed, 1))
    });
    *a += 10;
    *b += 20;
    a.drop(&mut cell.access);
    b.drop(&mut cell.access);
    let c = cell.non_send_resource(TYPE_A, |_| Some(&local));
    assert_eq!(*c, 22);
    c.drop(&mut cell.access);
    let d = cell.get_non_send_resource(TYPE_A, |_| Some(&local)).unwrap();
    assert_eq!(*d, 22);
    d.drop(&mut cell.access);
    cell.drop();
    assert_eq!(sendable, 11);
    assert_eq!(count(&world, 0), Some(BASE_ACCESS));
    assert_eq!(count(&world, 1), Some(BASE_ACCESS));
}

#[test]
fn resource_without_value_is_missing_again() {
    let mut world = World::new();
    world.init_resource(TYPE_A);
    world.init_non_send_resource(TYPE_A);
    let mut cell = world.cell();
    assert!(cell.get_resource_mut::<u8, _>(TYPE_A, |_| None).is_none());
    assert!(cell.get_resource_mut::<u8, _>(TYPE_A, |_| None).is_none());
    assert!(cell.get_resource::<u8, _>(TYPE_A, |_| None).is_none());
    assert!(cell.get_resource_mut::<u8, _>(TYPE_A, |_| None).is_none());
    assert!(cell.get_non_send_resource_mut::<u8, _>(TYPE_A, |_| None).is_none());
    assert!(cell.get_non_send_resource::<u8, _>(TYPE_A, |_| None).is_none());
    assert!(cell.get_non_send_resource_mut::<u8, _>(TYPE_A, |_| None).is_none());
    cell.drop();
    assert_eq!(count(&world, 0), Some(BASE_ACCESS));
    assert_eq!(count(&world, 1), Some(BASE_ACCESS));
}

#[test]
fn value_inserted_later_is_accessible() {
    let mut world = World::new();
    world.init_resource(TYPE_A);
    let mut cell = world.cell();
    assert!(cell.get_resource::<u8, _>(TYPE_A, |_| None).is_none());
    cell.drop();
    let (mut value, mut changed) = (2u8, 0);
    let mut cell = world.cell();
    let a = cell.resource_mut(TYPE_A, |_| Some(Mut::new(&mut value, &mut changed, 1)));
    assert_eq!(*a, 2);
    a.drop(&mut cell.access);
    cell.drop();
}

#[test]
fn readers_are_not_counted_beyond_the_limit() {
    let mut world = World::new();
    world.init_resource(TYPE_A);
    let mut cell = world.cell();
    cell.access.access.get_or_insert_with(0, || usize::MAX);
    let refused = cell.try_get_resource::<u8, _>(TYPE_A, |_| panic!("fetched"));
    assert_eq!(refused.err(), Some(BorrowError::TooManyReaders));
}

#[test]
fn events_are_queued_in_order() {
    let mut world = World::new();
    world.init_resource(TYPE_A);
    let (mut queue, mut changed) = (Events::new(), 0);
    let mut cell = world.cell();
    assert!(cell.send_event(TYPE_A, |_| Some(Mut::new(&mut queue, &mut changed, 1)), 5u8));
    assert!(cell.send_event_batch(
        TYPE_A,
        |_| Some(Mut::new(&mut queue, &mut changed, 2)),
        || vec![6, 7]
    ));
    assert!(cell.send_event_default(TYPE_A, |_| Some(Mut::new(&mut queue, &mut changed, 3))));
    assert!(cell.send_event_batch(
        TYPE_A,
        |_| Some(Mut::new(&mut queue, &mut changed, 4)),
        || vec![]
    ));
    cell.drop();
    assert_eq!(queue.events, vec![5, 6, 7, 0]);
    assert_eq!(changed, 4);
    assert_eq!(count(&world, 0), Some(BASE_ACCESS));
}

#[test]
fn nothing_is_drawn_without_a_queue() {
    let mut world = World::new();
    world.init_resource(TYPE_A);
    let mut cell = world.cell();
    assert!(!cell.send_event_batch::<u8, _, _>(TYPE_A, |_| None, || panic!("drawn")));
    assert!(!cell.send_event_batch::<u8, _, _>(
        TYPE_B,
        |_| panic!("fetched"),
        || panic!("drawn")
    ));
    assert!(!cell.send_event(TYPE_A, |_| None, 5u8));
    cell.drop();
    assert_eq!(count(&world, 0), Some(BASE_ACCESS));
    assert_eq!(world.archetype_component_access.access.len(), 1);
}

#[test]
fn record_passes_from_cell_to_cell() {
    let mut world = World::new();
    world.init_resource(TYPE_A);
    let value = 1u8;
    let mut first = world.cell();
    let forgotten = first.resource(TYPE_A, |_| Some(&value));
    assert_eq!(*forgotten, 1);
    assert_eq!(first.world.archetype_component_access.access.len(), 0);
    first.drop();
    assert_eq!(count(&world, 0), Some(BASE_ACCESS + 1));
    let mut second = world.cell();
    let refused = second.try_get_resource_mut::<u8, _>(TYPE_A, |_| panic!("fetched"));
    assert_eq!(refused.err(), Some(BorrowError::Mutable));
    forgotten.drop(&mut second.access);
    assert!(second.try_get_resource_mut::<u8, _>(TYPE_A, |_| None).unwrap().is_none());
    second.drop();
}

#[test]
fn opening_and_closing_changes_nothing() {
    let mut world = World::new();
    world.init_resource(TYPE_A);
    world.archetype_component_access.access.get_or_insert_with(0, || 4);
    world.cell().drop();
    assert_eq!(count(&world, 0), Some(4));
    assert_eq!(world.archetype_component_access.access.len(), 1);
    assert_eq!(world.archetype_component_count, 1);
}
