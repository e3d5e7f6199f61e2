use world_cell::{
    ArchetypeComponentAccess, ArchetypeComponentId, BorrowError, Mut, WorldBorrow, WorldBorrowMut,
    BASE_ACCESS, UNIQUE_ACCESS,
};

fn inside(value: &mut Option<u16>) -> Option<&mut u16> {
    value.as_mut()
}

#[test]
fn shared_borrow_is_counted_until_dropped() {
    let id = ArchetypeComponentId::new(4);
    let mut access = ArchetypeComponentAccess::new();
    let value = 5u8;
    let borrow = WorldBorrow::try_new(|| Some(&value), id, &mut access).unwrap().unwrap();
    assert_eq!(*borrow, 5);
    assert_eq!(borrow.archetype_component_id(), id);
    let copy = borrow.clone(&mut access);
    assert_eq!(*copy, 5);
    assert_eq!(access.count(id), BASE_ACCESS + 2);
    borrow.drop(&mut access);
    assert_eq!(access.count(id), BASE_ACCESS + 1);
    copy.drop(&mut access);
    assert_eq!(access.count(id), BASE_ACCESS);
}

#[test]
fn shared_borrow_is_refused_without_fetching() {
    let id = ArchetypeComponentId::new(4);
    let mut access = ArchetypeComponentAccess::new();
    assert!(access.write(id));
    let refused = WorldBorrow::<u8>::try_new(|| panic!("fetched"), id, &mut access);
    assert_eq!(refused.err(), Some(BorrowError::Immutable));
    assert_eq!(access.count(id), UNIQUE_ACCESS);
}

#[test]
fn shared_borrow_is_refused_when_uncountable() {
    let id = ArchetypeComponentId::new(4);
    let mut access = ArchetypeComponentAccess::new();
    access.access.get_or_insert_with(4, || usize::MAX);
    let refused = WorldBorrow::<u8>::try_new(|| panic!("fetched"), id, &mut access);
    assert_eq!(refused.err(), Some(BorrowError::TooManyReaders));
    assert_eq!(access.count(id), usize::MAX);
}

#[test]
fn unique_borrow_is_refused_without_fetching() {
    let id = ArchetypeComponentId::new(4);
    let mut access = ArchetypeComponentAccess::new();
    assert!(access.read(id));
    let refused = WorldBorrowMut::<u8>::try_new(|| panic!("fetched"), id, &mut access);
    assert_eq!(refused.err(), Some(BorrowError::Mutable));
    assert_eq!(access.count(id), BASE_ACCESS + 1);
}

#[test]
fn access_without_value_is_given_back() {
    let id = ArchetypeComponentId::new(0);
    let mut access = ArchetypeComponentAccess::new();
    let nothing = WorldBorrow::<u8>::try_new(|| None, id, &mut access);
    assert!(nothing.unwrap().is_none());
    assert_eq!(access.count(id), BASE_ACCESS);
    let nothing = WorldBorrowMut::<u8>::try_new(|| None, id, &mut access);
    assert!(nothing.unwrap().is_none());
    assert_eq!(access.count(id), BASE_ACCESS);
    assert!(access.read(id));
    let nothing = WorldBorrow::<u8>::try_new(|| None, id, &mut access);
    assert!(nothing.unwrap().is_none());
    assert_eq!(access.count(id), BASE_ACCESS + 1);
}

#[test]
fn map_keeps_access() {
    let id = ArchetypeComponentId::new(1);
    let mut access = ArchetypeComponentAccess::new();
    let value = (3u8, 4u16);
    let borrow = WorldBorrow::try_new(|| Some(&value), id, &mut access).unwrap().unwrap();
    let second = WorldBorrow::map(borrow, |pair: &(u8, u16)| &pair.1);
    assert_eq!(*second, 4);
    assert_eq!(access.count(id), BASE_ACCESS + 1);
    second.drop(&mut access);
    assert_eq!(access.count(id), BASE_ACCESS);
}

#[test]
fn try_map_returns_original_on_failure() {
    let id = ArchetypeComponentId::new(1);
    let mut access = ArchetypeComponentAccess::new();
    let value = (3u8, Some(4u16));
    let borrow = WorldBorrow::try_new(|| Some(&value), id, &mut access).unwrap().unwrap();
    let borrow = match WorldBorrow::try_map(borrow, |_: &(u8, Option<u16>)| None::<&u16>) {
        Ok(_) => panic!("mapped"),
        Err(original) => original,
    };
    assert_eq!(*borrow, (3, Some(4)));
    assert_eq!(access.count(id), BASE_ACCESS + 1);
    let second = match WorldBorrow::try_map(borrow, |pair: &(u8, Option<u16>)| pair.1.as_ref()) {
        Ok(second) => second,
        Err(_) => panic!("not mapped"),
    };
    assert_eq!(*second, 4);
    second.drop(&mut access);
    assert_eq!(access.count(id), BASE_ACCESS);
}

#[test]
fn mapping_for_writing_records_no_change() {
    let id = ArchetypeComponentId::new(1);
    let mut access = ArchetypeComponentAccess::new();
    let mut value = (3u8, 4u16);
    let mut changed = 5;
    {
        let access_to_value = Mut::new(&mut value, &mut changed, 9);
        let borrow = WorldBorrowMut::try_new(|| Some(access_to_value), id, &mut access)
            .unwrap()
            .unwrap();
        assert_eq!(*borrow, (3, 4));
        let second = WorldBorrowMut::map(borrow, |pair: &mut (u8, u16)| &mut pair.1);
        assert_eq!(*second, 4);
        assert_eq!(access.count(id), UNIQUE_ACCESS);
        second.drop(&mut access);
    }
    assert_eq!(changed, 5);
    assert_eq!(access.count(id), BASE_ACCESS);
    {
        let access_to_value = Mut::new(&mut value, &mut changed, 9);
        let borrow = WorldBorrowMut::try_new(|| Some(access_to_value), id, &mut access)
            .unwrap()
            .unwrap();
        let mut second = WorldBorrowMut::map(borrow, |pair: &mut (u8, u16)| &mut pair.1);
        *second = 40;
        second.drop(&mut access);
    }
    assert_eq!(changed, 9);
    assert_eq!(value, (3, 40));
}

#[test]
fn failed_mapping_for_writing_gives_access_back() {
    let id = ArchetypeComponentId::new(1);
    let mut access = ArchetypeComponentAccess::new();
    let mut value = Some(4u16);
    let mut changed = 5;
    {
        let access_to_value = Mut::new(&mut value, &mut changed, 9);
        let borrow = WorldBorrowMut::try_new(|| Some(access_to_value), id, &mut access)
            .unwrap()
            .unwrap();
        let mut inner = match WorldBorrowMut::try_map(borrow, inside, &mut access) {
            Some(inner) => inner,
            None => panic!("not mapped"),
        };
        assert_eq!(access.count(id), UNIQUE_ACCESS);
        *inner += 1;
        inner.drop(&mut access);
    }
    assert_eq!(value, Some(5));
    assert_eq!(changed, 9);
    value = None;
    {
        let access_to_value = Mut::new(&mut value, &mut changed, 10);
        let borrow = WorldBorrowMut::try_new(|| Some(access_to_value), id, &mut access)
            .unwrap()
            .unwrap();
        assert!(WorldBorrowMut::try_map(borrow, inside, &mut access).is_none());
        assert_eq!(access.count(id), BASE_ACCESS);
    }
    assert_eq!(changed, 9);
    {
        let access_to_value = Mut::new(&mut value, &mut changed, 10);
        let borrow = WorldBorrowMut::try_new(|| Some(access_to_value), id, &mut access)
            .unwrap()
            .unwrap();
        match WorldBorrowMut::try_map_or_witness(borrow, inside) {
            Ok(_) => panic!("mapped"),
            Err(witness) => {
                assert_eq!(access.count(id), UNIQUE_ACCESS);
                witness.drop(&mut access);
            }
        }
    }
    assert_eq!(access.count(id), BASE_ACCESS);
}

#[test]
fn messages() {
    assert_eq!(
        BorrowError::Immutable.message("A"),
        "Attempted to immutably access A, but it is already mutably borrowed"
    );
    assert_eq!(
        BorrowError::Mutable.message("A"),
        "Attempted to mutably access A, but it is already mutably borrowed"
    );
    assert_eq!(
        BorrowError::TooManyReaders.message("A"),
        "attempt to add with overflow"
    );
    assert_eq!(
        world_cell::error::missing_resource_message("A"),
        "Requested resource A does not exist in the `World`. 
                Did you forget to add it using `app.insert_resource` / `app.init_resource`? 
                Resources are also implicitly added via `app.add_event`,
                and can be added by plugins."
    );
    assert_eq!(
        world_cell::error::missing_non_send_resource_message("A"),
        "Requested non-send resource A does not exist in the `World`. 
                Did you forget to add it using `app.insert_non_send_resource` / `app.init_non_send_resource`? 
                Non-send resources can also be be added by plugins."
    );
    assert_eq!(
        world_cell::error::missing_events_message("A"),
        "Unable to send event `A`\n\tEvent must be added to the app with `add_event()`\n\thttps://docs.rs/bevy/*/bevy/app/struct.App.html#method.add_event "
    );
}
