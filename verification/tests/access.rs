use world_cell::{
    ArchetypeComponentAccess, ArchetypeComponentId, SparseSet, BASE_ACCESS, UNIQUE_ACCESS,
};

#[test]
fn sparse_set_keeps_first_value() {
    let mut set: SparseSet<u8> = SparseSet::new();
    assert_eq!(set.len(), 0);
    assert_eq!(set.get(3), None);
    *set.get_or_insert_with(3, || 10) += 1;
    assert_eq!(set.get(3), Some(&11));
    assert_eq!(*set.get_or_insert_with(3, || panic!("already in use")), 11);
    assert_eq!(*set.get_or_insert_with(0, || 20), 20);
    assert_eq!(set.len(), 2);
    assert!(set.contains(0));
    assert!(!set.contains(1));
    assert!(!set.contains(100));
    assert_eq!(set.get(3), Some(&11));
}

#[test]
fn access_counts() {
    let id = ArchetypeComponentId::new(7);
    let mut access = ArchetypeComponentAccess::default();
    assert_eq!(access.count(id), BASE_ACCESS);
    assert_eq!(access.access.len(), 0);
    assert!(access.read(id));
    assert!(access.read(id));
    assert_eq!(access.count(id), 3);
    assert!(!access.write(id));
    assert_eq!(access.count(id), 3);
    access.drop_read(id);
    assert!(!access.write(id));
    access.drop_read(id);
    assert_eq!(access.count(id), BASE_ACCESS);
    assert!(access.write(id));
    assert_eq!(access.count(id), UNIQUE_ACCESS);
    assert!(!access.write(id));
    assert!(!access.read(id));
    assert_eq!(access.count(id), UNIQUE_ACCESS);
    access.drop_write(id);
    assert_eq!(access.count(id), BASE_ACCESS);
    assert_eq!(access.access.len(), 1);
}

#[test]
fn constants() {
    assert_eq!(UNIQUE_ACCESS, 0);
    assert_eq!(BASE_ACCESS, 1);
}

#[test]
fn drop_of_unlisted_resource_lists_it() {
    let id = ArchetypeComponentId::new(2);
    let mut access = ArchetypeComponentAccess::new();
    access.drop_write(id);
    assert_eq!(access.access.get(2), Some(&BASE_ACCESS));
    let mut access = ArchetypeComponentAccess::new();
    access.drop_read(id);
    assert_eq!(access.access.get(2), Some(&UNIQUE_ACCESS));
}

#[test]
fn independent_resources() {
    let (a, b) = (ArchetypeComponentId::new(0), ArchetypeComponentId::new(1));
    let mut access = ArchetypeComponentAccess::new();
    assert!(access.write(a));
    assert!(access.write(b));
    access.drop_write(a);
    assert_eq!(access.count(a), BASE_ACCESS);
    assert_eq!(access.count(b), UNIQUE_ACCESS);
    assert!(access.read(a));
    assert!(!access.read(b));
    access.drop_read(a);
    assert_eq!(access.count(b), UNIQUE_ACCESS);
}
