use world_cell::{Mut, TypeId, World, BASE_ACCESS};

struct A(u32);

struct B(u64);

const TYPE_A: TypeId = TypeId(1);
const TYPE_B: TypeId = TypeId(2);

#[test]
fn world_cell() {
    let mut world = World::default();
    let (mut value_a, mut changed_a) = (A(1), 0);
    let (value_b, _) = (B(1), 0);
    let id_a = world.init_resource(TYPE_A);
    let id_b = world.init_resource(TYPE_B);
    let mut cell = world.cell();
    {
        let mut a = cell.resource_mut(TYPE_A, |id| {
            assert_eq!(id, id_a);
            Some(Mut::new(&mut value_a, &mut changed_a, 1))
        });
        assert_eq!(1, a.0);
        a.0 = 2;
        a.drop(&mut cell.access);
    }
    {
        let a = cell.resource(TYPE_A, |id| {
            assert_eq!(id, id_a);
            Some(&value_a)
        });
        assert_eq!(2, a.0, "ensure access is dropped");

        let a2 = cell.resource(TYPE_A, |_| Some(&value_a));
        assert_eq!(
            2, a2.0,
            "ensure multiple immutable accesses can occur at the same time"
        );
        a2.drop(&mut cell.access);
        a.drop(&mut cell.access);
    }
    {
        let a = cell.resource_mut(TYPE_A, |_| Some(Mut::new(&mut value_a, &mut changed_a, 2)));
        assert_eq!(
            2, a.0,
            "ensure both immutable accesses are dropped, enabling a new mutable access"
        );

        let b = cell.resource(TYPE_B, |id| {
            assert_eq!(id, id_b);
            Some(&value_b)
        });
        assert_eq!(
            1, b.0,
            "ensure multiple non-conflicting mutable accesses can occur at the same time"
        );
        b.drop(&mut cell.access);
        a.drop(&mut cell.access);
    }
    cell.drop();
}

#[test]
fn world_access_reused() {
    let mut world = World::default();
    let (mut value_a, mut changed_a) = (A(1), 0);
    world.init_resource(TYPE_A);
    {
        let mut cell = world.cell();
        {
            let mut a = cell.resource_mut(TYPE_A, |_| {
                Some(Mut::new(&mut value_a, &mut changed_a, 1))
            });
            assert_eq!(1, a.0);
            a.0 = 2;
            a.drop(&mut cell.access);
        }
        cell.drop();
    }

    let u32_component_id = world.components.get_resource_id(TYPE_A).unwrap();
    let u32_archetype_component_id = world
        .get_resource_archetype_component_id(u32_component_id)
        .unwrap();
    assert_eq!(world.archetype_component_access.access.len(), 1);
    assert_eq!(
        world
            .archetype_component_access
            .access
            .get(u32_archetype_component_id.index()),
        Some(&BASE_ACCESS),
        "reused access count is 'base'"
    );
}

#[test]
#[should_panic]
fn world_cell_double_mut() {
    let mut world = World::default();
    let (mut value_a, mut changed_a) = (A(1), 0);
    world.init_resource(TYPE_A);
    let mut cell = world.cell();
    let _value_a = cell
        .try_get_resource_mut(TYPE_A, |_| Some(Mut::new(&mut value_a, &mut changed_a, 1)))
        .unwrap();
    let _value_b = cell
        .try_get_resource_mut(TYPE_A, |_| -> Option<Mut<'_, A>> { None })
        .unwrap();
}

#[test]
#[should_panic]
fn world_cell_ref_and_mut() {
    let mut world = World::default();
    let value_a = A(1);
    world.init_resource(TYPE_A);
    let mut cell = world.cell();
    let _value_a = cell.try_get_resource(TYPE_A, |_| Some(&value_a)).unwrap();
    let _value_b = cell
        .try_get_resource_mut(TYPE_A, |_| -> Option<Mut<'_, A>> { None })
        .unwrap();
}

#[test]
#[should_panic]
fn world_cell_mut_and_ref() {
    let mut world = World::default();
    let (mut value_a, mut changed_a) = (A(1), 0);
    world.init_resource(TYPE_A);
    let mut cell = world.cell();
    let _value_a = cell
        .try_get_resource_mut(TYPE_A, |_| Some(Mut::new(&mut value_a, &mut changed_a, 1)))
        .unwrap();
    let _value_b = cell
        .try_get_resource(TYPE_A, |_| -> Option<&A> { None })
        .unwrap();
}

#[test]
fn world_cell_ref_and_ref() {
    let mut world = World::default();
    let value_a = A(1);
    world.init_resource(TYPE_A);
    let mut cell = world.cell();
    let _value_a = cell.resource(TYPE_A, |_| Some(&value_a));
    let _value_b = cell.resource(TYPE_A, |_| Some(&value_a));
}
