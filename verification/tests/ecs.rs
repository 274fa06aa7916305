use playground::component::ComponentManager;
use playground::Component;
use playground::EcsError;

struct DummyComponent {}
struct DummyComponent2 {}
struct DataComponent {
    value: usize,
}

enum TestComp {
    Dummy(DummyComponent),
    Dummy2(DummyComponent2),
    Data(DataComponent),
}
impl Component for TestComp {}

fn data_value(c: &TestComp) -> usize {
    match c {
        TestComp::Data(d) => d.value,
        _ => panic!("not a data component"),
    }
}

#[test]
fn register_component() {
    let mut cm: ComponentManager<TestComp> = ComponentManager::new();
    let ty = cm.register_component().unwrap();
    assert_eq!(cm.component_type_count(), 1);
    assert_eq!(ty, 0);
    assert_eq!(cm.get_component_bitmap(ty), 1);
}

#[test]
fn add_entity_before_registering_component() {
    let mut cm: ComponentManager<TestComp> = ComponentManager::new();
    assert_eq!(cm.add_entity(), Err(EcsError::NoComponentTypes));
}

#[test]
fn add_entity() {
    let mut cm: ComponentManager<TestComp> = ComponentManager::new();
    cm.register_component().unwrap();
    let entity_id = cm.add_entity().unwrap();
    assert_eq!(entity_id, 0);
    assert_eq!(cm.entity_count(), 1);
}

#[test]
fn add_component() {
    let mut cm: ComponentManager<TestComp> = ComponentManager::new();
    let c_type = cm.register_component().unwrap();
    let c_type2 = cm.register_component().unwrap();
    let entity = cm.add_entity().unwrap();
    let component = TestComp::Dummy(DummyComponent {});
    cm.add_component(entity, c_type, component).unwrap();
    let c_bitmask = cm.get_component_bitmap(c_type);

    assert_eq!(c_bitmask == 1, true);
    assert_eq!(cm.get_component(entity, c_type).is_ok(), true);
    assert_eq!(cm.get_entities_with_components(c_bitmask).contains(&entity), true);

    let component = TestComp::Dummy2(DummyComponent2 {});
    cm.add_component(entity, c_type2, component).unwrap();
    let c_bitmask2 = cm.get_component_bitmap(c_type2);

    assert_eq!(c_bitmask2 == 2, true);
    assert_eq!(cm.get_component(entity, c_type2).is_ok(), true);
    assert_eq!(cm.get_entities_with_components(3).contains(&entity), true);
}

#[test]
fn get_component() {
    let mut cm: ComponentManager<TestComp> = ComponentManager::new();
    let ty = cm.register_component().unwrap();
    let entity1 = cm.add_entity().unwrap();
    cm.add_component(entity1, ty, TestComp::Data(DataComponent { value: 100 })).unwrap();
    let component = cm.get_component(entity1, ty).unwrap();
    assert_eq!(data_value(component), 100);
}

#[test]
fn get_component_mut() {
    let mut cm: ComponentManager<TestComp> = ComponentManager::new();
    let ty = cm.register_component().unwrap();
    let entity1 = cm.add_entity().unwrap();
    cm.add_component(entity1, ty, TestComp::Data(DataComponent { value: 100 })).unwrap();
    let mut component = cm.get_component_mut(entity1, ty).unwrap();
    match &mut component {
        TestComp::Data(d) => d.value = 1,
        _ => panic!("not a data component"),
    }
    cm.return_component(entity1, ty, component).unwrap();
    let component = cm.get_component(entity1, ty).unwrap();
    assert_eq!(data_value(component), 1);
}

// The k-th registered component type owns bit 1 << k, and a 65th
// registration is refused.
#[test]
fn bit_assignment_is_registration_order() {
    let mut cm: ComponentManager<TestComp> = ComponentManager::new();
    for k in 0..64u32 {
        let ty = cm.register_component().unwrap();
        assert_eq!(ty as u32, k);
        assert_eq!(cm.get_component_bitmap(ty), 1u64 << k);
    }
    assert_eq!(cm.register_component(), Err(EcsError::TooManyComponentTypes));
    assert_eq!(cm.component_type_count(), 64);
}

// An entity with strictly more components than a requirement still matches
// the requirement, and one lacking a required component does not.
#[test]
fn superset_matches_requirement() {
    let mut cm: ComponentManager<TestComp> = ComponentManager::new();
    let t0 = cm.register_component().unwrap();
    let t1 = cm.register_component().unwrap();
    let t2 = cm.register_component().unwrap();
    let rich = cm.add_entity().unwrap();
    let poor = cm.add_entity().unwrap();
    cm.add_component(rich, t0, TestComp::Dummy(DummyComponent {})).unwrap();
    cm.add_component(rich, t1, TestComp::Dummy2(DummyComponent2 {})).unwrap();
    cm.add_component(rich, t2, TestComp::Data(DataComponent { value: 7 })).unwrap();
    cm.add_component(poor, t0, TestComp::Dummy(DummyComponent {})).unwrap();
    let req = cm.get_component_bitmap(t0) | cm.get_component_bitmap(t1);
    let matched = cm.get_entities_with_components(req);
    assert!(matched.contains(&rich));
    assert!(!matched.contains(&poor));
}

// Attaching a component type twice to one entity fails; attaching it to a
// fresh entity succeeds, and the entity then matches a query requiring it.
#[test]
fn single_attach_per_slot() {
    let mut cm: ComponentManager<TestComp> = ComponentManager::new();
    let ty = cm.register_component().unwrap();
    let e = cm.add_entity().unwrap();
    cm.add_component(e, ty, TestComp::Data(DataComponent { value: 1 })).unwrap();
    assert_eq!(
        cm.add_component(e, ty, TestComp::Data(DataComponent { value: 2 })),
        Err(EcsError::AlreadyAttached)
    );
    let matched = cm.get_entities_with_components(cm.get_component_bitmap(ty));
    assert!(matched.contains(&e));
    // The refused second attach changed nothing.
    assert_eq!(data_value(cm.get_component(e, ty).unwrap()), 1);
}

// An exclusive checkout blocks every other access to the same slot, and
// only to that slot: another entity's slot of the same type stays free.
#[test]
fn borrow_exclusivity_per_slot() {
    let mut cm: ComponentManager<TestComp> = ComponentManager::new();
    let ty = cm.register_component().unwrap();
    let a = cm.add_entity().unwrap();
    let b = cm.add_entity().unwrap();
    cm.add_component(a, ty, TestComp::Data(DataComponent { value: 10 })).unwrap();
    cm.add_component(b, ty, TestComp::Data(DataComponent { value: 20 })).unwrap();

    let taken_a = cm.get_component_mut(a, ty).unwrap();
    assert_eq!(cm.get_component_mut(a, ty).err(), Some(EcsError::BorrowConflict));
    assert_eq!(cm.get_component(a, ty).err(), Some(EcsError::BorrowConflict));

    let taken_b = cm.get_component_mut(b, ty).unwrap();
    assert_eq!(data_value(&taken_b), 20);
    cm.return_component(b, ty, taken_b).unwrap();
    assert_eq!(data_value(cm.get_component(b, ty).unwrap()), 20);

    cm.return_component(a, ty, taken_a).unwrap();
    assert_eq!(data_value(cm.get_component(a, ty).unwrap()), 10);
}

#[test]
fn store_error_conditions() {
    let mut cm: ComponentManager<TestComp> = ComponentManager::new();
    let ty = cm.register_component().unwrap();
    let e = cm.add_entity().unwrap();
    assert_eq!(
        cm.add_component(e, 9, TestComp::Dummy(DummyComponent {})),
        Err(EcsError::NotRegistered)
    );
    assert_eq!(
        cm.add_component(5, ty, TestComp::Dummy(DummyComponent {})),
        Err(EcsError::NoSuchEntity)
    );
    assert_eq!(cm.get_component(e, ty).err(), Some(EcsError::MissingComponent));
    assert_eq!(cm.return_component(e, ty, TestComp::Dummy(DummyComponent {})).err(),
        Some(EcsError::BorrowConflict));
    assert_eq!(cm.get_all_by_type(9).err(), Some(EcsError::NotRegistered));
}
