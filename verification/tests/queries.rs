use playground::component::ComponentManager;
use playground::Component;

struct DummyComponent {}
struct DummyComponent2 {}

enum QueryComp {
    Dummy(DummyComponent),
    Dummy2(DummyComponent2),
}
impl Component for QueryComp {}

#[test]
fn create_query() {
    let mut cm: ComponentManager<QueryComp> = ComponentManager::new();
    let _t0 = cm.register_component().unwrap();
    let t1 = cm.register_component().unwrap();
    let query = cm.query().with_component(t1);
    assert_eq!(query.query_bitmap(), 2);
}

#[test]
fn get_entities_with_components() {
    let mut cm: ComponentManager<QueryComp> = ComponentManager::new();
    let t0 = cm.register_component().unwrap();
    let t1 = cm.register_component().unwrap();
    let entity1 = cm.add_entity().unwrap();
    let entity2 = cm.add_entity().unwrap();
    cm.add_component(entity1, t0, QueryComp::Dummy(DummyComponent {})).unwrap();
    cm.add_component(entity1, t1, QueryComp::Dummy2(DummyComponent2 {})).unwrap();
    cm.add_component(entity2, t1, QueryComp::Dummy2(DummyComponent2 {})).unwrap();
    let result = cm.query().with_component(t0).with_component(t1).execute();
    assert_eq!(result.get_entities().contains(&entity1), true);
    let result = cm.query().with_component(t1).execute();
    assert_eq!(result.get_entities().contains(&entity1), true);
    assert_eq!(result.get_entities().contains(&entity2), true);
}

// Requirements accumulate by bitwise or, so the order of `with_component`
// calls cannot change the requirement, and the result list is in ascending
// entity order.
#[test]
fn query_order_independent_and_sorted() {
    let mut cm: ComponentManager<QueryComp> = ComponentManager::new();
    let t0 = cm.register_component().unwrap();
    let t1 = cm.register_component().unwrap();
    let e0 = cm.add_entity().unwrap();
    let e1 = cm.add_entity().unwrap();
    let e2 = cm.add_entity().unwrap();
    for e in [e0, e1, e2] {
        cm.add_component(e, t0, QueryComp::Dummy(DummyComponent {})).unwrap();
        cm.add_component(e, t1, QueryComp::Dummy2(DummyComponent2 {})).unwrap();
    }
    let a = cm.query().with_component(t0).with_component(t1).query_bitmap();
    let b = cm.query().with_component(t1).with_component(t0).query_bitmap();
    assert_eq!(a, b);
    let result = cm.query().with_component(t0).with_component(t1).execute();
    assert_eq!(result.get_entities().as_slice(), &[e0, e1, e2]);
}
