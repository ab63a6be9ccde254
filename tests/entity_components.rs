use jest::entities::builder::EntityBuilder;
use jest::entities::errors::AlreadyExists;
use jest::entities::Entity;

#[derive(Debug, PartialEq)]
struct Position {
    x: i32,
}

#[derive(Debug, PartialEq)]
struct Name(String);

#[test]
fn added_component_is_returned_and_second_add_fails() {
    let mut e = Entity::new();
    assert_eq!(e.add(Position { x: 3 }), Ok(()));
    assert_eq!(e.get::<Position>(), Some(&Position { x: 3 }));
    assert_eq!(e.add(Position { x: 4 }), Err(AlreadyExists));
    assert_eq!(e.get::<Position>(), Some(&Position { x: 3 }));
}

#[test]
fn components_of_different_types_live_side_by_side() {
    let mut e = Entity::new();
    assert!(e.add(Position { x: 1 }).is_ok());
    assert!(e.add(Name("bob".to_string())).is_ok());
    assert!(e.add(7u32).is_ok());
    assert_eq!(e.get::<Name>(), Some(&Name("bob".to_string())));
    assert_eq!(e.get::<u32>(), Some(&7));
    assert_eq!(e.get::<u64>(), None);
}

#[test]
fn remove_after_add_returns_value_and_leaves_absent() {
    let mut e = Entity::new();
    e.add(Position { x: 9 }).unwrap();
    assert_eq!(e.remove::<Position>(), Some(Position { x: 9 }));
    assert!(e.get::<Position>().is_none());
    assert_eq!(e.remove::<Position>(), None);
    assert_eq!(e.add(Position { x: 10 }), Ok(()));
    assert_eq!(e.get::<Position>(), Some(&Position { x: 10 }));
}

#[test]
fn remove_of_absent_type_is_none() {
    let mut e = Entity::new();
    e.add(1i64).unwrap();
    assert_eq!(e.remove::<Position>(), None);
    assert_eq!(e.get::<i64>(), Some(&1));
}

#[test]
fn get_mut_changes_the_stored_component() {
    let mut e = Entity::new();
    assert!(e.get_mut::<Position>().is_none());
    e.add(Position { x: 0 }).unwrap();
    e.get_mut::<Position>().unwrap().x = 42;
    assert_eq!(e.get::<Position>().unwrap().x, 42);
}

#[test]
fn builder_refuses_duplicate_type() {
    let mut b = EntityBuilder::new();
    assert!(b.add(Position { x: 1 }).is_ok());
    assert!(b.add(Name("a".to_string())).is_ok());
    assert!(matches!(b.add(Position { x: 2 }), Err(AlreadyExists)));
}

#[test]
fn builder_add_chains() {
    let mut b = EntityBuilder::new();
    assert!(b.add(Position { x: 1 }).unwrap().add(Name("a".to_string())).unwrap().add(5u16).is_ok());
    assert!(matches!(b.add(5u16), Err(AlreadyExists)));
    assert!(matches!(b.add(Name("b".to_string())), Err(AlreadyExists)));
}

#[test]
fn get_mut_of_absent_type_is_none_and_keeps_components() {
    let mut e = Entity::new();
    e.add(Position { x: 2 }).unwrap();
    assert!(e.get_mut::<Name>().is_none());
    assert_eq!(e.get::<Position>(), Some(&Position { x: 2 }));
    assert!(e.get::<Name>().is_none());
}

#[test]
fn already_exists_message() {
    assert_eq!(AlreadyExists.message(), "component already exists");
}
