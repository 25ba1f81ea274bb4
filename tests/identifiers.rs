use std::any::TypeId;
use std::collections::hash_map::DefaultHasher;
use std::collections::HashMap;
use std::hash::{Hash, Hasher};

use type_system::bidirectional;
use type_system::phantom::{self, Bar, Foo, Identifier};
use type_system::unidirectional;

use type_system::bidirectional::{Entity as _, EntityId as BiEntityId};
use type_system::phantom::{Entity as _, EntityId as PhantomEntityId};
use type_system::unidirectional::Entity as UniEntity;

fn std_hash<T: Hash>(value: &T) -> u64 {
    let mut hasher = DefaultHasher::new();
    value.hash(&mut hasher);
    hasher.finish()
}

#[test]
fn unidirectional_associated_type_link_entity_id() {
    let id1 = unidirectional::FooId::new(1);
    let _foo1 = unidirectional::Foo::new(id1);
}

#[test]
fn bidirectional_associated_type_links_entity_id() {
    let id1 = bidirectional::FooId::new(1);
    let _foo1 = bidirectional::Foo::new(id1);
}

#[test]
fn entity_id_foo_uses_identifier() {
    let id1 = Identifier::<Foo>::new(1);
    let _foo1 = Foo::new(id1);
}

#[test]
fn entity_id_bar_also_uses_identifier() {
    let id1 = Identifier::<Bar>::new(1);
    let _bar1 = Bar::new(id1);
    // A Bar identifier cannot be given to a Foo: `Foo::new(id1)` does not compile.
}

// A second entity kind that reuses the unidirectional FooId: accepted, since
// in that variant an identifier type does not name its entity kind.
struct Baz {
    id: unidirectional::FooId,
}

impl unidirectional::Entity for Baz {
    type Id = unidirectional::FooId;

    fn id(&self) -> unidirectional::FooId {
        self.id
    }
}

#[test]
fn unidirectional_identifier_type_can_serve_two_entity_kinds() {
    let id = unidirectional::FooId::new(1);
    let foo = unidirectional::Foo::new(id);
    let baz = Baz { id };
    assert_eq!(foo.id(), baz.id());
    assert_eq!(
        TypeId::of::<<unidirectional::Foo as UniEntity>::Id>(),
        TypeId::of::<<Baz as UniEntity>::Id>()
    );
}

#[test]
fn bidirectional_identifier_names_its_entity_kind() {
    assert_eq!(
        TypeId::of::<<bidirectional::FooId as BiEntityId>::EntityType>(),
        TypeId::of::<bidirectional::Foo>()
    );
    assert_eq!(
        TypeId::of::<<bidirectional::Foo as bidirectional::Entity>::Id>(),
        TypeId::of::<bidirectional::FooId>()
    );
}

#[test]
fn phantom_identifiers_of_foo_and_bar_are_distinct_types() {
    let foo_id = Identifier::<Foo>::new(1);
    let bar_id = Identifier::<Bar>::new(1);
    assert_eq!(foo_id.raw(), 1);
    assert_eq!(bar_id.raw(), 1);
    assert_ne!(TypeId::of::<Identifier<Foo>>(), TypeId::of::<Identifier<Bar>>());
    assert_eq!(
        TypeId::of::<<Identifier<Foo> as PhantomEntityId>::EntityType>(),
        TypeId::of::<Foo>()
    );
    assert_eq!(
        TypeId::of::<<Identifier<Bar> as PhantomEntityId>::EntityType>(),
        TypeId::of::<Bar>()
    );
    assert_eq!(TypeId::of::<<Bar as phantom::Entity>::Id>(), TypeId::of::<Identifier<Bar>>());
}

#[test]
fn phantom_marker_takes_no_space() {
    assert_eq!(std::mem::size_of::<Identifier<Foo>>(), std::mem::size_of::<i64>());
}

#[test]
fn identifiers_are_equal_to_themselves_and_differ_by_raw_value() {
    let a = Identifier::<Foo>::new(5);
    assert!(a == a);
    assert!(Identifier::<Foo>::new(5) == Identifier::<Foo>::new(5));
    assert!(Identifier::<Foo>::new(5) != Identifier::<Foo>::new(6));
    let u = unidirectional::FooId::new(5);
    assert_eq!(u, u);
    assert_ne!(unidirectional::FooId::new(5), unidirectional::FooId::new(-5));
    let b = bidirectional::FooId::new(i64::MIN);
    assert_eq!(b, b);
    assert_ne!(bidirectional::FooId::new(i64::MIN), bidirectional::FooId::new(i64::MAX));
}

#[test]
fn raw_value_round_trips() {
    assert_eq!(Identifier::<Bar>::new(-42).raw(), -42);
    assert_eq!(unidirectional::FooId::new(i64::MAX).raw(), i64::MAX);
    assert_eq!(bidirectional::FooId::new(0).raw(), 0);
}

#[test]
fn equal_identifiers_hash_equally() {
    let a = Identifier::<Foo>::new(77);
    let b = Identifier::<Foo>::new(77);
    assert_eq!(std_hash(&a), std_hash(&b));
    assert_eq!(a.hash_code(), b.hash_code());
    assert_eq!(
        std_hash(&bidirectional::FooId::new(77)),
        std_hash(&bidirectional::FooId::new(77))
    );
    assert_eq!(
        std_hash(&unidirectional::FooId::new(77)),
        std_hash(&unidirectional::FooId::new(77))
    );
}

#[test]
fn hash_code_matches_the_hash_impl() {
    for raw in [0i64, 1, -1, 77, i64::MIN, i64::MAX] {
        let id = Identifier::<Bar>::new(raw);
        assert_eq!(id.hash_code(), std_hash(&id));
    }
    assert_ne!(Identifier::<Foo>::new(1).hash_code(), Identifier::<Foo>::new(2).hash_code());
}

#[test]
fn duplicated_identifiers_equal_the_original() {
    let a = Identifier::<Foo>::new(9);
    let b = a.clone();
    let c = a;
    assert!(a == b);
    assert!(a == c);
    let u = unidirectional::FooId::new(9);
    assert_eq!(u.clone(), u);
    let d = bidirectional::FooId::new(9);
    assert_eq!(d.clone(), d);
}

#[test]
fn accessor_returns_the_identifier_given_at_construction() {
    {
        let foo = Foo::new(Identifier::new(3));
        assert!(foo.id() == Identifier::new(3));
        assert!(foo.id() == foo.id());
        let bar = Bar::new(Identifier::new(4));
        assert_eq!(bar.id().raw(), 4);
    }
    {
        let foo = bidirectional::Foo::new(bidirectional::FooId::new(3));
        assert_eq!(foo.id(), bidirectional::FooId::new(3));
    }
    {
        let foo = unidirectional::Foo::new(unidirectional::FooId::new(3));
        assert_eq!(foo.id(), unidirectional::FooId::new(3));
    }
}

#[test]
fn identifiers_as_hash_map_keys() {
    let mut names: HashMap<Identifier<Foo>, &str> = HashMap::new();
    names.insert(Identifier::new(1), "one");
    names.insert(Identifier::new(2), "two");
    names.insert(Identifier::new(3), "three");
    assert_eq!(names.get(&Identifier::new(1)), Some(&"one"));
    assert_eq!(names.get(&Identifier::new(2)), Some(&"two"));
    assert_eq!(names.get(&Identifier::new(3)), Some(&"three"));
    assert_eq!(names.get(&Identifier::new(4)), None);

    let mut counts: HashMap<bidirectional::FooId, u32> = HashMap::new();
    for raw in [1, 2, 3] {
        counts.insert(bidirectional::FooId::new(raw), 0);
    }
    assert!(counts.contains_key(&bidirectional::FooId::new(2)));
    assert!(!counts.contains_key(&bidirectional::FooId::new(4)));
}

#[test]
fn identifier_debug_shows_the_raw_value() {
    assert_eq!(format!("{:?}", Identifier::<Foo>::new(7)), "Identifier(7)");
    assert_eq!(format!("{:?}", bidirectional::FooId::new(7)), "FooId(7)");
}
