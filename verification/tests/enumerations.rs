use const_enum_map::samples::{Foo, Tier, FOO_VALUES, TIER_VALUES};
use const_enum_map::ConstKey;

#[test]
fn text_enumeration_ids_follow_declaration_order() {
    assert_eq!(Foo::Item0.get_id(), 0);
    assert_eq!(Foo::Item1.get_id(), 1);
}

#[test]
fn text_enumeration_get_returns_the_declared_text() {
    assert_eq!(*Foo::Item0.get(), "item0");
    assert_eq!(*Foo::Item1.get(), "item1");
}

#[test]
fn text_enumeration_get_twice_is_equal() {
    assert_eq!(Foo::Item1.get(), Foo::Item1.get());
    assert_eq!(Foo::Item0.get(), Foo::Item0.get());
}

#[test]
fn text_enumeration_value_list_twice_is_equal() {
    let first = Foo::value_list();
    let second = Foo::value_list();
    assert_eq!(first, second);
    assert_eq!(first.len(), 2);
    assert_eq!(second.len(), 2);
    assert_eq!(first, &["item0", "item1"]);
}

#[test]
fn number_enumeration_third_variant() {
    assert_eq!(Tier::C.get_id(), 2);
    assert_eq!(*Tier::C.get(), 30);
}

#[test]
fn number_enumeration_every_variant() {
    assert_eq!(Tier::A.get_id(), 0);
    assert_eq!(Tier::B.get_id(), 1);
    assert_eq!(Tier::C.get_id(), 2);
    assert_eq!(*Tier::A.get(), 10);
    assert_eq!(*Tier::B.get(), 20);
    assert_eq!(*Tier::C.get(), 30);
}

#[test]
fn number_enumeration_value_list_is_the_declared_list() {
    assert_eq!(Tier::value_list(), &[10, 20, 30]);
    assert_eq!(Tier::value_list(), &TIER_VALUES);
    assert_eq!(Foo::value_list(), &FOO_VALUES);
}

#[test]
fn get_is_the_value_list_at_the_id() {
    for key in [Tier::A, Tier::B, Tier::C] {
        assert_eq!(*key.get(), Tier::value_list()[key.get_id()]);
    }
    for key in [Foo::Item0, Foo::Item1] {
        assert_eq!(*key.get(), Foo::value_list()[key.get_id()]);
    }
}

#[test]
fn value_list_is_stable_across_calls() {
    let first = Tier::value_list();
    let second = Tier::value_list();
    assert_eq!(first.len(), second.len());
    for i in 0..first.len() {
        assert_eq!(first[i], second[i]);
    }
}

#[test]
fn value_list_has_one_element_per_variant() {
    assert_eq!(Tier::value_list().len(), [Tier::A, Tier::B, Tier::C].len());
    assert_eq!(Foo::value_list().len(), [Foo::Item0, Foo::Item1].len());
}

#[test]
fn ids_are_within_the_value_list() {
    for key in [Tier::A, Tier::B, Tier::C] {
        assert!(key.get_id() < Tier::value_list().len());
    }
    for key in [Foo::Item0, Foo::Item1] {
        assert!(key.get_id() < Foo::value_list().len());
    }
}

#[test]
fn ids_are_unique_and_contiguous() {
    let ids = [Tier::A.get_id(), Tier::B.get_id(), Tier::C.get_id()];
    assert_eq!(ids, [0, 1, 2]);
    assert_ne!(Foo::Item0.get_id(), Foo::Item1.get_id());
}

#[test]
fn value_list_is_never_empty() {
    assert!(!Tier::value_list().is_empty());
    assert!(!Foo::value_list().is_empty());
}

#[test]
fn keys_are_plain_copyable_tags() {
    let key = Tier::B;
    let copy = key;
    let clone = key.clone();
    assert_eq!(key, copy);
    assert_eq!(key, clone);
    assert_eq!(*copy.get(), 20);
    assert_eq!(*clone.get(), 20);
}

fn constant_of<T: 'static, K: ConstKey<T>>(key: K) -> &'static T {
    key.get()
}

#[test]
fn get_through_a_generic_caller() {
    assert_eq!(*constant_of(Tier::A), 10);
    assert_eq!(*constant_of(Foo::Item1), "item1");
}
