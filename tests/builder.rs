use snippet_helpers::arbitrary::{
    bar, baz, foo, some_long_computation, some_other_long_computation, Arbitrary,
};
use snippet_helpers::builder::{BuildError, Foo, FooBuilder};

#[test]
fn chained_builder_succeeds() {
    let v = FooBuilder::new().foo("a").bar("b").build().unwrap();
    assert_eq!(v.foo, "a");
    assert_eq!(v.bar, "b");
}

#[test]
fn builder_from_foo_matches_new() {
    let v = Foo::builder().bar("y").foo("x").build().unwrap();
    assert_eq!((v.foo, v.bar), ("x", "y"));
    let b = Foo::builder();
    assert_eq!((b.foo, b.bar), (None, None));
}

#[test]
fn later_part_replaces_earlier() {
    let v = FooBuilder::new().foo("a").foo("c").bar("b").build().unwrap();
    assert_eq!(v.foo, "c");
}

#[test]
fn build_without_foo_fails() {
    assert!(matches!(FooBuilder::new().bar("b").build(), Err(BuildError::MissingFoo)));
    assert!(matches!(FooBuilder::new().build(), Err(BuildError::MissingFoo)));
}

#[test]
fn build_without_bar_fails() {
    assert!(matches!(FooBuilder::new().foo("a").build(), Err(BuildError::MissingBar)));
}

#[test]
fn arbitrary_chains() {
    let a = Arbitrary::builder().foo("a").bar("b").build().unwrap();
    assert_eq!(a, Arbitrary::new());
    let b = Arbitrary::new().something_else().another_thing().chained_with_something_else();
    assert!(matches!(b, Ok(Arbitrary)));
    assert!(a.is_valid());
    assert_eq!(a.format_as("{}"), "");
    assert!(matches!(some_long_computation(), Ok(Arbitrary)));
    assert_eq!(some_other_long_computation(), Arbitrary);
    assert_eq!((foo(), bar(), baz()), (Arbitrary, Arbitrary, Arbitrary));
}
