use vstd::prelude::*;

use crate::error::Describe;

verus! {

/// A value put together step by step by `FooBuilder`.
#[derive(Debug)]
pub struct Foo {
    pub foo: &'static str,
    pub bar: &'static str,
}

/// Collects the parts of a `Foo`; both must be given before `build`.
#[derive(Debug)]
pub struct FooBuilder {
    pub foo: Option<&'static str>,
    pub bar: Option<&'static str>,
}

/// Why `build` refused: the part that was never given.
#[derive(Debug)]
pub enum BuildError {
    MissingFoo,
    MissingBar,
}

impl Describe for BuildError {
    open spec fn described(&self) -> Seq<char> {
        match self {
            BuildError::MissingFoo => "foo was not set"@,
            BuildError::MissingBar => "bar was not set"@,
        }
    }

    fn description(&self) -> (r: String) {
        match self {
            BuildError::MissingFoo => String::from_str("foo was not set"),
            BuildError::MissingBar => String::from_str("bar was not set"),
        }
    }
}

impl Foo {
    pub fn builder() -> (b: FooBuilder)
        ensures
            b.foo is None,
            b.bar is None,
    {
        FooBuilder::new()
    }
}

impl FooBuilder {
    pub fn new() -> (b: Self)
        ensures
            b.foo is None,
            b.bar is None,
    {
        FooBuilder { foo: None, bar: None }
    }

    pub fn foo(self, foo: &'static str) -> (b: Self)
        ensures
            b.foo == Some(foo),
            b.bar == self.bar,
    {
        FooBuilder { foo: Some(foo), bar: self.bar }
    }

    pub fn bar(self, bar: &'static str) -> (b: Self)
        ensures
            b.foo == self.foo,
            b.bar == Some(bar),
    {
        FooBuilder { foo: self.foo, bar: Some(bar) }
    }

    /// The `Foo` of the parts given; the first missing part otherwise.
    pub fn build(self) -> (r: Result<Foo, BuildError>)
        ensures
            self.foo is None ==> r matches Err(BuildError::MissingFoo),
            self.foo is Some && self.bar is None ==> r matches Err(BuildError::MissingBar),
            (self.foo, self.bar) matches (Some(f), Some(b)) ==> (r matches Ok(v) && v.foo == f
                && v.bar == b),
    {
        match (self.foo, self.bar) {
            (Some(foo), Some(bar)) => Ok(Foo { foo, bar }),
            (None, _) => Err(BuildError::MissingFoo),
            (Some(_), None) => Err(BuildError::MissingBar),
        }
    }
}

} // verus!
