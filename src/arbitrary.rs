use vstd::prelude::*;

use crate::error::Result;

verus! {

/// A stand-in value for showing how calls chain and fail.
#[derive(Debug, Clone, Copy, PartialEq, Eq, Structural)]
pub struct Arbitrary;

impl Arbitrary {
    pub fn new() -> (r: Self)
        ensures
            r == Arbitrary,
    {
        Arbitrary
    }

    pub fn builder() -> (r: Self)
        ensures
            r == Arbitrary,
    {
        Arbitrary
    }

    pub fn foo(self, _part: &str) -> (r: Self)
        ensures
            r == self,
    {
        self
    }

    pub fn bar(self, _part: &str) -> (r: Self)
        ensures
            r == self,
    {
        self
    }

    pub fn build(self) -> (r: Result<Self>)
        ensures
            r matches Ok(v) && v == self,
    {
        Ok(self)
    }

    pub fn something_else(self) -> (r: Self)
        ensures
            r == self,
    {
        self
    }

    pub fn another_thing(self) -> (r: Self)
        ensures
            r == self,
    {
        self
    }

    pub fn chained_with_something_else(self) -> (r: Result<Self>)
        ensures
            r matches Ok(v) && v == self,
    {
        Ok(self)
    }

    /// Renders the value after `fmt`; a stand-in value renders as nothing.
    pub fn format_as(self, _fmt: &str) -> (r: String)
        ensures
            r@ == Seq::<char>::empty(),
    {
        String::new()
    }

    pub fn is_valid(&self) -> (r: bool)
        ensures
            r,
    {
        true
    }
}

pub fn some_long_computation() -> (r: Result<Arbitrary>)
    ensures
        r matches Ok(v) && v == Arbitrary,
{
    Ok(Arbitrary)
}

pub fn some_other_long_computation() -> (r: Arbitrary)
    ensures
        r == Arbitrary,
{
    Arbitrary
}

pub fn foo() -> (r: Arbitrary)
    ensures
        r == Arbitrary,
{
    Arbitrary
}

pub fn bar() -> (r: Arbitrary)
    ensures
        r == Arbitrary,
{
    Arbitrary
}

pub fn baz() -> (r: Arbitrary)
    ensures
        r == Arbitrary,
{
    Arbitrary
}

/// An input handed to a `Responder`.
pub struct Input;

/// Produces a response to an input, or fails.
pub trait Responder {
    type Response;

    type Err;

    fn respond(&self, input: Input) -> std::result::Result<Self::Response, Self::Err>;
}

pub struct Message;

impl Message {
    pub fn text(&self) {
    }
}

} // verus!
