use vstd::prelude::*;

verus! {

pub struct SpecificItem1;

pub struct SpecificItem2;

pub struct SpecificItem3;

pub enum SomeEnum {
    Variant1,
    Variant2,
}

pub struct Allocative;

pub struct Display;

pub struct FrozenModule;

pub struct Module;

pub struct Evaluator;

pub struct AllocValue;

pub struct Freeze;

pub struct ProvidesStaticType;

pub struct StarlarkValue;

pub struct ValueLike;

pub struct NoSerialize;

pub struct Trace;

pub fn starlark_value() {
}

} // verus!
