use vstd::prelude::*;
use crate::names::str_eq;

verus! {

/// Borrow category of a type: a shared view, a mutable view, or ownership.
#[derive(Clone, Copy, Debug, PartialEq, Eq, Structural)]
pub enum TypeKind {
    Ref,
    RefMut,
    Value,
}

/// A parameter or return type of an exported function.
#[derive(Clone, Debug)]
pub struct Type {
    pub kind: TypeKind,
    pub is_custom: bool,
    pub is_nullable: bool,
    pub name: String,
}

/// An exported native function together with its host-facing method name.
#[derive(Clone, Debug)]
pub struct Function {
    pub name: String,
    pub method: String,
    pub inputs: Vec<(String, Type)>,
    pub output: Type,
}

/// The exported functions of one class, split by receiver category.
#[derive(Clone, Debug)]
pub struct Class {
    pub static_fns: Vec<Function>,
    pub shared_fns: Vec<Function>,
    pub mut_fns: Vec<Function>,
    pub own_fns: Vec<Function>,
}

/// The tier of a class hierarchy that an extension adds its methods to.
#[derive(Clone, Copy, Debug, PartialEq, Eq, Structural)]
pub enum Tier {
    SharedView,
    Owning,
}

/// Hand-written methods added to the classes of one name, in either output mode.
#[derive(Clone, Debug)]
pub struct Extension {
    pub class_name: String,
    pub tier: Tier,
    pub typed: String,
    pub documented: String,
}

/// A function is static when it has no leading parameter named `this`.
pub open spec fn is_static_spec(f: Function) -> bool {
    f.inputs@.len() == 0 || f.inputs@[0].0@ != "this"@
}

/// A function has a return value when its output is not the unit type.
pub open spec fn has_return_type_spec(f: Function) -> bool {
    f.output.name@ != "()"@
}

impl Function {
    /// Whether the function takes no `this` receiver.
    pub fn is_static(&self) -> (r: bool)
        ensures
            r == is_static_spec(*self),
    {
        self.inputs.len() == 0 || !str_eq(self.inputs[0].0.as_str(), "this")
    }

    /// Whether the function returns something other than the unit type.
    pub fn has_return_type(&self) -> (r: bool)
        ensures
            r == has_return_type_spec(*self),
    {
        !str_eq(self.output.name.as_str(), "()")
    }
}

} // verus!
