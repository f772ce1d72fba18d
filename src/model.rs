//! The bridge module as handed over by the parser: entities and functions in
//! declaration order, every type already resolved.

use vstd::prelude::*;

verus! {

/// Which side of the bridge implements an item.
#[derive(Clone, Copy, Debug, PartialEq, Eq, Structural)]
pub enum Owner {
    /// Implemented in Rust; the header declares it.
    Native,
    /// Implemented in Swift; the header leaves it out.
    Foreign,
}

/// Fixed-width numbers and `bool`.
#[derive(Clone, Copy, Debug, PartialEq, Eq, Structural)]
pub enum Scalar {
    U8,
    I8,
    U16,
    I16,
    U32,
    I32,
    U64,
    I64,
    Usize,
    Isize,
    F32,
    F64,
    Bool,
}

/// A type that can stand on its own or as the element of a slice.
#[derive(Debug)]
pub enum ElementType {
    Scalar(Scalar),
    /// A reference to an opaque handle type, by its name.
    Opaque(String),
    /// A value type, by its display name.
    Value(String),
}

/// A type of a field, a parameter or a return value.
#[derive(Debug)]
pub enum BridgedType {
    Plain(ElementType),
    /// `&[T]`; slices do not nest.
    RefSlice(ElementType),
}

#[derive(Debug)]
pub enum FieldName {
    Named(String),
    /// A tuple-struct field, known by its position.
    Positional,
}

#[derive(Debug)]
pub struct StructField {
    pub name: FieldName,
    pub ty: BridgedType,
}

/// A type declared in the module.
#[derive(Debug)]
pub enum BridgedEntity {
    /// A struct whose fields cross the boundary by value.
    Value { display_name: String, fields: Vec<StructField> },
    /// A type whose layout stays hidden behind a pointer.
    Opaque { name: String, owner: Owner },
}

/// How a method takes its receiver.
#[derive(Clone, Copy, Debug, PartialEq, Eq, Structural)]
pub enum ReceiverMode {
    ByValue,
    ByRef,
    ByMutRef,
}

/// `self` written bare, or with the entity's type (`self: &Foo`).
#[derive(Clone, Copy, Debug, PartialEq, Eq, Structural)]
pub enum ReceiverForm {
    Bare,
    Typed,
}

#[derive(Debug)]
pub struct Receiver {
    /// The opaque entity the method belongs to.
    pub entity: String,
    pub mode: ReceiverMode,
    pub form: ReceiverForm,
}

#[derive(Debug)]
pub struct FnParam {
    pub name: String,
    pub ty: BridgedType,
}

/// A free function, or a method when it has a receiver.
#[derive(Debug)]
pub struct BridgedFn {
    pub name: String,
    pub receiver: Option<Receiver>,
    pub params: Vec<FnParam>,
    pub ret: Option<BridgedType>,
    pub owner: Owner,
}

/// A parsed bridge module.
#[derive(Debug)]
pub struct SwiftBridgeModule {
    pub types: Vec<BridgedEntity>,
    pub functions: Vec<BridgedFn>,
}

} // verus!
