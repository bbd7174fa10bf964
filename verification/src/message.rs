//! The type model that a service's messages are described in.
mod basic;
mod collection;
pub mod _utils;

use std::collections::HashMap;
use vstd::prelude::*;

pub use collection::{MapVariant, SetVariant};

verus! {

/// A type whose shape can be described, registering the user-defined types it uses.
pub trait Message {
    /// Whether `ty` describes this type. A description depends on the type
    /// alone, never on what the context holds; an impl that does not say more
    /// claims nothing.
    open spec fn describes(ty: Ty) -> bool {
        true
    }

    fn ty(ctx: &mut Context) -> (r: Ty)
        ensures
            Self::describes(r),
    ;
}

/// The shape of a Rust type.
#[allow(non_camel_case_types)]
#[derive(Debug)]
#[non_exhaustive]
pub enum Ty {
    Never,
    u8,
    u16,
    u32,
    u64,
    u128,
    usize,
    i8,
    i16,
    i32,
    i64,
    i128,
    isize,
    F32,
    F64,
    bool,
    char,
    /// String slice (`&str`)
    str,
    String,
    Option(Box<Ty>),
    Result(Box<(Ty, Ty)>),
    Slice(Box<Ty>),
    Tuple(Vec<Ty>),
    Array { len: usize, ty: Box<Ty> },
    SetOf { variant: SetVariant, ty: Box<Ty> },
    MapOf { variant: MapVariant, ty: Box<(Ty, Ty)> },
    /// The name of a user-defined `struct` or `enum`.
    CustomType(String),
}

/// The user-defined types met while describing messages, by name.
#[derive(Debug, Default)]
pub struct Context {
    pub costom_types: HashMap<String, CustomTypeKind>,
}

/// The definition of a user-defined type, by its form.
#[derive(Debug)]
pub enum CustomTypeKind {
    Unit(CustomType<UnitField>),
    Enum(CustomType<EnumField>),
    Struct(CustomType<StructField>),
    TupleStruct(CustomType<TupleStructField>),
}

/// Any user-defined type, such as a `struct` or an `enum`.
#[derive(Debug)]
pub struct CustomType<Field> {
    pub doc: String,
    pub fields: Vec<Field>,
}

/// A variant of an enum whose variants carry no data.
#[derive(Debug)]
pub struct UnitField {
    pub doc: String,
    pub name: String,
    pub value: isize,
}

/// A variant of an enum whose variants may carry data.
#[derive(Debug)]
pub struct EnumField {
    pub doc: String,
    pub name: String,
    pub kind: UnionKind,
}

/// What an enum variant carries.
#[derive(Debug)]
pub enum UnionKind {
    Unit,
    Struct(Vec<StructField>),
    Tuple(Vec<TupleStructField>),
}

/// A named field.
#[derive(Debug)]
pub struct StructField {
    pub doc: String,
    pub name: String,
    pub ty: Ty,
}

/// A positional field.
#[derive(Debug)]
pub struct TupleStructField {
    pub doc: String,
    pub ty: Ty,
}

impl Default for CustomTypeKind {
    fn default() -> (r: Self)
        ensures
            r matches CustomTypeKind::Unit(t) && t.doc@.len() == 0 && t.fields@.len() == 0,
    {
        CustomTypeKind::Unit(CustomType { doc: String::new(), fields: Vec::new() })
    }
}

} // verus!
