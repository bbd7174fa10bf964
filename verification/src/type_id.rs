//! Descriptions of Rust types that a service exposes to its clients.
mod basic;
mod collection;
mod costom_types;

use vstd::prelude::*;

pub use collection::{MapVariant, SetVariant};
pub use costom_types::CostomTypes;

verus! {

/// A type whose description can be written into a registry of custom types.
pub trait TypeId {
    /// Whether `ty` describes this type. A description depends on the type
    /// alone, never on what the registry holds; an impl that does not say
    /// more claims nothing.
    open spec fn describes(ty: Ty) -> bool {
        true
    }

    fn ty(c: &mut CostomTypes) -> (r: Ty)
        ensures
            Self::describes(r),
    ;
}

/// The shape of a Rust type.
#[allow(non_camel_case_types)]
#[derive(Debug)]
pub enum Ty {
    u8,
    u16,
    u32,
    u64,
    u128,
    i8,
    i16,
    i32,
    i64,
    i128,
    F32,
    F64,
    bool,
    String,
    Option(Box<Ty>),
    Result(Box<(Ty, Ty)>),
    Tuple(Vec<Ty>),
    Array { ty: Box<Ty>, len: usize },
    SetOf { variant: SetVariant, ty: Box<Ty> },
    MapOf { variant: MapVariant, ty: Box<(Ty, Ty)> },
    /// The path of a user-defined `struct` or `enum`.
    CustomType(String),
}

impl Ty {
    /// Whether this is the unit type `()`, a tuple of no element.
    pub fn is_empty_tuple(&self) -> (r: bool)
        ensures
            r == (self matches Ty::Tuple(tys) && tys@.len() == 0),
    {
        match self {
            Ty::Tuple(tys) => tys.len() == 0,
            _ => false,
        }
    }
}

/// The definition of a user-defined type, by its form.
#[derive(Debug)]
pub enum CustomTypeKind {
    Unit(CustomType<UnitField>),
    Enum(CustomType<EnumField>),
    Tuple(CustomType<TupleField>),
    Struct(CustomType<StructField>),
}

/// Any user-defined type, such as a `struct` or an `enum`.
#[derive(Debug)]
pub struct CustomType<Field> {
    pub doc: String,
    pub fields: Vec<Field>,
}

/// A variant of an enum whose variants carry no data.
#[derive(Debug)]
pub struct UnitField {
    pub doc: String,
    pub name: Ident,
    pub value: isize,
}

/// A variant of an enum whose variants may carry data.
#[derive(Debug)]
pub struct EnumField {
    pub doc: String,
    pub name: Ident,
    pub kind: EnumKind,
}

/// What an enum variant carries.
#[derive(Debug)]
pub enum EnumKind {
    Unit,
    Struct(Vec<StructField>),
    Tuple(Vec<TupleField>),
}

/// A named field.
#[derive(Debug)]
pub struct StructField {
    pub doc: String,
    pub name: Ident,
    pub ty: Ty,
}

/// A positional field.
#[derive(Debug)]
pub struct TupleField {
    pub doc: String,
    pub ty: Ty,
}

impl Default for CustomTypeKind {
    fn default() -> (r: Self)
        ensures
            r matches CustomTypeKind::Unit(t) && t.doc@.len() == 0 && t.fields@.len() == 0,
    {
        CustomTypeKind::Unit(CustomType { doc: String::new(), fields: Vec::new() })
    }
}

} // verus!

verus! {

/// An identifier as written in Rust source; raw identifiers keep their `r#` prefix.
#[derive(Clone, Debug, Default, Hash)]
pub struct Ident(pub String);

/// Whether `s` begins with the raw-identifier prefix `r#`.
pub open spec fn has_raw_prefix(s: Seq<char>) -> bool {
    s.len() >= 2 && s[0] == 'r' && s[1] == '#'
}

/// `s` with every leading `r#` removed, as `str::trim_start_matches("r#")` gives it.
pub open spec fn strip_raw_prefix(s: Seq<char>) -> Seq<char>
    decreases s.len(),
{
    if has_raw_prefix(s) {
        strip_raw_prefix(s.subrange(2, s.len() as int))
    } else {
        s
    }
}

/// The name an identifier is shown by never carries the raw-identifier
/// prefix, and removing the prefix again changes nothing.
pub proof fn law_stripped_name_is_not_raw(s: Seq<char>)
    ensures
        !has_raw_prefix(strip_raw_prefix(s)),
        strip_raw_prefix(strip_raw_prefix(s)) == strip_raw_prefix(s),
    decreases s.len(),
{
    if has_raw_prefix(s) {
        law_stripped_name_is_not_raw(s.subrange(2, s.len() as int));
    }
}

impl Ident {
    /// Whether the identifier is written in raw form, `r#name`.
    pub fn is_raw_str_literal(&self) -> (r: bool)
        ensures
            r == has_raw_prefix(self.0@),
    {
        let s = self.0.as_str();
        s.unicode_len() >= 2 && s.get_char(0) == 'r' && s.get_char(1) == '#'
    }

    /// The number of leading characters that `strip_raw_prefix` removes.
    fn raw_prefix_len(s: &str) -> (k: usize)
        ensures
            k <= s@.len(),
            strip_raw_prefix(s@) == s@.subrange(k as int, s@.len() as int),
    {
        let n = s.unicode_len();
        let mut k: usize = 0;
        assert(s@.subrange(0, n as int) =~= s@);
        loop
            invariant
                n == s@.len(),
                k <= n,
                strip_raw_prefix(s@) == strip_raw_prefix(s@.subrange(k as int, n as int)),
            ensures
                k <= n,
                strip_raw_prefix(s@) == s@.subrange(k as int, n as int),
            decreases n - k,
        {
            if n - k < 2 {
                proof {
                    lemma_strip_stop(s@, k as int);
                }
                break;
            }
            let c0 = s.get_char(k);
            let c1 = s.get_char(k + 1);
            if c0 != 'r' || c1 != '#' {
                proof {
                    lemma_strip_stop(s@, k as int);
                }
                break;
            }
            proof {
                lemma_strip_step(s@, k as int);
            }
            k = k + 2;
        }
        k
    }
}

proof fn lemma_strip_stop(s: Seq<char>, k: int)
    requires
        0 <= k <= s.len(),
        !(k + 2 <= s.len() && s[k] == 'r' && s[k + 1] == '#'),
    ensures
        strip_raw_prefix(s.subrange(k, s.len() as int)) == s.subrange(k, s.len() as int),
{
    let rest = s.subrange(k, s.len() as int);
    assert(!has_raw_prefix(rest));
}

proof fn lemma_strip_step(s: Seq<char>, k: int)
    requires
        0 <= k,
        k + 2 <= s.len(),
        s[k] == 'r',
        s[k + 1] == '#',
    ensures
        strip_raw_prefix(s.subrange(k, s.len() as int)) == strip_raw_prefix(
            s.subrange(k + 2, s.len() as int),
        ),
{
    let rest = s.subrange(k, s.len() as int);
    assert(has_raw_prefix(rest));
    assert(rest.subrange(2, rest.len() as int) =~= s.subrange(k + 2, s.len() as int));
}

impl core::ops::Deref for Ident {
    type Target = str;

    /// The identifier's name without its raw-identifier prefix.
    fn deref(&self) -> (r: &str)
        ensures
            r@ == strip_raw_prefix(self.0@),
    {
        let s = self.0.as_str();
        let k = Self::raw_prefix_len(s);
        s.substring_char(k, s.unicode_len())
    }
}

} // verus!

verus! {

impl<Field> CustomType<Field> {
    pub fn new(doc: &str, fields: Vec<Field>) -> (r: Self)
        ensures
            r.doc@ == doc@,
            r.fields == fields,
    {
        CustomType { doc: doc.to_owned(), fields }
    }
}

impl UnitField {
    pub fn new(doc: &str, name: &str, value: isize) -> (r: Self)
        ensures
            r.doc@ == doc@,
            r.name.0@ == name@,
            r.value == value,
    {
        UnitField { doc: doc.to_owned(), name: Ident(name.to_owned()), value }
    }
}

impl EnumField {
    pub fn new(doc: &str, name: &str, kind: EnumKind) -> (r: Self)
        ensures
            r.doc@ == doc@,
            r.name.0@ == name@,
            r.kind == kind,
    {
        EnumField { doc: doc.to_owned(), name: Ident(name.to_owned()), kind }
    }
}

impl StructField {
    pub fn new(doc: &str, name: &str, ty: Ty) -> (r: Self)
        ensures
            r.doc@ == doc@,
            r.name.0@ == name@,
            r.ty == ty,
    {
        StructField { doc: doc.to_owned(), name: Ident(name.to_owned()), ty }
    }
}

impl TupleField {
    pub fn new(doc: &str, ty: Ty) -> (r: Self)
        ensures
            r.doc@ == doc@,
            r.ty == ty,
    {
        TupleField { doc: doc.to_owned(), ty }
    }
}

} // verus!
