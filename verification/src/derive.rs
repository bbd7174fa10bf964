//! The decisions behind `#[derive(Message)]`: which kind of definition a type
//! gets, the values of its unit variants, and its documentation.
use vstd::prelude::*;
use crate::declare::TokenTree;
use vstd::string::StringExecFns;

verus! {

/// A field of the type being derived for: the text of its `///` lines and its
/// name, if it has one.
#[derive(Debug)]
pub struct FieldInput {
    pub doc_lines: Vec<String>,
    pub name: Option<String>,
}

/// The fields of a struct or of an enum variant, by form.
#[derive(Debug)]
pub enum FieldsInput {
    Named(Vec<FieldInput>),
    Unnamed(Vec<FieldInput>),
    Unit,
}

/// The explicit discriminant of an enum variant.
#[derive(Debug, Clone, Copy, PartialEq, Eq, Structural)]
pub enum Discriminant {
    /// None is written.
    Absent,
    /// An integer literal.
    Int(isize),
    /// An integer literal whose value does not fit in an `isize`.
    OutOfRange,
    /// A literal that is not an integer.
    NotInteger,
    /// An expression that is not a literal.
    NotLiteral,
}

/// An enum variant: its documentation, name, discriminant and fields.
#[derive(Debug)]
pub struct VariantInput {
    pub doc_lines: Vec<String>,
    pub name: String,
    pub discriminant: Discriminant,
    pub fields: FieldsInput,
}

/// The data of the type being derived for.
#[derive(Debug)]
pub enum DataInput {
    Struct(FieldsInput),
    Enum(Vec<VariantInput>),
    Union,
}

/// The type being derived for: its documentation, its name, whether it has
/// type parameters, and its data.
#[derive(Debug)]
pub struct TypeInput {
    pub doc_lines: Vec<String>,
    pub ident: String,
    pub has_type_params: bool,
    pub data: DataInput,
}

/// The kind of definition a type is described by.
#[derive(Debug, Clone, Copy, PartialEq, Eq, Structural)]
pub enum DeriveKind {
    /// A struct with named fields.
    Struct,
    /// A struct with positional fields.
    Tuple,
    /// An enum whose variants all carry no data or have a discriminant.
    Unit,
    /// Any other enum.
    Enum,
}

/// Why a type cannot derive `Message`.
#[derive(Debug, Clone, Copy, PartialEq, Eq, Structural)]
pub enum DeriveError {
    /// The type has type parameters.
    GenericType,
    /// A struct without fields.
    UnitStruct,
    /// A union.
    Union,
}

/// Why deriving `Message` for a type stops the compiler: the type has no
/// fitting definition, and the derive aborts.
#[derive(Debug, Clone, Copy, PartialEq, Eq, Structural)]
pub enum DerivePanic {
    /// A struct without fields.
    UnitStruct,
    /// A union.
    Union,
    /// In a unit enum, a discriminant that is not a literal.
    DiscriminantNotLiteral,
    /// In a unit enum, a discriminant that is a literal but not an integer.
    DiscriminantNotInteger,
    /// In a unit enum, an integer discriminant that does not fit in an `isize`.
    DiscriminantOutOfRange,
    /// In a unit enum, a variant whose value would be one past `isize::MAX`.
    DiscriminantOverflow,
}

/// Whether an enum is described as a unit enum.
pub open spec fn is_unit_enum(variants: Seq<VariantInput>) -> bool {
    forall|i: int|
        0 <= i < variants.len() ==> !(#[trigger] variants[i].discriminant is Absent)
            || variants[i].fields is Unit
}

/// The kind of definition a type gets.
pub open spec fn spec_derive_kind(has_type_params: bool, data: DataInput) -> Result<DeriveKind, DeriveError> {
    if has_type_params {
        Err(DeriveError::GenericType)
    } else {
        match data {
            DataInput::Struct(FieldsInput::Named(_)) => Ok(DeriveKind::Struct),
            DataInput::Struct(FieldsInput::Unnamed(_)) => Ok(DeriveKind::Tuple),
            DataInput::Struct(FieldsInput::Unit) => Err(DeriveError::UnitStruct),
            DataInput::Enum(variants) => if is_unit_enum(variants@) {
                Ok(DeriveKind::Unit)
            } else {
                Ok(DeriveKind::Enum)
            },
            DataInput::Union => Err(DeriveError::Union),
        }
    }
}

/// Decides the kind of definition a type gets, or why it gets none.
#[verifier::loop_isolation(false)]
pub fn derive_kind(has_type_params: bool, data: &DataInput) -> (r: Result<DeriveKind, DeriveError>)
    ensures
        r == spec_derive_kind(has_type_params, *data),
{
    if has_type_params {
        return Err(DeriveError::GenericType);
    }
    match data {
        DataInput::Struct(FieldsInput::Named(_)) => Ok(DeriveKind::Struct),
        DataInput::Struct(FieldsInput::Unnamed(_)) => Ok(DeriveKind::Tuple),
        DataInput::Struct(FieldsInput::Unit) => Err(DeriveError::UnitStruct),
        DataInput::Enum(variants) => {
            let mut i: usize = 0;
            while i < variants.len()
                invariant
                    i <= variants@.len(),
                    forall|j: int|
                        0 <= j < i ==> !(#[trigger] variants@[j].discriminant is Absent)
                            || variants@[j].fields is Unit,
                decreases variants@.len() - i,
            {
                let v = &variants[i];
                if matches!(v.discriminant, Discriminant::Absent) && !matches!(v.fields, FieldsInput::Unit) {
                    assert(variants@[i as int].discriminant is Absent);
                    assert(!is_unit_enum(variants@));
                    return Ok(DeriveKind::Enum);
                }
                i = i + 1;
            }
            Ok(DeriveKind::Unit)
        },
        DataInput::Union => Err(DeriveError::Union),
    }
}

/// The values of a unit enum's variants: a variant's explicit discriminant, or
/// one more than the variant before it, the first counting from zero.
pub open spec fn unit_values(discriminants: Seq<Option<isize>>) -> Seq<int>
    decreases discriminants.len(),
{
    if discriminants.len() == 0 {
        Seq::empty()
    } else {
        let before = unit_values(discriminants.drop_last());
        let value = match discriminants.last() {
            Some(v) => v as int,
            None => if before.len() == 0 {
                0
            } else {
                before.last() + 1
            },
        };
        before.push(value)
    }
}

proof fn lemma_unit_values_len(d: Seq<Option<isize>>)
    ensures
        unit_values(d).len() == d.len(),
    decreases d.len(),
{
    if d.len() > 0 {
        lemma_unit_values_len(d.drop_last());
    }
}

/// The value of one variant of a unit enum, from the value of the one before it.
proof fn lemma_unit_values_step(d: Seq<Option<isize>>, i: int)
    requires
        0 <= i < d.len(),
    ensures
        unit_values(d).len() == d.len(),
        unit_values(d)[i] == match d[i] {
            Some(v) => v as int,
            None => if i == 0 {
                0
            } else {
                unit_values(d)[i - 1] + 1
            },
        },
{
    lemma_unit_values_len(d);
    let p = d.subrange(0, i + 1);
    lemma_prefix_unit_values(d, i + 1);
    lemma_prefix_unit_values(d, i);
    assert(p.drop_last() =~= d.subrange(0, i));
    lemma_unit_values_len(p.drop_last());
    assert(p.last() == d[i]);
    assert(unit_values(d)[i] == unit_values(p)[i]);
    if i > 0 {
        assert(unit_values(p.drop_last()).last() == unit_values(d)[i - 1]);
    }
}

/// Computes the values of a unit enum's variants. A value past `isize::MAX` is
/// refused by the compiler, so none is asked for.
pub fn unit_enum_values(discriminants: &[Option<isize>]) -> (r: Vec<isize>)
    requires
        values_fit(discriminants@),
    ensures
        r@.len() == discriminants@.len(),
        forall|i: int| 0 <= i < r@.len() ==> r@[i] == unit_values(discriminants@)[i],
{
    let mut out: Vec<isize> = Vec::new();
    let mut value: isize = -1;
    let mut i: usize = 0;
    proof {
        lemma_unit_values_len(discriminants@);
    }
    while i < discriminants.len()
        invariant
            i <= discriminants@.len(),
            unit_values(discriminants@).len() == discriminants@.len(),
            forall|j: int|
                0 <= j < discriminants@.len() ==> #[trigger] unit_values(discriminants@)[j]
                    <= isize::MAX,
            out@.len() == i,
            forall|j: int| 0 <= j < i ==> out@[j] == unit_values(discriminants@)[j],
            i == 0 ==> value == -1,
            i > 0 ==> value == unit_values(discriminants@)[i - 1],
        decreases discriminants@.len() - i,
    {
        proof {
            lemma_unit_values_step(discriminants@, i as int);
        }
        value = match discriminants[i] {
            Some(v) => v,
            None => value + 1,
        };
        out.push(value);
        i = i + 1;
    }
    out
}

/// Whether every value of a unit enum's variants is at most `isize::MAX`.
pub open spec fn values_fit(discriminants: Seq<Option<isize>>) -> bool {
    forall|i: int| 0 <= i < discriminants.len() ==> #[trigger] unit_values(discriminants)[i] <= isize::MAX
}

proof fn lemma_prefix_unit_values(d: Seq<Option<isize>>, n: int)
    requires
        0 <= n <= d.len(),
    ensures
        unit_values(d.subrange(0, n)) == unit_values(d).subrange(0, n),
    decreases d.len() - n,
{
    lemma_unit_values_len(d);
    if n < d.len() {
        lemma_prefix_unit_values(d, n + 1);
        let p = d.subrange(0, n + 1);
        assert(p.drop_last() =~= d.subrange(0, n));
        lemma_unit_values_len(p);
        assert(unit_values(p).drop_last() =~= unit_values(p.drop_last()));
        assert(unit_values(d).subrange(0, n + 1).drop_last() =~= unit_values(d).subrange(0, n));
    } else {
        assert(d.subrange(0, n) =~= d);
        assert(unit_values(d).subrange(0, n) =~= unit_values(d));
    }
}

/// The documentation text of a list of `///` lines: each line followed by a line break.
pub open spec fn doc_text(lines: Seq<Seq<char>>) -> Seq<char>
    decreases lines.len(),
{
    if lines.len() == 0 {
        Seq::empty()
    } else {
        doc_text(lines.drop_last()) + lines.last() + "\n"@
    }
}

/// Joins the text of a type's or field's `///` lines.
pub fn get_comments_from(lines: &[String]) -> (r: String)
    ensures
        r@ == doc_text(lines@.map_values(|l: String| l@)),
{
    let mut text = String::new();
    let mut i: usize = 0;
    let ghost all = lines@.map_values(|l: String| l@);
    while i < lines.len()
        invariant
            i <= lines@.len(),
            all == lines@.map_values(|l: String| l@),
            text@ == doc_text(all.subrange(0, i as int)),
        decreases lines@.len() - i,
    {
        proof {
            assert(all.subrange(0, i + 1).drop_last() =~= all.subrange(0, i as int));
        }
        text.append(lines[i].as_str());
        text.append("\n");
        i = i + 1;
    }
    assert(all.subrange(0, lines@.len() as int) =~= all);
    text
}

/// The index of the first of `params` named `name`.
pub open spec fn first_param(params: Seq<Seq<char>>, name: Seq<char>) -> Option<int>
    decreases params.len(),
{
    if params.len() == 0 {
        None
    } else {
        match first_param(params.drop_last(), name) {
            Some(k) => Some(k),
            None => if params.last() == name {
                Some(params.len() - 1)
            } else {
                None
            },
        }
    }
}

/// The generic parameter a token of a field's type names, if it is one.
pub open spec fn param_of(t: TokenTree, params: Seq<Seq<char>>) -> Option<int> {
    match t {
        TokenTree::Ident(s) => first_param(params, s@),
        _ => None,
    }
}

fn first_param_exec(params: &[String], name: &String) -> (r: Option<usize>)
    ensures
        match first_param(params@.map_values(|p: String| p@), name@) {
            Some(k) => r matches Some(x) && x == k,
            None => r is None,
        },
{
    let ghost ps = params@.map_values(|p: String| p@);
    let mut k: usize = 0;
    while k < params.len()
        invariant
            k <= params@.len(),
            ps == params@.map_values(|p: String| p@),
            first_param(ps.subrange(0, k as int), name@) is None,
        decreases params@.len() - k,
    {
        proof {
            assert(ps.subrange(0, k + 1).drop_last() =~= ps.subrange(0, k as int));
        }
        if params[k] == *name {
            proof {
                lemma_first_param_prefix(ps, name@, k + 1);
            }
            return Some(k);
        }
        k = k + 1;
    }
    assert(ps.subrange(0, k as int) =~= ps);
    None
}

proof fn lemma_first_param_prefix(ps: Seq<Seq<char>>, name: Seq<char>, n: int)
    requires
        0 <= n <= ps.len(),
        first_param(ps.subrange(0, n), name) is Some,
    ensures
        first_param(ps, name) == first_param(ps.subrange(0, n), name),
    decreases ps.len() - n,
{
    if n < ps.len() {
        assert(ps.subrange(0, n + 1).drop_last() =~= ps.subrange(0, n));
        lemma_first_param_prefix(ps, name, n + 1);
    } else {
        assert(ps.subrange(0, n) =~= ps);
    }
}

/// For each token of a field's type, the index of the generic parameter it
/// names (only tokens at the top level are looked at), so that it can be
/// replaced by the placeholder of that parameter.
pub fn replace_generic_param(ty: &[TokenTree], generic_ty_params: &[String]) -> (r: Vec<Option<usize>>)
    ensures
        r@.len() == ty@.len(),
        forall|i: int|
            0 <= i < ty@.len() ==> match param_of(#[trigger] ty@[i], generic_ty_params@.map_values(
                |p: String| p@,
            )) {
                Some(k) => r@[i] == Some(k as usize),
                None => r@[i] is None,
            },
{
    let mut out: Vec<Option<usize>> = Vec::new();
    let mut i: usize = 0;
    while i < ty.len()
        invariant
            i <= ty@.len(),
            out@.len() == i,
            forall|j: int|
                0 <= j < i ==> match param_of(#[trigger] ty@[j], generic_ty_params@.map_values(
                    |p: String| p@,
                )) {
                    Some(k) => out@[j] == Some(k as usize),
                    None => out@[j] is None,
                },
        decreases ty@.len() - i,
    {
        let found = match &ty[i] {
            TokenTree::Ident(name) => first_param_exec(generic_ty_params, name),
            _ => None,
        };
        out.push(found);
        i = i + 1;
    }
    out
}

/// In a unit enum, a variant without a discriminant takes the value after the
/// one of the variant before it, and the first such variant takes zero.
pub proof fn law_unit_values_count_up(d: Seq<Option<isize>>, i: int)
    requires
        0 <= i < d.len(),
        d[i] is None,
    ensures
        unit_values(d).len() == d.len(),
        i == 0 ==> unit_values(d)[i] == 0,
        i > 0 ==> unit_values(d)[i] == unit_values(d)[i - 1] + 1,
        forall|j: int| 0 <= j < d.len() && d[j] is Some ==> unit_values(d)[j] == d[j]->0 as int,
{
    lemma_unit_values_step(d, i);
    assert forall|j: int| 0 <= j < d.len() && d[j] is Some implies unit_values(d)[j] == d[j]->0 as int by {
        lemma_unit_values_step(d, j);
    }
}


/// A field as the generated definition describes it: its documentation and
/// its name (empty for a positional field).
#[derive(Debug)]
pub struct FieldPlan {
    pub doc: String,
    pub name: String,
}

/// A variant of a unit enum as the generated definition describes it.
#[derive(Debug)]
pub struct UnitVariantPlan {
    pub doc: String,
    pub name: String,
    pub value: isize,
}

/// What a variant of an enum carries, as the generated definition describes it.
#[derive(Debug)]
pub enum VariantKindPlan {
    Unit,
    Struct(Vec<FieldPlan>),
    Tuple(Vec<FieldPlan>),
}

/// A variant of an enum as the generated definition describes it.
#[derive(Debug)]
pub struct VariantPlan {
    pub doc: String,
    pub name: String,
    pub kind: VariantKindPlan,
}

/// The fields or variants of the generated definition.
#[derive(Debug)]
pub enum BodyPlan {
    Fields(Vec<FieldPlan>),
    UnitVariants(Vec<UnitVariantPlan>),
    Variants(Vec<VariantPlan>),
}

/// The definition that `#[derive(Message)]` generates for a type: its kind,
/// documentation, the pattern of the name it is registered under (`{}` stands
/// for the module path), and its fields or variants.
#[derive(Debug)]
pub struct MessagePlan {
    pub kind: DeriveKind,
    pub doc: String,
    pub name: String,
    pub body: BodyPlan,
}

/// The documentation text of a list of `///` lines.
pub open spec fn lines_text(lines: Seq<String>) -> Seq<char> {
    doc_text(lines.map_values(|l: String| l@))
}

/// The name a field is described by: its own, or nothing.
pub open spec fn field_name(f: FieldInput) -> Seq<char> {
    match f.name {
        Some(n) => n@,
        None => Seq::empty(),
    }
}

/// Whether `p` describes the fields `fs`, in order.
pub open spec fn fields_planned(p: Seq<FieldPlan>, fs: Seq<FieldInput>) -> bool {
    &&& p.len() == fs.len()
    &&& forall|i: int|
        0 <= i < fs.len() ==> (#[trigger] p[i]).doc@ == lines_text(fs[i].doc_lines@) && p[i].name@
            == field_name(fs[i])
}

/// Whether `k` describes what a variant with the fields `f` carries.
pub open spec fn variant_kind_planned(k: VariantKindPlan, f: FieldsInput) -> bool {
    match f {
        FieldsInput::Named(fs) => k matches VariantKindPlan::Struct(p) && fields_planned(p@, fs@),
        FieldsInput::Unnamed(fs) => k matches VariantKindPlan::Tuple(p) && fields_planned(p@, fs@),
        FieldsInput::Unit => k is Unit,
    }
}

/// The discriminants of an enum's variants that are integers.
pub open spec fn discriminant_values(vs: Seq<VariantInput>) -> Seq<Option<isize>> {
    vs.map_values(
        |v: VariantInput|
            match v.discriminant {
                Discriminant::Int(x) => Some(x),
                _ => None,
            },
    )
}

/// Whether `p` describes the variants of a unit enum.
pub open spec fn unit_variants_planned(p: Seq<UnitVariantPlan>, vs: Seq<VariantInput>) -> bool {
    &&& p.len() == vs.len()
    &&& forall|i: int|
        0 <= i < vs.len() ==> {
            &&& (#[trigger] p[i]).doc@ == lines_text(vs[i].doc_lines@)
            &&& p[i].name@ == vs[i].name@
            &&& p[i].value == unit_values(discriminant_values(vs))[i]
        }
}

/// Whether `p` describes the variants of an enum that is not a unit enum.
pub open spec fn variants_planned(p: Seq<VariantPlan>, vs: Seq<VariantInput>) -> bool {
    &&& p.len() == vs.len()
    &&& forall|i: int|
        0 <= i < vs.len() ==> {
            &&& (#[trigger] p[i]).doc@ == lines_text(vs[i].doc_lines@)
            &&& p[i].name@ == vs[i].name@
            &&& variant_kind_planned(p[i].kind, vs[i].fields)
        }
}

/// Whether `b` describes the fields or variants of `data`, for a type of kind `kind`.
pub open spec fn body_planned(kind: DeriveKind, b: BodyPlan, data: DataInput) -> bool {
    match data {
        DataInput::Struct(FieldsInput::Named(fs)) => b matches BodyPlan::Fields(p) && fields_planned(p@, fs@),
        DataInput::Struct(FieldsInput::Unnamed(fs)) => b matches BodyPlan::Fields(p) && fields_planned(p@, fs@),
        DataInput::Enum(vs) => if kind == DeriveKind::Unit {
            b matches BodyPlan::UnitVariants(p) && unit_variants_planned(p@, vs@)
        } else {
            b matches BodyPlan::Variants(p) && variants_planned(p@, vs@)
        },
        _ => false,
    }
}

/// What stops the derive at the variants of a unit enum, from the `i`-th on,
/// when the variant before the `i`-th has the value `prev` (`-1` before the first):
/// the first variant whose discriminant is no usable integer, or whose value,
/// one more than the one before, is past `isize::MAX`.
pub open spec fn unit_panic_from(vs: Seq<VariantInput>, i: int, prev: int) -> Option<DerivePanic>
    decreases vs.len() - i,
{
    if i < 0 || i >= vs.len() {
        None
    } else {
        match vs[i].discriminant {
            Discriminant::Int(v) => unit_panic_from(vs, i + 1, v as int),
            Discriminant::Absent => if prev + 1 > isize::MAX {
                Some(DerivePanic::DiscriminantOverflow)
            } else {
                unit_panic_from(vs, i + 1, prev + 1)
            },
            Discriminant::OutOfRange => Some(DerivePanic::DiscriminantOutOfRange),
            Discriminant::NotInteger => Some(DerivePanic::DiscriminantNotInteger),
            Discriminant::NotLiteral => Some(DerivePanic::DiscriminantNotLiteral),
        }
    }
}

/// What stops the derive for `input`, if anything does. A type with type
/// parameters is answered with an error instead, before anything else.
pub open spec fn spec_derive_panic(input: TypeInput) -> Option<DerivePanic> {
    if input.has_type_params {
        None
    } else {
        match input.data {
            DataInput::Struct(FieldsInput::Unit) => Some(DerivePanic::UnitStruct),
            DataInput::Union => Some(DerivePanic::Union),
            DataInput::Enum(vs) => if is_unit_enum(vs@) {
                unit_panic_from(vs@, 0, -1)
            } else {
                None
            },
            _ => None,
        }
    }
}

/// Tells what stops the derive for `input`, if anything does.
#[verifier::loop_isolation(false)]
pub fn derive_panic(input: &TypeInput) -> (r: Option<DerivePanic>)
    ensures
        r == spec_derive_panic(*input),
{
    if input.has_type_params {
        return None;
    }
    match &input.data {
        DataInput::Struct(FieldsInput::Unit) => Some(DerivePanic::UnitStruct),
        DataInput::Union => Some(DerivePanic::Union),
        DataInput::Enum(vs) => {
            match derive_kind(false, &input.data) {
                Ok(DeriveKind::Unit) => {},
                _ => return None,
            }
            let mut prev: i128 = -1;
            let mut i: usize = 0;
            while i < vs.len()
                invariant
                    i <= vs@.len(),
                    isize::MIN <= prev <= isize::MAX,
                    unit_panic_from(vs@, 0, -1) == unit_panic_from(vs@, i as int, prev as int),
                decreases vs@.len() - i,
            {
                match vs[i].discriminant {
                    Discriminant::Int(v) => prev = v as i128,
                    Discriminant::Absent => {
                        if prev == isize::MAX as i128 {
                            return Some(DerivePanic::DiscriminantOverflow);
                        }
                        prev = prev + 1;
                    },
                    Discriminant::OutOfRange => return Some(DerivePanic::DiscriminantOutOfRange),
                    Discriminant::NotInteger => return Some(DerivePanic::DiscriminantNotInteger),
                    Discriminant::NotLiteral => return Some(DerivePanic::DiscriminantNotLiteral),
                }
                i = i + 1;
            }
            None
        },
        _ => None,
    }
}

/// Where the derive does not stop at the variants of a unit enum, every
/// discriminant is an integer or absent, and every value fits in an `isize`.
proof fn lemma_no_unit_panic(vs: Seq<VariantInput>, i: int, prev: int)
    requires
        0 <= i <= vs.len(),
        prev == (if i == 0 {
            -1
        } else {
            unit_values(discriminant_values(vs))[i - 1]
        }),
        unit_panic_from(vs, i, prev) is None,
    ensures
        forall|j: int|
            i <= j < vs.len() ==> ((#[trigger] vs[j]).discriminant is Absent
                || vs[j].discriminant is Int) && unit_values(discriminant_values(vs))[j] <= isize::MAX,
    decreases vs.len() - i,
{
    if i < vs.len() {
        let d = discriminant_values(vs);
        lemma_unit_values_step(d, i);
        assert(d[i] == match vs[i].discriminant {
            Discriminant::Int(x) => Some(x),
            _ => None,
        });
        lemma_no_unit_panic(vs, i + 1, unit_values(d)[i]);
    }
}

/// Whether `p` is the definition generated for `input`.
pub open spec fn message_planned(p: MessagePlan, input: TypeInput) -> bool {
    &&& spec_derive_kind(input.has_type_params, input.data) == Ok::<DeriveKind, DeriveError>(p.kind)
    &&& p.doc@ == lines_text(input.doc_lines@)
    &&& p.name@ == "{}::"@ + input.ident@
    &&& body_planned(p.kind, p.body, input.data)
}

fn plan_fields(fs: &[FieldInput]) -> (r: Vec<FieldPlan>)
    ensures
        fields_planned(r@, fs@),
{
    let mut out: Vec<FieldPlan> = Vec::new();
    let mut i: usize = 0;
    while i < fs.len()
        invariant
            i <= fs@.len(),
            fields_planned(out@, fs@.subrange(0, i as int)),
        decreases fs@.len() - i,
    {
        let f = &fs[i];
        let doc = get_comments_from(f.doc_lines.as_slice());
        let name = match &f.name {
            Some(n) => n.clone(),
            None => String::new(),
        };
        out.push(FieldPlan { doc, name });
        i = i + 1;
    }
    assert(fs@.subrange(0, i as int) =~= fs@);
    out
}

fn plan_variant_kind(f: &FieldsInput) -> (r: VariantKindPlan)
    ensures
        variant_kind_planned(r, *f),
{
    match f {
        FieldsInput::Named(fs) => VariantKindPlan::Struct(plan_fields(fs.as_slice())),
        FieldsInput::Unnamed(fs) => VariantKindPlan::Tuple(plan_fields(fs.as_slice())),
        FieldsInput::Unit => VariantKindPlan::Unit,
    }
}

fn plan_variants(vs: &[VariantInput]) -> (r: Vec<VariantPlan>)
    ensures
        variants_planned(r@, vs@),
{
    let mut out: Vec<VariantPlan> = Vec::new();
    let mut i: usize = 0;
    while i < vs.len()
        invariant
            i <= vs@.len(),
            variants_planned(out@, vs@.subrange(0, i as int)),
        decreases vs@.len() - i,
    {
        let v = &vs[i];
        let doc = get_comments_from(v.doc_lines.as_slice());
        out.push(VariantPlan { doc, name: v.name.clone(), kind: plan_variant_kind(&v.fields) });
        i = i + 1;
    }
    assert(vs@.subrange(0, i as int) =~= vs@);
    out
}

/// The integer discriminants of an enum's variants, `None` where a variant has none.
fn integer_discriminants(vs: &[VariantInput]) -> (r: Vec<Option<isize>>)
    ensures
        r@ == discriminant_values(vs@),
{
    let mut out: Vec<Option<isize>> = Vec::new();
    let mut i: usize = 0;
    while i < vs.len()
        invariant
            i <= vs@.len(),
            out@ == discriminant_values(vs@.subrange(0, i as int)),
        decreases vs@.len() - i,
    {
        match vs[i].discriminant {
            Discriminant::Int(x) => out.push(Some(x)),
            _ => out.push(None),
        }
        assert(discriminant_values(vs@.subrange(0, i + 1)) =~= discriminant_values(
            vs@.subrange(0, i as int),
        ).push(out@.last()));
        i = i + 1;
    }
    assert(vs@.subrange(0, i as int) =~= vs@);
    out
}

fn plan_unit_variants(vs: &[VariantInput], values: &Vec<isize>) -> (r: Vec<UnitVariantPlan>)
    requires
        values@.len() == vs@.len(),
    ensures
        r@.len() == vs@.len(),
        forall|i: int|
            0 <= i < vs@.len() ==> {
                &&& (#[trigger] r@[i]).doc@ == lines_text(vs@[i].doc_lines@)
                &&& r@[i].name@ == vs@[i].name@
                &&& r@[i].value == values@[i]
            },
{
    let mut out: Vec<UnitVariantPlan> = Vec::new();
    let mut i: usize = 0;
    while i < vs.len()
        invariant
            i <= vs@.len(),
            values@.len() == vs@.len(),
            out@.len() == i,
            forall|j: int|
                0 <= j < i ==> {
                    &&& (#[trigger] out@[j]).doc@ == lines_text(vs@[j].doc_lines@)
                    &&& out@[j].name@ == vs@[j].name@
                    &&& out@[j].value == values@[j]
                },
        decreases vs@.len() - i,
    {
        let v = &vs[i];
        let doc = get_comments_from(v.doc_lines.as_slice());
        out.push(UnitVariantPlan { doc, name: v.name.clone(), value: values[i] });
        i = i + 1;
    }
    out
}

/// Plans the definition that `#[derive(Message)]` generates for a type; a type
/// with type parameters gets none. The derive stops the compiler on the inputs
/// that `derive_panic` reports, so those are not asked for.
pub fn plan_message(input: &TypeInput) -> (r: Result<MessagePlan, DeriveError>)
    requires
        spec_derive_panic(*input) is None,
    ensures
        input.has_type_params ==> r == Err::<MessagePlan, DeriveError>(DeriveError::GenericType),
        !input.has_type_params ==> (r matches Ok(p) && message_planned(p, *input)),
{
    let kind = derive_kind(input.has_type_params, &input.data)?;
    let body = match &input.data {
        DataInput::Struct(FieldsInput::Named(fs)) => BodyPlan::Fields(plan_fields(fs.as_slice())),
        DataInput::Struct(FieldsInput::Unnamed(fs)) => BodyPlan::Fields(plan_fields(fs.as_slice())),
        DataInput::Enum(vs) => {
            if kind == DeriveKind::Unit {
                let discriminants = integer_discriminants(vs.as_slice());
                proof {
                    lemma_no_unit_panic(vs@, 0, -1);
                    assert forall|j: int| 0 <= j < discriminants@.len() implies #[trigger] unit_values(
                        discriminants@,
                    )[j] <= isize::MAX by {
                        assert(vs@[j].discriminant is Absent || vs@[j].discriminant is Int);
                    }
                }
                let values = unit_enum_values(discriminants.as_slice());
                BodyPlan::UnitVariants(plan_unit_variants(vs.as_slice(), &values))
            } else {
                BodyPlan::Variants(plan_variants(vs.as_slice()))
            }
        },
        _ => {
            return Err(DeriveError::Union);
        },
    };
    let mut name = String::new();
    name.append("{}::");
    name.append(input.ident.as_str());
    let doc = get_comments_from(input.doc_lines.as_slice());
    Ok(MessagePlan { kind, doc, name, body })
}


/// An enum with a variant that carries data and has no discriminant, wherever
/// that variant stands, is described as an enum with data.
pub proof fn law_data_variant_makes_enum(data: DataInput, i: int)
    requires
        data matches DataInput::Enum(vs) && 0 <= i < vs@.len() && vs@[i].discriminant is Absent
            && !(vs@[i].fields is Unit),
    ensures
        spec_derive_kind(false, data) == Ok::<DeriveKind, DeriveError>(DeriveKind::Enum),
{
    let vs = data->Enum_0@;
    assert(!(!(vs[i].discriminant is Absent) || vs[i].fields is Unit));
}

/// An enum whose every variant has a discriminant or carries no data is
/// described as a unit enum.
pub proof fn law_plain_variants_make_unit_enum(data: DataInput)
    requires
        data matches DataInput::Enum(vs) && forall|i: int|
            0 <= i < vs@.len() ==> !(#[trigger] vs@[i].discriminant is Absent) || vs@[i].fields is Unit,
    ensures
        spec_derive_kind(false, data) == Ok::<DeriveKind, DeriveError>(DeriveKind::Unit),
{
}

/// The total length of the lines.
pub open spec fn total_len(lines: Seq<Seq<char>>) -> nat
    decreases lines.len(),
{
    if lines.len() == 0 {
        0
    } else {
        total_len(lines.drop_last()) + lines.last().len()
    }
}

/// The documentation keeps every line, blank ones too, and adds one line break
/// for each: its length is the lines' total length plus their number.
pub proof fn law_one_break_per_line(lines: Seq<Seq<char>>)
    ensures
        doc_text(lines).len() == total_len(lines) + lines.len(),
    decreases lines.len(),
{
    reveal_strlit("\n");
    if lines.len() > 0 {
        law_one_break_per_line(lines.drop_last());
    }
}

/// One `///` line, whatever it holds (nothing too), is documented as itself and
/// a line break.
pub proof fn law_single_line(line: Seq<char>)
    ensures
        doc_text(seq![line]) == line + seq!['\n'],
{
    reveal_strlit("\n");
    assert(seq![line].drop_last() =~= Seq::<Seq<char>>::empty());
    assert(doc_text(Seq::<Seq<char>>::empty()) =~= Seq::<char>::empty());
    assert("\n"@ =~= seq!['\n']);
    assert(doc_text(seq![line]) =~= line + seq!['\n']);
}

} // verus!
