//! The description of a service: its procedures and the types they use.
pub use crate::type_id::{
    CostomTypes, CustomType, CustomTypeKind, EnumField, EnumKind, Ident, MapVariant, SetVariant,
    StructField, TupleField, Ty, TypeId, UnitField,
};
use vstd::prelude::*;

verus! {

/// What a procedure sends back.
#[derive(Debug)]
pub enum FuncOutput {
    /// A single value.
    Unary(Ty),
    /// A stream of values, then a final one.
    ServerStream { yield_ty: Ty, return_ty: Ty },
}

/// A remote procedure: its index on the wire, its name, its arguments and its output.
#[derive(Debug)]
pub struct Func {
    pub index: u16,
    pub ident: Ident,
    pub args: Vec<Ty>,
    pub output: FuncOutput,
}

/// A service: its name, the user-defined types it uses, and its procedures.
#[derive(Debug, Default)]
pub struct TypeDef {
    pub name: Ident,
    pub costom_types: CostomTypes,
    pub funcs: Vec<Func>,
}

impl TypeDef {
    pub fn new(name: &str, costom_types: CostomTypes, funcs: Vec<Func>) -> (r: Self)
        ensures
            r.name.0@ == name@,
            r.costom_types == costom_types,
            r.funcs == funcs,
    {
        TypeDef { name: Ident(name.to_owned()), costom_types, funcs }
    }
}


/// The types of the procedures' arguments, procedure after procedure.
pub open spec fn arg_tys(funcs: Seq<Func>) -> Seq<Ty>
    decreases funcs.len(),
{
    if funcs.len() == 0 {
        Seq::empty()
    } else {
        arg_tys(funcs.drop_last()) + funcs.last().args@
    }
}

/// The types a procedure sends back: its result, or what its stream yields and
/// then returns.
pub open spec fn sent_tys(output: FuncOutput) -> Seq<Ty> {
    match output {
        FuncOutput::Unary(ty) => seq![ty],
        FuncOutput::ServerStream { yield_ty, return_ty } => seq![yield_ty, return_ty],
    }
}

/// The types the procedures send back, procedure after procedure.
pub open spec fn output_tys(funcs: Seq<Func>) -> Seq<Ty>
    decreases funcs.len(),
{
    if funcs.len() == 0 {
        Seq::empty()
    } else {
        output_tys(funcs.drop_last()) + sent_tys(funcs.last().output)
    }
}

/// The values that a sequence of references points to.
pub open spec fn pointees(v: Seq<&Ty>) -> Seq<Ty> {
    v.map_values(|t: &Ty| *t)
}

impl TypeDef {
    /// The types the service's procedures take, which a client writes.
    pub fn input_tys(&self) -> (r: Vec<&Ty>)
        ensures
            pointees(r@) == arg_tys(self.funcs@),
    {
        let mut out: Vec<&Ty> = Vec::new();
        let mut i: usize = 0;
        while i < self.funcs.len()
            invariant
                i <= self.funcs@.len(),
                pointees(out@) == arg_tys(self.funcs@.subrange(0, i as int)),
            decreases self.funcs@.len() - i,
        {
            let args = &self.funcs[i].args;
            let ghost before = out@;
            let mut j: usize = 0;
            while j < args.len()
                invariant
                    j <= args@.len(),
                    pointees(out@) == pointees(before) + args@.subrange(0, j as int),
                decreases args@.len() - j,
            {
                let ghost prev = out@;
                out.push(&args[j]);
                assert(pointees(out@) =~= pointees(prev).push(args@[j as int]));
                assert(args@.subrange(0, j + 1) =~= args@.subrange(0, j as int).push(args@[j as int]));
                j = j + 1;
            }
            assert(self.funcs@.subrange(0, i + 1).drop_last() =~= self.funcs@.subrange(0, i as int));
            assert(args@.subrange(0, j as int) =~= args@);
            i = i + 1;
        }
        assert(self.funcs@.subrange(0, i as int) =~= self.funcs@);
        out
    }

    /// The types the service's procedures send back, which a client reads.
    pub fn output_tys(&self) -> (r: Vec<&Ty>)
        ensures
            pointees(r@) == output_tys(self.funcs@),
    {
        let mut out: Vec<&Ty> = Vec::new();
        let mut i: usize = 0;
        while i < self.funcs.len()
            invariant
                i <= self.funcs@.len(),
                pointees(out@) == output_tys(self.funcs@.subrange(0, i as int)),
            decreases self.funcs@.len() - i,
        {
            let ghost before = out@;
            match &self.funcs[i].output {
                FuncOutput::Unary(ty) => {
                    out.push(ty);
                },
                FuncOutput::ServerStream { yield_ty, return_ty } => {
                    out.push(yield_ty);
                    out.push(return_ty);
                },
            }
            assert(pointees(out@) =~= pointees(before) + sent_tys(self.funcs@[i as int].output));
            assert(self.funcs@.subrange(0, i + 1).drop_last() =~= self.funcs@.subrange(0, i as int));
            i = i + 1;
        }
        assert(self.funcs@.subrange(0, i as int) =~= self.funcs@);
        out
    }
}

} // verus!
