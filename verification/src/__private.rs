//! Helpers for the code that `declare!` expands to.
use crate::frpc_message::{Func, FuncOutput};
use crate::private::FnOutputType;
use crate::fn_once::FnOnce;
use crate::type_id::{CostomTypes, Ident, Ty, TypeId};
use vstd::prelude::*;

pub use crate::frpc_message;

verus! {

/// The arguments a procedure is described with: the elements of its argument
/// tuple, less a leading `()`, which stands for the service state.
pub open spec fn described_args(tys: Seq<Ty>) -> Seq<Ty> {
    if tys.len() > 0 && (tys[0] matches Ty::Tuple(t) && t@.len() == 0) {
        tys.drop_first()
    } else {
        tys
    }
}

/// Describes a procedure from the description of its argument tuple and of its
/// output; `None` when `args` is not a tuple.
pub fn describe_func(args: Ty, output: FuncOutput, index: u16, ident: &str) -> (r: Option<Func>)
    ensures
        r is Some <==> args is Tuple,
        r matches Some(f) ==> {
            &&& f.index == index
            &&& f.ident.0@ == ident@
            &&& f.args@ == described_args(args->Tuple_0@)
            &&& f.output == output
        },
{
    match args {
        Ty::Tuple(mut tys) => {
            if tys.len() > 0 && tys[0].is_empty_tuple() {
                tys.remove(0);
            }
            Some(Func { index, ident: Ident(ident.to_owned()), args: tys, output })
        },
        _ => None,
    }
}

/// Describes the procedure whose argument tuple is `Args` and whose return type
/// is `Out`, registering the user-defined types they use; `None` when `Args`
/// does not describe itself as a tuple.
pub fn fn_ty<Args: TypeId, Out: FnOutputType>(costom_types: &mut CostomTypes, index: u16, ident: &str) -> (r: Option<Func>)
    ensures
        match r {
            Some(f) => {
                &&& f.index == index
                &&& f.ident.0@ == ident@
                &&& exists|args: Ty|
                    #[trigger] Args::describes(args) && args is Tuple && f.args@ == described_args(
                        args->Tuple_0@,
                    )
                &&& Out::describes_output(f.output)
            },
            None => exists|args: Ty| #[trigger] Args::describes(args) && !(args is Tuple),
        },
        exists|c1: &mut CostomTypes, args: Ty, c2: &mut CostomTypes, output: FuncOutput|
            *c1 == *old(costom_types)
            && call_ensures(Args::ty, (c1,), args)
            && *c2 == *final(c1)
            && call_ensures(Out::fn_output_ty, (c2,), output)
            && *final(c2) == *final(costom_types)
            && (r is Some <==> args is Tuple)
            && (r matches Some(f) ==> f.args@ == described_args(args->Tuple_0@) && f.output == output),
{
    let args = Args::ty(costom_types);
    let output = Out::fn_output_ty(costom_types);
    describe_func(args, output, index, ident)
}


/// Describes the procedure `_func`, called with the argument tuple `Args`: what
/// [`fn_ty`] gives for `Args` and for the procedure's return type.
pub fn fn_sig<F, Args: TypeId>(_func: &F, costom_types: &mut CostomTypes, index: u16, ident: &str) -> (r: Option<Func>) where
    F: FnOnce<Args>,
    F::Output: FnOutputType,
    ensures
        match r {
            Some(f) => {
                &&& f.index == index
                &&& f.ident.0@ == ident@
                &&& exists|args: Ty|
                    #[trigger] Args::describes(args) && args is Tuple && f.args@ == described_args(
                        args->Tuple_0@,
                    )
                &&& <F::Output as FnOutputType>::describes_output(f.output)
            },
            None => exists|args: Ty| #[trigger] Args::describes(args) && !(args is Tuple),
        },
        exists|c1: &mut CostomTypes, args: Ty, c2: &mut CostomTypes, output: FuncOutput|
            *c1 == *old(costom_types)
            && call_ensures(Args::ty, (c1,), args)
            && *c2 == *final(c1)
            && call_ensures(<F::Output as FnOutputType>::fn_output_ty, (c2,), output)
            && *final(c2) == *final(costom_types)
            && (r is Some <==> args is Tuple)
            && (r matches Some(f) ==> f.args@ == described_args(args->Tuple_0@) && f.output == output),
{
    fn_ty::<Args, F::Output>(costom_types, index, ident)
}


/// A leading `()`, the service state, is never described as an argument,
/// whatever follows it, nothing included.
pub proof fn law_state_argument_dropped(unit: Ty, rest: Seq<Ty>)
    requires
        unit matches Ty::Tuple(v) && v@.len() == 0,
    ensures
        described_args(seq![unit] + rest) == rest,
{
    assert((seq![unit] + rest).drop_first() =~= rest);
}

/// Arguments that do not begin with `()` are all described, in order.
pub proof fn law_other_arguments_kept(tys: Seq<Ty>)
    requires
        tys.len() == 0 || !(tys[0] matches Ty::Tuple(v) && v@.len() == 0),
    ensures
        described_args(tys) == tys,
{
}

} // verus!
