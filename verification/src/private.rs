use crate::frpc_message::FuncOutput;
use crate::type_id::{CostomTypes, Ty, TypeId};
use vstd::prelude::*;

verus! {

/// A procedure's return type that can describe what the procedure sends back.
pub trait FnOutputType {
    /// Whether `output` describes what a procedure of this return type sends
    /// back; an impl that does not say more claims nothing.
    open spec fn describes_output(output: FuncOutput) -> bool {
        true
    }

    fn fn_output_ty(c: &mut CostomTypes) -> (r: FuncOutput)
        ensures
            Self::describes_output(r),
    ;
}

/// An async procedure sends back the one value its future resolves to.
impl<Fut> FnOutputType for Fut where Fut: core::future::Future, Fut::Output: TypeId {
    open spec fn describes_output(output: FuncOutput) -> bool {
        output matches FuncOutput::Unary(ty) && <Fut::Output as TypeId>::describes(ty)
    }

    fn fn_output_ty(c: &mut CostomTypes) -> (r: FuncOutput)
        ensures
            exists|c1: &mut CostomTypes, t: Ty|
                *c1 == *old(c)
                && call_ensures(<Fut::Output as TypeId>::ty, (c1,), t)
                && *final(c1) == *final(c)
                && r == FuncOutput::Unary(t),
    {
        FuncOutput::Unary(<Fut::Output as TypeId>::ty(c))
    }
}

} // verus!
