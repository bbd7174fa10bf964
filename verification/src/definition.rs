//! The description of a service in terms of `Message` types.
use crate::message::{Context, Message, Ty};
use vstd::prelude::*;

verus! {

/// A remote procedure: its index on the wire, its name, the shapes of its
/// arguments and of its result.
#[derive(Debug)]
pub struct Func {
    pub index: u16,
    pub name: String,
    pub args: Vec<Ty>,
    pub retn: Ty,
}

/// A service: its name, version and description, the user-defined types its
/// procedures use, and the procedures.
#[derive(Debug)]
pub struct TypeDef {
    pub name: String,
    pub version: String,
    pub description: String,
    pub ctx: Context,
    pub funcs: Vec<Func>,
}

/// The elements of a tuple's shape; `None` for any other shape.
pub fn tuple_elements(ty: Ty) -> (r: Option<Vec<Ty>>)
    ensures
        r is Some <==> ty is Tuple,
        r matches Some(v) ==> v@ == ty->Tuple_0@,
        r matches Some(v) ==> ty == Ty::Tuple(v),
{
    match ty {
        Ty::Tuple(types) => Some(types),
        _ => None,
    }
}

/// The shapes of an async procedure's arguments (the elements of `Args`, a
/// tuple) and of what it resolves to (`Ret`), registering the user-defined
/// types they use. `None`, before `Ret` is looked at, when `Args` does not
/// describe itself as a tuple.
pub fn async_fn_ty<Args: Message, Ret: Message>(ctx: &mut Context) -> (r: Option<(Vec<Ty>, Ty)>)
    ensures
        match r {
            Some((types, ret)) => Args::describes(Ty::Tuple(types)) && Ret::describes(ret),
            None => exists|args: Ty| #[trigger] Args::describes(args) && !(args is Tuple),
        },
        exists|c1: &mut Context, args: Ty|
            *c1 == *old(ctx) && call_ensures(Args::ty, (c1,), args) && match args {
                Ty::Tuple(types) => exists|c2: &mut Context, ret: Ty|
                    *c2 == *final(c1) && call_ensures(Ret::ty, (c2,), ret) && *final(c2)
                        == *final(ctx) && r == Some((types, ret)),
                _ => *final(c1) == *final(ctx) && r is None,
            },
{
    match tuple_elements(Args::ty(ctx)) {
        Some(types) => Some((types, Ret::ty(ctx))),
        None => None,
    }
}

} // verus!
