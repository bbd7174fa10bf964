use super::{Context, Message, Ty};
use vstd::prelude::*;

verus! {

impl Message for u8 {
    open spec fn describes(ty: Ty) -> bool {
        ty == Ty::u8
    }

    fn ty(ctx: &mut Context) -> (r: Ty)
        ensures r == Ty::u8, *final(ctx) == *old(ctx),
    {
        Ty::u8
    }
}

impl Message for u16 {
    open spec fn describes(ty: Ty) -> bool {
        ty == Ty::u16
    }

    fn ty(ctx: &mut Context) -> (r: Ty)
        ensures r == Ty::u16, *final(ctx) == *old(ctx),
    {
        Ty::u16
    }
}

impl Message for u32 {
    open spec fn describes(ty: Ty) -> bool {
        ty == Ty::u32
    }

    fn ty(ctx: &mut Context) -> (r: Ty)
        ensures r == Ty::u32, *final(ctx) == *old(ctx),
    {
        Ty::u32
    }
}

impl Message for u64 {
    open spec fn describes(ty: Ty) -> bool {
        ty == Ty::u64
    }

    fn ty(ctx: &mut Context) -> (r: Ty)
        ensures r == Ty::u64, *final(ctx) == *old(ctx),
    {
        Ty::u64
    }
}

impl Message for u128 {
    open spec fn describes(ty: Ty) -> bool {
        ty == Ty::u128
    }

    fn ty(ctx: &mut Context) -> (r: Ty)
        ensures r == Ty::u128, *final(ctx) == *old(ctx),
    {
        Ty::u128
    }
}

impl Message for usize {
    open spec fn describes(ty: Ty) -> bool {
        ty == Ty::usize
    }

    fn ty(ctx: &mut Context) -> (r: Ty)
        ensures r == Ty::usize, *final(ctx) == *old(ctx),
    {
        Ty::usize
    }
}

impl Message for i8 {
    open spec fn describes(ty: Ty) -> bool {
        ty == Ty::i8
    }

    fn ty(ctx: &mut Context) -> (r: Ty)
        ensures r == Ty::i8, *final(ctx) == *old(ctx),
    {
        Ty::i8
    }
}

impl Message for i16 {
    open spec fn describes(ty: Ty) -> bool {
        ty == Ty::i16
    }

    fn ty(ctx: &mut Context) -> (r: Ty)
        ensures r == Ty::i16, *final(ctx) == *old(ctx),
    {
        Ty::i16
    }
}

impl Message for i32 {
    open spec fn describes(ty: Ty) -> bool {
        ty == Ty::i32
    }

    fn ty(ctx: &mut Context) -> (r: Ty)
        ensures r == Ty::i32, *final(ctx) == *old(ctx),
    {
        Ty::i32
    }
}

impl Message for i64 {
    open spec fn describes(ty: Ty) -> bool {
        ty == Ty::i64
    }

    fn ty(ctx: &mut Context) -> (r: Ty)
        ensures r == Ty::i64, *final(ctx) == *old(ctx),
    {
        Ty::i64
    }
}

impl Message for i128 {
    open spec fn describes(ty: Ty) -> bool {
        ty == Ty::i128
    }

    fn ty(ctx: &mut Context) -> (r: Ty)
        ensures r == Ty::i128, *final(ctx) == *old(ctx),
    {
        Ty::i128
    }
}

impl Message for isize {
    open spec fn describes(ty: Ty) -> bool {
        ty == Ty::isize
    }

    fn ty(ctx: &mut Context) -> (r: Ty)
        ensures r == Ty::isize, *final(ctx) == *old(ctx),
    {
        Ty::isize
    }
}

impl Message for bool {
    open spec fn describes(ty: Ty) -> bool {
        ty == Ty::bool
    }

    fn ty(ctx: &mut Context) -> (r: Ty)
        ensures r == Ty::bool, *final(ctx) == *old(ctx),
    {
        Ty::bool
    }
}

impl Message for char {
    open spec fn describes(ty: Ty) -> bool {
        ty == Ty::char
    }

    fn ty(ctx: &mut Context) -> (r: Ty)
        ensures r == Ty::char, *final(ctx) == *old(ctx),
    {
        Ty::char
    }
}

impl Message for String {
    open spec fn describes(ty: Ty) -> bool {
        ty == Ty::String
    }

    fn ty(ctx: &mut Context) -> (r: Ty)
        ensures r == Ty::String, *final(ctx) == *old(ctx),
    {
        Ty::String
    }
}

impl Message for &str {
    open spec fn describes(ty: Ty) -> bool {
        ty == Ty::str
    }

    fn ty(ctx: &mut Context) -> (r: Ty)
        ensures r == Ty::str, *final(ctx) == *old(ctx),
    {
        Ty::str
    }
}

impl<T: Message, const N: usize> Message for [T; N] {
    open spec fn describes(ty: Ty) -> bool {
        ty matches Ty::Array { len, ty: e } && len == N && T::describes(*e)
    }

    fn ty(ctx: &mut Context) -> (r: Ty)
        ensures
            exists|c1: &mut Context, e: Ty|
                *c1 == *old(ctx)
                && call_ensures(T::ty, (c1,), e)
                && *final(c1) == *final(ctx)
                && r == (Ty::Array { len: N, ty: Box::new(e) }),
    {
        Ty::Array { len: N, ty: Box::new(T::ty(ctx)) }
    }
}

impl<T: Message> Message for Option<T> {
    open spec fn describes(ty: Ty) -> bool {
        ty matches Ty::Option(e) && T::describes(*e)
    }

    fn ty(ctx: &mut Context) -> (r: Ty)
        ensures
            exists|c1: &mut Context, e: Ty|
                *c1 == *old(ctx)
                && call_ensures(T::ty, (c1,), e)
                && *final(c1) == *final(ctx)
                && r == Ty::Option(Box::new(e)),
    {
        Ty::Option(Box::new(T::ty(ctx)))
    }
}

impl<T: Message, E: Message> Message for Result<T, E> {
    open spec fn describes(ty: Ty) -> bool {
        ty matches Ty::Result(p) && T::describes(p.0) && E::describes(p.1)
    }

    fn ty(ctx: &mut Context) -> (r: Ty)
        ensures
            exists|c1: &mut Context, e0: Ty, c2: &mut Context, e1: Ty|
                *c1 == *old(ctx)
                && call_ensures(T::ty, (c1,), e0)
                && *c2 == *final(c1)
                && call_ensures(E::ty, (c2,), e1)
                && *final(c2) == *final(ctx)
                && r == Ty::Result(Box::new((e0, e1))),
    {
        let t = T::ty(ctx);
        let e = E::ty(ctx);
        Ty::Result(Box::new((t, e)))
    }
}

} // verus!
