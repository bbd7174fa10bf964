use super::{CostomTypes, Ty, TypeId};
use vstd::prelude::*;

verus! {

impl TypeId for u8 {
    open spec fn describes(ty: Ty) -> bool {
        ty == Ty::u8
    }

    fn ty(c: &mut CostomTypes) -> (r: Ty)
        ensures r == Ty::u8, final(c)@ == old(c)@,
    {
        Ty::u8
    }
}

impl TypeId for u16 {
    open spec fn describes(ty: Ty) -> bool {
        ty == Ty::u16
    }

    fn ty(c: &mut CostomTypes) -> (r: Ty)
        ensures r == Ty::u16, final(c)@ == old(c)@,
    {
        Ty::u16
    }
}

impl TypeId for u32 {
    open spec fn describes(ty: Ty) -> bool {
        ty == Ty::u32
    }

    fn ty(c: &mut CostomTypes) -> (r: Ty)
        ensures r == Ty::u32, final(c)@ == old(c)@,
    {
        Ty::u32
    }
}

impl TypeId for u64 {
    open spec fn describes(ty: Ty) -> bool {
        ty == Ty::u64
    }

    fn ty(c: &mut CostomTypes) -> (r: Ty)
        ensures r == Ty::u64, final(c)@ == old(c)@,
    {
        Ty::u64
    }
}

impl TypeId for u128 {
    open spec fn describes(ty: Ty) -> bool {
        ty == Ty::u128
    }

    fn ty(c: &mut CostomTypes) -> (r: Ty)
        ensures r == Ty::u128, final(c)@ == old(c)@,
    {
        Ty::u128
    }
}

impl TypeId for i8 {
    open spec fn describes(ty: Ty) -> bool {
        ty == Ty::i8
    }

    fn ty(c: &mut CostomTypes) -> (r: Ty)
        ensures r == Ty::i8, final(c)@ == old(c)@,
    {
        Ty::i8
    }
}

impl TypeId for i16 {
    open spec fn describes(ty: Ty) -> bool {
        ty == Ty::i16
    }

    fn ty(c: &mut CostomTypes) -> (r: Ty)
        ensures r == Ty::i16, final(c)@ == old(c)@,
    {
        Ty::i16
    }
}

impl TypeId for i32 {
    open spec fn describes(ty: Ty) -> bool {
        ty == Ty::i32
    }

    fn ty(c: &mut CostomTypes) -> (r: Ty)
        ensures r == Ty::i32, final(c)@ == old(c)@,
    {
        Ty::i32
    }
}

impl TypeId for i64 {
    open spec fn describes(ty: Ty) -> bool {
        ty == Ty::i64
    }

    fn ty(c: &mut CostomTypes) -> (r: Ty)
        ensures r == Ty::i64, final(c)@ == old(c)@,
    {
        Ty::i64
    }
}

impl TypeId for i128 {
    open spec fn describes(ty: Ty) -> bool {
        ty == Ty::i128
    }

    fn ty(c: &mut CostomTypes) -> (r: Ty)
        ensures r == Ty::i128, final(c)@ == old(c)@,
    {
        Ty::i128
    }
}

impl TypeId for bool {
    open spec fn describes(ty: Ty) -> bool {
        ty == Ty::bool
    }

    fn ty(c: &mut CostomTypes) -> (r: Ty)
        ensures r == Ty::bool, final(c)@ == old(c)@,
    {
        Ty::bool
    }
}

impl TypeId for String {
    open spec fn describes(ty: Ty) -> bool {
        ty == Ty::String
    }

    fn ty(c: &mut CostomTypes) -> (r: Ty)
        ensures r == Ty::String, final(c)@ == old(c)@,
    {
        Ty::String
    }
}

impl TypeId for () {
    open spec fn describes(ty: Ty) -> bool {
        ty matches Ty::Tuple(tys) && tys@.len() == 0
    }

    fn ty(c: &mut CostomTypes) -> (r: Ty)
        ensures r matches Ty::Tuple(tys) && tys@.len() == 0, final(c)@ == old(c)@,
    {
        Ty::Tuple(Vec::new())
    }
}

impl<T0: TypeId> TypeId for (T0,) {
    open spec fn describes(ty: Ty) -> bool {
        ty matches Ty::Tuple(tys) && tys@.len() == 1 && T0::describes(tys@[0])
    }

    fn ty(c: &mut CostomTypes) -> (r: Ty)
        ensures
            exists|c1: &mut CostomTypes, e0: Ty|
                *c1 == *old(c)
                && call_ensures(T0::ty, (c1,), e0)
                && *final(c1) == *final(c)
                && (r matches Ty::Tuple(tys) && tys@ == seq![e0]),
    {
        let mut tys = Vec::new();
        tys.push(T0::ty(c));
        Ty::Tuple(tys)
    }
}

impl<T0: TypeId, T1: TypeId> TypeId for (T0, T1) {
    open spec fn describes(ty: Ty) -> bool {
        ty matches Ty::Tuple(tys) && tys@.len() == 2 && T0::describes(tys@[0]) && T1::describes(tys@[1])
    }

    fn ty(c: &mut CostomTypes) -> (r: Ty)
        ensures
            exists|c1: &mut CostomTypes, e0: Ty, c2: &mut CostomTypes, e1: Ty|
                *c1 == *old(c)
                && call_ensures(T0::ty, (c1,), e0)
                && *c2 == *final(c1)
                && call_ensures(T1::ty, (c2,), e1)
                && *final(c2) == *final(c)
                && (r matches Ty::Tuple(tys) && tys@ == seq![e0, e1]),
    {
        let mut tys = Vec::new();
        tys.push(T0::ty(c));
        tys.push(T1::ty(c));
        Ty::Tuple(tys)
    }
}

impl<T0: TypeId, T1: TypeId, T2: TypeId> TypeId for (T0, T1, T2) {
    open spec fn describes(ty: Ty) -> bool {
        ty matches Ty::Tuple(tys) && tys@.len() == 3 && T0::describes(tys@[0]) && T1::describes(tys@[1])
            && T2::describes(tys@[2])
    }

    fn ty(c: &mut CostomTypes) -> (r: Ty)
        ensures
            exists|c1: &mut CostomTypes, e0: Ty, c2: &mut CostomTypes, e1: Ty, c3: &mut CostomTypes, e2: Ty|
                *c1 == *old(c)
                && call_ensures(T0::ty, (c1,), e0)
                && *c2 == *final(c1)
                && call_ensures(T1::ty, (c2,), e1)
                && *c3 == *final(c2)
                && call_ensures(T2::ty, (c3,), e2)
                && *final(c3) == *final(c)
                && (r matches Ty::Tuple(tys) && tys@ == seq![e0, e1, e2]),
    {
        let mut tys = Vec::new();
        tys.push(T0::ty(c));
        tys.push(T1::ty(c));
        tys.push(T2::ty(c));
        Ty::Tuple(tys)
    }
}

impl<T: TypeId, const N: usize> TypeId for [T; N] {
    open spec fn describes(ty: Ty) -> bool {
        ty matches Ty::Array { ty: e, len } && len == N && T::describes(*e)
    }

    fn ty(c: &mut CostomTypes) -> (r: Ty)
        ensures
            exists|c1: &mut CostomTypes, e: Ty|
                *c1 == *old(c)
                && call_ensures(T::ty, (c1,), e)
                && *final(c1) == *final(c)
                && r == (Ty::Array { ty: Box::new(e), len: N }),
    {
        Ty::Array { ty: Box::new(T::ty(c)), len: N }
    }
}

impl<T: TypeId> TypeId for Option<T> {
    open spec fn describes(ty: Ty) -> bool {
        ty matches Ty::Option(e) && T::describes(*e)
    }

    fn ty(c: &mut CostomTypes) -> (r: Ty)
        ensures
            exists|c1: &mut CostomTypes, e: Ty|
                *c1 == *old(c) && call_ensures(T::ty, (c1,), e) && *final(c1) == *final(c)
                    && r == Ty::Option(Box::new(e)),
    {
        Ty::Option(Box::new(T::ty(c)))
    }
}

impl<T: TypeId, E: TypeId> TypeId for Result<T, E> {
    open spec fn describes(ty: Ty) -> bool {
        ty matches Ty::Result(p) && T::describes(p.0) && E::describes(p.1)
    }

    fn ty(c: &mut CostomTypes) -> (r: Ty)
        ensures
            exists|c1: &mut CostomTypes, e0: Ty, c2: &mut CostomTypes, e1: Ty|
                *c1 == *old(c)
                && call_ensures(T::ty, (c1,), e0)
                && *c2 == *final(c1)
                && call_ensures(E::ty, (c2,), e1)
                && *final(c2) == *final(c)
                && r == Ty::Result(Box::new((e0, e1))),
    {
        let t = T::ty(c);
        let e = E::ty(c);
        Ty::Result(Box::new((t, e)))
    }
}

} // verus!
