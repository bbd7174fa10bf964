use super::{Context, Message, Ty};
use vstd::prelude::*;

verus! {

/// The collection kind behind a [`Ty::SetOf`].
#[derive(Clone, Copy, Debug, PartialEq, Eq, Structural)]
pub enum SetVariant {
    BTreeSet,
    HashSet,
    BinaryHeap,
    LinkedList,
    VecDeque,
    Vec,
}

/// The map kind behind a [`Ty::MapOf`].
#[derive(Clone, Copy, Debug, PartialEq, Eq, Structural)]
pub enum MapVariant {
    HashMap,
    BTreeMap,
}

impl<T: Message> Message for Vec<T> {
    open spec fn describes(ty: Ty) -> bool {
        ty matches Ty::SetOf { variant, ty: e } && variant == SetVariant::Vec && T::describes(*e)
    }

    fn ty(ctx: &mut Context) -> (r: Ty)
        ensures
            exists|c1: &mut Context, e: Ty|
                *c1 == *old(ctx)
                && call_ensures(T::ty, (c1,), e)
                && *final(c1) == *final(ctx)
                && r == (Ty::SetOf { variant: SetVariant::Vec, ty: Box::new(e) }),
    {
        Ty::SetOf { variant: SetVariant::Vec, ty: Box::new(T::ty(ctx)) }
    }
}

impl<T: Message> Message for std::collections::VecDeque<T> {
    open spec fn describes(ty: Ty) -> bool {
        ty matches Ty::SetOf { variant, ty: e } && variant == SetVariant::VecDeque && T::describes(*e)
    }

    fn ty(ctx: &mut Context) -> (r: Ty)
        ensures
            exists|c1: &mut Context, e: Ty|
                *c1 == *old(ctx)
                && call_ensures(T::ty, (c1,), e)
                && *final(c1) == *final(ctx)
                && r == (Ty::SetOf { variant: SetVariant::VecDeque, ty: Box::new(e) }),
    {
        Ty::SetOf { variant: SetVariant::VecDeque, ty: Box::new(T::ty(ctx)) }
    }
}

impl<T: Message> Message for std::collections::HashSet<T> {
    open spec fn describes(ty: Ty) -> bool {
        ty matches Ty::SetOf { variant, ty: e } && variant == SetVariant::HashSet && T::describes(*e)
    }

    fn ty(ctx: &mut Context) -> (r: Ty)
        ensures
            exists|c1: &mut Context, e: Ty|
                *c1 == *old(ctx)
                && call_ensures(T::ty, (c1,), e)
                && *final(c1) == *final(ctx)
                && r == (Ty::SetOf { variant: SetVariant::HashSet, ty: Box::new(e) }),
    {
        Ty::SetOf { variant: SetVariant::HashSet, ty: Box::new(T::ty(ctx)) }
    }
}

impl<K: Message, V: Message> Message for std::collections::HashMap<K, V> {
    open spec fn describes(ty: Ty) -> bool {
        ty matches Ty::MapOf { variant, ty: p } && variant == MapVariant::HashMap && K::describes(p.0)
            && V::describes(p.1)
    }

    fn ty(ctx: &mut Context) -> (r: Ty)
        ensures
            exists|c1: &mut Context, e0: Ty, c2: &mut Context, e1: Ty|
                *c1 == *old(ctx)
                && call_ensures(K::ty, (c1,), e0)
                && *c2 == *final(c1)
                && call_ensures(V::ty, (c2,), e1)
                && *final(c2) == *final(ctx)
                && r == (Ty::MapOf { variant: MapVariant::HashMap, ty: Box::new((e0, e1)) }),
    {
        let k = K::ty(ctx);
        let v = V::ty(ctx);
        Ty::MapOf { variant: MapVariant::HashMap, ty: Box::new((k, v)) }
    }
}

impl<K: Message, V: Message> Message for std::collections::BTreeMap<K, V> {
    open spec fn describes(ty: Ty) -> bool {
        ty matches Ty::MapOf { variant, ty: p } && variant == MapVariant::BTreeMap && K::describes(p.0)
            && V::describes(p.1)
    }

    fn ty(ctx: &mut Context) -> (r: Ty)
        ensures
            exists|c1: &mut Context, e0: Ty, c2: &mut Context, e1: Ty|
                *c1 == *old(ctx)
                && call_ensures(K::ty, (c1,), e0)
                && *c2 == *final(c1)
                && call_ensures(V::ty, (c2,), e1)
                && *final(c2) == *final(ctx)
                && r == (Ty::MapOf { variant: MapVariant::BTreeMap, ty: Box::new((e0, e1)) }),
    {
        let k = K::ty(ctx);
        let v = V::ty(ctx);
        Ty::MapOf { variant: MapVariant::BTreeMap, ty: Box::new((k, v)) }
    }
}

} // verus!
