use super::{CostomTypes, Ty, TypeId};
use vstd::prelude::*;

verus! {

/// The collection kind behind a [`Ty::SetOf`].
#[derive(Clone, Copy, Debug, PartialEq, Eq, Structural, Hash)]
pub enum SetVariant {
    BTreeSet,
    HashSet,
    BinaryHeap,
    LinkedList,
    VecDeque,
    Vec,
}

/// The map kind behind a [`Ty::MapOf`].
#[derive(Clone, Copy, Debug, PartialEq, Eq, Structural, Hash)]
pub enum MapVariant {
    HashMap,
    BTreeMap,
}

fn set_of(variant: SetVariant, ty: Ty) -> (r: Ty)
    ensures
        r == (Ty::SetOf { variant, ty: Box::new(ty) }),
{
    Ty::SetOf { variant, ty: Box::new(ty) }
}

impl<T: TypeId> TypeId for Vec<T> {
    open spec fn describes(ty: Ty) -> bool {
        ty matches Ty::SetOf { variant, ty: e } && variant == SetVariant::Vec && T::describes(*e)
    }

    fn ty(c: &mut CostomTypes) -> (r: Ty)
        ensures
            exists|c1: &mut CostomTypes, e: Ty|
                *c1 == *old(c)
                && call_ensures(T::ty, (c1,), e)
                && *final(c1) == *final(c)
                && r == (Ty::SetOf { variant: SetVariant::Vec, ty: Box::new(e) }),
    {
        set_of(SetVariant::Vec, T::ty(c))
    }
}

impl<T: TypeId> TypeId for std::collections::VecDeque<T> {
    open spec fn describes(ty: Ty) -> bool {
        ty matches Ty::SetOf { variant, ty: e } && variant == SetVariant::VecDeque && T::describes(*e)
    }

    fn ty(c: &mut CostomTypes) -> (r: Ty)
        ensures
            exists|c1: &mut CostomTypes, e: Ty|
                *c1 == *old(c)
                && call_ensures(T::ty, (c1,), e)
                && *final(c1) == *final(c)
                && r == (Ty::SetOf { variant: SetVariant::VecDeque, ty: Box::new(e) }),
    {
        set_of(SetVariant::VecDeque, T::ty(c))
    }
}

impl<T: TypeId> TypeId for std::collections::HashSet<T> {
    open spec fn describes(ty: Ty) -> bool {
        ty matches Ty::SetOf { variant, ty: e } && variant == SetVariant::HashSet && T::describes(*e)
    }

    fn ty(c: &mut CostomTypes) -> (r: Ty)
        ensures
            exists|c1: &mut CostomTypes, e: Ty|
                *c1 == *old(c)
                && call_ensures(T::ty, (c1,), e)
                && *final(c1) == *final(c)
                && r == (Ty::SetOf { variant: SetVariant::HashSet, ty: Box::new(e) }),
    {
        set_of(SetVariant::HashSet, T::ty(c))
    }
}

impl<T: TypeId> TypeId for [T] {
    open spec fn describes(ty: Ty) -> bool {
        ty matches Ty::SetOf { variant, ty: e } && variant == SetVariant::Vec && T::describes(*e)
    }

    fn ty(c: &mut CostomTypes) -> (r: Ty)
        ensures
            exists|c1: &mut CostomTypes, e: Ty|
                *c1 == *old(c)
                && call_ensures(T::ty, (c1,), e)
                && *final(c1) == *final(c)
                && r == (Ty::SetOf { variant: SetVariant::Vec, ty: Box::new(e) }),
    {
        set_of(SetVariant::Vec, T::ty(c))
    }
}

impl<K: TypeId, V: TypeId> TypeId for std::collections::HashMap<K, V> {
    open spec fn describes(ty: Ty) -> bool {
        ty matches Ty::MapOf { variant, ty: p } && variant == MapVariant::HashMap && K::describes(p.0)
            && V::describes(p.1)
    }

    fn ty(c: &mut CostomTypes) -> (r: Ty)
        ensures
            exists|c1: &mut CostomTypes, e0: Ty, c2: &mut CostomTypes, e1: Ty|
                *c1 == *old(c)
                && call_ensures(K::ty, (c1,), e0)
                && *c2 == *final(c1)
                && call_ensures(V::ty, (c2,), e1)
                && *final(c2) == *final(c)
                && r == (Ty::MapOf { variant: MapVariant::HashMap, ty: Box::new((e0, e1)) }),
    {
        let k = K::ty(c);
        let v = V::ty(c);
        Ty::MapOf { variant: MapVariant::HashMap, ty: Box::new((k, v)) }
    }
}

impl<K: TypeId, V: TypeId> TypeId for std::collections::BTreeMap<K, V> {
    open spec fn describes(ty: Ty) -> bool {
        ty matches Ty::MapOf { variant, ty: p } && variant == MapVariant::BTreeMap && K::describes(p.0)
            && V::describes(p.1)
    }

    fn ty(c: &mut CostomTypes) -> (r: Ty)
        ensures
            exists|c1: &mut CostomTypes, e0: Ty, c2: &mut CostomTypes, e1: Ty|
                *c1 == *old(c)
                && call_ensures(K::ty, (c1,), e0)
                && *c2 == *final(c1)
                && call_ensures(V::ty, (c2,), e1)
                && *final(c2) == *final(c)
                && r == (Ty::MapOf { variant: MapVariant::BTreeMap, ty: Box::new((e0, e1)) }),
    {
        let k = K::ty(c);
        let v = V::ty(c);
        Ty::MapOf { variant: MapVariant::BTreeMap, ty: Box::new((k, v)) }
    }
}

} // verus!
