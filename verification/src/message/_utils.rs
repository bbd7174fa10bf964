use vstd::prelude::*;

verus! {

/// Converts a value into a `String`.
pub fn s<T>(value: T) -> (r: String) where String: From<T>
    ensures
        call_ensures(String::from, (value,), r),
{
    String::from(value)
}

/// Clones a value.
pub fn c<T: Clone>(value: &T) -> (r: T)
    ensures
        cloned(*value, r),
{
    Clone::clone(value)
}

} // verus!
