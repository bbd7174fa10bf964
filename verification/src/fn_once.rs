//! Calling a function with its arguments packed in a tuple.
use vstd::prelude::*;

verus! {

/// A function that can be called once with its arguments as a tuple.
pub trait FnOnce<Args>: Sized {
    /// What the function returns.
    type Output;

    /// Whether the function may be called with `args`.
    open spec fn accepts(&self, args: Args) -> bool {
        true
    }

    /// Whether the function, called with `args`, may return `out`.
    open spec fn gives(&self, args: Args, out: Self::Output) -> bool {
        true
    }

    /// Calls the function with the elements of `args` as its arguments.
    fn call_once(self, args: Args) -> (r: Self::Output)
        requires
            self.accepts(args),
        ensures
            self.gives(args, r),
    ;
}

impl<Func, Ret> FnOnce<()> for Func where Func: core::ops::FnOnce() -> Ret {
    type Output = Ret;

    open spec fn accepts(&self, args: ()) -> bool {
        call_requires(*self, ())
    }

    open spec fn gives(&self, args: (), out: Ret) -> bool {
        call_ensures(*self, (), out)
    }

    fn call_once(self, args: ()) -> (r: Ret) {
        self()
    }
}

impl<Func, Ret, T0> FnOnce<(T0,)> for Func where Func: core::ops::FnOnce(T0) -> Ret {
    type Output = Ret;

    open spec fn accepts(&self, args: (T0,)) -> bool {
        call_requires(*self, (args.0,))
    }

    open spec fn gives(&self, args: (T0,), out: Ret) -> bool {
        call_ensures(*self, (args.0,), out)
    }

    fn call_once(self, args: (T0,)) -> (r: Ret) {
        self(args.0)
    }
}

impl<Func, Ret, T0, T1> FnOnce<(T0, T1)> for Func where Func: core::ops::FnOnce(T0, T1) -> Ret {
    type Output = Ret;

    open spec fn accepts(&self, args: (T0, T1)) -> bool {
        call_requires(*self, (args.0, args.1))
    }

    open spec fn gives(&self, args: (T0, T1), out: Ret) -> bool {
        call_ensures(*self, (args.0, args.1), out)
    }

    fn call_once(self, args: (T0, T1)) -> (r: Ret) {
        self(args.0, args.1)
    }
}

impl<Func, Ret, T0, T1, T2> FnOnce<(T0, T1, T2)> for Func where Func: core::ops::FnOnce(T0, T1, T2) -> Ret {
    type Output = Ret;

    open spec fn accepts(&self, args: (T0, T1, T2)) -> bool {
        call_requires(*self, (args.0, args.1, args.2))
    }

    open spec fn gives(&self, args: (T0, T1, T2), out: Ret) -> bool {
        call_ensures(*self, (args.0, args.1, args.2), out)
    }

    fn call_once(self, args: (T0, T1, T2)) -> (r: Ret) {
        self(args.0, args.1, args.2)
    }
}

impl<Func, Ret, T0, T1, T2, T3> FnOnce<(T0, T1, T2, T3)> for Func where Func: core::ops::FnOnce(T0, T1, T2, T3) -> Ret {
    type Output = Ret;

    open spec fn accepts(&self, args: (T0, T1, T2, T3)) -> bool {
        call_requires(*self, (args.0, args.1, args.2, args.3))
    }

    open spec fn gives(&self, args: (T0, T1, T2, T3), out: Ret) -> bool {
        call_ensures(*self, (args.0, args.1, args.2, args.3), out)
    }

    fn call_once(self, args: (T0, T1, T2, T3)) -> (r: Ret) {
        self(args.0, args.1, args.2, args.3)
    }
}

impl<Func, Ret, T0, T1, T2, T3, T4> FnOnce<(T0, T1, T2, T3, T4)> for Func where Func: core::ops::FnOnce(T0, T1, T2, T3, T4) -> Ret {
    type Output = Ret;

    open spec fn accepts(&self, args: (T0, T1, T2, T3, T4)) -> bool {
        call_requires(*self, (args.0, args.1, args.2, args.3, args.4))
    }

    open spec fn gives(&self, args: (T0, T1, T2, T3, T4), out: Ret) -> bool {
        call_ensures(*self, (args.0, args.1, args.2, args.3, args.4), out)
    }

    fn call_once(self, args: (T0, T1, T2, T3, T4)) -> (r: Ret) {
        self(args.0, args.1, args.2, args.3, args.4)
    }
}

impl<Func, Ret, T0, T1, T2, T3, T4, T5> FnOnce<(T0, T1, T2, T3, T4, T5)> for Func where Func: core::ops::FnOnce(T0, T1, T2, T3, T4, T5) -> Ret {
    type Output = Ret;

    open spec fn accepts(&self, args: (T0, T1, T2, T3, T4, T5)) -> bool {
        call_requires(*self, (args.0, args.1, args.2, args.3, args.4, args.5))
    }

    open spec fn gives(&self, args: (T0, T1, T2, T3, T4, T5), out: Ret) -> bool {
        call_ensures(*self, (args.0, args.1, args.2, args.3, args.4, args.5), out)
    }

    fn call_once(self, args: (T0, T1, T2, T3, T4, T5)) -> (r: Ret) {
        self(args.0, args.1, args.2, args.3, args.4, args.5)
    }
}

impl<Func, Ret, T0, T1, T2, T3, T4, T5, T6> FnOnce<(T0, T1, T2, T3, T4, T5, T6)> for Func where Func: core::ops::FnOnce(T0, T1, T2, T3, T4, T5, T6) -> Ret {
    type Output = Ret;

    open spec fn accepts(&self, args: (T0, T1, T2, T3, T4, T5, T6)) -> bool {
        call_requires(*self, (args.0, args.1, args.2, args.3, args.4, args.5, args.6))
    }

    open spec fn gives(&self, args: (T0, T1, T2, T3, T4, T5, T6), out: Ret) -> bool {
        call_ensures(*self, (args.0, args.1, args.2, args.3, args.4, args.5, args.6), out)
    }

    fn call_once(self, args: (T0, T1, T2, T3, T4, T5, T6)) -> (r: Ret) {
        self(args.0, args.1, args.2, args.3, args.4, args.5, args.6)
    }
}

impl<Func, Ret, T0, T1, T2, T3, T4, T5, T6, T7> FnOnce<(T0, T1, T2, T3, T4, T5, T6, T7)> for Func where Func: core::ops::FnOnce(T0, T1, T2, T3, T4, T5, T6, T7) -> Ret {
    type Output = Ret;

    open spec fn accepts(&self, args: (T0, T1, T2, T3, T4, T5, T6, T7)) -> bool {
        call_requires(*self, (args.0, args.1, args.2, args.3, args.4, args.5, args.6, args.7))
    }

    open spec fn gives(&self, args: (T0, T1, T2, T3, T4, T5, T6, T7), out: Ret) -> bool {
        call_ensures(*self, (args.0, args.1, args.2, args.3, args.4, args.5, args.6, args.7), out)
    }

    fn call_once(self, args: (T0, T1, T2, T3, T4, T5, T6, T7)) -> (r: Ret) {
        self(args.0, args.1, args.2, args.3, args.4, args.5, args.6, args.7)
    }
}

impl<Func, Ret, T0, T1, T2, T3, T4, T5, T6, T7, T8> FnOnce<(T0, T1, T2, T3, T4, T5, T6, T7, T8)> for Func where Func: core::ops::FnOnce(T0, T1, T2, T3, T4, T5, T6, T7, T8) -> Ret {
    type Output = Ret;

    open spec fn accepts(&self, args: (T0, T1, T2, T3, T4, T5, T6, T7, T8)) -> bool {
        call_requires(*self, (args.0, args.1, args.2, args.3, args.4, args.5, args.6, args.7, args.8))
    }

    open spec fn gives(&self, args: (T0, T1, T2, T3, T4, T5, T6, T7, T8), out: Ret) -> bool {
        call_ensures(*self, (args.0, args.1, args.2, args.3, args.4, args.5, args.6, args.7, args.8), out)
    }

    fn call_once(self, args: (T0, T1, T2, T3, T4, T5, T6, T7, T8)) -> (r: Ret) {
        self(args.0, args.1, args.2, args.3, args.4, args.5, args.6, args.7, args.8)
    }
}

impl<Func, Ret, T0, T1, T2, T3, T4, T5, T6, T7, T8, T9> FnOnce<(T0, T1, T2, T3, T4, T5, T6, T7, T8, T9)> for Func where Func: core::ops::FnOnce(T0, T1, T2, T3, T4, T5, T6, T7, T8, T9) -> Ret {
    type Output = Ret;

    open spec fn accepts(&self, args: (T0, T1, T2, T3, T4, T5, T6, T7, T8, T9)) -> bool {
        call_requires(*self, (args.0, args.1, args.2, args.3, args.4, args.5, args.6, args.7, args.8, args.9))
    }

    open spec fn gives(&self, args: (T0, T1, T2, T3, T4, T5, T6, T7, T8, T9), out: Ret) -> bool {
        call_ensures(*self, (args.0, args.1, args.2, args.3, args.4, args.5, args.6, args.7, args.8, args.9), out)
    }

    fn call_once(self, args: (T0, T1, T2, T3, T4, T5, T6, T7, T8, T9)) -> (r: Ret) {
        self(args.0, args.1, args.2, args.3, args.4, args.5, args.6, args.7, args.8, args.9)
    }
}

impl<Func, Ret, T0, T1, T2, T3, T4, T5, T6, T7, T8, T9, T10> FnOnce<(T0, T1, T2, T3, T4, T5, T6, T7, T8, T9, T10)> for Func where Func: core::ops::FnOnce(T0, T1, T2, T3, T4, T5, T6, T7, T8, T9, T10) -> Ret {
    type Output = Ret;

    open spec fn accepts(&self, args: (T0, T1, T2, T3, T4, T5, T6, T7, T8, T9, T10)) -> bool {
        call_requires(*self, (args.0, args.1, args.2, args.3, args.4, args.5, args.6, args.7, args.8, args.9, args.10))
    }

    open spec fn gives(&self, args: (T0, T1, T2, T3, T4, T5, T6, T7, T8, T9, T10), out: Ret) -> bool {
        call_ensures(*self, (args.0, args.1, args.2, args.3, args.4, args.5, args.6, args.7, args.8, args.9, args.10), out)
    }

    fn call_once(self, args: (T0, T1, T2, T3, T4, T5, T6, T7, T8, T9, T10)) -> (r: Ret) {
        self(args.0, args.1, args.2, args.3, args.4, args.5, args.6, args.7, args.8, args.9, args.10)
    }
}

impl<Func, Ret, T0, T1, T2, T3, T4, T5, T6, T7, T8, T9, T10, T11> FnOnce<(T0, T1, T2, T3, T4, T5, T6, T7, T8, T9, T10, T11)> for Func where Func: core::ops::FnOnce(T0, T1, T2, T3, T4, T5, T6, T7, T8, T9, T10, T11) -> Ret {
    type Output = Ret;

    open spec fn accepts(&self, args: (T0, T1, T2, T3, T4, T5, T6, T7, T8, T9, T10, T11)) -> bool {
        call_requires(*self, (args.0, args.1, args.2, args.3, args.4, args.5, args.6, args.7, args.8, args.9, args.10, args.11))
    }

    open spec fn gives(&self, args: (T0, T1, T2, T3, T4, T5, T6, T7, T8, T9, T10, T11), out: Ret) -> bool {
        call_ensures(*self, (args.0, args.1, args.2, args.3, args.4, args.5, args.6, args.7, args.8, args.9, args.10, args.11), out)
    }

    fn call_once(self, args: (T0, T1, T2, T3, T4, T5, T6, T7, T8, T9, T10, T11)) -> (r: Ret) {
        self(args.0, args.1, args.2, args.3, args.4, args.5, args.6, args.7, args.8, args.9, args.10, args.11)
    }
}

impl<Func, Ret, T0, T1, T2, T3, T4, T5, T6, T7, T8, T9, T10, T11, T12> FnOnce<(T0, T1, T2, T3, T4, T5, T6, T7, T8, T9, T10, T11, T12)> for Func where Func: core::ops::FnOnce(T0, T1, T2, T3, T4, T5, T6, T7, T8, T9, T10, T11, T12) -> Ret {
    type Output = Ret;

    open spec fn accepts(&self, args: (T0, T1, T2, T3, T4, T5, T6, T7, T8, T9, T10, T11, T12)) -> bool {
        call_requires(*self, (args.0, args.1, args.2, args.3, args.4, args.5, args.6, args.7, args.8, args.9, args.10, args.11, args.12))
    }

    open spec fn gives(&self, args: (T0, T1, T2, T3, T4, T5, T6, T7, T8, T9, T10, T11, T12), out: Ret) -> bool {
        call_ensures(*self, (args.0, args.1, args.2, args.3, args.4, args.5, args.6, args.7, args.8, args.9, args.10, args.11, args.12), out)
    }

    fn call_once(self, args: (T0, T1, T2, T3, T4, T5, T6, T7, T8, T9, T10, T11, T12)) -> (r: Ret) {
        self(args.0, args.1, args.2, args.3, args.4, args.5, args.6, args.7, args.8, args.9, args.10, args.11, args.12)
    }
}

impl<Func, Ret, T0, T1, T2, T3, T4, T5, T6, T7, T8, T9, T10, T11, T12, T13> FnOnce<(T0, T1, T2, T3, T4, T5, T6, T7, T8, T9, T10, T11, T12, T13)> for Func where Func: core::ops::FnOnce(T0, T1, T2, T3, T4, T5, T6, T7, T8, T9, T10, T11, T12, T13) -> Ret {
    type Output = Ret;

    open spec fn accepts(&self, args: (T0, T1, T2, T3, T4, T5, T6, T7, T8, T9, T10, T11, T12, T13)) -> bool {
        call_requires(*self, (args.0, args.1, args.2, args.3, args.4, args.5, args.6, args.7, args.8, args.9, args.10, args.11, args.12, args.13))
    }

    open spec fn gives(&self, args: (T0, T1, T2, T3, T4, T5, T6, T7, T8, T9, T10, T11, T12, T13), out: Ret) -> bool {
        call_ensures(*self, (args.0, args.1, args.2, args.3, args.4, args.5, args.6, args.7, args.8, args.9, args.10, args.11, args.12, args.13), out)
    }

    fn call_once(self, args: (T0, T1, T2, T3, T4, T5, T6, T7, T8, T9, T10, T11, T12, T13)) -> (r: Ret) {
        self(args.0, args.1, args.2, args.3, args.4, args.5, args.6, args.7, args.8, args.9, args.10, args.11, args.12, args.13)
    }
}

impl<Func, Ret, T0, T1, T2, T3, T4, T5, T6, T7, T8, T9, T10, T11, T12, T13, T14> FnOnce<(T0, T1, T2, T3, T4, T5, T6, T7, T8, T9, T10, T11, T12, T13, T14)> for Func where Func: core::ops::FnOnce(T0, T1, T2, T3, T4, T5, T6, T7, T8, T9, T10, T11, T12, T13, T14) -> Ret {
    type Output = Ret;

    open spec fn accepts(&self, args: (T0, T1, T2, T3, T4, T5, T6, T7, T8, T9, T10, T11, T12, T13, T14)) -> bool {
        call_requires(*self, (args.0, args.1, args.2, args.3, args.4, args.5, args.6, args.7, args.8, args.9, args.10, args.11, args.12, args.13, args.14))
    }

    open spec fn gives(&self, args: (T0, T1, T2, T3, T4, T5, T6, T7, T8, T9, T10, T11, T12, T13, T14), out: Ret) -> bool {
        call_ensures(*self, (args.0, args.1, args.2, args.3, args.4, args.5, args.6, args.7, args.8, args.9, args.10, args.11, args.12, args.13, args.14), out)
    }

    fn call_once(self, args: (T0, T1, T2, T3, T4, T5, T6, T7, T8, T9, T10, T11, T12, T13, T14)) -> (r: Ret) {
        self(args.0, args.1, args.2, args.3, args.4, args.5, args.6, args.7, args.8, args.9, args.10, args.11, args.12, args.13, args.14)
    }
}

impl<Func, Ret, T0, T1, T2, T3, T4, T5, T6, T7, T8, T9, T10, T11, T12, T13, T14, T15> FnOnce<(T0, T1, T2, T3, T4, T5, T6, T7, T8, T9, T10, T11, T12, T13, T14, T15)> for Func where Func: core::ops::FnOnce(T0, T1, T2, T3, T4, T5, T6, T7, T8, T9, T10, T11, T12, T13, T14, T15) -> Ret {
    type Output = Ret;

    open spec fn accepts(&self, args: (T0, T1, T2, T3, T4, T5, T6, T7, T8, T9, T10, T11, T12, T13, T14, T15)) -> bool {
        call_requires(*self, (args.0, args.1, args.2, args.3, args.4, args.5, args.6, args.7, args.8, args.9, args.10, args.11, args.12, args.13, args.14, args.15))
    }

    open spec fn gives(&self, args: (T0, T1, T2, T3, T4, T5, T6, T7, T8, T9, T10, T11, T12, T13, T14, T15), out: Ret) -> bool {
        call_ensures(*self, (args.0, args.1, args.2, args.3, args.4, args.5, args.6, args.7, args.8, args.9, args.10, args.11, args.12, args.13, args.14, args.15), out)
    }

    fn call_once(self, args: (T0, T1, T2, T3, T4, T5, T6, T7, T8, T9, T10, T11, T12, T13, T14, T15)) -> (r: Ret) {
        self(args.0, args.1, args.2, args.3, args.4, args.5, args.6, args.7, args.8, args.9, args.10, args.11, args.12, args.13, args.14, args.15)
    }
}

} // verus!
