//! Small conditional-value helpers shared across the crate.

use vstd::prelude::*;

verus! {

/// The closure's value when `cond` holds, and the type's default otherwise.
pub fn value_if<T: Default, F: FnOnce() -> T>(cond: bool, fun: F) -> (r: T)
    requires
        cond ==> call_requires(fun, ()),
    ensures
        cond ==> call_ensures(fun, (), r),
        !cond ==> call_ensures(T::default, (), r),
{
    if cond {
        fun()
    } else {
        T::default()
    }
}

/// The first closure's value when `cond` holds, the second's otherwise.
pub fn value_if_else<T, F: FnOnce() -> T, G: FnOnce() -> T>(
    cond: bool,
    fun: F,
    else_fun: G,
) -> (r: T)
    requires
        cond ==> call_requires(fun, ()),
        !cond ==> call_requires(else_fun, ()),
    ensures
        cond ==> call_ensures(fun, (), r),
        !cond ==> call_ensures(else_fun, (), r),
{
    if cond {
        fun()
    } else {
        else_fun()
    }
}

} // verus!
