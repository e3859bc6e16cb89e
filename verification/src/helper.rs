//! Small general-purpose combinators.

use vstd::prelude::*;

verus! {

/// Conditional application in a builder chain: apply a transformation
/// only when the condition holds, otherwise pass the value through.
pub trait If where Self: Sized {
    fn if_<F: FnOnce(Self) -> Self>(self, condition: bool, apply: F) -> (r: Self)
        requires
            condition ==> call_requires(apply, (self,)),
        ensures
            condition ==> call_ensures(apply, (self,), r),
            !condition ==> r == self,
    ;
}

impl<T> If for T {
    fn if_<F: FnOnce(T) -> T>(self, condition: bool, apply: F) -> (r: T) {
        if condition {
            apply(self)
        } else {
            self
        }
    }
}

} // verus!
