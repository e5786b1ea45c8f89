//! The wrapper and its two answers.
use vstd::prelude::*;

verus! {

/// A value, or a computation of one, that is handed out only once the
/// holder says they are sure.
pub enum AreYouSure<T, F> {
    /// A value that `yes_i_am_sure` returns as it is.
    Value(T),
    /// A computation that runs when `yes_i_am_sure` is called, and not before.
    DeferredFunction(F),
}

impl<T, F: FnOnce() -> T> AreYouSure<T, F> {
    /// Whether `yes_i_am_sure` may be called on this wrapper: always for a
    /// value, and for a computation when it accepts to be run.
    pub open spec fn may_confirm(self) -> bool {
        match self {
            AreYouSure::Value(_) => true,
            AreYouSure::DeferredFunction(f) => call_requires(f, ()),
        }
    }

    /// Whether `r` is a possible answer of `yes_i_am_sure` on this wrapper: the
    /// value itself, or what one run of the computation may return.
    pub open spec fn confirms_to(self, r: T) -> bool {
        match self {
            AreYouSure::Value(v) => r == v,
            AreYouSure::DeferredFunction(f) => call_ensures(f, (), r),
        }
    }

    /// Wraps a value that is already computed.
    pub fn new(val: T) -> (r: Self)
        ensures
            r == AreYouSure::<T, F>::Value(val),
    {
        AreYouSure::Value(val)
    }

    /// Wraps a computation without running it.
    pub fn deferred(computation: F) -> (r: Self)
        ensures
            r == AreYouSure::<T, F>::DeferredFunction(computation),
    {
        AreYouSure::DeferredFunction(computation)
    }

    /// The holder is sure: returns the value, or runs the computation once
    /// and returns what it returns.
    pub fn yes_i_am_sure(self) -> (r: T)
        requires
            self.may_confirm(),
        ensures
            self.confirms_to(r),
    {
        match self {
            AreYouSure::Value(x) => x,
            AreYouSure::DeferredFunction(f) => f(),
        }
    }

    /// The holder is not sure: drops the wrapper, and with it the value or the
    /// computation, which is never run.
    pub fn no_i_am_not_sure(self) {
    }
}

/// Confirming a wrapper made from a value is always allowed, and gives back
/// exactly that value.
pub proof fn lemma_confirm_value<T, F: FnOnce() -> T>(v: T)
    ensures
        AreYouSure::<T, F>::Value(v).may_confirm(),
        forall|r: T| #[trigger] AreYouSure::<T, F>::Value(v).confirms_to(r) <==> r == v,
{
}

/// Confirming a wrapper made from a computation is allowed exactly when the
/// computation may run, and gives back exactly what one run of it may return.
pub proof fn lemma_confirm_deferred<T, F: FnOnce() -> T>(f: F)
    ensures
        AreYouSure::<T, F>::DeferredFunction(f).may_confirm() <==> call_requires(f, ()),
        forall|r: T|
            #[trigger] AreYouSure::<T, F>::DeferredFunction(f).confirms_to(r) <==> call_ensures(
                f,
                (),
                r,
            ),
{
}

} // verus!
