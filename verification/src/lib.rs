//! Lets a plain function or closure stand in for a plugin object in a
//! builder-pattern configuration chain: the builder gains a method that runs
//! the function on itself once and hands the same builder reference back, so
//! that further configuration calls can be chained.

use vstd::prelude::*;

verus! {

/// Extension trait for the `fn_plugin` method, available on every sized type
/// through the blanket implementation below.
pub trait FnPluginExt: Sized {
    /// Runs `f` on `self` exactly once, then returns the same `self` for
    /// further chained configuration calls.
    ///
    /// The contract says three things. First, `f` must accept the builder in
    /// its current state, whatever the builder later becomes. Second, the
    /// value seen through the returned reference is exactly what one
    /// invocation of `f` made of the builder's old value. Third, the returned
    /// reference is the receiver itself, not a copy: whatever the caller does
    /// through it is what the builder finally holds.
    fn fn_plugin(&mut self, f: impl FnOnce(&mut Self)) -> (r: &mut Self)
        requires
            forall|m: &mut Self| *m == *old(self) ==> call_requires(f, (m,)),
        ensures
            exists|m: &mut Self|
                *m == *old(self) && call_ensures(f, (m,), ()) && *final(m) == *r,
            *final(r) == *final(self),
    ;
}

impl<T> FnPluginExt for T {
    fn fn_plugin(&mut self, f: impl FnOnce(&mut Self)) -> (r: &mut Self) {
        f(self);
        self
    }
}

/// Law: a side effect of the configuration function is on the builder itself
/// and is visible as soon as the method returns. If every outcome that `f`
/// can produce from the builder value `b0` satisfies `p`, and the builder
/// holds `b1` once `fn_plugin(f)` has returned and its reference has been
/// dropped, then `b1` satisfies `p`: nothing is deferred, buffered, or run
/// against a copy.
pub proof fn lemma_effect_observable<T, F: FnOnce(&mut T)>(
    f: F,
    b0: T,
    b1: T,
    p: spec_fn(T) -> bool,
)
    requires
        forall|m: &mut T| (*m == b0 && call_ensures(f, (m,), ())) ==> p(*final(m)),
        exists|m: &mut T| *m == b0 && call_ensures(f, (m,), ()) && *final(m) == b1,
    ensures
        p(b1),
{
}

/// Law: chaining the method twice is transparent with respect to sequencing.
/// This function applies `f1` and then `f2` through two chained `fn_plugin`
/// calls; `direct_sequence` below applies them by invoking each directly on
/// the builder. Both bodies meet this one contract, which states the effect
/// of running `f1` on the builder's old value and then `f2` on what `f1`
/// left: the chained form neither reorders nor adds anything.
pub fn fn_plugin_chain<T, F1: FnOnce(&mut T), F2: FnOnce(&mut T)>(
    b: &mut T,
    f1: F1,
    f2: F2,
) -> (r: &mut T)
    requires
        forall|m: &mut T| *m == *old(b) ==> call_requires(f1, (m,)),
        forall|m1: &mut T, m2: &mut T|
            (#[trigger] call_ensures(f1, (m1,), ()) && *m1 == *old(b) && *m2 == *final(m1))
                ==> #[trigger] call_requires(f2, (m2,)),
    ensures
        exists|m1: &mut T, m2: &mut T|
            #[trigger] call_ensures(f1, (m1,), ()) && #[trigger] call_ensures(f2, (m2,), ())
                && *m1 == *old(b) && *m2 == *final(m1) && *final(m2) == *r,
        *final(r) == *final(b),
{
    b.fn_plugin(f1).fn_plugin(f2)
}

/// Law, other direction: invoking `f1` and then `f2` directly on the builder
/// meets exactly the contract of `fn_plugin_chain`, so the chained method
/// calls and the direct invocations are interchangeable.
pub fn direct_sequence<T, F1: FnOnce(&mut T), F2: FnOnce(&mut T)>(
    b: &mut T,
    f1: F1,
    f2: F2,
) -> (r: &mut T)
    requires
        forall|m: &mut T| *m == *old(b) ==> call_requires(f1, (m,)),
        forall|m1: &mut T, m2: &mut T|
            (#[trigger] call_ensures(f1, (m1,), ()) && *m1 == *old(b) && *m2 == *final(m1))
                ==> #[trigger] call_requires(f2, (m2,)),
    ensures
        exists|m1: &mut T, m2: &mut T|
            #[trigger] call_ensures(f1, (m1,), ()) && #[trigger] call_ensures(f2, (m2,), ())
                && *m1 == *old(b) && *m2 == *final(m1) && *final(m2) == *r,
        *final(r) == *final(b),
{
    f1(b);
    f2(b);
    b
}

} // verus!
