//! Finalization for values whose cleanup must take ownership.
//!
//! Ordinary end-of-scope destruction only ever grants `&mut` access to the
//! value being destroyed, which is not enough when cleanup has to move owned
//! sub-resources out of the value (for instance, to pass a handle to a
//! teardown routine that demands ownership). This crate offers:
//!
//! 1. [`ValueDrop`]: the contract a type implements when its cleanup needs
//!    to consume `self` by value.
//!
//! 2. [`AutoValueDrop`]: a wrapper holding exactly one such value. It hands
//!    out read and mutable access to the value, and is left in exactly one
//!    of two ways, each of which consumes the wrapper whole:
//!    [`AutoValueDrop::finalize`] runs the consuming finalizer on the
//!    contents, once; [`AutoValueDrop::into_inner`] returns the contents to
//!    the caller with no finalizer call, and the caller owns the value (and
//!    the finalize obligation) again. Because both paths take the wrapper by
//!    value, finalizing twice, or finalizing after the value was taken back
//!    out, is impossible to write rather than checked at run time.
//!
//! A destructor that runs [`AutoValueDrop::finalize`] automatically cannot
//! be verified: Verus asks that a `Drop` implementation be provably free of
//! unwinding, and an arbitrary consuming finalizer — which may panic —
//! gives no such guarantee. A thin scope-end adapter over this wrapper can
//! supply the automation outside the verified library.

use vstd::prelude::*;

verus! {

/// A consuming finalizer: cleanup that takes the value by full ownership
/// rather than through `&mut`, so that owned sub-resources can be moved out
/// of it during teardown.
///
/// A type kept inside an [`AutoValueDrop`] should not also implement
/// `core::ops::Drop`; otherwise both cleanup paths would run.
pub trait ValueDrop: Sized {
    fn drop(self);
}

/// A wrapper holding exactly one value of a [`ValueDrop`] type, together
/// with the obligation to finalize it. The wrapper exists exactly as long
/// as the value is live and not yet finalized: it is consumed whole either
/// by [`AutoValueDrop::finalize`], which runs the consuming finalizer on
/// the contents exactly once, or by [`AutoValueDrop::into_inner`], which
/// returns the contents without any finalizer call.
///
/// Equality, ordering, hashing and structured-debug formatting are
/// forwarded to the wrapped value, each available exactly when `T` itself
/// supports it; so are duplication ([`Clone`]) and default construction
/// ([`Default`]). The wrapper adds no state of its own, so it is safe to
/// transfer across threads, or to share between them, exactly when `T` is;
/// the compiler derives both markers from the single field.
#[derive(Debug, PartialEq, Eq, PartialOrd, Ord, Hash)]
pub struct AutoValueDrop<T: ValueDrop> {
    val: T,
}

impl<T: ValueDrop + Clone> Clone for AutoValueDrop<T> {
    /// Duplicates the wrapper: the copy holds its own clone of the wrapped
    /// value and carries its own, separate finalize obligation, so
    /// finalizing either wrapper leaves the other untouched.
    fn clone(&self) -> (r: Self)
        ensures
            cloned::<T>(self.inner(), r.inner()),
    {
        AutoValueDrop { val: self.val.clone() }
    }
}

impl<T: ValueDrop + Default> Default for AutoValueDrop<T> {
    /// A wrapper around `T`'s default value.
    fn default() -> (r: Self)
        ensures
            call_ensures(<T as Default>::default, (), r.inner()),
    {
        AutoValueDrop { val: T::default() }
    }
}

impl<T: ValueDrop> AutoValueDrop<T> {
    /// The wrapped value.
    pub closed spec fn inner(self) -> T {
        self.val
    }

    /// Constructs a new [`AutoValueDrop`] around `val`, taking over the
    /// responsibility of finalizing it.
    pub fn new(val: T) -> (r: Self)
        ensures
            r.inner() == val,
    {
        AutoValueDrop { val }
    }

    /// Gets the [`AutoValueDrop`]'s value back out. The finalizer is not
    /// called: the caller owns the value again and should either put it
    /// back into an [`AutoValueDrop`] or finalize it itself.
    pub fn into_inner(slot: Self) -> (r: T)
        ensures
            r == slot.inner(),
    {
        slot.val
    }

    /// Consumes the wrapper and runs the consuming finalizer on its
    /// contents. The contents at this moment — the wrapped value plus
    /// whatever mutations were made through the wrapper's mutable access —
    /// are exactly what the finalizer receives, as the postcondition
    /// states: the finalizer's own postcondition holds of `slot.inner()`,
    /// which for an arbitrary finalizer can only be established by calling
    /// it on that very value.
    pub fn finalize(slot: Self)
        ensures
            call_ensures(<T as ValueDrop>::drop, (slot.inner(),), ()),
    {
        ValueDrop::drop(slot.val)
    }
}

impl<T: ValueDrop> core::ops::Deref for AutoValueDrop<T> {
    type Target = T;

    /// Read access to the wrapped value, so the wrapper can be used as if
    /// it were the value itself.
    fn deref(&self) -> (r: &T)
        ensures
            *r == self.inner(),
    {
        &self.val
    }
}

impl<T: ValueDrop> core::ops::DerefMut for AutoValueDrop<T> {
    /// Mutable access to the wrapped value. Whatever the caller writes
    /// through the returned reference becomes the wrapper's contents.
    fn deref_mut(&mut self) -> (r: &mut T)
        ensures
            *r == old(self).inner(),
            final(self).inner() == *final(r),
    {
        &mut self.val
    }
}

/// Wrapping a value and then taking it back out is a round trip: a wrapper
/// that `new(v)` can return holds `v` itself, so the result `into_inner`
/// promises for that wrapper is `v`, unchanged — and neither operation
/// invokes the finalizer.
pub proof fn lemma_new_into_inner_round_trip<T: ValueDrop>(v: T, w: AutoValueDrop<T>, r: T)
    requires
        w.inner() == v,
        r == w.inner(),
    ensures
        r == v,
{
}

} // verus!
