//! A shared-ownership pointer with an explicit live count.
//!
//! The counted allocation is the pair of a value and its live count,
//! [`RcInner`]. A [`MyRc`] is a handle to such an allocation: handles cannot
//! be constructed from outside this module, so the only ways to gain or lose
//! one are `new`, `clone` and `release`, and each of those moves the live
//! count in step with the handles. Possession of a handle therefore stands
//! for exactly one unit of the count, and the count can never read zero
//! while a handle is live.
//!
//! The allocation is threaded through each operation explicitly, so every
//! step of the counting protocol is visible to the verifier: `new` starts
//! the count at one, `clone` raises it by one, and `release` either lowers
//! it by one or, when this handle was the last, consumes the allocation —
//! the one point at which the count would have reached zero.

use crate::cell::MyCell;
use core::marker::PhantomData;
use vstd::prelude::*;

verus! {

/// The heap block jointly owned by all outstanding handles: the wrapped
/// value together with the number of handles that are still live.
pub struct RcInner<T> {
    value: T,
    ref_count: MyCell<usize>,
}

impl<T> RcInner<T> {
    /// The wrapped value.
    pub closed spec fn val(&self) -> T {
        self.value
    }

    /// How many handles to this allocation are live.
    pub closed spec fn live_count(&self) -> usize {
        self.ref_count@
    }
}

/// A shared-ownership handle to an [`RcInner`].
///
/// The handle itself carries no data: it is a token whose possession stands
/// for one unit of the allocation's live count. It can be obtained only
/// from `new` or `clone` and given up only through `release`, so the count
/// and the set of live handles move together. The handle never provides
/// mutable access to the wrapped value: exclusivity cannot be guaranteed
/// once the value is shared.
pub struct MyRc<T> {
    _owns: PhantomData<T>,
}

impl<T> MyRc<T> {
    /// Allocates `value` together with a live count of one and returns the
    /// first handle beside the allocation. Always succeeds.
    pub fn new(value: T) -> (r: (MyRc<T>, RcInner<T>))
        ensures
            r.1.val() == value,
            r.1.live_count() == 1,
    {
        let inner = RcInner { value, ref_count: MyCell::new(1) };
        (MyRc { _owns: PhantomData }, inner)
    }

    /// Returns a new handle to the same allocation, raising the live count
    /// by one. The wrapped value is untouched.
    ///
    /// The count is at least one because this handle is live; the upper
    /// bound keeps the increment within the machine word.
    pub fn clone(&self, inner: &mut RcInner<T>) -> (r: MyRc<T>)
        requires
            old(inner).live_count() >= 1,
            old(inner).live_count() < usize::MAX,
        ensures
            final(inner).val() == old(inner).val(),
            final(inner).live_count() == old(inner).live_count() + 1,
    {
        let n: usize = inner.ref_count.get();
        inner.ref_count.set(n + 1);
        MyRc { _owns: PhantomData }
    }

    /// Read-only access to the wrapped value, valid for as long as the
    /// allocation itself: the allocation is live while any handle is.
    pub fn deref<'a>(&self, inner: &'a RcInner<T>) -> (v: &'a T)
        ensures
            *v == inner.val(),
    {
        &inner.value
    }

    /// Gives this handle up. If it was the last one — the live count reads
    /// one, and would reach zero — the allocation is consumed and nothing
    /// is returned: that is the deallocation, and it happens at exactly
    /// that point. Otherwise the count drops by one, stays positive, and
    /// the allocation is handed back intact.
    pub fn release(self, inner: RcInner<T>) -> (r: Option<RcInner<T>>)
        requires
            inner.live_count() >= 1,
        ensures
            r is None <==> inner.live_count() == 1,
            r matches Some(kept) ==> {
                &&& kept.val() == inner.val()
                &&& kept.live_count() == inner.live_count() - 1
                &&& kept.live_count() >= 1
            },
    {
        let mut inner = inner;
        let n: usize = inner.ref_count.get();
        if n == 1 {
            None
        } else {
            inner.ref_count.set(n - 1);
            Some(inner)
        }
    }
}

} // verus!
