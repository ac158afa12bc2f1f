//! A runtime-checked borrow cell.
//!
//! The cell enforces the single-writer-or-multiple-readers discipline
//! dynamically: `borrow` and `borrow_mut` consult a [`RefState`] field —
//! itself kept in a [`MyCell`] — and either hand out a guard and advance
//! the state, or deny the request by returning `None`. Releasing a guard
//! moves the state back. The state always mirrors the live guards: none,
//! `n >= 1` shared ones, or a single exclusive one.
//!
//! A guard carries no reference of its own; it is a token that must be
//! presented to the cell that issued it, both to reach the value and to be
//! released. Guards cannot be constructed from outside this module and are
//! consumed on release, so for each cell the tokens in circulation are
//! exactly the guards its state records.
//!
//! The state machine itself is written out as spec-level transition
//! functions on [`RefState`]; the executable methods promise to follow
//! them, and the laws of the discipline are proved about them at the bottom
//! of this module.

use crate::cell::MyCell;
use core::marker::PhantomData;
use vstd::prelude::*;

verus! {

/// The aggregate claim currently held on a cell's value: `n >= 1` shared
/// borrows, none, or one exclusive borrow.
#[derive(Copy, Clone)]
pub enum RefState {
    Shared(usize),
    Unshared,
    Exclusive,
}

impl RefState {
    /// Bookkeeping well-formedness: a shared state records at least one
    /// live guard.
    pub open spec fn wf(self) -> bool {
        self matches RefState::Shared(n) ==> n >= 1
    }

    /// How many guards of any kind the state records as live.
    pub open spec fn live_guards(self) -> nat {
        match self {
            RefState::Shared(n) => n as nat,
            RefState::Unshared => 0,
            RefState::Exclusive => 1,
        }
    }

    /// Whether a shared borrow is granted from this state.
    pub open spec fn allows_shared(self) -> bool {
        !(self is Exclusive)
    }

    /// Whether an exclusive borrow is granted from this state.
    pub open spec fn allows_exclusive(self) -> bool {
        self is Unshared
    }

    /// The state after a shared borrow is granted.
    pub open spec fn after_shared(self) -> RefState
        recommends
            self.allows_shared(),
            self.live_guards() < usize::MAX,
    {
        match self {
            RefState::Shared(n) => RefState::Shared((n + 1) as usize),
            RefState::Unshared => RefState::Shared(1),
            RefState::Exclusive => self,
        }
    }

    /// The state after an exclusive borrow is granted.
    pub open spec fn after_exclusive(self) -> RefState
        recommends
            self.allows_exclusive(),
    {
        RefState::Exclusive
    }

    /// The state after one shared guard is released.
    pub open spec fn after_shared_release(self) -> RefState
        recommends
            self is Shared,
    {
        match self {
            RefState::Shared(n) => if n > 1 {
                RefState::Shared((n - 1) as usize)
            } else {
                RefState::Unshared
            },
            _ => self,
        }
    }

    /// The state after the exclusive guard is released.
    pub open spec fn after_exclusive_release(self) -> RefState
        recommends
            self is Exclusive,
    {
        RefState::Unshared
    }
}

/// A cell whose value can be borrowed, shared or exclusively, under a
/// discipline checked at run time.
pub struct MyRefCell<T> {
    value: T,
    reference: MyCell<RefState>,
}

impl<T> MyRefCell<T> {
    /// The wrapped value.
    pub closed spec fn val(&self) -> T {
        self.value
    }

    /// The current borrow state.
    pub closed spec fn state(&self) -> RefState {
        self.reference@
    }

    /// The cell's invariant: its borrow state is well formed.
    pub open spec fn wf(&self) -> bool {
        self.state().wf()
    }

    /// Creates a cell holding `value`, with no borrow outstanding.
    /// Always succeeds.
    pub fn new(value: T) -> (c: Self)
        ensures
            c.wf(),
            c.val() == value,
            c.state() is Unshared,
    {
        MyRefCell { value, reference: MyCell::new(RefState::Unshared) }
    }

    /// Asks for a shared borrow. Granted — with the state advanced by
    /// [`RefState::after_shared`] — exactly when no exclusive guard is
    /// live; denied, with the state untouched, while one is.
    ///
    /// The bound on `live_guards` keeps the shared counter within the
    /// machine word.
    pub fn borrow(&mut self) -> (r: Option<Ref<T>>)
        requires
            old(self).wf(),
            old(self).state().live_guards() < usize::MAX,
        ensures
            final(self).wf(),
            final(self).val() == old(self).val(),
            r is Some <==> old(self).state().allows_shared(),
            r is Some ==> final(self).state() == old(self).state().after_shared(),
            r is None ==> final(self).state() == old(self).state(),
    {
        match self.reference.get() {
            RefState::Shared(n) => {
                self.reference.set(RefState::Shared(n + 1));
                Some(Ref { _cell: PhantomData })
            }
            RefState::Unshared => {
                self.reference.set(RefState::Shared(1));
                Some(Ref { _cell: PhantomData })
            }
            RefState::Exclusive => None,
        }
    }

    /// Asks for an exclusive borrow. Granted — with the state moved to
    /// `Exclusive` — exactly when no guard of any kind is live; denied,
    /// with the state untouched, otherwise.
    pub fn borrow_mut(&mut self) -> (r: Option<RefMut<T>>)
        requires
            old(self).wf(),
        ensures
            final(self).wf(),
            final(self).val() == old(self).val(),
            r is Some <==> old(self).state().allows_exclusive(),
            r is Some ==> final(self).state() == old(self).state().after_exclusive(),
            r is None ==> final(self).state() == old(self).state(),
    {
        match self.reference.get() {
            RefState::Unshared => {
                self.reference.set(RefState::Exclusive);
                Some(RefMut { _cell: PhantomData })
            }
            _ => None,
        }
    }
}

/// A shared-borrow guard handed out by [`MyRefCell::borrow`].
///
/// It grants read access to the issuing cell's value and must be given
/// back with [`Ref::release`]; the cell counts it as live until then.
pub struct Ref<T> {
    _cell: PhantomData<T>,
}

impl<T> Ref<T> {
    /// Reads the borrowed value of the cell this guard was issued by.
    ///
    /// Sound because a shared guard is live, so no exclusive guard is.
    pub fn deref<'a>(&self, cell: &'a MyRefCell<T>) -> (v: &'a T)
        requires
            cell.state() is Shared,
        ensures
            *v == cell.val(),
    {
        &cell.value
    }

    /// Gives this guard back to the cell that issued it, moving the state
    /// by [`RefState::after_shared_release`]: one fewer shared guard, or
    /// back to `Unshared` when this was the last. The value is untouched.
    ///
    /// A live shared guard means the state must read `Shared`; anything
    /// else would be corruption of the bookkeeping, which is why the state
    /// is a precondition and no other is handled.
    pub fn release(self, cell: &mut MyRefCell<T>)
        requires
            old(cell).wf(),
            old(cell).state() is Shared,
        ensures
            final(cell).wf(),
            final(cell).val() == old(cell).val(),
            final(cell).state() == old(cell).state().after_shared_release(),
    {
        match cell.reference.get() {
            RefState::Shared(n) => {
                if n > 1 {
                    cell.reference.set(RefState::Shared(n - 1));
                } else {
                    cell.reference.set(RefState::Unshared);
                }
            }
            _ => unreached(),
        }
    }
}

/// An exclusive-borrow guard handed out by [`MyRefCell::borrow_mut`].
///
/// It grants read and write access to the issuing cell's value and must be
/// given back with [`RefMut::release`]; the cell counts it as the only
/// live guard until then.
pub struct RefMut<T> {
    _cell: PhantomData<T>,
}

impl<T> RefMut<T> {
    /// Reads the borrowed value of the cell this guard was issued by.
    ///
    /// Sound because the exclusive guard is live, so no other guard is.
    pub fn deref<'a>(&self, cell: &'a MyRefCell<T>) -> (v: &'a T)
        requires
            cell.state() is Exclusive,
        ensures
            *v == cell.val(),
    {
        &cell.value
    }

    /// Mutable access to the borrowed value of the cell this guard was
    /// issued by: the value the caller leaves behind the returned
    /// reference is the cell's new value, and the borrow state stays
    /// `Exclusive` throughout.
    ///
    /// Sound because the exclusive guard is live, so no other guard is.
    pub fn deref_mut<'a>(&self, cell: &'a mut MyRefCell<T>) -> (v: &'a mut T)
        requires
            old(cell).state() is Exclusive,
        ensures
            *v == old(cell).val(),
            final(cell).val() == *final(v),
            final(cell).state() == old(cell).state(),
    {
        &mut cell.value
    }

    /// Gives this guard back to the cell that issued it, returning the
    /// state to `Unshared`. The value — including whatever was written
    /// through the guard — is untouched.
    ///
    /// A live exclusive guard means the state must read `Exclusive`;
    /// anything else would be corruption of the bookkeeping, which is why
    /// the state is a precondition and no other is handled.
    pub fn release(self, cell: &mut MyRefCell<T>)
        requires
            old(cell).wf(),
            old(cell).state() is Exclusive,
        ensures
            final(cell).wf(),
            final(cell).val() == old(cell).val(),
            final(cell).state() == old(cell).state().after_exclusive_release(),
    {
        match cell.reference.get() {
            RefState::Exclusive => {
                cell.reference.set(RefState::Unshared);
            }
            _ => unreached(),
        }
    }
}

/// Law: an exclusive borrow is granted exactly when no guard of any kind
/// is live.
pub proof fn lemma_exclusive_iff_no_guards(s: RefState)
    requires
        s.wf(),
    ensures
        s.allows_exclusive() <==> s.live_guards() == 0,
{
}

/// Law: once an exclusive borrow is granted, every further borrow of
/// either kind — in particular a second exclusive one — is denied until
/// the guard is released.
pub proof fn lemma_exclusive_excludes_all(s: RefState)
    requires
        s.allows_exclusive(),
    ensures
        !s.after_exclusive().allows_exclusive(),
        !s.after_exclusive().allows_shared(),
{
}

/// Law: while no exclusive guard is live, a shared borrow is granted, and
/// granting it again leaves no exclusive guard live — so shared borrows
/// can be repeated without bound, short of the machine limit on the
/// counter — while one more guard is recorded each time.
pub proof fn lemma_shared_repeatable(s: RefState)
    requires
        s.wf(),
        !(s is Exclusive),
        s.live_guards() < usize::MAX,
    ensures
        s.allows_shared(),
        s.after_shared().wf(),
        !(s.after_shared() is Exclusive),
        s.after_shared().live_guards() == s.live_guards() + 1,
{
}

/// Law: releasing a shared guard keeps the state well formed, records one
/// guard fewer, and never conjures an exclusive guard.
pub proof fn lemma_shared_release_counts_down(s: RefState)
    requires
        s.wf(),
        s is Shared,
    ensures
        s.after_shared_release().wf(),
        s.after_shared_release().live_guards() == s.live_guards() - 1,
        !(s.after_shared_release() is Exclusive),
{
}

/// Law: releasing the last shared guard returns the cell to the unshared
/// state, where an exclusive borrow is granted again.
pub proof fn lemma_release_last_shared(s: RefState)
    requires
        s.wf(),
        s is Shared,
        s.live_guards() == 1,
    ensures
        s.after_shared_release() is Unshared,
        s.after_shared_release().allows_exclusive(),
{
}

/// Law: releasing the exclusive guard returns the cell to the unshared
/// state, where both a shared and an exclusive borrow are granted again.
pub proof fn lemma_release_exclusive(s: RefState)
    requires
        s is Exclusive,
    ensures
        s.after_exclusive_release() is Unshared,
        s.after_exclusive_release().allows_shared(),
        s.after_exclusive_release().allows_exclusive(),
{
}

} // verus!
