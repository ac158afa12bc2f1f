//! Verified bookkeeping for interior mutability.
//!
//! Three primitives, each built on the one before it:
//!
//! * [`cell::MyCell`] — a single-owner mutable cell for copyable values,
//!   read and written only by value.
//! * [`rc::MyRc`] — a shared-ownership handle over a counted allocation
//!   ([`rc::RcInner`]); the live count tracks the outstanding handles and
//!   drives the exact point of deallocation.
//! * [`refcell::MyRefCell`] — a runtime-checked borrow cell that hands out
//!   shared ([`refcell::Ref`]) or exclusive ([`refcell::RefMut`]) guards and
//!   keeps a borrow-state field that mirrors the live guards.
//!
//! All three are single-threaded, sequential structures. Every operation is
//! total except where the borrow discipline denies a guard, which is reported
//! by returning `None` rather than by failing.

pub mod cell;
pub mod rc;
pub mod refcell;
