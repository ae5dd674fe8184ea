//! The slot behind its lock, as the startup path and the window callback
//! share it.
//!
//! Every access takes the lock for the whole of its read and write. What a
//! call finds behind the lock depends on the threads that came before it;
//! what it makes of what it finds is decided by `store_behind` and
//! `terminate_behind`, which take what the lock gave and say what comes of it.

use std::sync::{Mutex, MutexGuard};
use vstd::prelude::*;
use crate::slot::{Slot, SlotView, WindowNotice};

verus! {

/// `std::sync::Mutex`, taken as it is: nothing of its contents is visible.
#[verifier::external_type_specification]
#[verifier::external_body]
#[verifier::reject_recursive_types(T)]
pub struct ExMutex<T: ?Sized>(std::sync::Mutex<T>);

/// `std::sync::MutexGuard`, taken as it is.
#[verifier::external_type_specification]
#[verifier::external_body]
#[verifier::reject_recursive_types(T)]
pub struct ExMutexGuard<'a, T: ?Sized + 'a>(std::sync::MutexGuard<'a, T>);

/// Calls `std::sync::Mutex::new`. Nothing is claimed of the result.
#[verifier::external_body]
fn guarded<T>(value: T) -> Mutex<T> {
    Mutex::new(value)
}

/// Calls `std::sync::Mutex::lock`, which blocks until the lock is free.
/// A poisoned lock is reported as absent. Nothing is claimed of what the
/// guard protects: another thread may have changed it since it was last
/// seen.
#[verifier::external_body]
fn lock<T>(mutex: &Mutex<T>) -> Option<MutexGuard<'_, T>> {
    match mutex.lock() {
        Ok(guard) => Some(guard),
        Err(_) => None,
    }
}

/// Calls `deref_mut` of `std::sync::MutexGuard`: the value behind the lock,
/// for as long as the guard is borrowed. Nothing is claimed of that value.
#[verifier::external_body]
fn behind<'a, 'b, T>(guard: &'a mut MutexGuard<'b, T>) -> &'a mut T {
    &mut **guard
}

/// The slot of the supervised process behind a lock.
///
/// It can be handed to any number of threads. A thread that panicked while
/// it held the lock leaves the slot out of reach: every later call then
/// does nothing.
#[verifier::reject_recursive_types(H)]
pub struct SharedSlot<H> {
    lock: Mutex<Slot<H>>,
}

impl<H> SharedSlot<H> {
    /// Puts the outcome of a launch into a slot and the slot behind a lock.
    pub fn new(launched: Option<H>) -> SharedSlot<H> {
        SharedSlot { lock: guarded(Slot::new(launched)) }
    }

    /// Offers a handle to the slot, under the lock.
    ///
    /// Nothing comes back if the slot kept the handle. Otherwise the very
    /// handle that was offered comes back, for the caller to dispose of.
    pub fn store(&self, handle: H) -> (back: Option<H>)
        ensures
            back matches Some(returned) ==> returned == handle,
    {
        match lock(&self.lock) {
            Some(mut guard) => store_behind(Some(behind(&mut guard)), handle),
            None => store_behind(None, handle),
        }
    }

    /// Closes the slot under the lock and hands out the handle it held, for
    /// the caller to kill.
    pub fn terminate(&self) -> Option<H> {
        match lock(&self.lock) {
            Some(mut guard) => terminate_behind(Some(behind(&mut guard))),
            None => terminate_behind(None),
        }
    }

    /// Handles one window notice: a close request terminates under the
    /// lock; any other notice releases nothing and leaves the lock alone.
    pub fn on_window_notice(&self, notice: WindowNotice) -> (taken: Option<H>)
        ensures
            notice == WindowNotice::Other ==> taken is None,
    {
        match notice {
            WindowNotice::CloseRequested => self.terminate(),
            WindowNotice::Other => None,
        }
    }
}

/// What a store makes of what the lock gave: the slot, or nothing where
/// the lock is poisoned.
///
/// A slot that was reached is offered the handle, as `Slot::store` does it.
/// Without a slot the handle comes straight back, for the caller to dispose
/// of.
pub fn store_behind<H>(found: Option<&mut Slot<H>>, handle: H) -> (back: Option<H>)
    ensures
        match found {
            Some(slot) => final(slot)@ == slot@.after_store(handle) && back == slot@.refused(
                handle,
            ),
            None => back == Some(handle),
        },
{
    match found {
        Some(slot) => slot.store(handle),
        None => Some(handle),
    }
}

/// What a shutdown makes of what the lock gave: the slot, or nothing where
/// the lock is poisoned.
///
/// A slot that was reached is closed and gives up the handle it held, as
/// `Slot::terminate` does it. Without a slot there is nothing to release.
pub fn terminate_behind<H>(found: Option<&mut Slot<H>>) -> (taken: Option<H>)
    ensures
        match found {
            Some(slot) => final(slot)@ == SlotView::<H>::Closed && taken == slot@.held(),
            None => taken is None,
        },
{
    match found {
        Some(slot) => slot.terminate(),
        None => None,
    }
}

} // verus!
