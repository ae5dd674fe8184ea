//! The single place where the handle of the supervised process is kept.
//!
//! The slot is filled once, with what the launch produced, and emptied once,
//! when the window closes. It does not lock anything itself: the caller puts
//! it behind the lock that the startup path and the window callback share.

use vstd::prelude::*;

verus! {

/// What the window framework tells the supervisor about.
#[derive(Clone, Copy, Debug, PartialEq, Eq, Structural)]
pub enum WindowNotice {
    /// The user asked for the window to be closed.
    CloseRequested,
    /// Any other window event.
    Other,
}

/// The three conditions of a slot.
pub enum SlotView<H> {
    /// No handle has been stored, and shutdown has not happened yet.
    Vacant,
    /// The handle of the running backend.
    Holding(H),
    /// Shutdown has taken place; the slot stays empty from now on.
    Closed,
}

impl<H> SlotView<H> {
    /// The slot that is made from the outcome of a launch.
    pub open spec fn of(launched: Option<H>) -> SlotView<H> {
        match launched {
            Some(handle) => SlotView::Holding(handle),
            None => SlotView::Vacant,
        }
    }

    /// The handle that the slot holds, if any.
    pub open spec fn held(self) -> Option<H> {
        match self {
            SlotView::Holding(handle) => Some(handle),
            _ => None,
        }
    }

    /// The slot after `handle` was offered to it: only a vacant slot accepts.
    pub open spec fn after_store(self, handle: H) -> SlotView<H> {
        match self {
            SlotView::Vacant => SlotView::Holding(handle),
            _ => self,
        }
    }

    /// What `store` hands back: the offered handle, unless the slot took it.
    pub open spec fn refused(self, handle: H) -> Option<H> {
        match self {
            SlotView::Vacant => None,
            _ => Some(handle),
        }
    }

    /// The slot after a window notice was handled.
    pub open spec fn after_notice(self, notice: WindowNotice) -> SlotView<H> {
        match notice {
            WindowNotice::CloseRequested => SlotView::Closed,
            WindowNotice::Other => self,
        }
    }

    /// The handle that has to be killed in answer to a window notice.
    pub open spec fn released_by(self, notice: WindowNotice) -> Option<H> {
        match notice {
            WindowNotice::CloseRequested => self.held(),
            WindowNotice::Other => None,
        }
    }
}

/// What a slot is made of.
#[derive(Debug)]
enum State<H> {
    Vacant,
    Holding(H),
    Closed,
}

/// The container of the one supervised process handle.
///
/// A slot is either waiting for a handle, holding exactly one, or closed.
/// Its state is private: a handle gets in through `new` or `store` and out
/// through `terminate`, and a closed slot never holds a handle again.
#[derive(Debug)]
pub struct Slot<H> {
    state: State<H>,
}

impl<H> View for Slot<H> {
    type V = SlotView<H>;

    closed spec fn view(&self) -> SlotView<H> {
        match self.state {
            State::Vacant => SlotView::Vacant,
            State::Holding(handle) => SlotView::Holding(handle),
            State::Closed => SlotView::Closed,
        }
    }
}

impl<H> Slot<H> {
    /// Creates the slot from the outcome of a launch: holding the handle of
    /// a backend that was started, vacant otherwise.
    pub fn new(launched: Option<H>) -> (slot: Slot<H>)
        ensures
            slot@ == SlotView::of(launched),
    {
        match launched {
            Some(handle) => Slot { state: State::Holding(handle) },
            None => Slot { state: State::Vacant },
        }
    }

    /// Whether a handle is present.
    pub fn is_holding(&self) -> (b: bool)
        ensures
            b == (self@ is Holding),
    {
        match self.state {
            State::Holding(_) => true,
            _ => false,
        }
    }

    /// Whether shutdown has already taken place.
    pub fn is_closed(&self) -> (b: bool)
        ensures
            b == (self@ is Closed),
    {
        match self.state {
            State::Closed => true,
            _ => false,
        }
    }

    /// Offers a handle to the slot.
    ///
    /// A vacant slot keeps it. A slot that already holds a handle, or that
    /// was closed, is left as it is and the offered handle comes back, so
    /// that the caller can dispose of it.
    pub fn store(&mut self, handle: H) -> (back: Option<H>)
        ensures
            final(self)@ == old(self)@.after_store(handle),
            back == old(self)@.refused(handle),
    {
        match self.state {
            State::Vacant => {
                self.state = State::Holding(handle);
                None
            },
            _ => Some(handle),
        }
    }

    /// Closes the slot and hands out the handle it held.
    ///
    /// The caller kills the process behind the returned handle. Calling this
    /// again, or on a slot that never held a handle, returns `None`.
    pub fn terminate(&mut self) -> (taken: Option<H>)
        ensures
            final(self)@ == SlotView::<H>::Closed,
            taken == old(self)@.held(),
    {
        let mut previous = State::Closed;
        core::mem::swap(&mut self.state, &mut previous);
        match previous {
            State::Holding(handle) => Some(handle),
            _ => None,
        }
    }

    /// Handles one window notice: a close request terminates, anything else
    /// leaves the slot untouched.
    pub fn on_window_notice(&mut self, notice: WindowNotice) -> (taken: Option<H>)
        ensures
            final(self)@ == old(self)@.after_notice(notice),
            taken == old(self)@.released_by(notice),
    {
        match notice {
            WindowNotice::CloseRequested => self.terminate(),
            WindowNotice::Other => None,
        }
    }
}

/// Shutdown is idempotent: after a close request the slot is closed, a
/// further close request releases nothing and leaves it closed, and a
/// slot that never held a handle releases nothing either.
pub proof fn law_shutdown_is_idempotent<H>(slot: SlotView<H>)
    ensures
        slot.after_notice(WindowNotice::CloseRequested) == SlotView::<H>::Closed,
        slot.after_notice(WindowNotice::CloseRequested).released_by(WindowNotice::CloseRequested)
            is None,
        slot.after_notice(WindowNotice::CloseRequested).after_notice(
            WindowNotice::CloseRequested,
        ) == slot.after_notice(WindowNotice::CloseRequested),
        SlotView::<H>::Vacant.released_by(WindowNotice::CloseRequested) is None,
        SlotView::<H>::Vacant.after_notice(WindowNotice::CloseRequested) == SlotView::<H>::Closed,
{
}

/// A closed slot stays empty for good: it holds nothing, every handle
/// offered to it comes back, and no notice opens it again.
pub proof fn law_closed_slot_stays_empty<H>(handle: H, notice: WindowNotice)
    ensures
        SlotView::<H>::Closed.held() is None,
        SlotView::<H>::Closed.after_store(handle) == SlotView::<H>::Closed,
        SlotView::<H>::Closed.refused(handle) == Some(handle),
        SlotView::<H>::Closed.after_notice(notice) == SlotView::<H>::Closed,
        SlotView::<H>::Closed.released_by(notice) is None,
{
}

/// A slot never holds more than it was given: after any store it holds
/// either what it held before or, if it was vacant, the offered handle, and
/// the offered handle is never both kept and handed back.
pub proof fn law_slot_holds_at_most_one_handle<H>(slot: SlotView<H>, handle: H)
    ensures
        slot.after_store(handle).held() == (if slot is Vacant {
            Some(handle)
        } else {
            slot.held()
        }),
        slot.refused(handle) is None <==> slot is Vacant,
{
}

/// The handle that a launch produced is the one that shutdown releases,
/// and after that the slot holds nothing.
pub proof fn law_shutdown_releases_the_launched_handle<H>(launched: Option<H>)
    ensures
        SlotView::of(launched).held() == launched,
        SlotView::of(launched).released_by(WindowNotice::CloseRequested) == launched,
        SlotView::of(launched).after_notice(WindowNotice::CloseRequested).held() is None,
{
}

/// Storing and shutting down commute as far as the handle's fate goes:
/// whichever of the two reaches a vacant slot first, the slot ends up
/// closed, and the handle leaves it exactly once, either released by the
/// shutdown (stored first) or refused by the store (shut down first).
pub proof fn law_store_and_shutdown_in_either_order<H>(handle: H)
    ensures
        ({
            let stored = SlotView::<H>::Vacant.after_store(handle);
            &&& SlotView::<H>::Vacant.refused(handle) is None
            &&& stored.released_by(WindowNotice::CloseRequested) == Some(handle)
            &&& stored.after_notice(WindowNotice::CloseRequested) == SlotView::<H>::Closed
        }),
        ({
            let closed = SlotView::<H>::Vacant.after_notice(WindowNotice::CloseRequested);
            &&& SlotView::<H>::Vacant.released_by(WindowNotice::CloseRequested) is None
            &&& closed.refused(handle) == Some(handle)
            &&& closed.after_store(handle) == SlotView::<H>::Closed
        }),
{
}

/// Notices other than a close request change nothing and release nothing.
pub proof fn law_other_notices_are_ignored<H>(slot: SlotView<H>)
    ensures
        slot.after_notice(WindowNotice::Other) == slot,
        slot.released_by(WindowNotice::Other) is None,
{
}

} // verus!
