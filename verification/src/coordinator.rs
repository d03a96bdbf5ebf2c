//! The shutdown coordinator, as far as the facade relies on it.
//!
//! The coordinator belongs to the top-level process. It holds the origin of
//! the exit signal and the receiving end of the channel for shutdown
//! reasons. The first thing that reaches it, a reason or the news that the
//! channel has closed, makes it fire the exit signal. It fires once. What
//! reaches it later changes nothing: the signal stays fired, and the reason
//! that came first stays the reason for the shutdown.

use crate::reason::ShutdownReason;
use vstd::prelude::*;

verus! {

/// What reaches the coordinator from the channel for shutdown reasons.
#[derive(Copy, Clone, Debug, PartialEq, Eq)]
pub enum Notice {
    /// A reason was received.
    Reason(ShutdownReason),
    /// Every sender is gone and the channel is empty.
    Closed,
}

/// The coordinator as contracts see it.
pub struct CoordinatorView {
    /// Whether the exit signal has fired.
    pub fired: bool,
    /// The first reason that reached the coordinator before or when the exit
    /// signal fired, if the signal fired for a reason.
    pub reason: Option<ShutdownReason>,
}

impl CoordinatorView {
    /// The coordinator of a node that is running.
    pub open spec fn idle() -> CoordinatorView {
        CoordinatorView { fired: false, reason: None }
    }

    /// The coordinator after a notice reached it.
    pub open spec fn receive(self, notice: Notice) -> CoordinatorView {
        if self.fired {
            self
        } else {
            CoordinatorView {
                fired: true,
                reason: match notice {
                    Notice::Reason(reason) => Some(reason),
                    Notice::Closed => None,
                },
            }
        }
    }
}

/// The state of the shutdown coordinator.
#[derive(Debug)]
pub struct ShutdownCoordinator {
    fired: bool,
    reason: Option<ShutdownReason>,
}

impl View for ShutdownCoordinator {
    type V = CoordinatorView;

    closed spec fn view(&self) -> CoordinatorView {
        CoordinatorView { fired: self.fired, reason: self.reason }
    }
}

impl ShutdownCoordinator {
    /// The coordinator of a node that is running.
    pub fn new() -> (coordinator: ShutdownCoordinator)
        ensures
            coordinator@ == CoordinatorView::idle(),
    {
        ShutdownCoordinator { fired: false, reason: None }
    }

    /// Takes a notice from the channel. Returns whether the exit signal is to
    /// be fired now, which is so for the first notice and for no later one.
    pub fn receive(&mut self, notice: Notice) -> (fire: bool)
        ensures
            final(self)@ == old(self)@.receive(notice),
            fire == !old(self)@.fired,
    {
        if self.fired {
            false
        } else {
            self.fired = true;
            self.reason = match notice {
                Notice::Reason(reason) => Some(reason),
                Notice::Closed => None,
            };
            true
        }
    }

    /// Whether the exit signal has fired.
    pub fn exit_fired(&self) -> (fired: bool)
        ensures
            fired == self@.fired,
    {
        self.fired
    }

    /// The reason for the shutdown: the first that reached the coordinator,
    /// if the exit signal fired for a reason.
    pub fn reason(&self) -> (reason: Option<ShutdownReason>)
        ensures
            reason == self@.reason,
    {
        self.reason
    }
}

} // verus!
