//! The life cycle of a suspendable call.
//!
//! A call that may suspend runs against an [`AsyncState`] of its own. The
//! state starts idle, runs once the call is begun, goes back and forth
//! between running and suspended as the host callable waits and is woken,
//! and ends completed or failed. Every change is one [`AsyncEvent`] applied
//! to the state; an event that the state does not allow changes nothing.

use vstd::prelude::*;
use crate::error::ExecError;

verus! {

/// Where a suspendable call stands.
#[derive(Clone, Copy, Debug, PartialEq, Eq, Structural)]
pub enum AsyncStatus {
    /// No call was begun yet.
    Idle,
    /// The call is inside the function object.
    Running,
    /// The host callable waits; the scheduler has control.
    Suspended,
    /// The call returned its results. Final.
    Completed,
    /// The call failed, with the cause inside. Final.
    Failed(ExecError),
}

/// What happens to a suspendable call.
#[derive(Clone, Copy, Debug, PartialEq, Eq, Structural)]
pub enum AsyncEvent {
    /// A call is begun. Inside is why it is refused before the function
    /// object is entered, where it is.
    Begin(Option<ExecError>),
    /// The host callable waits: the call yields to the scheduler.
    Suspend,
    /// The scheduler wakes the call.
    Resume,
    /// The host callable is done. Inside is why the call failed, where it did.
    Finish(Option<ExecError>),
    /// The call is abandoned.
    Cancel,
}

/// An [`AsyncState`] as plain values.
pub struct AsyncStateView {
    /// Where the call stands.
    pub status: AsyncStatus,
    /// How many times the call has yielded to the scheduler. The count stops
    /// at the largest `u64`.
    pub suspensions: u64,
}

impl AsyncStateView {
    /// Whether the call has ended.
    pub open spec fn terminal(self) -> bool {
        self.status is Completed || self.status is Failed
    }

    /// Whether the state allows the event.
    pub open spec fn allows(self, event: AsyncEvent) -> bool {
        match event {
            AsyncEvent::Begin(_) => self.status is Idle,
            AsyncEvent::Suspend => self.status is Running,
            AsyncEvent::Resume => self.status is Suspended,
            AsyncEvent::Finish(_) => self.status is Running,
            AsyncEvent::Cancel => !self.terminal(),
        }
    }

    /// The state after the event. An event that the state does not allow
    /// leaves it as it is.
    pub open spec fn next(self, event: AsyncEvent) -> AsyncStateView {
        if !self.allows(event) {
            self
        } else {
            match event {
                AsyncEvent::Begin(None) => AsyncStateView { status: AsyncStatus::Running, ..self },
                AsyncEvent::Begin(Some(e)) => AsyncStateView {
                    status: AsyncStatus::Failed(e),
                    ..self
                },
                AsyncEvent::Suspend => AsyncStateView {
                    status: AsyncStatus::Suspended,
                    suspensions: if self.suspensions < u64::MAX {
                        (self.suspensions + 1) as u64
                    } else {
                        self.suspensions
                    },
                },
                AsyncEvent::Resume => AsyncStateView { status: AsyncStatus::Running, ..self },
                AsyncEvent::Finish(None) => AsyncStateView {
                    status: AsyncStatus::Completed,
                    ..self
                },
                AsyncEvent::Finish(Some(e)) => AsyncStateView {
                    status: AsyncStatus::Failed(e),
                    ..self
                },
                AsyncEvent::Cancel => AsyncStateView {
                    status: AsyncStatus::Failed(ExecError::Cancelled),
                    ..self
                },
            }
        }
    }

    /// The error for an operation that the state does not allow: the cause
    /// of the failure, where the call has failed; else `AsyncMisuse`.
    pub open spec fn rejection(self) -> ExecError {
        match self.status {
            AsyncStatus::Failed(e) => e,
            _ => ExecError::AsyncMisuse,
        }
    }

    /// The state after each of the events, in order.
    pub open spec fn after(self, events: Seq<AsyncEvent>) -> AsyncStateView
        decreases events.len(),
    {
        if events.len() == 0 {
            self
        } else {
            self.next(events[0]).after(events.skip(1))
        }
    }
}

/// The state of one suspendable call.
#[derive(Debug, PartialEq, Eq)]
pub struct AsyncState {
    status: AsyncStatus,
    suspensions: u64,
}

impl View for AsyncState {
    type V = AsyncStateView;

    closed spec fn view(&self) -> AsyncStateView {
        AsyncStateView { status: self.status, suspensions: self.suspensions }
    }
}

impl AsyncState {
    /// The state for a call that is not begun yet.
    pub fn new() -> (state: AsyncState)
        ensures
            state@.status == AsyncStatus::Idle,
            state@.suspensions == 0,
    {
        AsyncState { status: AsyncStatus::Idle, suspensions: 0 }
    }

    /// Where the call stands.
    pub fn status(&self) -> (status: AsyncStatus)
        ensures
            status == self@.status,
    {
        self.status
    }

    /// How many times the call has yielded to the scheduler.
    pub fn suspensions(&self) -> (n: u64)
        ensures
            n == self@.suspensions,
    {
        self.suspensions
    }

    /// Whether the call has ended.
    pub fn is_terminal(&self) -> (ended: bool)
        ensures
            ended == self@.terminal(),
    {
        match self.status {
            AsyncStatus::Completed => true,
            AsyncStatus::Failed(_) => true,
            _ => false,
        }
    }

    /// The error for an operation that the state does not allow.
    pub fn rejection(&self) -> (e: ExecError)
        ensures
            e == self@.rejection(),
    {
        match self.status {
            AsyncStatus::Failed(e) => e,
            _ => ExecError::AsyncMisuse,
        }
    }

    /// Applies an event to the state and says whether the state allowed it.
    pub fn apply(&mut self, event: AsyncEvent) -> (allowed: bool)
        ensures
            allowed == old(self)@.allows(event),
            final(self)@ == old(self)@.next(event),
    {
        match (event, self.status) {
            (AsyncEvent::Begin(None), AsyncStatus::Idle) => {
                self.status = AsyncStatus::Running;
                true
            },
            (AsyncEvent::Begin(Some(e)), AsyncStatus::Idle) => {
                self.status = AsyncStatus::Failed(e);
                true
            },
            (AsyncEvent::Suspend, AsyncStatus::Running) => {
                self.status = AsyncStatus::Suspended;
                if self.suspensions < u64::MAX {
                    self.suspensions = self.suspensions + 1;
                }
                true
            },
            (AsyncEvent::Resume, AsyncStatus::Suspended) => {
                self.status = AsyncStatus::Running;
                true
            },
            (AsyncEvent::Finish(None), AsyncStatus::Running) => {
                self.status = AsyncStatus::Completed;
                true
            },
            (AsyncEvent::Finish(Some(e)), AsyncStatus::Running) => {
                self.status = AsyncStatus::Failed(e);
                true
            },
            (AsyncEvent::Cancel, AsyncStatus::Idle) => {
                self.status = AsyncStatus::Failed(ExecError::Cancelled);
                true
            },
            (AsyncEvent::Cancel, AsyncStatus::Running) => {
                self.status = AsyncStatus::Failed(ExecError::Cancelled);
                true
            },
            (AsyncEvent::Cancel, AsyncStatus::Suspended) => {
                self.status = AsyncStatus::Failed(ExecError::Cancelled);
                true
            },
            _ => false,
        }
    }

    /// Abandons the call: a call that has not ended fails with `Cancelled`.
    /// A call that has ended stays as it ended.
    pub fn cancel(&mut self)
        ensures
            final(self)@ == old(self)@.next(AsyncEvent::Cancel),
            !old(self)@.terminal() ==> final(self)@.status == AsyncStatus::Failed(
                ExecError::Cancelled,
            ),
            final(self)@.terminal(),
    {
        let _ = self.apply(AsyncEvent::Cancel);
    }
}

/// A call that has ended stays as it ended: no event changes its state, and
/// none is allowed.
pub proof fn lemma_terminal_is_final(state: AsyncStateView, event: AsyncEvent)
    requires
        state.terminal(),
    ensures
        !state.allows(event),
        state.next(event) == state,
{
}

/// A call that has ended stays as it ended through any sequence of events.
pub proof fn lemma_terminal_stays(state: AsyncStateView, events: Seq<AsyncEvent>)
    requires
        state.terminal(),
    ensures
        state.after(events) == state,
    decreases events.len(),
{
    if events.len() > 0 {
        lemma_terminal_is_final(state, events[0]);
        lemma_terminal_stays(state, events.skip(1));
    }
}

/// Abandoning a suspended call makes it fail with `Cancelled`, and nothing
/// that happens afterwards resumes it: whatever events follow, the call is
/// never running again, and the operation that would resume it is rejected
/// with `Cancelled`.
pub proof fn lemma_cancel_is_final(state: AsyncStateView, events: Seq<AsyncEvent>)
    requires
        state.status is Suspended,
    ensures
        state.next(AsyncEvent::Cancel).status == AsyncStatus::Failed(ExecError::Cancelled),
        state.next(AsyncEvent::Cancel).after(events) == state.next(AsyncEvent::Cancel),
        !state.next(AsyncEvent::Cancel).after(events).allows(AsyncEvent::Resume),
        state.next(AsyncEvent::Cancel).after(events).rejection() == ExecError::Cancelled,
{
    lemma_terminal_stays(state.next(AsyncEvent::Cancel), events);
}

} // verus!
