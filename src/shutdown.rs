use vstd::prelude::*;

verus! {

/// The states of a one-place shutdown notification.
#[derive(PartialEq, Eq, Structural, Clone, Copy, Debug)]
pub enum SlotState {
    /// No notification yet.
    Empty,
    /// One notification waits to be taken.
    Pending,
    /// The notification was taken; the slot has done its work.
    Consumed,
}

/// The state after a notification attempt, and whether it was delivered.
/// Only an empty slot takes a notification; any other attempt is a silent
/// no-op.
pub open spec fn notify_spec(s: SlotState) -> (SlotState, bool) {
    match s {
        SlotState::Empty => (SlotState::Pending, true),
        _ => (s, false),
    }
}

/// The state after the listener looks for a notification, and whether it
/// found (and took) one.
pub open spec fn take_spec(s: SlotState) -> (SlotState, bool) {
    match s {
        SlotState::Pending => (SlotState::Consumed, true),
        _ => (s, false),
    }
}

/// A single-capacity notification written by the termination signal handler
/// and read by the serving loop.
pub struct ShutdownSlot {
    state: SlotState,
}

impl View for ShutdownSlot {
    type V = SlotState;

    closed spec fn view(&self) -> SlotState {
        self.state
    }
}

impl ShutdownSlot {
    /// An empty slot.
    pub fn new() -> (r: ShutdownSlot)
        ensures
            r@ == SlotState::Empty,
    {
        ShutdownSlot { state: SlotState::Empty }
    }

    /// Attempts to deliver a notification; returns whether this attempt was
    /// the one delivered.
    pub fn notify(&mut self) -> (delivered: bool)
        ensures
            (final(self)@, delivered) == notify_spec(old(self)@),
    {
        match self.state {
            SlotState::Empty => {
                self.state = SlotState::Pending;
                true
            },
            _ => false,
        }
    }

    /// Takes the pending notification, if there is one.
    pub fn take(&mut self) -> (found: bool)
        ensures
            (final(self)@, found) == take_spec(old(self)@),
    {
        match self.state {
            SlotState::Pending => {
                self.state = SlotState::Consumed;
                true
            },
            _ => false,
        }
    }

    /// Whether a notification waits to be taken.
    pub fn is_pending(&self) -> (r: bool)
        ensures
            r == (self@ == SlotState::Pending),
    {
        self.state == SlotState::Pending
    }
}

/// A second notification is a no-op: it leaves the slot as the first one
/// left it and is not delivered, so two signals act as one.
pub proof fn lemma_notify_idempotent(s: SlotState)
    ensures
        notify_spec(notify_spec(s).0) == (notify_spec(s).0, false),
{
}

/// At most one notification is ever taken: once one is taken, the slot
/// accepts and yields no other.
pub proof fn lemma_taken_once(s: SlotState)
    requires
        take_spec(s).1,
    ensures
        notify_spec(take_spec(s).0) == (take_spec(s).0, false),
        take_spec(take_spec(s).0) == (take_spec(s).0, false),
{
}

} // verus!
