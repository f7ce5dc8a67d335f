//! Events the engine emits towards its embedder, and the typed
//! progress value the handshake reports.

use vstd::prelude::*;

use crate::chat::ChatId;

verus! {

/// A progress value: 0 means error, 1..=999 means progress, 1000 means
/// success.  The constructor enforces the range.
#[derive(Debug, Copy, Clone, PartialEq, Eq, Structural)]
pub struct Progress(u32);

impl Progress {
    /// The raw value, for use in specifications.
    pub closed spec fn val(self) -> u32 {
        self.0
    }

    /// Type invariant: the value is in range.
    pub open spec fn wf(self) -> bool {
        self.val() <= 1000
    }

    /// Make a progress value; out-of-range values are caller errors.
    pub fn new(value: u32) -> (r: Progress)
        requires
            value <= 1000,
        ensures
            r.val() == value,
            r.wf(),
    {
        Progress(value)
    }

    /// The raw numeric value.
    pub fn to_u32(self) -> (r: u32)
        ensures
            r == self.val(),
    {
        self.0
    }
}

/// An event emitted towards the embedder.
#[derive(Debug, Clone, PartialEq, Eq, Structural)]
pub enum Event {
    /// Progress of the inviter side of a handshake with the given contact.
    SecurejoinInviterProgress { contact_id: u32, progress: Progress },
    /// Progress of the joiner side of a handshake with the given contact.
    SecurejoinJoinerProgress { contact_id: u32, progress: Progress },
    /// The given contact changed, or with `None`, some contacts changed.
    ContactsChanged(Option<u32>),
    /// The given chat was modified.
    ChatModified(ChatId),
}

} // verus!
