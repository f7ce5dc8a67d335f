//! Contacts and the origin ranking that records how a contact entered
//! the address book.

use vstd::prelude::*;

verus! {

/// The contact id of the account owner.
pub const DC_CONTACT_ID_SELF: u32 = 1;

/// The contact id used for info messages.
pub const DC_CONTACT_ID_INFO: u32 = 2;

/// The contact id of the virtual "device" contact.
pub const DC_CONTACT_ID_DEVICE: u32 = 5;

/// Largest reserved contact id; every real contact has a larger id.
pub const DC_CONTACT_ID_LAST_SPECIAL: u32 = 9;

/// How a contact entered the address book; stronger origins are kept
/// when a weaker one arrives later.
#[derive(Debug, Copy, Clone, PartialEq, Eq, Structural)]
pub enum Origin {
    Unknown,
    /// Contact seen while scanning a QR code that was not handled further.
    UnhandledQrScan,
    /// Contact created manually.
    ManuallyCreated,
    /// Contact invited through the verified-contact protocol.
    SecurejoinInvited,
    /// Contact joined through the verified-contact protocol.
    SecurejoinJoined,
}

impl Origin {
    /// The strength of this origin; a larger rank wins.
    pub open spec fn spec_rank(self) -> u32 {
        match self {
            Origin::Unknown => 0u32,
            Origin::UnhandledQrScan => 1u32,
            Origin::ManuallyCreated => 2u32,
            Origin::SecurejoinInvited => 3u32,
            Origin::SecurejoinJoined => 4u32,
        }
    }

    /// Executable counterpart of [`Origin::spec_rank`].
    pub fn rank(self) -> (r: u32)
        ensures
            r == self.spec_rank(),
    {
        match self {
            Origin::Unknown => 0,
            Origin::UnhandledQrScan => 1,
            Origin::ManuallyCreated => 2,
            Origin::SecurejoinInvited => 3,
            Origin::SecurejoinJoined => 4,
        }
    }
}

/// An entry of the address book.
#[derive(Debug, Clone)]
pub struct Contact {
    /// The contact's id.
    pub id: u32,
    /// The contact's e-mail address, normalized and lowercased.
    pub addr: String,
    /// How the contact entered the address book.
    pub origin: Origin,
}

impl Contact {
    /// The contact's e-mail address.
    pub fn get_addr(&self) -> (r: &str)
        ensures
            r@ == self.addr@,
    {
        self.addr.as_str()
    }
}

} // verus!
