//! Per-contact cryptographic trust state.
//!
//! Key material itself is an external collaborator; the engine works
//! with key fingerprints, which are plain hex strings.

use vstd::prelude::*;

verus! {

/// The encryption preference announced for a peer.
#[derive(Debug, Copy, Clone, PartialEq, Eq, Structural)]
pub enum EncryptPreference {
    NoPreference,
    /// Both sides prefer encryption.
    Mutual,
    Reset,
}

/// Which of the peer's keys a verification refers to.
#[derive(Debug, Copy, Clone, PartialEq, Eq, Structural)]
pub enum PeerstateKeyType {
    /// The key the peer announced itself.
    PublicKey,
    /// A key learned through gossip.
    GossipKey,
}

/// Verification level recorded for a peer's key.
#[derive(Debug, Copy, Clone, PartialEq, Eq, Structural)]
pub enum PeerstateVerifiedStatus {
    Unverified,
    /// Verified in both directions through the handshake.
    BidirectVerified,
}

/// A state degradation observed when a peer's key material changed.
#[derive(Debug, Copy, Clone, PartialEq, Eq, Structural)]
pub enum DegradeEvent {
    /// The peer's known fingerprint changed.
    FingerprintChanged,
}

/// The trust record kept for one peer address.
#[derive(Debug, Clone)]
pub struct Peerstate {
    /// The peer's address, normalized and lowercased.
    pub addr: String,
    /// Fingerprint of the key the peer announced, normalized.
    pub public_key_fingerprint: Option<String>,
    /// Fingerprint of a key learned through gossip, normalized.
    pub gossip_key_fingerprint: Option<String>,
    /// Fingerprint of the key that was verified through the handshake.
    pub verified_key_fingerprint: Option<String>,
    /// The peer's encryption preference.
    pub prefer_encrypt: EncryptPreference,
    /// A degradation observed when this record was last updated.
    pub degrade_event: Option<DegradeEvent>,
}

impl Peerstate {
    /// Record that the key with the given (already normalized)
    /// fingerprint is verified.  Succeeds only if that fingerprint is
    /// the one known for the selected key; on success the verified
    /// fingerprint is recorded, otherwise nothing changes.
    pub fn set_verified(
        &mut self,
        which: PeerstateKeyType,
        fingerprint: &str,
        verified: PeerstateVerifiedStatus,
    ) -> (r: bool)
        ensures
            ({
                let known = match which {
                    PeerstateKeyType::PublicKey => old(self).public_key_fingerprint,
                    PeerstateKeyType::GossipKey => old(self).gossip_key_fingerprint,
                };
                if verified == PeerstateVerifiedStatus::BidirectVerified && (known matches Some(k)
                    && k@ == fingerprint@) {
                    &&& r
                    &&& final(self).addr == old(self).addr
                    &&& final(self).public_key_fingerprint == old(self).public_key_fingerprint
                    &&& final(self).gossip_key_fingerprint == old(self).gossip_key_fingerprint
                    &&& final(self).prefer_encrypt == old(self).prefer_encrypt
                    &&& final(self).degrade_event == old(self).degrade_event
                    &&& final(self).verified_key_fingerprint matches Some(v) && v@ == fingerprint@
                } else {
                    !r && *final(self) == *old(self)
                }
            }),
    {
        if !matches!(verified, PeerstateVerifiedStatus::BidirectVerified) {
            return false;
        }
        let known = match which {
            PeerstateKeyType::PublicKey => &self.public_key_fingerprint,
            PeerstateKeyType::GossipKey => &self.gossip_key_fingerprint,
        };
        match known {
            Some(k) => {
                if crate::mimeparser::str_eq(k.as_str(), fingerprint) {
                    self.verified_key_fingerprint = Some(fingerprint.to_owned());
                    true
                } else {
                    false
                }
            },
            None => false,
        }
    }
}

} // verus!
