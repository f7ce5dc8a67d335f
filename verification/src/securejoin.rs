//! The Secure-Join handshake: the verified-contact and verified-group
//! protocol between an inviter and a joiner.

use vstd::prelude::*;

use crate::chat::ChatId;
use crate::context::Context;
use crate::message::{ForcePlaintext, Message, Viewtype};
use crate::mimeparser::{contains_str, spec_contains_str, str_eq, MimeMessage, SystemMessage};
use crate::qr::{percent_encoded, qr_contact_text, qr_group_text, spec_normalize_fp, QrScan};
use crate::token::{spec_has_token_for, spec_token_exists, Namespace};

verus! {

/// The named steps of the handshake protocol.  `Vc` steps belong to
/// the 1:1 "setup contact" flow, `Vg` steps to the "join verified
/// group" flow.
#[derive(Debug, Copy, Clone, PartialEq, Eq, Structural)]
pub enum SecurejoinStep {
    VcRequest,
    VgRequest,
    VcAuthRequired,
    VgAuthRequired,
    VcRequestWithAuth,
    VgRequestWithAuth,
    VcContactConfirm,
    VgMemberAdded,
    VcContactConfirmReceived,
    VgMemberAddedReceived,
}

impl SecurejoinStep {
    /// Whether this is a step of the group-join flow.
    pub open spec fn spec_is_vg(self) -> bool {
        match self {
            SecurejoinStep::VgRequest
            | SecurejoinStep::VgAuthRequired
            | SecurejoinStep::VgRequestWithAuth
            | SecurejoinStep::VgMemberAdded
            | SecurejoinStep::VgMemberAddedReceived => true,
            _ => false,
        }
    }

    /// Executable counterpart of [`SecurejoinStep::spec_is_vg`].
    pub fn is_vg(self) -> (r: bool)
        ensures
            r == self.spec_is_vg(),
    {
        match self {
            SecurejoinStep::VgRequest
            | SecurejoinStep::VgAuthRequired
            | SecurejoinStep::VgRequestWithAuth
            | SecurejoinStep::VgMemberAdded
            | SecurejoinStep::VgMemberAddedReceived => true,
            _ => false,
        }
    }
}

/// The step name as carried in the `Secure-Join` header.
pub open spec fn step_text(step: SecurejoinStep) -> Seq<char> {
    match step {
        SecurejoinStep::VcRequest => "vc-request"@,
        SecurejoinStep::VgRequest => "vg-request"@,
        SecurejoinStep::VcAuthRequired => "vc-auth-required"@,
        SecurejoinStep::VgAuthRequired => "vg-auth-required"@,
        SecurejoinStep::VcRequestWithAuth => "vc-request-with-auth"@,
        SecurejoinStep::VgRequestWithAuth => "vg-request-with-auth"@,
        SecurejoinStep::VcContactConfirm => "vc-contact-confirm"@,
        SecurejoinStep::VgMemberAdded => "vg-member-added"@,
        SecurejoinStep::VcContactConfirmReceived => "vc-contact-confirm-received"@,
        SecurejoinStep::VgMemberAddedReceived => "vg-member-added-received"@,
    }
}

/// The step named by a header value, if any.
pub open spec fn spec_parse_step(s: Seq<char>) -> Option<SecurejoinStep> {
    if s == step_text(SecurejoinStep::VcRequest) {
        Some(SecurejoinStep::VcRequest)
    } else if s == step_text(SecurejoinStep::VgRequest) {
        Some(SecurejoinStep::VgRequest)
    } else if s == step_text(SecurejoinStep::VcAuthRequired) {
        Some(SecurejoinStep::VcAuthRequired)
    } else if s == step_text(SecurejoinStep::VgAuthRequired) {
        Some(SecurejoinStep::VgAuthRequired)
    } else if s == step_text(SecurejoinStep::VcRequestWithAuth) {
        Some(SecurejoinStep::VcRequestWithAuth)
    } else if s == step_text(SecurejoinStep::VgRequestWithAuth) {
        Some(SecurejoinStep::VgRequestWithAuth)
    } else if s == step_text(SecurejoinStep::VcContactConfirm) {
        Some(SecurejoinStep::VcContactConfirm)
    } else if s == step_text(SecurejoinStep::VgMemberAdded) {
        Some(SecurejoinStep::VgMemberAdded)
    } else if s == step_text(SecurejoinStep::VcContactConfirmReceived) {
        Some(SecurejoinStep::VcContactConfirmReceived)
    } else if s == step_text(SecurejoinStep::VgMemberAddedReceived) {
        Some(SecurejoinStep::VgMemberAddedReceived)
    } else {
        None
    }
}

/// Parse a `Secure-Join` header value into its protocol step.
pub fn parse_step(s: &str) -> (r: Option<SecurejoinStep>)
    ensures
        r == spec_parse_step(s@),
{
    if str_eq(s, "vc-request") {
        Some(SecurejoinStep::VcRequest)
    } else if str_eq(s, "vg-request") {
        Some(SecurejoinStep::VgRequest)
    } else if str_eq(s, "vc-auth-required") {
        Some(SecurejoinStep::VcAuthRequired)
    } else if str_eq(s, "vg-auth-required") {
        Some(SecurejoinStep::VgAuthRequired)
    } else if str_eq(s, "vc-request-with-auth") {
        Some(SecurejoinStep::VcRequestWithAuth)
    } else if str_eq(s, "vg-request-with-auth") {
        Some(SecurejoinStep::VgRequestWithAuth)
    } else if str_eq(s, "vc-contact-confirm") {
        Some(SecurejoinStep::VcContactConfirm)
    } else if str_eq(s, "vg-member-added") {
        Some(SecurejoinStep::VgMemberAdded)
    } else if str_eq(s, "vc-contact-confirm-received") {
        Some(SecurejoinStep::VcContactConfirmReceived)
    } else if str_eq(s, "vg-member-added-received") {
        Some(SecurejoinStep::VgMemberAddedReceived)
    } else {
        None
    }
}

/// The step name as a text.
pub fn step_to_str(step: SecurejoinStep) -> (r: &'static str)
    ensures
        r@ == step_text(step),
{
    match step {
        SecurejoinStep::VcRequest => "vc-request",
        SecurejoinStep::VgRequest => "vg-request",
        SecurejoinStep::VcAuthRequired => "vc-auth-required",
        SecurejoinStep::VgAuthRequired => "vg-auth-required",
        SecurejoinStep::VcRequestWithAuth => "vc-request-with-auth",
        SecurejoinStep::VgRequestWithAuth => "vg-request-with-auth",
        SecurejoinStep::VcContactConfirm => "vc-contact-confirm",
        SecurejoinStep::VgMemberAdded => "vg-member-added",
        SecurejoinStep::VcContactConfirmReceived => "vc-contact-confirm-received",
        SecurejoinStep::VgMemberAddedReceived => "vg-member-added-received",
    }
}

/// Outcome recorded for the joiner's side of a handshake.
#[derive(Debug, Copy, Clone, PartialEq, Eq, Structural)]
pub enum BobHandshakeStatus {
    /// The handshake is still in flight.
    Pending,
    /// The handshake ended successfully.
    Success,
    /// The handshake was aborted.
    Failure,
}

/// Which handshake step the joiner awaits next.
#[derive(Debug, Copy, Clone, PartialEq, Eq, Structural)]
pub enum Expects {
    /// No step is awaited.
    Nothing,
    /// Awaiting the inviter's `*-auth-required` reply.
    AuthRequired,
    /// Awaiting the final `*-contact-confirm` / `vg-member-added`.
    ContactConfirm,
}

/// The joiner-side handshake state ("Bob").
///
/// Created when a join is initiated, read and written by every
/// handshake message handler, and cleared when the handshake settles.
#[derive(Debug, Clone)]
pub struct BobState {
    /// Outcome so far.
    pub status: BobHandshakeStatus,
    /// Which step is awaited next.
    pub expects: Expects,
    /// The scanned invitation driving this join, while one is in flight.
    pub qr_scan: Option<QrScan>,
}

impl BobState {
    /// Whether no join is in flight.
    pub open spec fn is_reset(self) -> bool {
        &&& self.status == BobHandshakeStatus::Pending
        &&& self.expects == Expects::Nothing
        &&& self.qr_scan is None
    }

    /// A state with no join in flight.
    pub fn new() -> (r: BobState)
        ensures
            r.is_reset(),
    {
        BobState { status: BobHandshakeStatus::Pending, expects: Expects::Nothing, qr_scan: None }
    }
}

/// Hard failures of handshake processing.  Expected protocol failures
/// (bad fingerprint, missing or unknown token, a step out of order)
/// are not errors: they resolve to [`HandshakeMessage::Ignore`].
#[derive(Debug, Clone, PartialEq, Eq, Structural)]
pub enum HandshakeError {
    /// The handshake can not apply to a reserved contact id.
    SpecialContactId,
    /// The message carries no handshake marker.
    NotSecureJoinMsg,
    /// The chat for the contact could not be looked up or created.
    NoChat { contact_id: u32 },
    /// The group chat named by the message was not found.
    ChatNotFound,
    /// No own address is configured.
    NoSelfAddr,
}

impl HandshakeError {
    /// A short description of the failure.
    pub fn describe(&self) -> (r: &'static str)
        ensures
            r@ == match *self {
                HandshakeError::SpecialContactId => "can not be called with special contact id"@,
                HandshakeError::NotSecureJoinMsg => "not a secure-join message"@,
                HandshakeError::NoChat { .. } => "failed to look up or create chat"@,
                HandshakeError::ChatNotFound => "chat for group not found"@,
                HandshakeError::NoSelfAddr => "no configured self address found"@,
            },
    {
        match self {
            HandshakeError::SpecialContactId => "can not be called with special contact id",
            HandshakeError::NotSecureJoinMsg => "not a secure-join message",
            HandshakeError::NoChat { .. } => "failed to look up or create chat",
            HandshakeError::ChatNotFound => "chat for group not found",
            HandshakeError::NoSelfAddr => "no configured self address found",
        }
    }
}

/// What to do with a handshake message after it was handled.
#[derive(Debug, Copy, Clone, PartialEq, Eq, Structural)]
pub enum HandshakeMessage {
    /// Fully handled; the message should be removed.
    Done,
    /// Hidden from the user but kept; it may belong to another device.
    Ignore,
    /// To be processed further by ordinary message handling.
    Propagate,
}

/// Whether the message arrived encrypted and carries a verified
/// signature by the expected fingerprint.
pub open spec fn spec_encrypted_and_signed(mime: MimeMessage, expected_fp: Seq<char>) -> bool {
    &&& mime.encrypted
    &&& mime.signatures@.len() > 0
    &&& expected_fp.len() > 0
    &&& spec_contains_str(mime.signatures@, expected_fp)
}

/// Check that the message is encrypted and signed by the expected
/// fingerprint.
pub fn encrypted_and_signed(mime: &MimeMessage, expected_fingerprint: &str) -> (r: bool)
    ensures
        r == spec_encrypted_and_signed(*mime, expected_fingerprint@),
{
    if !mime.was_encrypted() {
        false
    } else if mime.signatures.len() == 0 {
        false
    } else if expected_fingerprint.unicode_len() == 0 {
        false
    } else {
        contains_str(&mime.signatures, expected_fingerprint)
    }
}

/// Whether the known key of the contact's trust record matches the
/// (raw, unnormalized) fingerprint.
pub open spec fn sender_fp_matches(ctx: Context, contact_id: u32, fp: Seq<char>) -> bool {
    &&& ctx.has_contact(contact_id)
    &&& exists|i: int|
        0 <= i < ctx.peerstates@.len() && (#[trigger] ctx.peerstates@[i]).addr@ == ctx.spec_contact(
            contact_id,
        ).addr@ && (ctx.peerstates@[i].public_key_fingerprint matches Some(f) && f@
            == spec_normalize_fp(fp))
}

/// Whether the scanned fingerprint matches the current key of the
/// single contact of the given chat.
pub fn fingerprint_equals_sender(ctx: &Context, fingerprint: &str, contact_chat_id: ChatId) -> (r:
    bool)
    requires
        ctx.wf(),
    ensures
        r == (ctx.has_chat(contact_chat_id) && ctx.spec_chat(contact_chat_id).members@.len() == 1
            && sender_fp_matches(*ctx, ctx.spec_chat(contact_chat_id).members@[0], fingerprint@)),
{
    let contacts = ctx.get_chat_contacts(contact_chat_id);
    if contacts.len() != 1 {
        return false;
    }
    let contact_id = contacts[0];
    let contact = match ctx.get_contact_by_id(contact_id) {
        Some(c) => c,
        None => {
            return false;
        },
    };
    let normalized = crate::qr::dc_normalize_fingerprint(fingerprint);
    match ctx.peerstate_idx_by_addr(contact.addr.as_str()) {
        Some(i) => {
            let ps = &ctx.peerstates[i];
            match &ps.public_key_fingerprint {
                Some(f) => {
                    if str_eq(f.as_str(), normalized.as_str()) {
                        assert(sender_fp_matches(*ctx, contact_id, fingerprint@));
                        true
                    } else {
                        false
                    }
                },
                None => false,
            }
        },
        None => false,
    }
}

/// The single member of a 1:1 chat, or 0.
pub fn chat_id_2_contact_id(ctx: &Context, contact_chat_id: ChatId) -> (r: u32)
    requires
        ctx.wf(),
    ensures
        r == spec_chat_contact(*ctx, contact_chat_id),
{
    let contacts = ctx.get_chat_contacts(contact_chat_id);
    if contacts.len() == 1 {
        contacts[0]
    } else {
        0
    }
}

/// The single member of a 1:1 chat, or 0.
pub open spec fn spec_chat_contact(ctx: Context, chat_id: ChatId) -> u32 {
    if ctx.has_chat(chat_id) && ctx.spec_chat(chat_id).members@.len() == 1 {
        ctx.spec_chat(chat_id).members@[0]
    } else {
        0u32
    }
}

/// Verified-key fingerprints are the same in both states.
pub open spec fn verified_fps_unchanged(pre: Context, post: Context) -> bool {
    &&& post.peerstates@.len() == pre.peerstates@.len()
    &&& forall|i: int|
        0 <= i < pre.peerstates@.len() ==> (#[trigger] post.peerstates@[i]).verified_key_fingerprint
            == pre.peerstates@[i].verified_key_fingerprint
}

/// Exactly the trust record whose announced key has the normalized
/// form of `fp` was marked verified; everything else is unchanged.
pub open spec fn peer_marked_verified(pre: Context, post: Context, fp: Seq<char>) -> bool {
    let n = spec_normalize_fp(fp);
    &&& post.peerstates@.len() == pre.peerstates@.len()
    &&& exists|i: int|
        {
            &&& 0 <= i < pre.peerstates@.len()
            &&& ((#[trigger] pre.peerstates@[i]).public_key_fingerprint matches Some(f) && f@ == n)
            &&& (post.peerstates@[i].verified_key_fingerprint matches Some(v) && v@ == n)
            &&& post.peerstates@[i].prefer_encrypt
                == crate::peerstate::EncryptPreference::Mutual
            &&& post.peerstates@[i].addr == pre.peerstates@[i].addr
            &&& post.peerstates@[i].public_key_fingerprint == pre.peerstates@[
                i
            ].public_key_fingerprint
            &&& forall|j: int|
                0 <= j < pre.peerstates@.len() && j != i ==> #[trigger] post.peerstates@[j]
                    == pre.peerstates@[j]
        }
}

/// Record that the peer whose announced key has this fingerprint is
/// verified in both directions and prefers encryption.  Fails, with
/// nothing changed, exactly when no trust record announces that key.
pub fn mark_peer_as_verified(ctx: &mut Context, fingerprint: &str) -> (r: Result<(), ()>)
    requires
        old(ctx).wf(),
    ensures
        final(ctx).wf(),
        match r {
            Ok(_) => peer_marked_verified(*old(ctx), *final(ctx), fingerprint@) && *final(ctx)
                == (Context { peerstates: final(ctx).peerstates, ..*old(ctx) }),
            Err(_) => *final(ctx) == *old(ctx) && (forall|i: int|
                0 <= i < old(ctx).peerstates@.len() ==> !((
                #[trigger] old(ctx).peerstates@[i]).public_key_fingerprint matches Some(f) && f@
                    == spec_normalize_fp(fingerprint@))),
        },
{
    let normalized = crate::qr::dc_normalize_fingerprint(fingerprint);
    match ctx.peerstate_idx_by_fingerprint(normalized.as_str()) {
        Some(i) => {
            let ok = ctx.peerstates[i].set_verified(
                crate::peerstate::PeerstateKeyType::PublicKey,
                normalized.as_str(),
                crate::peerstate::PeerstateVerifiedStatus::BidirectVerified,
            );
            assert(ok);
            ctx.peerstates[i].prefer_encrypt = crate::peerstate::EncryptPreference::Mutual;
            Ok(())
        },
        None => Err(()),
    }
}

/// The info text posted when a contact became verified.
pub open spec fn contact_verified_text(addr: Seq<char>) -> Seq<char> {
    addr + " verified."@
}

/// The info text posted when the secure connection could not be
/// established with a contact.
pub open spec fn contact_not_verified_text(addr: Seq<char>) -> Seq<char> {
    "Cannot establish guaranteed end-to-end encryption with "@ + addr
}

/// The address shown for the single contact of a chat, or `?`.
pub open spec fn spec_chat_peer_addr(ctx: Context, chat_id: ChatId) -> Seq<char> {
    let cid = spec_chat_contact(ctx, chat_id);
    if ctx.has_contact(cid) {
        ctx.spec_contact(cid).addr@
    } else {
        "?"@
    }
}

fn chat_peer_addr(ctx: &Context, contact_chat_id: ChatId) -> (r: String)
    requires
        ctx.wf(),
    ensures
        r@ == spec_chat_peer_addr(*ctx, contact_chat_id),
{
    let contact_id = chat_id_2_contact_id(ctx, contact_chat_id);
    match ctx.get_contact_by_id(contact_id) {
        Some(c) => c.addr.clone(),
        None => {
            let mut s = String::new();
            s.append("?");
            s
        },
    }
}

/// Post the "verified" notice into the chat and announce the change.
pub fn secure_connection_established(ctx: &mut Context, contact_chat_id: ChatId)
    requires
        old(ctx).wf(),
    ensures
        final(ctx).wf(),
        final(ctx).info_msgs@.len() == old(ctx).info_msgs@.len() + 1,
        final(ctx).info_msgs@ == old(ctx).info_msgs@.push(final(ctx).info_msgs@.last()),
        final(ctx).info_msgs@.last().0 == contact_chat_id,
        final(ctx).info_msgs@.last().1@ == contact_verified_text(
            spec_chat_peer_addr(*old(ctx), contact_chat_id),
        ),
        final(ctx).events@ == old(ctx).events@.push(
            crate::events::Event::ChatModified(contact_chat_id),
        ),
        *final(ctx) == (Context {
            info_msgs: final(ctx).info_msgs,
            events: final(ctx).events,
            ..*old(ctx)
        }),
{
    let addr = chat_peer_addr(ctx, contact_chat_id);
    let mut text = addr;
    text.append(" verified.");
    ctx.add_info_msg(contact_chat_id, text);
    ctx.emit_event(crate::events::Event::ChatModified(contact_chat_id));
}

/// Post the "could not establish secure connection" notice.
pub fn could_not_establish_secure_connection(ctx: &mut Context, contact_chat_id: ChatId)
    requires
        old(ctx).wf(),
    ensures
        final(ctx).wf(),
        final(ctx).info_msgs@.len() == old(ctx).info_msgs@.len() + 1,
        final(ctx).info_msgs@ == old(ctx).info_msgs@.push(final(ctx).info_msgs@.last()),
        final(ctx).info_msgs@.last().0 == contact_chat_id,
        final(ctx).info_msgs@.last().1@ == contact_not_verified_text(
            spec_chat_peer_addr(*old(ctx), contact_chat_id),
        ),
        *final(ctx) == (Context { info_msgs: final(ctx).info_msgs, ..*old(ctx) }),
{
    let addr = chat_peer_addr(ctx, contact_chat_id);
    let mut text = String::new();
    text.append("Cannot establish guaranteed end-to-end encryption with ");
    text.append(addr.as_str());
    ctx.add_info_msg(contact_chat_id, text);
}

/// Whether the second positional parameter of the message carries `v`
/// (an empty value is not set at all).
pub open spec fn param2_is(m: Message, v: Seq<char>) -> bool {
    if v.len() > 0 {
        m.param.arg2 matches Some(a) && a@ == v
    } else {
        m.param.arg2 is None
    }
}

/// Whether the sent message is the given handshake step.
pub open spec fn msg_is_handshake(m: Message, step: SecurejoinStep) -> bool {
    &&& m.hidden
    &&& m.viewtype == Viewtype::Text
    &&& m.param.cmd == SystemMessage::SecurejoinMessage
    &&& (m.param.arg matches Some(a) && a@ == step_text(step))
    &&& (m.text matches Some(t) && t@ == "Secure-Join: "@ + step_text(step))
    &&& (if step == SecurejoinStep::VcRequest || step == SecurejoinStep::VgRequest {
        m.param.force_plaintext == Some(ForcePlaintext::AddAutocryptHeader)
            && m.param.guarantee_e2ee is None
    } else {
        m.param.guarantee_e2ee == Some(1i32) && m.param.force_plaintext is None
    })
}

/// Construct the hidden system message for a handshake step and hand
/// it to the transport.  The first two protocol steps may go out in
/// plaintext, with the own key attached; every later step requires
/// end-to-end encryption.
pub fn send_handshake_msg(
    ctx: &mut Context,
    contact_chat_id: ChatId,
    step: SecurejoinStep,
    param2: &str,
    fingerprint: Option<String>,
    grpid: &str,
)
    ensures
        final(ctx).outbox@.len() == old(ctx).outbox@.len() + 1,
        final(ctx).outbox@ == old(ctx).outbox@.push(final(ctx).outbox@.last()),
        final(ctx).outbox@.last().chat_id == contact_chat_id,
        msg_is_handshake(final(ctx).outbox@.last().msg, step),
        ({
            let m = final(ctx).outbox@.last().msg;
            &&& (if param2@.len() > 0 {
                m.param.arg2 matches Some(v) && v@ == param2@
            } else {
                m.param.arg2 is None
            })
            &&& (match fingerprint {
                Some(f) => m.param.arg3 matches Some(v) && v@ == f@,
                None => m.param.arg3 is None,
            })
            &&& (if grpid@.len() > 0 {
                m.param.arg4 matches Some(v) && v@ == grpid@
            } else {
                m.param.arg4 is None
            })
        }),
        *final(ctx) == (Context { outbox: final(ctx).outbox, ..*old(ctx) }),
{
    let mut msg = Message::new();
    msg.viewtype = Viewtype::Text;
    let mut text = String::new();
    text.append("Secure-Join: ");
    text.append(step_to_str(step));
    msg.text = Some(text);
    msg.hidden = true;
    msg.param.set_cmd(SystemMessage::SecurejoinMessage);
    msg.param.arg = Some(step_to_str(step).to_owned());
    if param2.unicode_len() > 0 {
        msg.param.arg2 = Some(param2.to_owned());
    }
    if let Some(fp) = fingerprint {
        msg.param.arg3 = Some(fp);
    }
    if grpid.unicode_len() > 0 {
        msg.param.arg4 = Some(grpid.to_owned());
    }
    let is_request = match step {
        SecurejoinStep::VcRequest | SecurejoinStep::VgRequest => true,
        _ => false,
    };
    if is_request {
        msg.param.force_plaintext = Some(ForcePlaintext::AddAutocryptHeader);
    } else {
        msg.param.guarantee_e2ee = Some(1);
    }
    ctx.send_msg(contact_chat_id, msg);
}

/// Generate the invitation text offered as a QR code (the inviter's
/// first step).
///
/// The secrets must be random, so the embedder supplies two fresh
/// candidates from its entropy source; each is used only if no token
/// was issued for the chat yet.  Returns `None` when the account has
/// no configured address or no key, or when a group invitation is
/// asked for a chat that does not exist.
pub fn dc_get_securejoin_qr(
    ctx: &mut Context,
    group_chat_id: ChatId,
    fresh_invitenumber: &str,
    fresh_auth: &str,
) -> (r: Option<String>)
    requires
        old(ctx).wf(),
    ensures
        final(ctx).wf(),
        *final(ctx) == (Context { tokens: final(ctx).tokens, ..*old(ctx) }),
        old(ctx).tokens@.is_prefix_of(final(ctx).tokens@),
        final(ctx).tokens@.len() <= old(ctx).tokens@.len() + 2,
        old(ctx).config.addr is None ==> r is None,
        (old(ctx).config.addr is Some && old(ctx).config.self_fingerprint is None) ==> r is None,
        (old(ctx).config.addr is Some && old(ctx).config.self_fingerprint is Some) ==> ({
            let addr = old(ctx).config.addr->0;
            let fp = old(ctx).config.self_fingerprint->0;
            let name = match old(ctx).config.displayname {
                Some(n) => n@,
                None => Seq::<char>::empty(),
            };
            if group_chat_id.id() == 0 {
                r matches Some(text) && exists|inv: Seq<char>, au: Seq<char>|
                    {
                        &&& #[trigger] spec_token_exists(
                            *final(ctx),
                            Namespace::InviteNumber,
                            inv,
                        )
                        &&& #[trigger] spec_token_exists(*final(ctx), Namespace::Auth, au)
                        &&& (!spec_has_token_for(
                            *old(ctx),
                            Namespace::InviteNumber,
                            group_chat_id,
                        ) ==> inv == fresh_invitenumber@)
                        &&& (!spec_has_token_for(*old(ctx), Namespace::Auth, group_chat_id)
                            ==> au == fresh_auth@)
                        &&& text@ == qr_contact_text(
                            fp@,
                            percent_encoded(addr@, true),
                            percent_encoded(name, true),
                            inv,
                            au,
                        )
                    }
            } else if old(ctx).has_chat(group_chat_id) {
                r matches Some(text) && exists|inv: Seq<char>, au: Seq<char>|
                    {
                        &&& #[trigger] spec_token_exists(
                            *final(ctx),
                            Namespace::InviteNumber,
                            inv,
                        )
                        &&& #[trigger] spec_token_exists(*final(ctx), Namespace::Auth, au)
                        &&& (!spec_has_token_for(
                            *old(ctx),
                            Namespace::InviteNumber,
                            group_chat_id,
                        ) ==> inv == fresh_invitenumber@)
                        &&& (!spec_has_token_for(*old(ctx), Namespace::Auth, group_chat_id)
                            ==> au == fresh_auth@)
                        &&& text@ == qr_group_text(
                            fp@,
                            percent_encoded(addr@, true),
                            percent_encoded(old(ctx).spec_chat(group_chat_id).name@, false),
                            old(ctx).spec_chat(group_chat_id).grpid@,
                            inv,
                            au,
                        )
                    }
            } else {
                r is None
            }
        }),
{
    let invitenumber = crate::token::lookup_or_new(
        ctx,
        Namespace::InviteNumber,
        group_chat_id,
        fresh_invitenumber,
    );
    let ghost mid = *ctx;
    let auth = crate::token::lookup_or_new(ctx, Namespace::Auth, group_chat_id, fresh_auth);
    proof {
        let i = choose|i: int|
            0 <= i < mid.tokens@.len() && (#[trigger] mid.tokens@[i]).namespace
                == Namespace::InviteNumber && mid.tokens@[i].token@ == invitenumber@;
        assert(ctx.tokens@[i] == mid.tokens@[i]);
        assert(spec_token_exists(*ctx, Namespace::InviteNumber, invitenumber@));
        assert(spec_token_exists(*ctx, Namespace::Auth, auth@));
        if spec_has_token_for(mid, Namespace::Auth, group_chat_id) {
            let j = choose|j: int|
                0 <= j < mid.tokens@.len() && (#[trigger] mid.tokens@[j]).namespace
                    == Namespace::Auth && mid.tokens@[j].foreign_id.id() == group_chat_id.id();
            if j < old(ctx).tokens@.len() {
                assert(old(ctx).tokens@[j] == mid.tokens@[j]);
                assert(spec_has_token_for(*old(ctx), Namespace::Auth, group_chat_id));
            } else {
                assert(mid.tokens@[j] == mid.tokens@.last());
                assert(mid.tokens@.last().namespace == Namespace::InviteNumber);
            }
        }
    }
    let self_addr = match &ctx.config.addr {
        Some(a) => a.clone(),
        None => {
            return None;
        },
    };
    let self_name = match &ctx.config.displayname {
        Some(n) => n.clone(),
        None => String::new(),
    };
    let fingerprint = match &ctx.config.self_fingerprint {
        Some(f) => f.clone(),
        None => {
            return None;
        },
    };
    if group_chat_id.to_u32() != 0 {
        match ctx.get_chat_by_id(group_chat_id) {
            Some(chat) => {
                let group_name = chat.name.clone();
                let grpid = chat.grpid.clone();
                let text = crate::qr::format_group_qr(
                    fingerprint.as_str(),
                    self_addr.as_str(),
                    group_name.as_str(),
                    grpid.as_str(),
                    invitenumber.as_str(),
                    auth.as_str(),
                );
                Some(text)
            },
            None => None,
        }
    } else {
        let text = crate::qr::format_contact_qr(
            fingerprint.as_str(),
            self_addr.as_str(),
            self_name.as_str(),
            invitenumber.as_str(),
            auth.as_str(),
        );
        Some(text)
    }
}

/// Wind down the joiner state after a join settled or was aborted.
///
/// Returns the chat the join ended in: the group chat for a
/// successful group join, the 1:1 chat for a successful contact
/// setup, the error chat id otherwise.
pub fn cleanup(ctx: &mut Context, contact_chat_id: ChatId, ongoing_allocated: bool, join_vg: bool)
    -> (r: ChatId)
    requires
        old(ctx).wf(),
    ensures
        final(ctx).wf(),
        final(ctx).bob.expects == Expects::Nothing,
        final(ctx).bob.qr_scan is None,
        final(ctx).bob.status == old(ctx).bob.status,
        final(ctx).ongoing == (if ongoing_allocated {
            crate::context::Ongoing::Idle
        } else {
            old(ctx).ongoing
        }),
        *final(ctx) == (Context { bob: final(ctx).bob, ongoing: final(ctx).ongoing, ..*old(ctx) }),
        old(ctx).bob.status != BobHandshakeStatus::Success ==> r.id() == 0,
        (old(ctx).bob.status == BobHandshakeStatus::Success && !join_vg) ==> r == contact_chat_id,
        (old(ctx).bob.status == BobHandshakeStatus::Success && join_vg) ==> (match old(
            ctx,
        ).bob.qr_scan {
            Some(scan) => {
                if exists|i: int|
                    0 <= i < old(ctx).chats@.len() && (#[trigger] old(ctx).chats@[i]).grpid@
                        == scan.grpid@ {
                    &&& old(ctx).has_chat(r)
                    &&& old(ctx).spec_chat(r).grpid@ == scan.grpid@
                    &&& forall|j: int|
                        0 <= j < Context::chat_index(r) ==> (#[trigger] old(ctx).chats@[j]).grpid@
                            != scan.grpid@
                } else {
                    r.id() == 0
                }
            },
            None => r.id() == 0,
        }),
{
    let mut ret_chat_id = ChatId::new(0);
    let is_success = match ctx.bob.status {
        BobHandshakeStatus::Success => true,
        _ => false,
    };
    if is_success {
        if join_vg {
            let grpid = match &ctx.bob.qr_scan {
                Some(scan) => Some(scan.grpid.clone()),
                None => None,
            };
            match grpid {
                Some(g) => {
                    match ctx.get_chat_id_by_grpid(g.as_str()) {
                        Some((chat_id, _, _)) => {
                            ret_chat_id = chat_id;
                        },
                        None => {},
                    }
                },
                None => {},
            }
        } else {
            ret_chat_id = contact_chat_id;
        }
    }
    ctx.bob.expects = Expects::Nothing;
    ctx.bob.qr_scan = None;
    if ongoing_allocated {
        ctx.free_ongoing();
    }
    ret_chat_id
}

/// Take a scanned invitation text and start the setup-contact or
/// join-group handshake as the joiner ("Bob").
///
/// Registers the inviter as a contact, creates the 1:1 chat with them,
/// records the join in the joiner state and sends the first handshake
/// message: directly `*-request-with-auth` when the scanned
/// fingerprint already matches the inviter's known key (the shortcut
/// saving one round trip), else `*-request`.  Returns the 1:1 chat,
/// or the error chat id when no join could be started.  For a group
/// join the ongoing process stays allocated: the embedder waits for
/// the handshake to settle and then calls [`cleanup`].
pub fn dc_join_securejoin(ctx: &mut Context, qr: &str) -> (r: ChatId)
    requires
        old(ctx).wf(),
        old(ctx).contacts@.len() < crate::context::CONTACT_CAPACITY,
        old(ctx).chats@.len() < crate::context::CHAT_CAPACITY,
    ensures
        final(ctx).wf(),
        // a join is already running: nothing started, state wound down
        old(ctx).ongoing is Running ==> {
            &&& r.id() == 0
            &&& final(ctx).bob.expects == Expects::Nothing
            &&& final(ctx).bob.qr_scan is None
            &&& *final(ctx) == (Context { bob: final(ctx).bob, ..*old(ctx) })
        },
        // an ill-formed invitation: nothing started
        (old(ctx).ongoing == crate::context::Ongoing::Idle && !crate::qr::qr_valid(qr@)) ==> {
            &&& r.id() == 0
            &&& final(ctx).bob.expects == Expects::Nothing
            &&& final(ctx).bob.qr_scan is None
            &&& final(ctx).ongoing == crate::context::Ongoing::Idle
            &&& *final(ctx) == (Context {
                bob: final(ctx).bob,
                ongoing: final(ctx).ongoing,
                ..*old(ctx)
            })
        },
        // a well-formed invitation: the join is set up and exactly one
        // handshake message goes out
        (old(ctx).ongoing == crate::context::Ongoing::Idle && crate::qr::qr_valid(qr@)) ==> ({
            let group = crate::qr::qr_is_group(qr@);
            &&& final(ctx).has_chat(r)
            &&& final(ctx).bob.status == BobHandshakeStatus::Pending
            &&& (final(ctx).bob.qr_scan matches Some(scan) && {
                &&& scan.fingerprint@ == crate::qr::qr_fp(qr@)
                &&& (crate::qr::qr_field(qr@, 'i') matches Some(v) && scan.invitenumber@ == v)
                &&& (crate::qr::qr_field(qr@, 's') matches Some(v) && scan.auth@ == v)
                &&& (crate::qr::qr_field(qr@, 'a') matches Some(v) && scan.addr@
                    == crate::qr::percent_decoded(v))
                &&& (group ==> (crate::qr::qr_field(qr@, 'x') matches Some(v) && scan.grpid@
                    == v))
                &&& final(ctx).has_contact(scan.contact_id)
                &&& final(ctx).spec_contact(scan.contact_id).addr@ == scan.addr@
                &&& Context::is_single_chat_of(final(ctx).spec_chat(r), scan.contact_id)
                &&& ({
                    let shortcut = sender_fp_matches(*final(ctx), scan.contact_id, scan.fingerprint@);
                    &&& final(ctx).bob.expects == (if shortcut {
                        Expects::ContactConfirm
                    } else {
                        Expects::AuthRequired
                    })
                    &&& final(ctx).outbox@.len() == old(ctx).outbox@.len() + 1
                    &&& final(ctx).outbox@ == old(ctx).outbox@.push(final(ctx).outbox@.last())
                    &&& final(ctx).outbox@.last().chat_id == r
                    &&& msg_is_handshake(
                        final(ctx).outbox@.last().msg,
                        if shortcut {
                            if group {
                                SecurejoinStep::VgRequestWithAuth
                            } else {
                                SecurejoinStep::VcRequestWithAuth
                            }
                        } else {
                            if group {
                                SecurejoinStep::VgRequest
                            } else {
                                SecurejoinStep::VcRequest
                            }
                        },
                    )
                    &&& (shortcut ==> param2_is(final(ctx).outbox@.last().msg, scan.auth@))
                    &&& (!shortcut ==> param2_is(
                        final(ctx).outbox@.last().msg,
                        scan.invitenumber@,
                    ))
                    &&& (shortcut ==> final(ctx).events@.len() == old(ctx).events@.len() + 1
                        && final(ctx).events@ == old(ctx).events@.push(final(ctx).events@.last())
                        && (final(ctx).events@.last()
                        matches crate::events::Event::SecurejoinJoinerProgress {
                            contact_id: c,
                            progress: p,
                        } && c == scan.contact_id && p.val() == 400))
                    &&& (!shortcut ==> final(ctx).events@ == old(ctx).events@)
                })
            })
            &&& final(ctx).ongoing == (if group {
                crate::context::Ongoing::Running { shall_stop: false }
            } else {
                crate::context::Ongoing::Idle
            })
            &&& final(ctx).tokens@ == old(ctx).tokens@
            &&& final(ctx).peerstates@ == old(ctx).peerstates@
            &&& final(ctx).info_msgs@ == old(ctx).info_msgs@
            &&& final(ctx).config == old(ctx).config
            &&& old(ctx).contacts@.is_prefix_of(final(ctx).contacts@)
            &&& final(ctx).contacts@.len() <= old(ctx).contacts@.len() + 1
            &&& old(ctx).chats@.is_prefix_of(final(ctx).chats@)
            &&& final(ctx).chats@.len() <= old(ctx).chats@.len() + 1
        }),
{
    if ctx.alloc_ongoing().is_err() {
        return cleanup(ctx, ChatId::new(0), false, false);
    }
    let qr_scan = crate::qr::check_qr(ctx, qr);
    let is_valid = match qr_scan.state {
        crate::qr::QrState::AskVerifyContact | crate::qr::QrState::AskVerifyGroup => true,
        crate::qr::QrState::Error => false,
    };
    if !is_valid {
        return cleanup(ctx, ChatId::new(0), true, false);
    }
    let join_vg = match qr_scan.state {
        crate::qr::QrState::AskVerifyGroup => true,
        _ => false,
    };
    let contact_chat_id = match ctx.create_by_contact_id(qr_scan.contact_id) {
        Ok(id) => id,
        Err(_) => {
            return cleanup(ctx, ChatId::new(0), true, false);
        },
    };
    if ctx.shall_stop_ongoing() {
        return cleanup(ctx, contact_chat_id, true, join_vg);
    }
    let scan_fingerprint = qr_scan.fingerprint.clone();
    let scan_invitenumber = qr_scan.invitenumber.clone();
    let scan_auth = qr_scan.auth.clone();
    let scan_grpid = qr_scan.grpid.clone();
    let scan_contact_id = qr_scan.contact_id;
    ctx.bob.status = BobHandshakeStatus::Pending;
    ctx.bob.qr_scan = Some(qr_scan);
    if fingerprint_equals_sender(ctx, scan_fingerprint.as_str(), contact_chat_id) {
        // the scanned fingerprint matches the inviter's known key: the
        // round trip can be skipped and the auth secret sent directly
        ctx.bob.expects = Expects::ContactConfirm;
        ctx.emit_event(
            crate::events::Event::SecurejoinJoinerProgress {
                contact_id: scan_contact_id,
                progress: crate::events::Progress::new(400),
            },
        );
        let own_fingerprint = match &ctx.config.self_fingerprint {
            Some(f) => f.clone(),
            None => String::new(),
        };
        let step = if join_vg {
            SecurejoinStep::VgRequestWithAuth
        } else {
            SecurejoinStep::VcRequestWithAuth
        };
        let grpid_arg = if join_vg {
            scan_grpid
        } else {
            String::new()
        };
        send_handshake_msg(
            ctx,
            contact_chat_id,
            step,
            scan_auth.as_str(),
            Some(own_fingerprint),
            grpid_arg.as_str(),
        );
    } else {
        ctx.bob.expects = Expects::AuthRequired;
        let step = if join_vg {
            SecurejoinStep::VgRequest
        } else {
            SecurejoinStep::VcRequest
        };
        send_handshake_msg(ctx, contact_chat_id, step, scan_invitenumber.as_str(), None, "");
    }
    if join_vg {
        // the embedder waits for the handshake to settle, then calls
        // `cleanup` to collect the group chat id
        contact_chat_id
    } else {
        // the chat is already known; verification runs in the background
        ctx.free_ongoing();
        contact_chat_id
    }
}

/// Whether the fourth positional parameter of the message carries `v`
/// (an empty value is not set at all).
pub open spec fn param4_is(m: Message, v: Seq<char>) -> bool {
    if v.len() > 0 {
        m.param.arg4 matches Some(a) && a@ == v
    } else {
        m.param.arg4 is None
    }
}

/// The first chat carrying the group id `g`.
pub open spec fn first_grpid_match(chats: Seq<crate::context::ChatRecord>, g: Seq<char>) -> Option<
    crate::context::ChatRecord,
>
    decreases chats.len(),
{
    if chats.len() == 0 {
        None
    } else if chats[0].grpid@ == g {
        Some(chats[0])
    } else {
        first_grpid_match(chats.drop_first(), g)
    }
}

/// The first-match characterization pins [`first_grpid_match`].
pub proof fn lemma_first_grpid_match(chats: Seq<crate::context::ChatRecord>, g: Seq<char>, i: int)
    requires
        0 <= i <= chats.len(),
        forall|j: int| 0 <= j < i ==> (#[trigger] chats[j]).grpid@ != g,
        i == chats.len() || chats[i].grpid@ == g,
    ensures
        i == chats.len() ==> first_grpid_match(chats, g) is None,
        i < chats.len() ==> first_grpid_match(chats, g) == Some(chats[i]),
    decreases i,
{
    if i == 0 {
    } else {
        let t = chats.drop_first();
        assert(forall|j: int| 0 <= j < i - 1 ==> #[trigger] t[j] == chats[j + 1]);
        lemma_first_grpid_match(t, g, i - 1);
    }
}

/// A match exists exactly when [`first_grpid_match`] finds one.
pub proof fn lemma_first_grpid_match_exists(chats: Seq<crate::context::ChatRecord>, g: Seq<char>)
    ensures
        (exists|i: int| 0 <= i < chats.len() && (#[trigger] chats[i]).grpid@ == g)
            <==> first_grpid_match(chats, g) is Some,
    decreases chats.len(),
{
    if chats.len() > 0 {
        let t = chats.drop_first();
        lemma_first_grpid_match_exists(t, g);
        if chats[0].grpid@ == g {
        } else {
            assert forall|i: int| 0 <= i < chats.len() && (#[trigger] chats[i]).grpid@ == g
                implies first_grpid_match(chats, g) is Some by {
                assert(i > 0);
                assert(t[i - 1] == chats[i]);
            }
            if first_grpid_match(chats, g) is Some {
                let j = choose|j: int| 0 <= j < t.len() && (#[trigger] t[j]).grpid@ == g;
                assert(chats[j + 1] == t[j]);
            }
        }
    }
}

/// Whether the contact's peer is recorded as verified.
pub open spec fn spec_contact_verified(ctx: Context, contact_id: u32) -> bool {
    &&& ctx.has_contact(contact_id)
    &&& exists|i: int|
        0 <= i < ctx.peerstates@.len() && (#[trigger] ctx.peerstates@[i]).addr@ == ctx.spec_contact(
            contact_id,
        ).addr@ && ctx.peerstates@[i].verified_key_fingerprint is Some
}

/// `b` is `a` with the contact added as a member.
pub open spec fn member_added(
    a: crate::context::ChatRecord,
    b: crate::context::ChatRecord,
    contact_id: u32,
) -> bool {
    &&& b.id == a.id
    &&& b.typ == a.typ
    &&& b.name == a.name
    &&& b.grpid == a.grpid
    &&& b.blocked == a.blocked
    &&& b.members@ == a.members@.push(contact_id)
}

/// The contact's origin was raised to `origin` if stronger; no other
/// contact changed.
pub open spec fn contacts_scaled(pre: Context, post: Context, contact_id: u32, origin: crate::contact::Origin) -> bool {
    &&& post.contacts@.len() == pre.contacts@.len()
    &&& forall|i: int|
        0 <= i < pre.contacts@.len() && i != Context::contact_index(contact_id)
            ==> #[trigger] post.contacts@[i] == pre.contacts@[i]
    &&& pre.has_contact(contact_id) ==> post.spec_contact(contact_id) == (if origin.spec_rank()
        > pre.spec_contact(contact_id).origin.spec_rank() {
        crate::contact::Contact { origin, ..pre.spec_contact(contact_id) }
    } else {
        pre.spec_contact(contact_id)
    })
}

/// Inviter, on `*-request`: if the carried `invitenumber` is one we
/// issued, reply with `*-auth-required`; otherwise ignore.
fn secure_join_requested(
    ctx: &mut Context,
    mime: &MimeMessage,
    contact_id: u32,
    contact_chat_id: ChatId,
    vg: bool,
) -> (r: HandshakeMessage)
    requires
        old(ctx).wf(),
        old(ctx).has_contact(contact_id),
    ensures
        final(ctx).wf(),
        !(mime.secure_join_invitenumber matches Some(inv) && spec_token_exists(
            *old(ctx),
            Namespace::InviteNumber,
            inv@,
        )) ==> r == HandshakeMessage::Ignore && *final(ctx) == *old(ctx),
        (mime.secure_join_invitenumber matches Some(inv) && spec_token_exists(
            *old(ctx),
            Namespace::InviteNumber,
            inv@,
        )) ==> {
            &&& r == HandshakeMessage::Done
            &&& final(ctx).events@.len() == old(ctx).events@.len() + 1
            &&& final(ctx).events@ == old(ctx).events@.push(final(ctx).events@.last())
            &&& (final(ctx).events@.last()
                matches crate::events::Event::SecurejoinInviterProgress { contact_id: c, progress: p }
                && c == contact_id && p.val() == 300)
            &&& final(ctx).outbox@.len() == old(ctx).outbox@.len() + 1
            &&& final(ctx).outbox@ == old(ctx).outbox@.push(final(ctx).outbox@.last())
            &&& final(ctx).outbox@.last().chat_id == contact_chat_id
            &&& msg_is_handshake(
                final(ctx).outbox@.last().msg,
                if vg {
                    SecurejoinStep::VgAuthRequired
                } else {
                    SecurejoinStep::VcAuthRequired
                },
            )
            &&& *final(ctx) == (Context {
                events: final(ctx).events,
                outbox: final(ctx).outbox,
                ..*old(ctx)
            })
        },
{
    let invitenumber = match mime.get(crate::mimeparser::HeaderDef::SecureJoinInvitenumber) {
        Some(n) => n.clone(),
        None => {
            return HandshakeMessage::Ignore;
        },
    };
    if !crate::token::token_exists(ctx, Namespace::InviteNumber, invitenumber.as_str()) {
        return HandshakeMessage::Ignore;
    }
    ctx.emit_event(
        crate::events::Event::SecurejoinInviterProgress {
            contact_id,
            progress: crate::events::Progress::new(300),
        },
    );
    let step = if vg {
        SecurejoinStep::VgAuthRequired
    } else {
        SecurejoinStep::VcAuthRequired
    };
    send_handshake_msg(ctx, contact_chat_id, step, "", None, "");
    HandshakeMessage::Done
}

/// Whether the joiner state is in sync for an `*-auth-required` step.
pub open spec fn auth_required_sync_ok(ctx: Context, vg: bool) -> bool {
    &&& ctx.bob.qr_scan is Some
    &&& ctx.bob.expects == Expects::AuthRequired
    &&& (vg ==> ctx.bob.qr_scan->0.state == crate::qr::QrState::AskVerifyGroup)
}

/// The joiner aborted the handshake: failure recorded, the ongoing
/// process asked to stop, and the failure notice posted.
pub open spec fn join_aborted(
    pre: Context,
    post: Context,
    contact_id: u32,
    contact_chat_id: ChatId,
) -> bool {
    &&& post.bob == (BobState { status: BobHandshakeStatus::Failure, ..pre.bob })
    &&& post.ongoing == (match pre.ongoing {
        crate::context::Ongoing::Idle => crate::context::Ongoing::Idle,
        crate::context::Ongoing::Running { .. } => crate::context::Ongoing::Running {
            shall_stop: true,
        },
    })
    &&& post.info_msgs@.len() == pre.info_msgs@.len() + 1
    &&& post.info_msgs@ == pre.info_msgs@.push(post.info_msgs@.last())
    &&& post.info_msgs@.last().0 == contact_chat_id
    &&& post.info_msgs@.last().1@ == contact_not_verified_text(
        spec_chat_peer_addr(pre, contact_chat_id),
    )
    &&& post == (Context {
        bob: post.bob,
        ongoing: post.ongoing,
        info_msgs: post.info_msgs,
        ..pre
    })
}

/// Joiner, on `*-auth-required`: check that the reply is encrypted and
/// signed by the key the scanned fingerprint named, then send
/// `*-request-with-auth` carrying the `auth` secret.  A reply that
/// fails the check aborts the join; an out-of-sync reply is ignored.
fn auth_required_received(
    ctx: &mut Context,
    mime: &MimeMessage,
    contact_id: u32,
    contact_chat_id: ChatId,
    vg: bool,
) -> (r: HandshakeMessage)
    requires
        old(ctx).wf(),
        old(ctx).has_contact(contact_id),
        old(ctx).has_chat(contact_chat_id),
        Context::is_single_chat_of(old(ctx).spec_chat(contact_chat_id), contact_id),
    ensures
        final(ctx).wf(),
        !auth_required_sync_ok(*old(ctx), vg) ==> r == HandshakeMessage::Ignore && *final(ctx)
            == *old(ctx),
        auth_required_sync_ok(*old(ctx), vg) ==> ({
            let scan = old(ctx).bob.qr_scan->0;
            let enc = spec_encrypted_and_signed(*mime, scan.fingerprint@);
            let fpm = sender_fp_matches(*old(ctx), contact_id, scan.fingerprint@);
            if !enc || !fpm {
                r == HandshakeMessage::Ignore && join_aborted(
                    *old(ctx),
                    *final(ctx),
                    contact_id,
                    contact_chat_id,
                )
            } else {
                &&& r == HandshakeMessage::Done
                &&& final(ctx).bob == (BobState {
                    expects: Expects::ContactConfirm,
                    ..old(ctx).bob
                })
                &&& final(ctx).events@.len() == old(ctx).events@.len() + 1
                &&& final(ctx).events@ == old(ctx).events@.push(final(ctx).events@.last())
                &&& (final(ctx).events@.last()
                    matches crate::events::Event::SecurejoinJoinerProgress {
                        contact_id: c,
                        progress: p,
                    } && c == contact_id && p.val() == 400)
                &&& final(ctx).outbox@.len() == old(ctx).outbox@.len() + 1
                &&& final(ctx).outbox@ == old(ctx).outbox@.push(final(ctx).outbox@.last())
                &&& final(ctx).outbox@.last().chat_id == contact_chat_id
                &&& msg_is_handshake(
                    final(ctx).outbox@.last().msg,
                    if vg {
                        SecurejoinStep::VgRequestWithAuth
                    } else {
                        SecurejoinStep::VcRequestWithAuth
                    },
                )
                &&& param2_is(final(ctx).outbox@.last().msg, scan.auth@)
                &&& (final(ctx).outbox@.last().msg.param.arg3 matches Some(v) && v@ == (
                match old(ctx).config.self_fingerprint {
                    Some(f) => f@,
                    None => Seq::<char>::empty(),
                }))
                &&& (vg ==> param4_is(final(ctx).outbox@.last().msg, scan.grpid@))
                &&& (!vg ==> final(ctx).outbox@.last().msg.param.arg4 is None)
                &&& *final(ctx) == (Context {
                    bob: final(ctx).bob,
                    events: final(ctx).events,
                    outbox: final(ctx).outbox,
                    ..*old(ctx)
                })
            }
        }),
{
    let sync_ok = match (&ctx.bob.qr_scan, ctx.bob.expects) {
        (Some(scan), Expects::AuthRequired) => {
            if vg {
                match scan.state {
                    crate::qr::QrState::AskVerifyGroup => true,
                    _ => false,
                }
            } else {
                true
            }
        },
        _ => false,
    };
    if !sync_ok {
        return HandshakeMessage::Ignore;
    }
    let (scan_fp, scan_auth, scan_grpid) = match &ctx.bob.qr_scan {
        Some(scan) => (scan.fingerprint.clone(), scan.auth.clone(), scan.grpid.clone()),
        None => {
            return HandshakeMessage::Ignore;
        },
    };
    if !encrypted_and_signed(mime, scan_fp.as_str()) || !fingerprint_equals_sender(
        ctx,
        scan_fp.as_str(),
        contact_chat_id,
    ) {
        could_not_establish_secure_connection(ctx, contact_chat_id);
        ctx.bob.status = BobHandshakeStatus::Failure;
        ctx.stop_ongoing();
        return HandshakeMessage::Ignore;
    }
    let own_fingerprint = match &ctx.config.self_fingerprint {
        Some(f) => f.clone(),
        None => String::new(),
    };
    ctx.emit_event(
        crate::events::Event::SecurejoinJoinerProgress {
            contact_id,
            progress: crate::events::Progress::new(400),
        },
    );
    ctx.bob.expects = Expects::ContactConfirm;
    let step = if vg {
        SecurejoinStep::VgRequestWithAuth
    } else {
        SecurejoinStep::VcRequestWithAuth
    };
    let grpid_arg = if vg {
        scan_grpid
    } else {
        String::new()
    };
    send_handshake_msg(
        ctx,
        contact_chat_id,
        step,
        scan_auth.as_str(),
        Some(own_fingerprint),
        grpid_arg.as_str(),
    );
    HandshakeMessage::Done
}

/// The message was ignored; only the failure notice was posted.
pub open spec fn ignored_with_notice(pre: Context, post: Context, contact_chat_id: ChatId) -> bool {
    &&& post.info_msgs@.len() == pre.info_msgs@.len() + 1
    &&& post.info_msgs@ == pre.info_msgs@.push(post.info_msgs@.last())
    &&& post.info_msgs@.last().0 == contact_chat_id
    &&& post.info_msgs@.last().1@ == contact_not_verified_text(
        spec_chat_peer_addr(pre, contact_chat_id),
    )
    &&& post == (Context { info_msgs: post.info_msgs, ..pre })
}

/// Inviter, on `*-request-with-auth`: require the message encrypted
/// and signed by the fingerprint it declares, that fingerprint to be
/// the sender's known key, and the carried `auth` secret to be one we
/// issued; then mark the sender verified and either reply
/// `vc-contact-confirm` (1:1) or add the sender to the group.  Any
/// check failure posts the failure notice and ignores the message —
/// in particular an unknown `auth` secret never marks anyone verified.
fn request_with_auth_received(
    ctx: &mut Context,
    mime: &MimeMessage,
    contact_id: u32,
    contact_chat_id: ChatId,
    vg: bool,
) -> (r: Result<HandshakeMessage, HandshakeError>)
    requires
        old(ctx).wf(),
        old(ctx).has_contact(contact_id),
        old(ctx).has_chat(contact_chat_id),
        Context::is_single_chat_of(old(ctx).spec_chat(contact_chat_id), contact_id),
    ensures
        final(ctx).wf(),
        ({
            let fpo = mime.secure_join_fingerprint;
            let autho = mime.secure_join_auth;
            let checks_ok = {
                &&& fpo is Some
                &&& spec_encrypted_and_signed(*mime, fpo->0@)
                &&& sender_fp_matches(*old(ctx), contact_id, fpo->0@)
                &&& autho is Some
                &&& spec_token_exists(*old(ctx), Namespace::Auth, autho->0@)
            };
            if !checks_ok {
                r == Ok::<HandshakeMessage, HandshakeError>(HandshakeMessage::Ignore)
                    && ignored_with_notice(*old(ctx), *final(ctx), contact_chat_id)
            } else {
                let fp = fpo->0;
                let k = old(ctx).events@.len();
                &&& peer_marked_verified(*old(ctx), *final(ctx), fp@)
                &&& contacts_scaled(
                    *old(ctx),
                    *final(ctx),
                    contact_id,
                    crate::contact::Origin::SecurejoinInvited,
                )
                &&& final(ctx).info_msgs@.len() == old(ctx).info_msgs@.len() + 1
                &&& final(ctx).info_msgs@ == old(ctx).info_msgs@.push(
                    final(ctx).info_msgs@.last(),
                )
                &&& final(ctx).info_msgs@.last().0 == contact_chat_id
                &&& final(ctx).info_msgs@.last().1@ == contact_verified_text(
                    spec_chat_peer_addr(*old(ctx), contact_chat_id),
                )
                &&& final(ctx).events@.subrange(0, k as int) == old(ctx).events@
                &&& final(ctx).events@[k as int] == crate::events::Event::ChatModified(
                    contact_chat_id,
                )
                &&& final(ctx).events@[k as int + 1] == crate::events::Event::ContactsChanged(
                    Some(contact_id),
                )
                &&& (final(ctx).events@[k as int + 2]
                    matches crate::events::Event::SecurejoinInviterProgress {
                        contact_id: c,
                        progress: p,
                    } && c == contact_id && p.val() == 600)
                &&& (if !vg {
                    &&& final(ctx).events@.len() == k + 4
                    &&& (final(ctx).events@[k as int + 3]
                        matches crate::events::Event::SecurejoinInviterProgress {
                            contact_id: c,
                            progress: p,
                        } && c == contact_id && p.val() == 1000)
                    &&& final(ctx).outbox@.len() == old(ctx).outbox@.len() + 1
                    &&& final(ctx).outbox@ == old(ctx).outbox@.push(final(ctx).outbox@.last())
                    &&& final(ctx).outbox@.last().chat_id == contact_chat_id
                    &&& msg_is_handshake(
                        final(ctx).outbox@.last().msg,
                        SecurejoinStep::VcContactConfirm,
                    )
                    &&& (final(ctx).outbox@.last().msg.param.arg3 matches Some(v) && v@ == fp@)
                    &&& final(ctx).chats@ == old(ctx).chats@
                    &&& r == Ok::<HandshakeMessage, HandshakeError>(HandshakeMessage::Ignore)
                } else {
                    &&& final(ctx).events@.len() == k + 3
                    &&& final(ctx).outbox@ == old(ctx).outbox@
                    &&& (match mime.secure_join_group {
                        None => final(ctx).chats@ == old(ctx).chats@ && r == Ok::<
                            HandshakeMessage,
                            HandshakeError,
                        >(HandshakeMessage::Ignore),
                        Some(g) => (match first_grpid_match(old(ctx).chats@, g@) {
                            None => final(ctx).chats@ == old(ctx).chats@ && r == Err::<
                                HandshakeMessage,
                                HandshakeError,
                            >(HandshakeError::ChatNotFound),
                            Some(grp) => r == Ok::<HandshakeMessage, HandshakeError>(
                                HandshakeMessage::Ignore,
                            ) && (if grp.members@.contains(contact_id) {
                                final(ctx).chats@ == old(ctx).chats@
                            } else {
                                exists|gi: int|
                                    {
                                        &&& 0 <= gi < old(ctx).chats@.len()
                                        &&& (#[trigger] old(ctx).chats@[gi]).grpid@ == g@
                                        &&& first_grpid_match(old(ctx).chats@, g@) == Some(
                                            old(ctx).chats@[gi],
                                        )
                                        &&& final(ctx).chats@ == old(ctx).chats@.update(
                                            gi,
                                            final(ctx).chats@[gi],
                                        )
                                        &&& member_added(
                                            old(ctx).chats@[gi],
                                            final(ctx).chats@[gi],
                                            contact_id,
                                        )
                                    }
                            }),
                        }),
                    })
                })
                &&& *final(ctx) == (Context {
                    peerstates: final(ctx).peerstates,
                    contacts: final(ctx).contacts,
                    info_msgs: final(ctx).info_msgs,
                    events: final(ctx).events,
                    outbox: final(ctx).outbox,
                    chats: final(ctx).chats,
                    ..*old(ctx)
                })
            }
        }),
{
    let fingerprint = match mime.get(crate::mimeparser::HeaderDef::SecureJoinFingerprint) {
        Some(fp) => fp.clone(),
        None => {
            could_not_establish_secure_connection(ctx, contact_chat_id);
            return Ok(HandshakeMessage::Ignore);
        },
    };
    if !encrypted_and_signed(mime, fingerprint.as_str()) {
        could_not_establish_secure_connection(ctx, contact_chat_id);
        return Ok(HandshakeMessage::Ignore);
    }
    if !fingerprint_equals_sender(ctx, fingerprint.as_str(), contact_chat_id) {
        could_not_establish_secure_connection(ctx, contact_chat_id);
        return Ok(HandshakeMessage::Ignore);
    }
    let auth = match mime.get(crate::mimeparser::HeaderDef::SecureJoinAuth) {
        Some(a) => a.clone(),
        None => {
            could_not_establish_secure_connection(ctx, contact_chat_id);
            return Ok(HandshakeMessage::Ignore);
        },
    };
    if !crate::token::token_exists(ctx, Namespace::Auth, auth.as_str()) {
        could_not_establish_secure_connection(ctx, contact_chat_id);
        return Ok(HandshakeMessage::Ignore);
    }
    let marked = mark_peer_as_verified(ctx, fingerprint.as_str());
    assert(marked is Ok);
    ctx.scaleup_origin_by_id(contact_id, crate::contact::Origin::SecurejoinInvited);
    secure_connection_established(ctx, contact_chat_id);
    ctx.emit_event(crate::events::Event::ContactsChanged(Some(contact_id)));
    ctx.emit_event(
        crate::events::Event::SecurejoinInviterProgress {
            contact_id,
            progress: crate::events::Progress::new(600),
        },
    );
    if vg {
        // this message doubles as the ordinary member-added message;
        // group management propagates the membership change itself
        let field_grpid = match mime.get(crate::mimeparser::HeaderDef::SecureJoinGroup) {
            Some(g) => g.clone(),
            None => {
                return Ok(HandshakeMessage::Ignore);
            },
        };
        match ctx.get_chat_id_by_grpid(field_grpid.as_str()) {
            Some((group_chat_id, _, _)) => {
                proof {
                    lemma_first_grpid_match(
                        ctx.chats@,
                        field_grpid@,
                        Context::chat_index(group_chat_id),
                    );
                }
                let added = ctx.add_contact_to_chat_ex(group_chat_id, contact_id);
                assert(added is Ok);
                Ok(HandshakeMessage::Ignore)
            },
            None => {
                proof {
                    lemma_first_grpid_match(ctx.chats@, field_grpid@, ctx.chats@.len() as int);
                }
                Err(HandshakeError::ChatNotFound)
            },
        }
    } else {
        send_handshake_msg(
            ctx,
            contact_chat_id,
            SecurejoinStep::VcContactConfirm,
            "",
            Some(fingerprint),
            "",
        );
        ctx.emit_event(
            crate::events::Event::SecurejoinInviterProgress {
                contact_id,
                progress: crate::events::Progress::new(1000),
            },
        );
        Ok(HandshakeMessage::Ignore)
    }
}

/// Whether the joiner must insist on encryption for the final step: a
/// 1:1 confirm always; a group member-added only when the group is
/// known as a verified group.  The group is created by the very
/// message being handled, in the same ingestion pass, so the lookup
/// can miss it; that ordering is a documented quirk of the protocol.
pub open spec fn confirm_expect_encrypted(ctx: Context, vg: bool) -> bool {
    if vg {
        match first_grpid_match(ctx.chats@, ctx.bob.qr_scan->0.grpid@) {
            Some(grp) => grp.typ == crate::chat::Chattype::VerifiedGroup,
            None => false,
        }
    } else {
        true
    }
}

/// Whether the joiner state is in sync for the final confirm step.
pub open spec fn confirm_sync_ok(ctx: Context, vg: bool) -> bool {
    &&& ctx.bob.expects == Expects::ContactConfirm
    &&& ctx.bob.qr_scan is Some
    &&& (vg ==> ctx.bob.qr_scan->0.state == crate::qr::QrState::AskVerifyGroup)
}

/// Joiner, on `vc-contact-confirm` / `vg-member-added`: check the
/// message against the scanned fingerprint (unconditionally for 1:1,
/// for groups only when the group is known verified), mark the
/// inviter verified, acknowledge with the `*-received` step and
/// record success.  A message that fails the encryption check never
/// marks the peer verified.
fn contact_confirm_received(
    ctx: &mut Context,
    mime: &MimeMessage,
    contact_id: u32,
    contact_chat_id: ChatId,
    vg: bool,
) -> (r: Result<HandshakeMessage, HandshakeError>)
    requires
        old(ctx).wf(),
        old(ctx).has_contact(contact_id),
        old(ctx).has_chat(contact_chat_id),
        Context::is_single_chat_of(old(ctx).spec_chat(contact_chat_id), contact_id),
    ensures
        final(ctx).wf(),
        ({
            let abort = if vg {
                HandshakeMessage::Propagate
            } else {
                HandshakeMessage::Ignore
            };
            let scan = old(ctx).bob.qr_scan->0;
            if !confirm_sync_ok(*old(ctx), vg) {
                r == Ok::<HandshakeMessage, HandshakeError>(abort) && *final(ctx) == *old(ctx)
            } else if confirm_expect_encrypted(*old(ctx), vg) && !spec_encrypted_and_signed(
                *mime,
                scan.fingerprint@,
            ) {
                // an unencrypted or wrongly signed confirm never marks
                // the peer verified
                &&& r == Ok::<HandshakeMessage, HandshakeError>(abort)
                &&& final(ctx).bob == (BobState {
                    status: BobHandshakeStatus::Failure,
                    ..old(ctx).bob
                })
                &&& final(ctx).info_msgs@.len() == old(ctx).info_msgs@.len() + 1
                &&& final(ctx).info_msgs@ == old(ctx).info_msgs@.push(
                    final(ctx).info_msgs@.last(),
                )
                &&& final(ctx).info_msgs@.last().0 == contact_chat_id
                &&& final(ctx).info_msgs@.last().1@ == contact_not_verified_text(
                    spec_chat_peer_addr(*old(ctx), contact_chat_id),
                )
                &&& *final(ctx) == (Context {
                    bob: final(ctx).bob,
                    info_msgs: final(ctx).info_msgs,
                    ..*old(ctx)
                })
            } else if !(exists|i: int|
                0 <= i < old(ctx).peerstates@.len() && ((
                #[trigger] old(ctx).peerstates@[i]).public_key_fingerprint matches Some(f) && f@
                    == spec_normalize_fp(scan.fingerprint@))) {
                // no key to verify: notice posted, nothing marked
                &&& r == Ok::<HandshakeMessage, HandshakeError>(abort)
                &&& ignored_with_notice(*old(ctx), *final(ctx), contact_chat_id)
            } else {
                let k = old(ctx).events@.len();
                &&& peer_marked_verified(*old(ctx), *final(ctx), scan.fingerprint@)
                &&& contacts_scaled(
                    *old(ctx),
                    *final(ctx),
                    contact_id,
                    crate::contact::Origin::SecurejoinJoined,
                )
                &&& final(ctx).events@.subrange(0, k as int) == old(ctx).events@
                &&& final(ctx).events@[k as int] == crate::events::Event::ContactsChanged(
                    None::<u32>,
                )
                &&& (if vg && !(old(ctx).config.addr matches Some(a) && {
                    let member = match mime.chat_group_member_added {
                        Some(m) => m@,
                        None => Seq::<char>::empty(),
                    };
                    a@ == member
                }) {
                    // a group add for someone else, or no configured
                    // address: the peer stays verified, but this
                    // handshake is not ours to close
                    &&& final(ctx).events@.len() == k + 1
                    &&& final(ctx).bob == old(ctx).bob
                    &&& final(ctx).outbox@ == old(ctx).outbox@
                    &&& final(ctx).info_msgs@ == old(ctx).info_msgs@
                    &&& final(ctx).ongoing == old(ctx).ongoing
                    &&& (old(ctx).config.addr is None ==> r == Err::<
                        HandshakeMessage,
                        HandshakeError,
                    >(HandshakeError::NoSelfAddr))
                    &&& (old(ctx).config.addr is Some ==> r == Ok::<
                        HandshakeMessage,
                        HandshakeError,
                    >(abort))
                } else {
                    &&& final(ctx).events@.len() == k + 2
                    &&& final(ctx).events@[k as int + 1] == crate::events::Event::ChatModified(
                        contact_chat_id,
                    )
                    &&& final(ctx).info_msgs@.len() == old(ctx).info_msgs@.len() + 1
                    &&& final(ctx).info_msgs@ == old(ctx).info_msgs@.push(
                        final(ctx).info_msgs@.last(),
                    )
                    &&& final(ctx).info_msgs@.last().0 == contact_chat_id
                    &&& final(ctx).info_msgs@.last().1@ == contact_verified_text(
                        spec_chat_peer_addr(*old(ctx), contact_chat_id),
                    )
                    &&& final(ctx).bob == (BobState {
                        status: BobHandshakeStatus::Success,
                        expects: Expects::Nothing,
                        ..old(ctx).bob
                    })
                    &&& final(ctx).ongoing == (match old(ctx).ongoing {
                        crate::context::Ongoing::Idle => crate::context::Ongoing::Idle,
                        crate::context::Ongoing::Running { .. } => crate::context::Ongoing::Running {
                            shall_stop: true,
                        },
                    })
                    &&& final(ctx).outbox@.len() == old(ctx).outbox@.len() + 1
                    &&& final(ctx).outbox@ == old(ctx).outbox@.push(final(ctx).outbox@.last())
                    &&& final(ctx).outbox@.last().chat_id == contact_chat_id
                    &&& msg_is_handshake(
                        final(ctx).outbox@.last().msg,
                        if vg {
                            SecurejoinStep::VgMemberAddedReceived
                        } else {
                            SecurejoinStep::VcContactConfirmReceived
                        },
                    )
                    &&& (final(ctx).outbox@.last().msg.param.arg3 matches Some(v) && v@
                        == scan.fingerprint@)
                    &&& r == Ok::<HandshakeMessage, HandshakeError>(
                        if vg {
                            HandshakeMessage::Propagate
                        } else {
                            HandshakeMessage::Ignore
                        },
                    )
                })
                &&& *final(ctx) == (Context {
                    peerstates: final(ctx).peerstates,
                    contacts: final(ctx).contacts,
                    info_msgs: final(ctx).info_msgs,
                    events: final(ctx).events,
                    outbox: final(ctx).outbox,
                    bob: final(ctx).bob,
                    ongoing: final(ctx).ongoing,
                    ..*old(ctx)
                })
            }
        }),
{
    let abort_retval = if vg {
        HandshakeMessage::Propagate
    } else {
        HandshakeMessage::Ignore
    };
    let expects_ok = match ctx.bob.expects {
        Expects::ContactConfirm => true,
        _ => false,
    };
    if !expects_ok {
        return Ok(abort_retval);
    }
    let sync_ok = match &ctx.bob.qr_scan {
        Some(scan) => {
            if vg {
                match scan.state {
                    crate::qr::QrState::AskVerifyGroup => true,
                    _ => false,
                }
            } else {
                true
            }
        },
        None => false,
    };
    if !sync_ok {
        return Ok(abort_retval);
    }
    let (scan_fp, scan_grpid) = match &ctx.bob.qr_scan {
        Some(scan) => (scan.fingerprint.clone(), scan.grpid.clone()),
        None => {
            return Ok(abort_retval);
        },
    };
    let vg_expect_encrypted = if vg {
        // the group may not exist yet: it is created by ordinary
        // message handling of this very message, only after we return
        match ctx.get_chat_id_by_grpid(scan_grpid.as_str()) {
            Some((gid, verified, _)) => {
                proof {
                    lemma_first_grpid_match(ctx.chats@, scan_grpid@, Context::chat_index(gid));
                }
                verified
            },
            None => {
                proof {
                    lemma_first_grpid_match(ctx.chats@, scan_grpid@, ctx.chats@.len() as int);
                }
                false
            },
        }
    } else {
        true
    };
    if vg_expect_encrypted && !encrypted_and_signed(mime, scan_fp.as_str()) {
        could_not_establish_secure_connection(ctx, contact_chat_id);
        ctx.bob.status = BobHandshakeStatus::Failure;
        return Ok(abort_retval);
    }
    if mark_peer_as_verified(ctx, scan_fp.as_str()).is_err() {
        could_not_establish_secure_connection(ctx, contact_chat_id);
        return Ok(abort_retval);
    }
    ctx.scaleup_origin_by_id(contact_id, crate::contact::Origin::SecurejoinJoined);
    ctx.emit_event(crate::events::Event::ContactsChanged(None));
    if vg {
        let member_added = match mime.get(crate::mimeparser::HeaderDef::ChatGroupMemberAdded) {
            Some(m) => m.clone(),
            None => String::new(),
        };
        match ctx.is_self_addr(member_added.as_str()) {
            Ok(is_self) => {
                if !is_self {
                    // scaled up the contact anyway so the group can be
                    // created; the handshake itself belongs elsewhere
                    return Ok(abort_retval);
                }
            },
            Err(_) => {
                return Err(HandshakeError::NoSelfAddr);
            },
        }
    }
    secure_connection_established(ctx, contact_chat_id);
    ctx.bob.expects = Expects::Nothing;
    let step = if vg {
        SecurejoinStep::VgMemberAddedReceived
    } else {
        SecurejoinStep::VcContactConfirmReceived
    };
    send_handshake_msg(ctx, contact_chat_id, step, "", Some(scan_fp), "");
    ctx.bob.status = BobHandshakeStatus::Success;
    ctx.stop_ongoing();
    Ok(
        if vg {
            HandshakeMessage::Propagate
        } else {
            HandshakeMessage::Ignore
        },
    )
}

/// Inviter, on `*-received`: purely observational — the far end
/// closed its loop.  Only progress reporting and a sanity check that
/// the contact is verified; group joins also check the group exists.
fn confirm_received_received(
    ctx: &mut Context,
    mime: &MimeMessage,
    contact_id: u32,
    vg: bool,
) -> (r: Result<HandshakeMessage, HandshakeError>)
    requires
        old(ctx).wf(),
        old(ctx).has_contact(contact_id),
    ensures
        final(ctx).wf(),
        !spec_contact_verified(*old(ctx), contact_id) ==> r == Ok::<
            HandshakeMessage,
            HandshakeError,
        >(HandshakeMessage::Ignore) && *final(ctx) == *old(ctx),
        (spec_contact_verified(*old(ctx), contact_id) && !vg) ==> r == Ok::<
            HandshakeMessage,
            HandshakeError,
        >(HandshakeMessage::Ignore) && *final(ctx) == *old(ctx),
        (spec_contact_verified(*old(ctx), contact_id) && vg) ==> ({
            let k = old(ctx).events@.len();
            let g = match mime.secure_join_group {
                Some(v) => v@,
                None => Seq::<char>::empty(),
            };
            &&& final(ctx).events@.len() == k + 2
            &&& final(ctx).events@.subrange(0, k as int) == old(ctx).events@
            &&& (final(ctx).events@[k as int]
                matches crate::events::Event::SecurejoinInviterProgress {
                    contact_id: c,
                    progress: p,
                } && c == contact_id && p.val() == 800)
            &&& (final(ctx).events@[k as int + 1]
                matches crate::events::Event::SecurejoinInviterProgress {
                    contact_id: c,
                    progress: p,
                } && c == contact_id && p.val() == 1000)
            &&& *final(ctx) == (Context { events: final(ctx).events, ..*old(ctx) })
            &&& (first_grpid_match(old(ctx).chats@, g) is Some ==> r == Ok::<
                HandshakeMessage,
                HandshakeError,
            >(HandshakeMessage::Ignore))
            &&& (first_grpid_match(old(ctx).chats@, g) is None ==> r == Err::<
                HandshakeMessage,
                HandshakeError,
            >(HandshakeError::ChatNotFound))
        }),
{
    let addr = match ctx.get_contact_by_id(contact_id) {
        Some(c) => c.addr.clone(),
        None => {
            return Ok(HandshakeMessage::Ignore);
        },
    };
    let verified = match ctx.peerstate_idx_by_addr(addr.as_str()) {
        Some(i) => ctx.peerstates[i].verified_key_fingerprint.is_some(),
        None => false,
    };
    proof {
        assert(verified == spec_contact_verified(*ctx, contact_id)) by {
            if spec_contact_verified(*ctx, contact_id) {
                let w = choose|i: int|
                    0 <= i < ctx.peerstates@.len() && (#[trigger] ctx.peerstates@[i]).addr@
                        == ctx.spec_contact(contact_id).addr@ && ctx.peerstates@[
                        i
                    ].verified_key_fingerprint is Some;
                assert(ctx.peerstates@[w].addr@ == addr@);
            }
        }
    }
    if !verified {
        return Ok(HandshakeMessage::Ignore);
    }
    if vg {
        ctx.emit_event(
            crate::events::Event::SecurejoinInviterProgress {
                contact_id,
                progress: crate::events::Progress::new(800),
            },
        );
        ctx.emit_event(
            crate::events::Event::SecurejoinInviterProgress {
                contact_id,
                progress: crate::events::Progress::new(1000),
            },
        );
        let field_grpid = match mime.get(crate::mimeparser::HeaderDef::SecureJoinGroup) {
            Some(g) => g.clone(),
            None => String::new(),
        };
        match ctx.get_chat_id_by_grpid(field_grpid.as_str()) {
            Some((gid, _, _)) => {
                proof {
                    lemma_first_grpid_match(ctx.chats@, field_grpid@, Context::chat_index(gid));
                }
                Ok(HandshakeMessage::Ignore)
            },
            None => {
                proof {
                    lemma_first_grpid_match(ctx.chats@, field_grpid@, ctx.chats@.len() as int);
                }
                Err(HandshakeError::ChatNotFound)
            },
        }
    } else {
        Ok(HandshakeMessage::Ignore)
    }
}

/// One chat evolved as handshake handling may evolve it: stayed the
/// same, or the 1:1 chat with the contact was unblocked, or the
/// contact was added as a member to the group named by `memb_g`.
pub open spec fn chat_evolved(
    a: crate::context::ChatRecord,
    b: crate::context::ChatRecord,
    contact_id: u32,
    memb_g: Option<Seq<char>>,
) -> bool {
    ||| b == a
    ||| (Context::is_single_chat_of(a, contact_id) && b == (crate::context::ChatRecord {
        blocked: crate::chat::Blocked::Not,
        ..a
    }))
    ||| (memb_g matches Some(g) && a.grpid@ == g && member_added(a, b, contact_id))
}

/// The chat registry evolved as handshake handling may evolve it: at
/// most the 1:1 chat with the contact was appended, and each existing
/// chat evolved per [`chat_evolved`].
pub open spec fn chats_evolved(
    pre: Seq<crate::context::ChatRecord>,
    post: Seq<crate::context::ChatRecord>,
    contact_id: u32,
    memb_g: Option<Seq<char>>,
) -> bool {
    &&& pre.len() <= post.len() <= pre.len() + 1
    &&& (post.len() == pre.len() + 1 ==> Context::is_single_chat_of(post.last(), contact_id)
        && post.last().grpid@ == Seq::<char>::empty())
    &&& forall|i: int|
        0 <= i < pre.len() ==> chat_evolved(#[trigger] pre[i], #[trigger] post[i], contact_id, memb_g)
}

/// Handle an incoming handshake message.
///
/// Reserved contact ids and messages without the `Secure-Join` header
/// are hard errors; otherwise the 1:1 chat with the sender is looked
/// up or created and unblocked, and the named protocol step is
/// handled as inviter or joiner.  An unknown step, like every
/// expected protocol failure inside a step, resolves to `Ignore`.
pub fn handle_securejoin_handshake(ctx: &mut Context, mime: &MimeMessage, contact_id: u32) -> (r:
    Result<HandshakeMessage, HandshakeError>)
    requires
        old(ctx).wf(),
        old(ctx).chats@.len() < crate::context::CHAT_CAPACITY,
    ensures
        final(ctx).wf(),
        contact_id <= crate::contact::DC_CONTACT_ID_LAST_SPECIAL ==> r == Err::<
            HandshakeMessage,
            HandshakeError,
        >(HandshakeError::SpecialContactId) && *final(ctx) == *old(ctx),
        (contact_id > crate::contact::DC_CONTACT_ID_LAST_SPECIAL && mime.secure_join is None)
            ==> r == Err::<HandshakeMessage, HandshakeError>(HandshakeError::NotSecureJoinMsg)
            && *final(ctx) == *old(ctx),
        (contact_id > crate::contact::DC_CONTACT_ID_LAST_SPECIAL && mime.secure_join is Some
            && !old(ctx).has_contact(contact_id)) ==> r == Err::<HandshakeMessage, HandshakeError>(
            HandshakeError::NoChat { contact_id },
        ) && *final(ctx) == *old(ctx),
        (contact_id > crate::contact::DC_CONTACT_ID_LAST_SPECIAL && mime.secure_join is Some
            && old(ctx).has_contact(contact_id)) ==> ({
            let step_opt = spec_parse_step(mime.secure_join->0@);
            let sender_addr = old(ctx).spec_contact(contact_id).addr@;
            match step_opt {
                None => r == Ok::<HandshakeMessage, HandshakeError>(HandshakeMessage::Ignore)
                    && *final(ctx) == (Context { chats: final(ctx).chats, ..*old(ctx) })
                    && chats_evolved(old(ctx).chats@, final(ctx).chats@, contact_id, None),
                Some(step) => {
                    let vg = step.spec_is_vg();
                    match step {
                        SecurejoinStep::VcRequest | SecurejoinStep::VgRequest => {
                            if !(mime.secure_join_invitenumber matches Some(inv)
                                && spec_token_exists(*old(ctx), Namespace::InviteNumber, inv@)) {
                                // a request without one of our invite
                                // numbers changes nothing
                                &&& r == Ok::<HandshakeMessage, HandshakeError>(
                                    HandshakeMessage::Ignore,
                                )
                                &&& *final(ctx) == (Context {
                                    chats: final(ctx).chats,
                                    ..*old(ctx)
                                })
                                &&& chats_evolved(
                                    old(ctx).chats@,
                                    final(ctx).chats@,
                                    contact_id,
                                    None,
                                )
                            } else {
                                &&& r == Ok::<HandshakeMessage, HandshakeError>(
                                    HandshakeMessage::Done,
                                )
                                &&& final(ctx).events@.len() == old(ctx).events@.len() + 1
                                &&& final(ctx).events@ == old(ctx).events@.push(
                                    final(ctx).events@.last(),
                                )
                                &&& (final(ctx).events@.last()
                                    matches crate::events::Event::SecurejoinInviterProgress {
                                        contact_id: c,
                                        progress: p,
                                    } && c == contact_id && p.val() == 300)
                                &&& final(ctx).outbox@.len() == old(ctx).outbox@.len() + 1
                                &&& final(ctx).outbox@ == old(ctx).outbox@.push(
                                    final(ctx).outbox@.last(),
                                )
                                &&& msg_is_handshake(
                                    final(ctx).outbox@.last().msg,
                                    if vg {
                                        SecurejoinStep::VgAuthRequired
                                    } else {
                                        SecurejoinStep::VcAuthRequired
                                    },
                                )
                                &&& final(ctx).has_chat(final(ctx).outbox@.last().chat_id)
                                &&& Context::is_single_chat_of(
                                    final(ctx).spec_chat(final(ctx).outbox@.last().chat_id),
                                    contact_id,
                                )
                                &&& *final(ctx) == (Context {
                                    chats: final(ctx).chats,
                                    events: final(ctx).events,
                                    outbox: final(ctx).outbox,
                                    ..*old(ctx)
                                })
                                &&& chats_evolved(
                                    old(ctx).chats@,
                                    final(ctx).chats@,
                                    contact_id,
                                    None,
                                )
                            }
                        },
                        SecurejoinStep::VcAuthRequired | SecurejoinStep::VgAuthRequired => {
                            if !auth_required_sync_ok(*old(ctx), vg) {
                                &&& r == Ok::<HandshakeMessage, HandshakeError>(
                                    HandshakeMessage::Ignore,
                                )
                                &&& *final(ctx) == (Context {
                                    chats: final(ctx).chats,
                                    ..*old(ctx)
                                })
                                &&& chats_evolved(
                                    old(ctx).chats@,
                                    final(ctx).chats@,
                                    contact_id,
                                    None,
                                )
                            } else {
                                let scan = old(ctx).bob.qr_scan->0;
                                let enc = spec_encrypted_and_signed(*mime, scan.fingerprint@);
                                let fpm = sender_fp_matches(
                                    *old(ctx),
                                    contact_id,
                                    scan.fingerprint@,
                                );
                                if !enc || !fpm {
                                    // a reply failing the signature
                                    // check aborts the join
                                    &&& r == Ok::<HandshakeMessage, HandshakeError>(
                                        HandshakeMessage::Ignore,
                                    )
                                    &&& final(ctx).bob == (BobState {
                                        status: BobHandshakeStatus::Failure,
                                        ..old(ctx).bob
                                    })
                                    &&& final(ctx).info_msgs@.len() == old(ctx).info_msgs@.len()
                                        + 1
                                    &&& final(ctx).info_msgs@ == old(ctx).info_msgs@.push(
                                        final(ctx).info_msgs@.last(),
                                    )
                                    &&& final(ctx).info_msgs@.last().1@
                                        == contact_not_verified_text(sender_addr)
                                    &&& *final(ctx) == (Context {
                                        chats: final(ctx).chats,
                                        bob: final(ctx).bob,
                                        ongoing: final(ctx).ongoing,
                                        info_msgs: final(ctx).info_msgs,
                                        ..*old(ctx)
                                    })
                                    &&& chats_evolved(
                                        old(ctx).chats@,
                                        final(ctx).chats@,
                                        contact_id,
                                        None,
                                    )
                                } else {
                                    &&& r == Ok::<HandshakeMessage, HandshakeError>(
                                        HandshakeMessage::Done,
                                    )
                                    &&& final(ctx).bob == (BobState {
                                        expects: Expects::ContactConfirm,
                                        ..old(ctx).bob
                                    })
                                    &&& final(ctx).outbox@.len() == old(ctx).outbox@.len() + 1
                                    &&& final(ctx).outbox@ == old(ctx).outbox@.push(
                                        final(ctx).outbox@.last(),
                                    )
                                    &&& msg_is_handshake(
                                        final(ctx).outbox@.last().msg,
                                        if vg {
                                            SecurejoinStep::VgRequestWithAuth
                                        } else {
                                            SecurejoinStep::VcRequestWithAuth
                                        },
                                    )
                                    &&& param2_is(final(ctx).outbox@.last().msg, scan.auth@)
                                    &&& *final(ctx) == (Context {
                                        chats: final(ctx).chats,
                                        bob: final(ctx).bob,
                                        events: final(ctx).events,
                                        outbox: final(ctx).outbox,
                                        ..*old(ctx)
                                    })
                                    &&& chats_evolved(
                                        old(ctx).chats@,
                                        final(ctx).chats@,
                                        contact_id,
                                        None,
                                    )
                                }
                            }
                        },
                        SecurejoinStep::VcRequestWithAuth | SecurejoinStep::VgRequestWithAuth => {
                            let fpo = mime.secure_join_fingerprint;
                            let autho = mime.secure_join_auth;
                            let checks_ok = {
                                &&& fpo is Some
                                &&& spec_encrypted_and_signed(*mime, fpo->0@)
                                &&& sender_fp_matches(*old(ctx), contact_id, fpo->0@)
                                &&& autho is Some
                                &&& spec_token_exists(*old(ctx), Namespace::Auth, autho->0@)
                            };
                            if !checks_ok {
                                // in particular: an unknown `auth`
                                // secret never marks anyone verified
                                &&& r == Ok::<HandshakeMessage, HandshakeError>(
                                    HandshakeMessage::Ignore,
                                )
                                &&& verified_fps_unchanged(*old(ctx), *final(ctx))
                                &&& final(ctx).info_msgs@.len() == old(ctx).info_msgs@.len() + 1
                                &&& final(ctx).info_msgs@ == old(ctx).info_msgs@.push(
                                    final(ctx).info_msgs@.last(),
                                )
                                &&& final(ctx).info_msgs@.last().1@ == contact_not_verified_text(
                                    sender_addr,
                                )
                                &&& *final(ctx) == (Context {
                                    chats: final(ctx).chats,
                                    info_msgs: final(ctx).info_msgs,
                                    ..*old(ctx)
                                })
                                &&& chats_evolved(
                                    old(ctx).chats@,
                                    final(ctx).chats@,
                                    contact_id,
                                    None,
                                )
                            } else {
                                let fp = fpo->0;
                                &&& peer_marked_verified(*old(ctx), *final(ctx), fp@)
                                &&& contacts_scaled(
                                    *old(ctx),
                                    *final(ctx),
                                    contact_id,
                                    crate::contact::Origin::SecurejoinInvited,
                                )
                                &&& final(ctx).info_msgs@.len() == old(ctx).info_msgs@.len() + 1
                                &&& final(ctx).info_msgs@ == old(ctx).info_msgs@.push(
                                    final(ctx).info_msgs@.last(),
                                )
                                &&& final(ctx).info_msgs@.last().1@ == contact_verified_text(
                                    sender_addr,
                                )
                                &&& (if !vg {
                                    &&& final(ctx).outbox@.len() == old(ctx).outbox@.len() + 1
                                    &&& final(ctx).outbox@ == old(ctx).outbox@.push(
                                        final(ctx).outbox@.last(),
                                    )
                                    &&& msg_is_handshake(
                                        final(ctx).outbox@.last().msg,
                                        SecurejoinStep::VcContactConfirm,
                                    )
                                    &&& (final(ctx).outbox@.last().msg.param.arg3 matches Some(v)
                                        && v@ == fp@)
                                    &&& r == Ok::<HandshakeMessage, HandshakeError>(
                                        HandshakeMessage::Ignore,
                                    )
                                    &&& chats_evolved(
                                        old(ctx).chats@,
                                        final(ctx).chats@,
                                        contact_id,
                                        None,
                                    )
                                } else {
                                    &&& final(ctx).outbox@ == old(ctx).outbox@
                                    &&& (match mime.secure_join_group {
                                        None => r == Ok::<HandshakeMessage, HandshakeError>(
                                            HandshakeMessage::Ignore,
                                        ) && chats_evolved(
                                            old(ctx).chats@,
                                            final(ctx).chats@,
                                            contact_id,
                                            None,
                                        ),
                                        Some(g) => {
                                            &&& chats_evolved(
                                                old(ctx).chats@,
                                                final(ctx).chats@,
                                                contact_id,
                                                Some(g@),
                                            )
                                            &&& (first_grpid_match(final(ctx).chats@, g@) is Some
                                                ==> r == Ok::<HandshakeMessage, HandshakeError>(
                                                HandshakeMessage::Ignore,
                                            ))
                                            &&& (first_grpid_match(final(ctx).chats@, g@) is None
                                                ==> r == Err::<HandshakeMessage, HandshakeError>(
                                                HandshakeError::ChatNotFound,
                                            ))
                                        },
                                    })
                                })
                                &&& *final(ctx) == (Context {
                                    chats: final(ctx).chats,
                                    peerstates: final(ctx).peerstates,
                                    contacts: final(ctx).contacts,
                                    info_msgs: final(ctx).info_msgs,
                                    events: final(ctx).events,
                                    outbox: final(ctx).outbox,
                                    ..*old(ctx)
                                })
                            }
                        },
                        SecurejoinStep::VcContactConfirm | SecurejoinStep::VgMemberAdded => {
                            let abort = if vg {
                                HandshakeMessage::Propagate
                            } else {
                                HandshakeMessage::Ignore
                            };
                            let scan = old(ctx).bob.qr_scan->0;
                            let expect_enc = if vg {
                                match first_grpid_match(final(ctx).chats@, scan.grpid@) {
                                    Some(grp) => grp.typ == crate::chat::Chattype::VerifiedGroup,
                                    None => false,
                                }
                            } else {
                                true
                            };
                            if !confirm_sync_ok(*old(ctx), vg) {
                                &&& r == Ok::<HandshakeMessage, HandshakeError>(abort)
                                &&& *final(ctx) == (Context {
                                    chats: final(ctx).chats,
                                    ..*old(ctx)
                                })
                                &&& chats_evolved(
                                    old(ctx).chats@,
                                    final(ctx).chats@,
                                    contact_id,
                                    None,
                                )
                            } else if expect_enc && !spec_encrypted_and_signed(
                                *mime,
                                scan.fingerprint@,
                            ) {
                                // an unencrypted or wrongly signed
                                // confirm never marks the peer verified
                                &&& r == Ok::<HandshakeMessage, HandshakeError>(abort)
                                &&& verified_fps_unchanged(*old(ctx), *final(ctx))
                                &&& final(ctx).bob == (BobState {
                                    status: BobHandshakeStatus::Failure,
                                    ..old(ctx).bob
                                })
                                &&& final(ctx).info_msgs@.len() == old(ctx).info_msgs@.len() + 1
                                &&& final(ctx).info_msgs@ == old(ctx).info_msgs@.push(
                                    final(ctx).info_msgs@.last(),
                                )
                                &&& final(ctx).info_msgs@.last().1@ == contact_not_verified_text(
                                    sender_addr,
                                )
                                &&& *final(ctx) == (Context {
                                    chats: final(ctx).chats,
                                    bob: final(ctx).bob,
                                    info_msgs: final(ctx).info_msgs,
                                    ..*old(ctx)
                                })
                                &&& chats_evolved(
                                    old(ctx).chats@,
                                    final(ctx).chats@,
                                    contact_id,
                                    None,
                                )
                            } else if !(exists|i: int|
                                0 <= i < old(ctx).peerstates@.len() && ((
                                #[trigger] old(ctx).peerstates@[i]).public_key_fingerprint
                                    matches Some(f) && f@ == spec_normalize_fp(
                                    scan.fingerprint@,
                                ))) {
                                &&& r == Ok::<HandshakeMessage, HandshakeError>(abort)
                                &&& verified_fps_unchanged(*old(ctx), *final(ctx))
                                &&& *final(ctx) == (Context {
                                    chats: final(ctx).chats,
                                    info_msgs: final(ctx).info_msgs,
                                    ..*old(ctx)
                                })
                                &&& chats_evolved(
                                    old(ctx).chats@,
                                    final(ctx).chats@,
                                    contact_id,
                                    None,
                                )
                            } else {
                                &&& peer_marked_verified(*old(ctx), *final(ctx), scan.fingerprint@)
                                &&& contacts_scaled(
                                    *old(ctx),
                                    *final(ctx),
                                    contact_id,
                                    crate::contact::Origin::SecurejoinJoined,
                                )
                                &&& chats_evolved(
                                    old(ctx).chats@,
                                    final(ctx).chats@,
                                    contact_id,
                                    None,
                                )
                                &&& (if vg && !(old(ctx).config.addr matches Some(a) && {
                                    let member = match mime.chat_group_member_added {
                                        Some(m) => m@,
                                        None => Seq::<char>::empty(),
                                    };
                                    a@ == member
                                }) {
                                    &&& final(ctx).bob == old(ctx).bob
                                    &&& final(ctx).outbox@ == old(ctx).outbox@
                                    &&& (old(ctx).config.addr is None ==> r == Err::<
                                        HandshakeMessage,
                                        HandshakeError,
                                    >(HandshakeError::NoSelfAddr))
                                    &&& (old(ctx).config.addr is Some ==> r == Ok::<
                                        HandshakeMessage,
                                        HandshakeError,
                                    >(abort))
                                } else {
                                    &&& final(ctx).bob == (BobState {
                                        status: BobHandshakeStatus::Success,
                                        expects: Expects::Nothing,
                                        ..old(ctx).bob
                                    })
                                    &&& final(ctx).info_msgs@.len() == old(ctx).info_msgs@.len()
                                        + 1
                                    &&& final(ctx).info_msgs@ == old(ctx).info_msgs@.push(
                                        final(ctx).info_msgs@.last(),
                                    )
                                    &&& final(ctx).info_msgs@.last().1@ == contact_verified_text(
                                        sender_addr,
                                    )
                                    &&& final(ctx).outbox@.len() == old(ctx).outbox@.len() + 1
                                    &&& final(ctx).outbox@ == old(ctx).outbox@.push(
                                        final(ctx).outbox@.last(),
                                    )
                                    &&& msg_is_handshake(
                                        final(ctx).outbox@.last().msg,
                                        if vg {
                                            SecurejoinStep::VgMemberAddedReceived
                                        } else {
                                            SecurejoinStep::VcContactConfirmReceived
                                        },
                                    )
                                    &&& final(ctx).ongoing == (match old(ctx).ongoing {
                                        crate::context::Ongoing::Idle => crate::context::Ongoing::Idle,
                                        crate::context::Ongoing::Running { .. } => crate::context::Ongoing::Running {
                                            shall_stop: true,
                                        },
                                    })
                                    &&& r == Ok::<HandshakeMessage, HandshakeError>(abort)
                                })
                                &&& *final(ctx) == (Context {
                                    chats: final(ctx).chats,
                                    peerstates: final(ctx).peerstates,
                                    contacts: final(ctx).contacts,
                                    info_msgs: final(ctx).info_msgs,
                                    events: final(ctx).events,
                                    outbox: final(ctx).outbox,
                                    bob: final(ctx).bob,
                                    ongoing: final(ctx).ongoing,
                                    ..*old(ctx)
                                })
                            }
                        },
                        SecurejoinStep::VcContactConfirmReceived
                        | SecurejoinStep::VgMemberAddedReceived => {
                            if !spec_contact_verified(*old(ctx), contact_id) || !vg {
                                &&& r == Ok::<HandshakeMessage, HandshakeError>(
                                    HandshakeMessage::Ignore,
                                )
                                &&& *final(ctx) == (Context {
                                    chats: final(ctx).chats,
                                    ..*old(ctx)
                                })
                                &&& chats_evolved(
                                    old(ctx).chats@,
                                    final(ctx).chats@,
                                    contact_id,
                                    None,
                                )
                            } else {
                                let g = match mime.secure_join_group {
                                    Some(v) => v@,
                                    None => Seq::<char>::empty(),
                                };
                                &&& final(ctx).events@.len() == old(ctx).events@.len() + 2
                                &&& *final(ctx) == (Context {
                                    chats: final(ctx).chats,
                                    events: final(ctx).events,
                                    ..*old(ctx)
                                })
                                &&& chats_evolved(
                                    old(ctx).chats@,
                                    final(ctx).chats@,
                                    contact_id,
                                    None,
                                )
                                &&& (first_grpid_match(final(ctx).chats@, g) is Some ==> r == Ok::<
                                    HandshakeMessage,
                                    HandshakeError,
                                >(HandshakeMessage::Ignore))
                                &&& (first_grpid_match(final(ctx).chats@, g) is None ==> r
                                    == Err::<HandshakeMessage, HandshakeError>(
                                    HandshakeError::ChatNotFound,
                                ))
                            }
                        },
                    }
                },
            }
        }),
{
    if contact_id <= crate::contact::DC_CONTACT_ID_LAST_SPECIAL {
        return Err(HandshakeError::SpecialContactId);
    }
    let step_header = match mime.get(crate::mimeparser::HeaderDef::SecureJoin) {
        Some(s) => s.clone(),
        None => {
            return Err(HandshakeError::NotSecureJoinMsg);
        },
    };
    let contact_chat_id = match ctx.create_or_lookup_by_contact_id(
        contact_id,
        crate::chat::Blocked::Not,
    ) {
        Ok((chat_id, blocked)) => {
            let not_blocked = match blocked {
                crate::chat::Blocked::Not => true,
                _ => false,
            };
            if !not_blocked {
                ctx.unblock(chat_id);
            }
            chat_id
        },
        Err(_) => {
            return Err(HandshakeError::NoChat { contact_id });
        },
    };
    let step = match parse_step(step_header.as_str()) {
        Some(s) => s,
        None => {
            return Ok(HandshakeMessage::Ignore);
        },
    };
    let vg = step.is_vg();
    let ghost mid = *ctx;
    proof {
        assert(ctx.spec_chat(contact_chat_id).members@ == seq![contact_id]);
        assert(spec_chat_contact(*ctx, contact_chat_id) == contact_id);
        assert(spec_chat_peer_addr(*ctx, contact_chat_id) == old(ctx).spec_contact(
            contact_id,
        ).addr@);
        assert(chats_evolved(old(ctx).chats@, mid.chats@, contact_id, None)) by {
            assert forall|i: int| 0 <= i < old(ctx).chats@.len() implies chat_evolved(
                #[trigger] old(ctx).chats@[i],
                #[trigger] mid.chats@[i],
                contact_id,
                None,
            ) by {}
        }
        assert(mid == (Context { chats: mid.chats, ..*old(ctx) }));
    }
    match step {
        SecurejoinStep::VcRequest | SecurejoinStep::VgRequest => {
            let h = secure_join_requested(ctx, mime, contact_id, contact_chat_id, vg);
            Ok(h)
        },
        SecurejoinStep::VcAuthRequired | SecurejoinStep::VgAuthRequired => {
            let h = auth_required_received(ctx, mime, contact_id, contact_chat_id, vg);
            Ok(h)
        },
        SecurejoinStep::VcRequestWithAuth | SecurejoinStep::VgRequestWithAuth => {
            let res = request_with_auth_received(ctx, mime, contact_id, contact_chat_id, vg);
            proof {
                if vg {
                    match &mime.secure_join_group {
                        Some(g) => {
                            lemma_first_grpid_match_exists(mid.chats@, g@);
                            lemma_first_grpid_match_exists(ctx.chats@, g@);
                            assert(chats_evolved(
                                old(ctx).chats@,
                                ctx.chats@,
                                contact_id,
                                Some(g@),
                            )) by {
                                assert forall|i: int|
                                    0 <= i < old(ctx).chats@.len() implies chat_evolved(
                                    #[trigger] old(ctx).chats@[i],
                                    #[trigger] ctx.chats@[i],
                                    contact_id,
                                    Some(g@),
                                ) by {
                                    assert(chat_evolved(
                                        old(ctx).chats@[i],
                                        mid.chats@[i],
                                        contact_id,
                                        None,
                                    ));
                                }
                            }
                        },
                        None => {},
                    }
                }
            }
            res
        },
        SecurejoinStep::VcContactConfirm | SecurejoinStep::VgMemberAdded => {
            contact_confirm_received(ctx, mime, contact_id, contact_chat_id, vg)
        },
        SecurejoinStep::VcContactConfirmReceived | SecurejoinStep::VgMemberAddedReceived => {
            confirm_received_received(ctx, mime, contact_id, vg)
        },
    }
}

/// Handle a handshake message that this account sent itself, as seen
/// by another device of the same account.
///
/// A second device sharing the mailbox sees the handshake messages
/// without holding any joiner state.  From a correctly self-signed
/// `*-contact-confirm`, `*-member-added` or `*-received` message it
/// re-derives the verification outcome and marks the peer verified,
/// guarded only by the encryption check against the own key.
pub fn observe_securejoin_on_other_device(
    ctx: &mut Context,
    mime: &MimeMessage,
    contact_id: u32,
) -> (r: Result<HandshakeMessage, HandshakeError>)
    requires
        old(ctx).wf(),
        old(ctx).chats@.len() < crate::context::CHAT_CAPACITY,
    ensures
        final(ctx).wf(),
        contact_id <= crate::contact::DC_CONTACT_ID_LAST_SPECIAL ==> r == Err::<
            HandshakeMessage,
            HandshakeError,
        >(HandshakeError::SpecialContactId) && *final(ctx) == *old(ctx),
        (contact_id > crate::contact::DC_CONTACT_ID_LAST_SPECIAL && mime.secure_join is None)
            ==> r == Err::<HandshakeMessage, HandshakeError>(HandshakeError::NotSecureJoinMsg)
            && *final(ctx) == *old(ctx),
        (contact_id > crate::contact::DC_CONTACT_ID_LAST_SPECIAL && mime.secure_join is Some
            && !old(ctx).has_contact(contact_id)) ==> r == Err::<HandshakeMessage, HandshakeError>(
            HandshakeError::NoChat { contact_id },
        ) && *final(ctx) == *old(ctx),
        (contact_id > crate::contact::DC_CONTACT_ID_LAST_SPECIAL && mime.secure_join is Some
            && old(ctx).has_contact(contact_id)) ==> ({
            let step_opt = spec_parse_step(mime.secure_join->0@);
            let sender_addr = old(ctx).spec_contact(contact_id).addr@;
            let observed = match step_opt {
                Some(SecurejoinStep::VcContactConfirm) => true,
                Some(SecurejoinStep::VgMemberAdded) => true,
                Some(SecurejoinStep::VcContactConfirmReceived) => true,
                Some(SecurejoinStep::VgMemberAddedReceived) => true,
                _ => false,
            };
            let self_fp = match old(ctx).config.self_fingerprint {
                Some(f) => f@,
                None => Seq::<char>::empty(),
            };
            &&& chats_evolved(old(ctx).chats@, final(ctx).chats@, contact_id, None)
            &&& (!observed ==> r == Ok::<HandshakeMessage, HandshakeError>(
                HandshakeMessage::Ignore,
            ) && *final(ctx) == (Context { chats: final(ctx).chats, ..*old(ctx) }))
            &&& (observed ==> ({
                let checks_ok = {
                    &&& spec_encrypted_and_signed(*mime, self_fp)
                    &&& mime.secure_join_fingerprint is Some
                    &&& exists|i: int|
                        0 <= i < old(ctx).peerstates@.len() && ((
                        #[trigger] old(ctx).peerstates@[i]).public_key_fingerprint matches Some(f)
                            && f@ == spec_normalize_fp(mime.secure_join_fingerprint->0@))
                };
                if !checks_ok {
                    // a message that is not correctly self-signed, or
                    // names no known key, never marks anyone verified
                    &&& r == Ok::<HandshakeMessage, HandshakeError>(HandshakeMessage::Ignore)
                    &&& verified_fps_unchanged(*old(ctx), *final(ctx))
                    &&& final(ctx).info_msgs@.len() == old(ctx).info_msgs@.len() + 1
                    &&& final(ctx).info_msgs@ == old(ctx).info_msgs@.push(
                        final(ctx).info_msgs@.last(),
                    )
                    &&& final(ctx).info_msgs@.last().1@ == contact_not_verified_text(sender_addr)
                    &&& *final(ctx) == (Context {
                        chats: final(ctx).chats,
                        info_msgs: final(ctx).info_msgs,
                        ..*old(ctx)
                    })
                } else {
                    &&& peer_marked_verified(
                        *old(ctx),
                        *final(ctx),
                        mime.secure_join_fingerprint->0@,
                    )
                    &&& r == Ok::<HandshakeMessage, HandshakeError>(
                        if step_opt == Some(SecurejoinStep::VgMemberAdded) {
                            HandshakeMessage::Propagate
                        } else {
                            HandshakeMessage::Ignore
                        },
                    )
                    &&& *final(ctx) == (Context {
                        chats: final(ctx).chats,
                        peerstates: final(ctx).peerstates,
                        ..*old(ctx)
                    })
                }
            }))
        }),
{
    if contact_id <= crate::contact::DC_CONTACT_ID_LAST_SPECIAL {
        return Err(HandshakeError::SpecialContactId);
    }
    let step_header = match mime.get(crate::mimeparser::HeaderDef::SecureJoin) {
        Some(s) => s.clone(),
        None => {
            return Err(HandshakeError::NotSecureJoinMsg);
        },
    };
    let contact_chat_id = match ctx.create_or_lookup_by_contact_id(
        contact_id,
        crate::chat::Blocked::Not,
    ) {
        Ok((chat_id, blocked)) => {
            let not_blocked = match blocked {
                crate::chat::Blocked::Not => true,
                _ => false,
            };
            if !not_blocked {
                ctx.unblock(chat_id);
            }
            chat_id
        },
        Err(_) => {
            return Err(HandshakeError::NoChat { contact_id });
        },
    };
    let ghost mid = *ctx;
    proof {
        assert(ctx.spec_chat(contact_chat_id).members@ == seq![contact_id]);
        assert(spec_chat_peer_addr(*ctx, contact_chat_id) == old(ctx).spec_contact(
            contact_id,
        ).addr@);
        assert(chats_evolved(old(ctx).chats@, mid.chats@, contact_id, None)) by {
            assert forall|i: int| 0 <= i < old(ctx).chats@.len() implies chat_evolved(
                #[trigger] old(ctx).chats@[i],
                #[trigger] mid.chats@[i],
                contact_id,
                None,
            ) by {}
        }
        assert(mid == (Context { chats: mid.chats, ..*old(ctx) }));
    }
    let step = parse_step(step_header.as_str());
    let observed = match step {
        Some(SecurejoinStep::VcContactConfirm)
        | Some(SecurejoinStep::VgMemberAdded)
        | Some(SecurejoinStep::VcContactConfirmReceived)
        | Some(SecurejoinStep::VgMemberAddedReceived) => true,
        _ => false,
    };
    if !observed {
        return Ok(HandshakeMessage::Ignore);
    }
    let self_fp = match &ctx.config.self_fingerprint {
        Some(f) => f.clone(),
        None => String::new(),
    };
    if !encrypted_and_signed(mime, self_fp.as_str()) {
        could_not_establish_secure_connection(ctx, contact_chat_id);
        return Ok(HandshakeMessage::Ignore);
    }
    let fingerprint = match mime.get(crate::mimeparser::HeaderDef::SecureJoinFingerprint) {
        Some(fp) => fp.clone(),
        None => {
            could_not_establish_secure_connection(ctx, contact_chat_id);
            return Ok(HandshakeMessage::Ignore);
        },
    };
    if mark_peer_as_verified(ctx, fingerprint.as_str()).is_err() {
        could_not_establish_secure_connection(ctx, contact_chat_id);
        return Ok(HandshakeMessage::Ignore);
    }
    let propagate = match step {
        Some(SecurejoinStep::VgMemberAdded) => true,
        _ => false,
    };
    Ok(
        if propagate {
            HandshakeMessage::Propagate
        } else {
            HandshakeMessage::Ignore
        },
    )
}

/// React to a degradation of a peer's key material: when the known
/// fingerprint changed, post a notice into the 1:1 chat with that
/// peer so the user is not left with a false sense of security.
pub fn handle_degrade_event(ctx: &mut Context, peerstate: &crate::peerstate::Peerstate) -> (r:
    Result<(), ()>)
    requires
        old(ctx).wf(),
        old(ctx).chats@.len() < crate::context::CHAT_CAPACITY,
    ensures
        final(ctx).wf(),
        peerstate.degrade_event != Some(
            crate::peerstate::DegradeEvent::FingerprintChanged,
        ) ==> r is Ok && *final(ctx) == *old(ctx),
        (peerstate.degrade_event == Some(crate::peerstate::DegradeEvent::FingerprintChanged)
            && (forall|i: int|
            0 <= i < old(ctx).contacts@.len() ==> (#[trigger] old(ctx).contacts@[i]).addr@
                != peerstate.addr@)) ==> r is Err && *final(ctx) == *old(ctx),
        (peerstate.degrade_event == Some(crate::peerstate::DegradeEvent::FingerprintChanged)
            && (exists|i: int|
            0 <= i < old(ctx).contacts@.len() && (#[trigger] old(ctx).contacts@[i]).addr@
                == peerstate.addr@)) ==> ({
            &&& r is Ok
            &&& final(ctx).info_msgs@.len() == old(ctx).info_msgs@.len() + 1
            &&& final(ctx).info_msgs@ == old(ctx).info_msgs@.push(final(ctx).info_msgs@.last())
            &&& final(ctx).info_msgs@.last().1@ == "Changed setup for "@ + peerstate.addr@
            &&& final(ctx).events@.len() == old(ctx).events@.len() + 1
            &&& *final(ctx) == (Context {
                chats: final(ctx).chats,
                info_msgs: final(ctx).info_msgs,
                events: final(ctx).events,
                ..*old(ctx)
            })
        }),
{
    let changed = match peerstate.degrade_event {
        Some(crate::peerstate::DegradeEvent::FingerprintChanged) => true,
        None => false,
    };
    proof {
        if changed {
            assert(peerstate.degrade_event == Some(
                crate::peerstate::DegradeEvent::FingerprintChanged,
            ));
        }
    }
    if !changed {
        return Ok(());
    }
    let contact_id = match ctx.contact_id_by_addr(peerstate.addr.as_str()) {
        Some(id) => id,
        None => {
            return Err(());
        },
    };
    let contact_chat_id = match ctx.create_or_lookup_by_contact_id(
        contact_id,
        crate::chat::Blocked::Deaddrop,
    ) {
        Ok((chat_id, _)) => chat_id,
        Err(_) => {
            return Err(());
        },
    };
    let mut text = String::new();
    text.append("Changed setup for ");
    text.append(peerstate.addr.as_str());
    ctx.add_info_msg(contact_chat_id, text);
    ctx.emit_event(crate::events::Event::ChatModified(contact_chat_id));
    Ok(())
}

} // verus!
