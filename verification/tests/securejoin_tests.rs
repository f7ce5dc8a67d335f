use deltachat::chat::{Blocked, ChatId, Chattype};
use deltachat::contact::Origin;
use deltachat::context::{ChatRecord, Config, Context, SentMessage};
use deltachat::events::Event;
use deltachat::mimeparser::MimeMessage;
use deltachat::peerstate::{EncryptPreference, Peerstate};
use deltachat::qr::{check_qr, QrState};
use deltachat::securejoin::{
    dc_get_securejoin_qr, dc_join_securejoin, handle_degrade_event, handle_securejoin_handshake,
    observe_securejoin_on_other_device, BobHandshakeStatus, Expects, HandshakeError,
    HandshakeMessage,
};

const ALICE_FP: &str = "1234567890ABCDEF1234567890ABCDEF12345678";
const BOB_FP: &str = "FEDCBA0987654321FEDCBA0987654321FEDCBA09";

fn alice_ctx() -> Context {
    Context::new(Config {
        addr: Some("alice@example.org".to_string()),
        displayname: Some("Alice".to_string()),
        self_fingerprint: Some(ALICE_FP.to_string()),
    })
}

fn bob_ctx() -> Context {
    Context::new(Config {
        addr: Some("bob@example.net".to_string()),
        displayname: Some("Bob".to_string()),
        self_fingerprint: Some(BOB_FP.to_string()),
    })
}

fn peerstate(addr: &str, fp: &str) -> Peerstate {
    Peerstate {
        addr: addr.to_string(),
        public_key_fingerprint: Some(fp.to_string()),
        gossip_key_fingerprint: None,
        verified_key_fingerprint: None,
        prefer_encrypt: EncryptPreference::NoPreference,
        degrade_event: None,
    }
}

/// Turn a sent handshake message into the parsed message the peer's
/// ingestion pipeline would hand to the handshake, signed by the
/// sender's key when it went out encrypted.
fn mime_of(sent: &SentMessage, signer_fp: &str) -> MimeMessage {
    let mut m = MimeMessage::new();
    m.secure_join = sent.msg.param.arg.clone();
    let step = sent.msg.param.arg.clone().unwrap_or_default();
    match step.as_str() {
        "vc-request" | "vg-request" => {
            m.secure_join_invitenumber = sent.msg.param.arg2.clone();
        }
        "vc-request-with-auth" | "vg-request-with-auth" => {
            m.secure_join_auth = sent.msg.param.arg2.clone();
        }
        _ => {}
    }
    m.secure_join_fingerprint = sent.msg.param.arg3.clone();
    m.secure_join_group = sent.msg.param.arg4.clone();
    if sent.msg.param.guarantee_e2ee.is_some() {
        m.encrypted = true;
        m.signatures = vec![signer_fp.to_string()];
    }
    m
}

fn step_of(sent: &SentMessage) -> String {
    sent.msg.param.arg.clone().unwrap_or_default()
}

#[test]
fn test_generate_qr_text() {
    // generate a 1:1 invitation for chat id 0 and parse it back
    let mut alice = alice_ctx();
    let qr = dc_get_securejoin_qr(&mut alice, ChatId::new(0), "invite01", "auth0001").unwrap();
    assert_eq!(
        qr,
        format!(
            "OPENPGP4FPR:{}#a=alice%40example.org&n=Alice&i=invite01&s=auth0001",
            ALICE_FP
        )
    );
    // the fingerprint part is 40 hex digits
    let fp_part = &qr["OPENPGP4FPR:".len()..qr.find('#').unwrap()];
    assert_eq!(fp_part.len(), 40);
    assert!(fp_part.chars().all(|c| c.is_ascii_hexdigit()));

    // the same invitation is returned on a second ask: tokens are reused
    let qr2 = dc_get_securejoin_qr(&mut alice, ChatId::new(0), "other", "other").unwrap();
    assert_eq!(qr, qr2);

    // parse it back
    let mut bob = bob_ctx();
    let scan = check_qr(&mut bob, &qr);
    assert_eq!(scan.state, QrState::AskVerifyContact);
    assert_eq!(scan.addr, "alice@example.org");
    assert_eq!(scan.name, "Alice");
    assert_eq!(scan.fingerprint, ALICE_FP);
    assert_eq!(scan.invitenumber, "invite01");
    assert_eq!(scan.auth, "auth0001");
    assert_eq!(scan.grpid, "");
}

#[test]
fn test_check_qr_rejects_garbage() {
    let mut bob = bob_ctx();
    let before_contacts = bob.contacts.len();
    assert_eq!(check_qr(&mut bob, "").state, QrState::Error);
    assert_eq!(check_qr(&mut bob, "https://example.org").state, QrState::Error);
    assert_eq!(
        check_qr(&mut bob, "OPENPGP4FPR:1234#n=NoAddr").state,
        QrState::Error
    );
    // a short fingerprint is refused
    assert_eq!(
        check_qr(&mut bob, "OPENPGP4FPR:1234#a=x%40y.org&i=a&s=b").state,
        QrState::Error
    );
    assert_eq!(bob.contacts.len(), before_contacts);
}

#[test]
fn test_full_handshake_without_shortcut() {
    let mut alice = alice_ctx();
    let mut bob = bob_ctx();
    let qr = dc_get_securejoin_qr(&mut alice, ChatId::new(0), "invite01", "auth0001").unwrap();

    // Bob does not know Alice's key yet: the full round trip runs
    let chat_id = dc_join_securejoin(&mut bob, &qr);
    assert!(!chat_id.is_error());
    assert_eq!(bob.outbox.len(), 1);
    assert_eq!(step_of(&bob.outbox[0]), "vc-request");
    assert_eq!(bob.bob.expects, Expects::AuthRequired);

    // Alice learns of Bob (ordinary contact + key discovery)
    let bob_cid = alice.add_or_lookup_contact_by_addr("bob@example.net", Origin::ManuallyCreated);
    alice.peerstates.push(peerstate("bob@example.net", BOB_FP));

    // Alice handles vc-request: the invite number is hers
    let m1 = mime_of(&bob.outbox[0], BOB_FP);
    let r1 = handle_securejoin_handshake(&mut alice, &m1, bob_cid).unwrap();
    assert!(matches!(r1, HandshakeMessage::Done));
    assert_eq!(alice.outbox.len(), 1);
    assert_eq!(step_of(&alice.outbox[0]), "vc-auth-required");

    // Bob learned Alice's key through the reply's transport layer
    bob.peerstates.push(peerstate("alice@example.org", ALICE_FP));
    let alice_cid_in_bob = bob.contacts[0].id;
    let m2 = mime_of(&alice.outbox[0], ALICE_FP);
    let r2 = handle_securejoin_handshake(&mut bob, &m2, alice_cid_in_bob).unwrap();
    assert!(matches!(r2, HandshakeMessage::Done));
    assert_eq!(bob.outbox.len(), 2);
    assert_eq!(step_of(&bob.outbox[1]), "vc-request-with-auth");
    assert_eq!(bob.bob.expects, Expects::ContactConfirm);

    // Alice handles vc-request-with-auth and marks Bob verified
    let m3 = mime_of(&bob.outbox[1], BOB_FP);
    let r3 = handle_securejoin_handshake(&mut alice, &m3, bob_cid).unwrap();
    assert!(matches!(r3, HandshakeMessage::Ignore));
    assert_eq!(
        alice.peerstates[0].verified_key_fingerprint.as_deref(),
        Some(BOB_FP)
    );
    assert_eq!(alice.peerstates[0].prefer_encrypt, EncryptPreference::Mutual);
    assert_eq!(alice.outbox.len(), 2);
    assert_eq!(step_of(&alice.outbox[1]), "vc-contact-confirm");
    assert!(alice
        .events
        .iter()
        .any(|e| *e == Event::ContactsChanged(Some(bob_cid))));

    // Bob handles vc-contact-confirm: the peer's trust level becomes
    // bidirectionally verified and the handshake settles
    let m4 = mime_of(&alice.outbox[1], ALICE_FP);
    let r4 = handle_securejoin_handshake(&mut bob, &m4, alice_cid_in_bob).unwrap();
    assert!(matches!(r4, HandshakeMessage::Ignore));
    assert_eq!(
        bob.peerstates[0].verified_key_fingerprint.as_deref(),
        Some(ALICE_FP)
    );
    assert_eq!(bob.peerstates[0].prefer_encrypt, EncryptPreference::Mutual);
    assert_eq!(bob.bob.status, BobHandshakeStatus::Success);
    assert_eq!(bob.outbox.len(), 3);
    assert_eq!(step_of(&bob.outbox[2]), "vc-contact-confirm-received");

    // the chat returned at handshake start is the 1:1 chat with Alice,
    // the first chat created in Bob's registry
    assert_eq!(chat_id.to_u32(), 10);
    assert_eq!(bob.chats[0].members, vec![bob.contacts[0].id]);

    // Alice observes the acknowledgment
    let m5 = mime_of(&bob.outbox[2], BOB_FP);
    let r5 = handle_securejoin_handshake(&mut alice, &m5, bob_cid).unwrap();
    assert!(matches!(r5, HandshakeMessage::Ignore));
}

#[test]
fn test_shortcut_skips_round_trip() {
    let mut alice = alice_ctx();
    let mut bob = bob_ctx();
    let qr = dc_get_securejoin_qr(&mut alice, ChatId::new(0), "invite01", "auth0001").unwrap();

    // Bob already holds Alice's matching key: the round trip is skipped
    bob.peerstates.push(peerstate("alice@example.org", ALICE_FP));
    let chat_id = dc_join_securejoin(&mut bob, &qr);
    assert!(!chat_id.is_error());

    // exactly one outbound message before the final confirm exchange,
    // and it is the request-with-auth
    assert_eq!(bob.outbox.len(), 1);
    assert_eq!(step_of(&bob.outbox[0]), "vc-request-with-auth");
    assert_eq!(bob.bob.expects, Expects::ContactConfirm);
}

#[test]
fn test_unknown_auth_token_never_verifies() {
    // a request-with-auth whose auth secret was never issued is
    // ignored and marks nobody verified
    let mut alice = alice_ctx();
    let _ = dc_get_securejoin_qr(&mut alice, ChatId::new(0), "invite01", "auth0001").unwrap();
    let bob_cid = alice.add_or_lookup_contact_by_addr("bob@example.net", Origin::ManuallyCreated);
    alice.peerstates.push(peerstate("bob@example.net", BOB_FP));

    let mut m = MimeMessage::new();
    m.secure_join = Some("vc-request-with-auth".to_string());
    m.secure_join_fingerprint = Some(BOB_FP.to_string());
    m.secure_join_auth = Some("not-a-token".to_string());
    m.encrypted = true;
    m.signatures = vec![BOB_FP.to_string()];

    let r = handle_securejoin_handshake(&mut alice, &m, bob_cid).unwrap();
    assert!(matches!(r, HandshakeMessage::Ignore));
    assert_eq!(alice.peerstates[0].verified_key_fingerprint, None);
    assert!(alice.outbox.is_empty());
    // the user sees the failure notice
    assert_eq!(alice.info_msgs.len(), 1);
    assert!(alice.info_msgs[0].1.contains("Cannot establish"));
}

#[test]
fn test_unencrypted_confirm_never_verifies() {
    // a contact-confirm that is not encrypted and signed by the
    // scanned fingerprint never marks the peer verified
    let mut alice = alice_ctx();
    let mut bob = bob_ctx();
    let qr = dc_get_securejoin_qr(&mut alice, ChatId::new(0), "invite01", "auth0001").unwrap();
    bob.peerstates.push(peerstate("alice@example.org", ALICE_FP));
    let _ = dc_join_securejoin(&mut bob, &qr);
    assert_eq!(bob.bob.expects, Expects::ContactConfirm);
    let alice_cid_in_bob = bob.contacts[0].id;

    // unencrypted confirm, all headers otherwise correct
    let mut m = MimeMessage::new();
    m.secure_join = Some("vc-contact-confirm".to_string());
    m.secure_join_fingerprint = Some(BOB_FP.to_string());
    let r = handle_securejoin_handshake(&mut bob, &m, alice_cid_in_bob).unwrap();
    assert!(matches!(r, HandshakeMessage::Ignore));
    assert_eq!(bob.peerstates[0].verified_key_fingerprint, None);
    assert_eq!(bob.bob.status, BobHandshakeStatus::Failure);

    // encrypted but signed by the wrong key: also never verified
    let mut bob2 = bob_ctx();
    bob2.peerstates.push(peerstate("alice@example.org", ALICE_FP));
    let _ = dc_join_securejoin(&mut bob2, &qr);
    let alice_cid2 = bob2.contacts[0].id;
    let mut m2 = MimeMessage::new();
    m2.secure_join = Some("vc-contact-confirm".to_string());
    m2.secure_join_fingerprint = Some(BOB_FP.to_string());
    m2.encrypted = true;
    m2.signatures = vec![BOB_FP.to_string()]; // not the scanned fingerprint
    let r2 = handle_securejoin_handshake(&mut bob2, &m2, alice_cid2).unwrap();
    assert!(matches!(r2, HandshakeMessage::Ignore));
    assert_eq!(bob2.peerstates[0].verified_key_fingerprint, None);
}

#[test]
fn test_out_of_order_step_is_ignored() {
    // an auth-required arriving while nothing is expected is ignored
    let mut bob = bob_ctx();
    let cid = bob.add_or_lookup_contact_by_addr("alice@example.org", Origin::ManuallyCreated);
    let mut m = MimeMessage::new();
    m.secure_join = Some("vc-auth-required".to_string());
    m.encrypted = true;
    m.signatures = vec![ALICE_FP.to_string()];
    let r = handle_securejoin_handshake(&mut bob, &m, cid).unwrap();
    assert!(matches!(r, HandshakeMessage::Ignore));
    assert!(bob.outbox.is_empty());
}

#[test]
fn test_unknown_step_and_missing_header() {
    let mut alice = alice_ctx();
    let cid = alice.add_or_lookup_contact_by_addr("bob@example.net", Origin::ManuallyCreated);

    let mut m = MimeMessage::new();
    m.secure_join = Some("vx-bogus-step".to_string());
    let r = handle_securejoin_handshake(&mut alice, &m, cid).unwrap();
    assert!(matches!(r, HandshakeMessage::Ignore));

    let m2 = MimeMessage::new();
    let r2 = handle_securejoin_handshake(&mut alice, &m2, cid);
    assert_eq!(r2, Err(HandshakeError::NotSecureJoinMsg));

    let m3 = MimeMessage::new();
    let r3 = handle_securejoin_handshake(&mut alice, &m3, 1);
    assert_eq!(r3, Err(HandshakeError::SpecialContactId));
}

#[test]
fn test_two_concurrent_handshakes() {
    // two joiners against the same inviter, with distinct invite
    // tokens, each validate their own token and keep their own state
    let mut alice = alice_ctx();
    // a group chat of Alice's; its invitation carries its own tokens
    alice.chats.push(ChatRecord {
        id: ChatId::new(10),
        typ: Chattype::VerifiedGroup,
        name: "the group".to_string(),
        grpid: "grp4711".to_string(),
        blocked: Blocked::Not,
        members: vec![],
    });
    let qr1 = dc_get_securejoin_qr(&mut alice, ChatId::new(0), "invA", "authA").unwrap();
    let qr2 = dc_get_securejoin_qr(&mut alice, ChatId::new(10), "invB", "authB").unwrap();
    assert!(qr1.contains("i=invA"));
    assert!(qr2.contains("i=invB"));

    let mut bob = bob_ctx();
    let mut carol = Context::new(Config {
        addr: Some("carol@example.com".to_string()),
        displayname: Some("Carol".to_string()),
        self_fingerprint: Some("AAAA567890ABCDEF1234567890ABCDEF1234AAAA".to_string()),
    });

    let b_chat = dc_join_securejoin(&mut bob, &qr1);
    let c_chat = dc_join_securejoin(&mut carol, &qr2);
    assert!(!b_chat.is_error());
    assert!(!c_chat.is_error());
    assert_eq!(step_of(&bob.outbox[0]), "vc-request");
    assert_eq!(step_of(&carol.outbox[0]), "vg-request");
    assert_eq!(bob.bob.expects, Expects::AuthRequired);
    assert_eq!(carol.bob.expects, Expects::AuthRequired);

    // the inviter validates each token independently
    let bob_cid = alice.add_or_lookup_contact_by_addr("bob@example.net", Origin::ManuallyCreated);
    let carol_cid =
        alice.add_or_lookup_contact_by_addr("carol@example.com", Origin::ManuallyCreated);
    let rb = handle_securejoin_handshake(&mut alice, &mime_of(&bob.outbox[0], BOB_FP), bob_cid)
        .unwrap();
    let rc = handle_securejoin_handshake(
        &mut alice,
        &mime_of(&carol.outbox[0], "AAAA567890ABCDEF1234567890ABCDEF1234AAAA"),
        carol_cid,
    )
    .unwrap();
    assert!(matches!(rb, HandshakeMessage::Done));
    assert!(matches!(rc, HandshakeMessage::Done));
    assert_eq!(step_of(&alice.outbox[0]), "vc-auth-required");
    assert_eq!(step_of(&alice.outbox[1]), "vg-auth-required");

    // neither joiner's expected-step state was touched by the other
    assert_eq!(bob.bob.expects, Expects::AuthRequired);
    assert_eq!(carol.bob.expects, Expects::AuthRequired);

    // a request with the wrong namespace's token is refused
    let mut m = MimeMessage::new();
    m.secure_join = Some("vc-request".to_string());
    m.secure_join_invitenumber = Some("authA".to_string());
    let r = handle_securejoin_handshake(&mut alice, &m, bob_cid).unwrap();
    assert!(matches!(r, HandshakeMessage::Ignore));
}

#[test]
fn test_observe_on_other_device() {
    // a second device of the inviter sees the self-sent confirm and
    // re-derives the verification outcome
    let mut device2 = alice_ctx();
    let bob_cid = device2.add_or_lookup_contact_by_addr("bob@example.net", Origin::ManuallyCreated);
    device2.peerstates.push(peerstate("bob@example.net", BOB_FP));

    let mut m = MimeMessage::new();
    m.secure_join = Some("vc-contact-confirm".to_string());
    m.secure_join_fingerprint = Some(BOB_FP.to_string());
    m.encrypted = true;
    m.signatures = vec![ALICE_FP.to_string()]; // self-signed

    let r = observe_securejoin_on_other_device(&mut device2, &m, bob_cid).unwrap();
    assert!(matches!(r, HandshakeMessage::Ignore));
    assert_eq!(
        device2.peerstates[0].verified_key_fingerprint.as_deref(),
        Some(BOB_FP)
    );

    // without a correct self-signature nothing is marked
    let mut device3 = alice_ctx();
    let cid3 = device3.add_or_lookup_contact_by_addr("bob@example.net", Origin::ManuallyCreated);
    device3.peerstates.push(peerstate("bob@example.net", BOB_FP));
    let mut m2 = MimeMessage::new();
    m2.secure_join = Some("vc-contact-confirm".to_string());
    m2.secure_join_fingerprint = Some(BOB_FP.to_string());
    m2.encrypted = true;
    m2.signatures = vec![BOB_FP.to_string()]; // not our key
    let r2 = observe_securejoin_on_other_device(&mut device3, &m2, cid3).unwrap();
    assert!(matches!(r2, HandshakeMessage::Ignore));
    assert_eq!(device3.peerstates[0].verified_key_fingerprint, None);
}

#[test]
fn test_handle_degrade_event() {
    let mut alice = alice_ctx();
    let _ = alice.add_or_lookup_contact_by_addr("bob@example.net", Origin::ManuallyCreated);
    let mut ps = peerstate("bob@example.net", BOB_FP);
    ps.degrade_event = Some(deltachat::peerstate::DegradeEvent::FingerprintChanged);
    let r = handle_degrade_event(&mut alice, &ps);
    assert!(r.is_ok());
    assert_eq!(alice.info_msgs.len(), 1);
    assert_eq!(alice.info_msgs[0].1, "Changed setup for bob@example.net");

    // no degradation: nothing happens
    let mut quiet = alice_ctx();
    let _ = quiet.add_or_lookup_contact_by_addr("bob@example.net", Origin::ManuallyCreated);
    let ps2 = peerstate("bob@example.net", BOB_FP);
    assert!(handle_degrade_event(&mut quiet, &ps2).is_ok());
    assert!(quiet.info_msgs.is_empty());

    // unknown address: an error
    let mut empty = alice_ctx();
    let mut ps3 = peerstate("nobody@example.net", BOB_FP);
    ps3.degrade_event = Some(deltachat::peerstate::DegradeEvent::FingerprintChanged);
    assert!(handle_degrade_event(&mut empty, &ps3).is_err());
}

#[test]
fn test_group_qr_text() {
    let mut alice = alice_ctx();
    alice.chats.push(ChatRecord {
        id: ChatId::new(10),
        typ: Chattype::VerifiedGroup,
        name: "pro gramming".to_string(),
        grpid: "grp4711".to_string(),
        blocked: Blocked::Not,
        members: vec![],
    });
    let qr = dc_get_securejoin_qr(&mut alice, ChatId::new(10), "invB", "authB").unwrap();
    assert_eq!(
        qr,
        format!(
            "OPENPGP4FPR:{}#a=alice%40example.org&g=pro%20gramming&x=grp4711&i=invB&s=authB",
            ALICE_FP
        )
    );
    // parsing it back yields a group invitation
    let mut bob = bob_ctx();
    let scan = check_qr(&mut bob, &qr);
    assert_eq!(scan.state, QrState::AskVerifyGroup);
    assert_eq!(scan.grpid, "grp4711");
    assert_eq!(scan.name, "pro gramming");
}

#[test]
fn test_qr_generation_needs_configuration() {
    // without a configured address or key there is no invitation
    let mut unconfigured = Context::new(Config {
        addr: None,
        displayname: None,
        self_fingerprint: None,
    });
    assert!(dc_get_securejoin_qr(&mut unconfigured, ChatId::new(0), "i", "s").is_none());

    let mut keyless = Context::new(Config {
        addr: Some("x@example.org".to_string()),
        displayname: None,
        self_fingerprint: None,
    });
    assert!(dc_get_securejoin_qr(&mut keyless, ChatId::new(0), "i", "s").is_none());

    // a group invitation for an unknown chat is refused
    let mut alice = alice_ctx();
    assert!(dc_get_securejoin_qr(&mut alice, ChatId::new(99), "i", "s").is_none());
}

#[test]
fn test_unknown_contact_gives_no_chat_error() {
    let mut alice = alice_ctx();
    let mut m = MimeMessage::new();
    m.secure_join = Some("vc-request".to_string());
    m.secure_join_invitenumber = Some("whatever".to_string());
    // contact id 100 was never created
    let r = handle_securejoin_handshake(&mut alice, &m, 100);
    assert_eq!(r, Err(HandshakeError::NoChat { contact_id: 100 }));
}

#[test]
fn test_unknown_group_gives_chat_not_found() {
    // a group request-with-auth naming an unknown group id fails hard,
    // after the peer was marked verified
    let mut alice = alice_ctx();
    alice.chats.push(ChatRecord {
        id: ChatId::new(10),
        typ: Chattype::VerifiedGroup,
        name: "the group".to_string(),
        grpid: "grp4711".to_string(),
        blocked: Blocked::Not,
        members: vec![],
    });
    let _ = dc_get_securejoin_qr(&mut alice, ChatId::new(10), "invB", "authB").unwrap();
    let bob_cid = alice.add_or_lookup_contact_by_addr("bob@example.net", Origin::ManuallyCreated);
    alice.peerstates.push(peerstate("bob@example.net", BOB_FP));

    let mut m = MimeMessage::new();
    m.secure_join = Some("vg-request-with-auth".to_string());
    m.secure_join_fingerprint = Some(BOB_FP.to_string());
    m.secure_join_auth = Some("authB".to_string());
    m.secure_join_group = Some("no-such-group".to_string());
    m.encrypted = true;
    m.signatures = vec![BOB_FP.to_string()];
    let r = handle_securejoin_handshake(&mut alice, &m, bob_cid);
    assert_eq!(r, Err(HandshakeError::ChatNotFound));
    assert_eq!(
        alice.peerstates[0].verified_key_fingerprint.as_deref(),
        Some(BOB_FP)
    );
}

#[test]
fn test_group_member_added_flow() {
    // the inviter adds the joiner to the group on a valid
    // vg-request-with-auth; the joiner closes its loop on the
    // vg-member-added naming its own address
    let mut alice = alice_ctx();
    alice.chats.push(ChatRecord {
        id: ChatId::new(10),
        typ: Chattype::VerifiedGroup,
        name: "the group".to_string(),
        grpid: "grp4711".to_string(),
        blocked: Blocked::Not,
        members: vec![],
    });
    let qr = dc_get_securejoin_qr(&mut alice, ChatId::new(10), "invB", "authB").unwrap();
    let bob_cid = alice.add_or_lookup_contact_by_addr("bob@example.net", Origin::ManuallyCreated);
    alice.peerstates.push(peerstate("bob@example.net", BOB_FP));

    let mut m = MimeMessage::new();
    m.secure_join = Some("vg-request-with-auth".to_string());
    m.secure_join_fingerprint = Some(BOB_FP.to_string());
    m.secure_join_auth = Some("authB".to_string());
    m.secure_join_group = Some("grp4711".to_string());
    m.encrypted = true;
    m.signatures = vec![BOB_FP.to_string()];
    let r = handle_securejoin_handshake(&mut alice, &m, bob_cid).unwrap();
    assert!(matches!(r, HandshakeMessage::Ignore));
    // the joiner is now a member of the group
    assert_eq!(alice.chats[0].members, vec![bob_cid]);

    // joiner side: Bob scanned the group invitation and awaits the
    // final member-added message
    let mut bob = bob_ctx();
    bob.peerstates.push(peerstate("alice@example.org", ALICE_FP));
    let chat_id = dc_join_securejoin(&mut bob, &qr);
    assert!(!chat_id.is_error());
    assert_eq!(step_of(&bob.outbox[0]), "vg-request-with-auth");

    // the member-added message doubles as the confirm; it names Bob
    let mut m2 = MimeMessage::new();
    m2.secure_join = Some("vg-member-added".to_string());
    m2.secure_join_fingerprint = Some(ALICE_FP.to_string());
    m2.chat_group_member_added = Some("bob@example.net".to_string());
    m2.encrypted = true;
    m2.signatures = vec![ALICE_FP.to_string()];
    let alice_cid_in_bob = bob.contacts[0].id;
    let r2 = handle_securejoin_handshake(&mut bob, &m2, alice_cid_in_bob).unwrap();
    assert!(matches!(r2, HandshakeMessage::Propagate));
    assert_eq!(bob.bob.status, BobHandshakeStatus::Success);
    assert_eq!(
        bob.peerstates[0].verified_key_fingerprint.as_deref(),
        Some(ALICE_FP)
    );
    assert_eq!(step_of(bob.outbox.last().unwrap()), "vg-member-added-received");

    // once the group chat exists locally, winding down the join
    // returns the group chat's id
    bob.chats.push(ChatRecord {
        id: ChatId::new(11),
        typ: Chattype::VerifiedGroup,
        name: "the group".to_string(),
        grpid: "grp4711".to_string(),
        blocked: Blocked::Not,
        members: vec![],
    });
    let ret = deltachat::securejoin::cleanup(&mut bob, chat_id, false, true);
    assert_eq!(ret.to_u32(), 11);
    assert_eq!(bob.bob.expects, Expects::Nothing);
    assert!(bob.bob.qr_scan.is_none());
}

#[test]
fn test_member_added_for_someone_else_keeps_waiting() {
    // a member-added naming a different member scales the contact up
    // but does not close this handshake
    let mut alice = alice_ctx();
    alice.chats.push(ChatRecord {
        id: ChatId::new(10),
        typ: Chattype::VerifiedGroup,
        name: "the group".to_string(),
        grpid: "grp4711".to_string(),
        blocked: Blocked::Not,
        members: vec![],
    });
    let qr = dc_get_securejoin_qr(&mut alice, ChatId::new(10), "invB", "authB").unwrap();
    let mut bob = bob_ctx();
    bob.peerstates.push(peerstate("alice@example.org", ALICE_FP));
    let _ = dc_join_securejoin(&mut bob, &qr);

    let mut m = MimeMessage::new();
    m.secure_join = Some("vg-member-added".to_string());
    m.secure_join_fingerprint = Some(ALICE_FP.to_string());
    m.chat_group_member_added = Some("carol@example.com".to_string());
    m.encrypted = true;
    m.signatures = vec![ALICE_FP.to_string()];
    let alice_cid_in_bob = bob.contacts[0].id;
    let r = handle_securejoin_handshake(&mut bob, &m, alice_cid_in_bob).unwrap();
    assert!(matches!(r, HandshakeMessage::Propagate));
    // still awaiting our own member-added
    assert_eq!(bob.bob.expects, Expects::ContactConfirm);
    assert_ne!(bob.bob.status, BobHandshakeStatus::Success);
}

#[test]
fn test_fingerprint_normalization_in_scan() {
    // a spaced, lower-case fingerprint in the invitation normalizes
    let mut bob = bob_ctx();
    let qr = "OPENPGP4FPR:12 34 56 78 90 ab cd ef 12 34 56 78 90 ab cd ef 12 34 56 78#a=alice%40example.org&i=x&s=y";
    let scan = check_qr(&mut bob, qr);
    assert_eq!(scan.state, QrState::AskVerifyContact);
    assert_eq!(scan.fingerprint, "1234567890ABCDEF1234567890ABCDEF12345678");
}

#[test]
fn test_inviter_progress_events() {
    let mut alice = alice_ctx();
    let _ = dc_get_securejoin_qr(&mut alice, ChatId::new(0), "invite01", "auth0001").unwrap();
    let bob_cid = alice.add_or_lookup_contact_by_addr("bob@example.net", Origin::ManuallyCreated);
    alice.peerstates.push(peerstate("bob@example.net", BOB_FP));

    let mut m = MimeMessage::new();
    m.secure_join = Some("vc-request".to_string());
    m.secure_join_invitenumber = Some("invite01".to_string());
    let _ = handle_securejoin_handshake(&mut alice, &m, bob_cid).unwrap();

    let mut m2 = MimeMessage::new();
    m2.secure_join = Some("vc-request-with-auth".to_string());
    m2.secure_join_fingerprint = Some(BOB_FP.to_string());
    m2.secure_join_auth = Some("auth0001".to_string());
    m2.encrypted = true;
    m2.signatures = vec![BOB_FP.to_string()];
    let _ = handle_securejoin_handshake(&mut alice, &m2, bob_cid).unwrap();

    let progresses: Vec<u32> = alice
        .events
        .iter()
        .filter_map(|e| match e {
            Event::SecurejoinInviterProgress { progress, .. } => Some(progress.to_u32()),
            _ => None,
        })
        .collect();
    assert_eq!(progresses, vec![300, 600, 1000]);
}
