use deltachat::chat::{
    Blocked, Chat, ChatId, ChatVisibility, Chattype, Direction, MuteDuration, msgtype_has_file,
};
use deltachat::message::{Params, Viewtype};

fn sample_chat() -> Chat {
    Chat {
        id: ChatId::new(42),
        typ: Chattype::Single,
        name: "bob".to_string(),
        visibility: ChatVisibility::Normal,
        grpid: String::new(),
        blocked: Blocked::Not,
        param: Params::new(),
        is_sending_locations: false,
        mute_duration: MuteDuration::NotMuted,
    }
}

#[test]
fn test_chat_id_classification() {
    assert!(ChatId::new(0).is_error());
    assert!(ChatId::new(0).is_unset());
    assert!(ChatId::new(0).is_special());
    assert!(ChatId::new(1).is_deaddrop());
    assert!(ChatId::new(3).is_trash());
    assert!(ChatId::new(5).is_starred());
    assert!(ChatId::new(6).is_archived_link());
    assert!(ChatId::new(7).is_alldone_hint());
    assert!(ChatId::new(9).is_special());
    assert!(!ChatId::new(10).is_special());
    assert_eq!(ChatId::new(10).to_u32(), 10);
}

#[test]
fn test_chat_getters() {
    let chat = sample_chat();
    assert_eq!(chat.get_id(), ChatId::new(42));
    assert_eq!(chat.get_type(), Chattype::Single);
    assert_eq!(chat.get_name(), "bob");
    assert_eq!(chat.get_visibility(), ChatVisibility::Normal);
    assert!(!chat.is_self_talk());
    assert!(!chat.is_device_talk());
    assert!(chat.can_send());
    assert!(!chat.is_verified());
    assert!(!chat.is_sending_locations());
    assert!(chat.is_promoted());
    assert!(!chat.is_unpromoted());
}

#[test]
fn test_self_and_device_talk() {
    let mut chat = sample_chat();
    chat.param.selftalk = Some(1);
    assert!(chat.is_self_talk());
    assert!(chat.can_send());

    let mut device = sample_chat();
    device.param.devicetalk = Some(1);
    assert!(device.is_device_talk());
    assert!(!device.can_send());

    let mut special = sample_chat();
    special.id = ChatId::new(3);
    assert!(!special.can_send());
}

#[test]
fn test_unpromoted() {
    let mut chat = sample_chat();
    chat.param.unpromoted = Some(1);
    assert!(chat.is_unpromoted());
    assert!(!chat.is_promoted());
    chat.param.unpromoted = Some(0);
    assert!(!chat.is_unpromoted());
}

#[test]
fn test_verified_group() {
    let mut chat = sample_chat();
    chat.typ = Chattype::VerifiedGroup;
    assert!(chat.is_verified());
    assert_eq!(chat.typ.to_u32(), 130);
    assert_eq!(Chattype::Single.to_u32(), 100);
    assert_eq!(Chattype::Group.to_u32(), 120);
    assert_eq!(Chattype::Undefined.to_u32(), 0);
}

#[test]
fn test_mute_duration() {
    let mut chat = sample_chat();
    assert!(!chat.is_muted(1000));
    chat.mute_duration = MuteDuration::Forever;
    assert!(chat.is_muted(1000));
    chat.mute_duration = MuteDuration::Until(2000);
    assert!(chat.is_muted(1999));
    assert!(!chat.is_muted(2000));
    assert!(!chat.is_muted(2001));
}

#[test]
fn test_get_info() {
    let mut chat = sample_chat();
    chat.visibility = ChatVisibility::Archived;
    let info = chat.get_info(0);
    assert_eq!(info.id, ChatId::new(42));
    assert_eq!(info.type_, 100);
    assert_eq!(info.name, "bob");
    assert!(info.archived);
    assert!(!info.is_muted);
}

#[test]
fn test_msgtype_has_file() {
    assert!(!msgtype_has_file(Viewtype::Unknown));
    assert!(!msgtype_has_file(Viewtype::Text));
    assert!(msgtype_has_file(Viewtype::Image));
    assert!(msgtype_has_file(Viewtype::Gif));
    assert!(msgtype_has_file(Viewtype::Sticker));
    assert!(msgtype_has_file(Viewtype::Audio));
    assert!(msgtype_has_file(Viewtype::Voice));
    assert!(msgtype_has_file(Viewtype::Video));
    assert!(msgtype_has_file(Viewtype::File));
}

#[test]
fn test_direction_and_blocked_defaults() {
    assert_eq!(Blocked::default(), Blocked::Not);
    assert_eq!(ChatVisibility::default(), ChatVisibility::Normal);
    assert_ne!(Direction::Forward, Direction::Backward);
}
