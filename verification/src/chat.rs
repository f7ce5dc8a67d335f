//! Chat identifiers and chat objects.
//!
//! Some chat ids are reserved for special, virtual chats; real chats get
//! ids above [`DC_CHAT_ID_LAST_SPECIAL`].

use vstd::prelude::*;

use crate::message::{Params, Viewtype};

verus! {

/// Chat id indicating an error; also used as the "unset" chat id.
pub const DC_CHAT_ID_ERROR: u32 = 0;

/// Virtual chat showing all messages belonging to blocked "deaddrop" chats.
pub const DC_CHAT_ID_DEADDROP: u32 = 1;

/// Chat id for messages which need to be deleted.
pub const DC_CHAT_ID_TRASH: u32 = 3;

/// Virtual chat showing all starred messages.
pub const DC_CHAT_ID_STARRED: u32 = 5;

/// Virtual chat signalling that any number of archived chats exist.
pub const DC_CHAT_ID_ARCHIVED_LINK: u32 = 6;

/// Virtual chat signalling that only archived chats are left.
pub const DC_CHAT_ID_ALLDONE_HINT: u32 = 7;

/// Largest reserved chat id; every real chat has a larger id.
pub const DC_CHAT_ID_LAST_SPECIAL: u32 = 9;

/// A chat id: either one of the reserved special ids above or the id of a
/// real chat.
#[derive(Debug, Copy, Clone, PartialEq, Eq, Structural)]
pub struct ChatId(u32);

impl ChatId {
    /// The raw id, for use in specifications.
    pub closed spec fn id(self) -> u32 {
        self.0
    }

    /// Create a new [`ChatId`] from a raw id.
    pub fn new(id: u32) -> (r: ChatId)
        ensures
            r.id() == id,
    {
        ChatId(id)
    }

    /// Whether this chat id indicates an error.
    pub fn is_error(self) -> (r: bool)
        ensures
            r == (self.id() == DC_CHAT_ID_ERROR),
    {
        self.0 == DC_CHAT_ID_ERROR
    }

    /// Whether this chat id is unset; indistinguishable from the error id.
    pub fn is_unset(self) -> (r: bool)
        ensures
            r == (self.id() == DC_CHAT_ID_ERROR),
    {
        self.0 == DC_CHAT_ID_ERROR
    }

    /// Whether the chat id signifies a special, virtual chat that can not
    /// be used as a real chat.
    pub fn is_special(self) -> (r: bool)
        ensures
            r == (self.id() <= DC_CHAT_ID_LAST_SPECIAL),
    {
        self.0 <= DC_CHAT_ID_LAST_SPECIAL
    }

    /// Whether this is the deaddrop chat.
    pub fn is_deaddrop(self) -> (r: bool)
        ensures
            r == (self.id() == DC_CHAT_ID_DEADDROP),
    {
        self.0 == DC_CHAT_ID_DEADDROP
    }

    /// Whether this is the trash chat holding messages awaiting deletion.
    pub fn is_trash(self) -> (r: bool)
        ensures
            r == (self.id() == DC_CHAT_ID_TRASH),
    {
        self.0 == DC_CHAT_ID_TRASH
    }

    /// Whether this is the virtual chat of starred messages.
    pub fn is_starred(self) -> (r: bool)
        ensures
            r == (self.id() == DC_CHAT_ID_STARRED),
    {
        self.0 == DC_CHAT_ID_STARRED
    }

    /// Whether this is the virtual link to the archived chats.
    pub fn is_archived_link(self) -> (r: bool)
        ensures
            r == (self.id() == DC_CHAT_ID_ARCHIVED_LINK),
    {
        self.0 == DC_CHAT_ID_ARCHIVED_LINK
    }

    /// Whether this is the virtual hint that only archived chats are left.
    pub fn is_alldone_hint(self) -> (r: bool)
        ensures
            r == (self.id() == DC_CHAT_ID_ALLDONE_HINT),
    {
        self.0 == DC_CHAT_ID_ALLDONE_HINT
    }

    /// The raw numeric value of this chat id.
    pub fn to_u32(self) -> (r: u32)
        ensures
            r == self.id(),
    {
        self.0
    }
}

/// The type of a chat.
#[derive(Debug, Copy, Clone, PartialEq, Eq, Structural)]
pub enum Chattype {
    Undefined,
    /// A one-to-one chat with a single contact.
    Single,
    /// A group chat.
    Group,
    /// A group chat restricted to mutually verified members.
    VerifiedGroup,
}

impl Chattype {
    /// The numeric value the external API uses for this chat type.
    pub fn to_u32(self) -> (r: u32)
        ensures
            r == match self {
                Chattype::Undefined => 0u32,
                Chattype::Single => 100u32,
                Chattype::Group => 120u32,
                Chattype::VerifiedGroup => 130u32,
            },
    {
        match self {
            Chattype::Undefined => 0,
            Chattype::Single => 100,
            Chattype::Group => 120,
            Chattype::VerifiedGroup => 130,
        }
    }
}

/// Whether a chat is blocked, shown in the contact-request list, or not.
#[derive(Debug, Copy, Clone, PartialEq, Eq, Structural)]
pub enum Blocked {
    /// Not blocked: a normal chat.
    Not,
    /// Blocked by the user.
    Manually,
    /// Shown only in the deaddrop (contact requests).
    Deaddrop,
}

impl Default for Blocked {
    /// By default a chat is not blocked.
    fn default() -> (r: Self)
        ensures
            r == Blocked::Not,
    {
        Blocked::Not
    }
}

/// Visibility of a chat in the chat list.
#[derive(Debug, Copy, Clone, PartialEq, Eq, Structural)]
pub enum ChatVisibility {
    Normal,
    Archived,
    Pinned,
}

impl Default for ChatVisibility {
    /// By default a chat is neither archived nor pinned.
    fn default() -> (r: Self)
        ensures
            r == ChatVisibility::Normal,
    {
        ChatVisibility::Normal
    }
}

/// How long a chat is muted.
///
/// A point in time is a number of non-leap seconds since the Unix epoch,
/// as the rest of the engine hands timestamps around.
#[derive(Debug, Clone, PartialEq, Eq, Structural)]
pub enum MuteDuration {
    NotMuted,
    Forever,
    /// Muted until the given time.
    Until(i64),
}

/// Indicates the direction over which to iterate.
#[derive(Debug, Clone, PartialEq, Eq, Structural)]
pub enum Direction {
    Forward,
    Backward,
}

/// An object representing a single chat in memory.
#[derive(Debug, Clone)]
pub struct Chat {
    /// The id of the chat.
    pub id: ChatId,
    /// The type of the chat.
    pub typ: Chattype,
    /// Display name.
    pub name: String,
    /// Visibility in the chat list.
    pub visibility: ChatVisibility,
    /// The group id shared with the other members; empty for 1:1 chats.
    pub grpid: String,
    /// Whether the chat is blocked.
    pub blocked: Blocked,
    /// Typed chat parameters.
    pub param: Params,
    /// Whether location streaming is enabled in the chat.
    pub is_sending_locations: bool,
    /// How long the chat is muted.
    pub mute_duration: MuteDuration,
}

impl Chat {
    /// Whether this is the chat with oneself ("saved messages").
    pub fn is_self_talk(&self) -> (r: bool)
        ensures
            r == (self.param.selftalk is Some),
    {
        self.param.selftalk.is_some()
    }

    /// Returns true if chat is a device chat.
    pub fn is_device_talk(&self) -> (r: bool)
        ensures
            r == (self.param.devicetalk is Some),
    {
        self.param.devicetalk.is_some()
    }

    /// Returns true if user can send messages to this chat.
    pub fn can_send(&self) -> (r: bool)
        ensures
            r == (self.id.id() > DC_CHAT_ID_LAST_SPECIAL && self.param.devicetalk is None),
    {
        !self.id.is_special() && !self.is_device_talk()
    }

    /// Returns chat ID.
    pub fn get_id(&self) -> (r: ChatId)
        ensures
            r == self.id,
    {
        self.id
    }

    /// Returns chat type.
    pub fn get_type(&self) -> (r: Chattype)
        ensures
            r == self.typ,
    {
        self.typ
    }

    /// Returns chat name.
    pub fn get_name(&self) -> (r: &str)
        ensures
            r@ == self.name@,
    {
        self.name.as_str()
    }

    /// Returns the visibility of the chat in the chat list.
    pub fn get_visibility(&self) -> (r: ChatVisibility)
        ensures
            r == self.visibility,
    {
        self.visibility
    }

    /// Whether the group chat has not yet been promoted, that is, no
    /// message has been sent to it yet.
    pub fn is_unpromoted(&self) -> (r: bool)
        ensures
            r == (self.param.unpromoted == Some(1i32)),
    {
        match self.param.unpromoted {
            Some(v) => v == 1,
            None => false,
        }
    }

    /// Whether at least one message has been sent to the group chat.
    pub fn is_promoted(&self) -> (r: bool)
        ensures
            r == (self.param.unpromoted != Some(1i32)),
    {
        !self.is_unpromoted()
    }

    /// Returns true if chat is a verified group chat.
    pub fn is_verified(&self) -> (r: bool)
        ensures
            r == (self.typ == Chattype::VerifiedGroup),
    {
        match self.typ {
            Chattype::VerifiedGroup => true,
            _ => false,
        }
    }

    /// Returns true if location streaming is enabled in the chat.
    pub fn is_sending_locations(&self) -> (r: bool)
        ensures
            r == self.is_sending_locations,
    {
        self.is_sending_locations
    }

    /// Whether the chat is muted at the given time.
    pub fn is_muted(&self, now: i64) -> (r: bool)
        ensures
            r == match self.mute_duration {
                MuteDuration::NotMuted => false,
                MuteDuration::Forever => true,
                MuteDuration::Until(when) => when > now,
            },
    {
        match self.mute_duration {
            MuteDuration::NotMuted => false,
            MuteDuration::Forever => true,
            MuteDuration::Until(when) => when > now,
        }
    }

    /// Returns a struct describing the current state of the chat.
    pub fn get_info(&self, now: i64) -> (r: ChatInfo)
        ensures
            r.id == self.id,
            r.type_ == match self.typ {
                Chattype::Undefined => 0u32,
                Chattype::Single => 100u32,
                Chattype::Group => 120u32,
                Chattype::VerifiedGroup => 130u32,
            },
            r.name@ == self.name@,
            r.archived == (self.visibility == ChatVisibility::Archived),
            r.is_sending_locations == self.is_sending_locations,
            r.is_muted == match self.mute_duration {
                MuteDuration::NotMuted => false,
                MuteDuration::Forever => true,
                MuteDuration::Until(when) => when > now,
            },
    {
        ChatInfo {
            id: self.id,
            type_: self.typ.to_u32(),
            name: self.name.clone(),
            archived: match self.visibility {
                ChatVisibility::Archived => true,
                _ => false,
            },
            is_sending_locations: self.is_sending_locations(),
            is_muted: self.is_muted(now),
        }
    }
}

/// The current state of a chat, as handed to the external API.
#[derive(Debug, Clone)]
pub struct ChatInfo {
    /// The chat ID.
    pub id: ChatId,
    /// The type of chat as its numeric external value.
    pub type_: u32,
    /// The name of the chat.
    pub name: String,
    /// Whether the chat is archived.
    pub archived: bool,
    /// Whether this chat is currently sending location-stream messages.
    pub is_sending_locations: bool,
    /// Whether the chat is muted.
    pub is_muted: bool,
}

/// Whether a message of the given type carries a file attachment.
pub fn msgtype_has_file(msgtype: Viewtype) -> (r: bool)
    ensures
        r == match msgtype {
            Viewtype::Unknown => false,
            Viewtype::Text => false,
            _ => true,
        },
{
    match msgtype {
        Viewtype::Unknown => false,
        Viewtype::Text => false,
        Viewtype::Image => true,
        Viewtype::Gif => true,
        Viewtype::Sticker => true,
        Viewtype::Audio => true,
        Viewtype::Voice => true,
        Viewtype::Video => true,
        Viewtype::File => true,
    }
}

} // verus!
