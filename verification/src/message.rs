//! In-memory messages and their typed parameters.
//!
//! Persistent storage serialises message parameters as a string-keyed
//! map; the closed set of parameters the engine reads and writes is
//! modelled as typed optional fields, which keeps every access exact.

use vstd::prelude::*;

use crate::mimeparser::SystemMessage;

verus! {

/// The kind of content a message carries.
#[derive(Debug, Copy, Clone, PartialEq, Eq, Structural)]
pub enum Viewtype {
    Unknown,
    Text,
    Image,
    Gif,
    Sticker,
    Audio,
    Voice,
    Video,
    File,
}

/// Force sending a message in plaintext, optionally with the sender's
/// public key attached as a header.
#[derive(Debug, Copy, Clone, PartialEq, Eq, Structural)]
pub enum ForcePlaintext {
    AddAutocryptHeader,
}

/// Typed parameters of a message.
///
/// `arg`..`arg4` are the positional protocol parameters of system
/// messages; for Secure-Join messages they carry the step name, the
/// shared secret, the fingerprint and the group id.
#[derive(Debug, Clone)]
pub struct Params {
    /// System-message classification of the message.
    pub cmd: SystemMessage,
    /// First positional parameter: the handshake step name.
    pub arg: Option<String>,
    /// Second positional parameter: `auth` or `invitenumber` secret.
    pub arg2: Option<String>,
    /// Third positional parameter: a key fingerprint.
    pub arg3: Option<String>,
    /// Fourth positional parameter: a group id.
    pub arg4: Option<String>,
    /// When set, the message is sent unencrypted.
    pub force_plaintext: Option<ForcePlaintext>,
    /// When set to 1, sending must guarantee end-to-end encryption.
    pub guarantee_e2ee: Option<i32>,
    /// Marks the self-chat.
    pub selftalk: Option<i32>,
    /// Marks the device-message chat.
    pub devicetalk: Option<i32>,
    /// Set to 1 while a group chat has not yet been promoted.
    pub unpromoted: Option<i32>,
}

impl Params {
    /// Whether no parameter is set.
    pub open spec fn is_empty(self) -> bool {
        &&& self.cmd == SystemMessage::Unknown
        &&& self.arg is None
        &&& self.arg2 is None
        &&& self.arg3 is None
        &&& self.arg4 is None
        &&& self.force_plaintext is None
        &&& self.guarantee_e2ee is None
        &&& self.selftalk is None
        &&& self.devicetalk is None
        &&& self.unpromoted is None
    }

    /// Empty parameter set.
    pub fn new() -> (r: Params)
        ensures
            r.cmd == SystemMessage::Unknown,
            r.is_empty(),
            r.arg is None,
            r.arg2 is None,
            r.arg3 is None,
            r.arg4 is None,
            r.force_plaintext is None,
            r.guarantee_e2ee is None,
            r.selftalk is None,
            r.devicetalk is None,
            r.unpromoted is None,
    {
        Params {
            cmd: SystemMessage::Unknown,
            arg: None,
            arg2: None,
            arg3: None,
            arg4: None,
            force_plaintext: None,
            guarantee_e2ee: None,
            selftalk: None,
            devicetalk: None,
            unpromoted: None,
        }
    }

    /// Classify the message as the given kind of system message.
    pub fn set_cmd(&mut self, cmd: SystemMessage)
        ensures
            *final(self) == (Params { cmd, ..*old(self) }),
    {
        self.cmd = cmd;
    }

    /// The system-message classification.
    pub fn get_cmd(&self) -> (r: SystemMessage)
        ensures
            r == self.cmd,
    {
        self.cmd
    }
}

/// An in-memory message as handed to the send path.
#[derive(Debug, Clone)]
pub struct Message {
    /// Kind of content.
    pub viewtype: Viewtype,
    /// Message text.
    pub text: Option<String>,
    /// Hidden messages are not shown in the chat.
    pub hidden: bool,
    /// Typed parameters.
    pub param: Params,
}

impl Message {
    /// A fresh, empty text-less message.
    pub fn new() -> (r: Message)
        ensures
            r.viewtype == Viewtype::Unknown,
            r.text is None,
            !r.hidden,
            r.param.is_empty(),
    {
        Message { viewtype: Viewtype::Unknown, text: None, hidden: false, param: Params::new() }
    }
}

} // verus!
