//! The engine context: the state the handshake reads and writes.
//!
//! Persistent storage and the message transport are external
//! collaborators; the context models exactly what the handshake needs
//! from them — the address book, the chat registry, the token store,
//! the peer trust records, the outbox of messages handed to the
//! transport, and the emitted events — as plain in-memory values.

use vstd::prelude::*;

use crate::chat::{Blocked, ChatId, Chattype, DC_CHAT_ID_LAST_SPECIAL};
use crate::contact::{Contact, Origin, DC_CONTACT_ID_LAST_SPECIAL};
use crate::events::Event;
use crate::message::Message;
use crate::mimeparser::str_eq;
use crate::peerstate::Peerstate;
use crate::scheduler::{interrupt_spec, ConnKind, InterruptInfo, Scheduler};
use crate::securejoin::BobState;
use crate::token::{Namespace, TokenRecord};

verus! {

/// More contacts than any address book will hold; keeps id assignment
/// within `u32`.
pub const CONTACT_CAPACITY: u32 = 1000000000;

/// More chats than any registry will hold; keeps id assignment within
/// `u32`.
pub const CHAT_CAPACITY: u32 = 1000000000;

/// The account configuration the handshake reads.
#[derive(Debug, Clone)]
pub struct Config {
    /// The configured own address, once the account is configured.
    pub addr: Option<String>,
    /// The display name shown to others.
    pub displayname: Option<String>,
    /// The fingerprint of the own public key, once a key exists.
    pub self_fingerprint: Option<String>,
}

/// One chat in the registry.
#[derive(Debug, Clone)]
pub struct ChatRecord {
    /// The chat id.
    pub id: ChatId,
    /// The type of the chat.
    pub typ: Chattype,
    /// Display name.
    pub name: String,
    /// Group id shared with other members; empty for 1:1 chats.
    pub grpid: String,
    /// Whether the chat is blocked.
    pub blocked: Blocked,
    /// Ids of the member contacts.
    pub members: Vec<u32>,
}

/// A message handed to the outbound transport.
#[derive(Debug, Clone)]
pub struct SentMessage {
    /// The chat the message belongs to.
    pub chat_id: ChatId,
    /// The message itself.
    pub msg: Message,
}

/// The ongoing-process slot: at most one long-running user-visible
/// operation runs at a time and can be asked to stop.
#[derive(Debug, Copy, Clone, PartialEq, Eq, Structural)]
pub enum Ongoing {
    /// No ongoing process is allocated.
    Idle,
    /// An ongoing process runs; `shall_stop` asks it to wind down.
    Running { shall_stop: bool },
}

/// The in-memory engine state.
#[derive(Debug, Clone)]
pub struct Context {
    /// Account configuration.
    pub config: Config,
    /// The address book; contact ids are assigned in order.
    pub contacts: Vec<Contact>,
    /// The chat registry; chat ids are assigned in order.
    pub chats: Vec<ChatRecord>,
    /// The handshake token store.
    pub tokens: Vec<TokenRecord>,
    /// Trust records, one per known peer address.
    pub peerstates: Vec<Peerstate>,
    /// The joiner-side handshake state.
    pub bob: BobState,
    /// The ongoing-process slot.
    pub ongoing: Ongoing,
    /// Messages handed to the outbound transport, in order.
    pub outbox: Vec<SentMessage>,
    /// Info messages posted into chats, in order.
    pub info_msgs: Vec<(ChatId, String)>,
    /// Events emitted towards the embedder, in order.
    pub events: Vec<Event>,
    /// The job and connection scheduler.
    pub scheduler: Scheduler,
}

impl Context {
    /// The contact id that position `i` of the address book holds.
    pub open spec fn contact_id_at(i: int) -> u32 {
        (DC_CONTACT_ID_LAST_SPECIAL + 1 + i) as u32
    }

    /// The chat id that position `i` of the chat registry holds.
    pub open spec fn chat_id_at(i: int) -> u32 {
        (DC_CHAT_ID_LAST_SPECIAL + 1 + i) as u32
    }

    /// Well-formedness: ids are dense and in range, and peer trust
    /// records are unique per address.
    pub open spec fn wf(self) -> bool {
        &&& self.contacts@.len() <= CONTACT_CAPACITY
        &&& forall|i: int|
            0 <= i < self.contacts@.len() ==> (#[trigger] self.contacts@[i]).id
                == Self::contact_id_at(i)
        &&& self.chats@.len() <= CHAT_CAPACITY
        &&& forall|i: int|
            0 <= i < self.chats@.len() ==> (#[trigger] self.chats@[i]).id.id() == Self::chat_id_at(
                i,
            )
        &&& forall|i: int, j: int|
            0 <= i < j < self.peerstates@.len() ==> (#[trigger] self.peerstates@[i]).addr@ != (
            #[trigger] self.peerstates@[j]).addr@
    }

    /// A fresh context for an account with the given configuration.
    pub fn new(config: Config) -> (r: Context)
        ensures
            r.wf(),
            r.config == config,
            r.contacts@.len() == 0,
            r.chats@.len() == 0,
            r.tokens@.len() == 0,
            r.peerstates@.len() == 0,
            r.bob.is_reset(),
            r.ongoing == Ongoing::Idle,
            r.outbox@.len() == 0,
            r.info_msgs@.len() == 0,
            r.events@.len() == 0,
            r.scheduler is Stopped,
    {
        Context {
            config,
            contacts: Vec::new(),
            chats: Vec::new(),
            tokens: Vec::new(),
            peerstates: Vec::new(),
            bob: BobState::new(),
            ongoing: Ongoing::Idle,
            outbox: Vec::new(),
            info_msgs: Vec::new(),
            events: Vec::new(),
            scheduler: Scheduler::Stopped,
        }
    }

    /// Whether a contact with this id exists (reserved ids do not count).
    pub open spec fn has_contact(self, contact_id: u32) -> bool {
        DC_CONTACT_ID_LAST_SPECIAL < contact_id && contact_id < DC_CONTACT_ID_LAST_SPECIAL + 1
            + self.contacts@.len()
    }

    /// The address-book position of the contact with the given id.
    pub open spec fn contact_index(contact_id: u32) -> int {
        contact_id - (DC_CONTACT_ID_LAST_SPECIAL + 1)
    }

    /// The contact with the given id, which must exist.
    pub open spec fn spec_contact(self, contact_id: u32) -> Contact {
        self.contacts@[Self::contact_index(contact_id)]
    }

    /// Whether a chat with this id exists (reserved ids do not count).
    pub open spec fn has_chat(self, chat_id: ChatId) -> bool {
        DC_CHAT_ID_LAST_SPECIAL < chat_id.id() && chat_id.id() < DC_CHAT_ID_LAST_SPECIAL + 1
            + self.chats@.len()
    }

    /// The registry position of the chat with the given id.
    pub open spec fn chat_index(chat_id: ChatId) -> int {
        chat_id.id() - (DC_CHAT_ID_LAST_SPECIAL + 1)
    }

    /// The chat with the given id, which must exist.
    pub open spec fn spec_chat(self, chat_id: ChatId) -> ChatRecord {
        self.chats@[Self::chat_index(chat_id)]
    }

    /// Look up a contact by id.
    pub fn get_contact_by_id(&self, contact_id: u32) -> (r: Option<&Contact>)
        requires
            self.wf(),
        ensures
            match r {
                Some(c) => self.has_contact(contact_id) && *c == self.spec_contact(contact_id),
                None => !self.has_contact(contact_id),
            },
    {
        if contact_id <= DC_CONTACT_ID_LAST_SPECIAL {
            return None;
        }
        let idx = (contact_id - (DC_CONTACT_ID_LAST_SPECIAL + 1)) as usize;
        if idx < self.contacts.len() {
            Some(&self.contacts[idx])
        } else {
            None
        }
    }

    /// Look up a chat by id.
    pub fn get_chat_by_id(&self, chat_id: ChatId) -> (r: Option<&ChatRecord>)
        requires
            self.wf(),
        ensures
            match r {
                Some(c) => self.has_chat(chat_id) && *c == self.spec_chat(chat_id),
                None => !self.has_chat(chat_id),
            },
    {
        let raw = chat_id.to_u32();
        if raw <= DC_CHAT_ID_LAST_SPECIAL {
            return None;
        }
        let idx = (raw - (DC_CHAT_ID_LAST_SPECIAL + 1)) as usize;
        if idx < self.chats.len() {
            Some(&self.chats[idx])
        } else {
            None
        }
    }

    /// Look up a contact by address, or add it to the address book.
    /// Returns the contact's id.
    pub fn add_or_lookup_contact_by_addr(&mut self, addr: &str, origin: Origin) -> (r: u32)
        requires
            old(self).wf(),
            old(self).contacts@.len() < CONTACT_CAPACITY,
        ensures
            final(self).wf(),
            final(self).has_contact(r),
            final(self).spec_contact(r).addr@ == addr@,
            // an existing entry is reused, with everything unchanged
            (exists|i: int|
                0 <= i < old(self).contacts@.len() && (#[trigger] old(self).contacts@[i]).addr@
                    == addr@) ==> *final(self) == *old(self) && old(self).spec_contact(r).addr@
                == addr@,
            // otherwise exactly one contact is appended
            (forall|i: int|
                0 <= i < old(self).contacts@.len() ==> (#[trigger] old(self).contacts@[i]).addr@
                    != addr@) ==> {
                &&& final(self).contacts@.len() == old(self).contacts@.len() + 1
                &&& final(self).contacts@ =~= old(self).contacts@.push(
                    final(self).contacts@.last(),
                )
                &&& final(self).contacts@.last().addr@ == addr@
                &&& final(self).contacts@.last().origin == origin
                &&& r == Self::contact_id_at(old(self).contacts@.len() as int)
                &&& *final(self) == (Context { contacts: final(self).contacts, ..*old(self) })
            },
    {
        let n = self.contacts.len();
        let mut i: usize = 0;
        while i < n
            invariant
                n == self.contacts@.len(),
                0 <= i <= n,
                self.wf(),
                forall|j: int| 0 <= j < i ==> (#[trigger] self.contacts@[j]).addr@ != addr@,
            decreases n - i,
        {
            if str_eq(self.contacts[i].addr.as_str(), addr) {
                let id = self.contacts[i].id;
                assert(self.spec_contact(id) == self.contacts@[i as int]);
                return id;
            }
            i += 1;
        }
        let id = DC_CONTACT_ID_LAST_SPECIAL + 1 + (n as u32);
        let contact = Contact { id, addr: addr.to_owned(), origin };
        self.contacts.push(contact);
        id
    }

    /// Post an info message into a chat.
    pub fn add_info_msg(&mut self, chat_id: ChatId, text: String)
        ensures
            final(self).info_msgs@ == old(self).info_msgs@.push((chat_id, text)),
            *final(self) == (Context { info_msgs: final(self).info_msgs, ..*old(self) }),
    {
        self.info_msgs.push((chat_id, text));
    }

    /// Emit an event towards the embedder.
    pub fn emit_event(&mut self, event: Event)
        ensures
            final(self).events@ == old(self).events@.push(event),
            *final(self) == (Context { events: final(self).events, ..*old(self) }),
    {
        self.events.push(event);
    }

    /// Whether `addr` is the configured own address.
    pub fn is_self_addr(&self, addr: &str) -> (r: Result<bool, ()>)
        ensures
            match r {
                Ok(b) => self.config.addr matches Some(a) && b == (a@ == addr@),
                Err(_) => self.config.addr is None,
            },
    {
        match &self.config.addr {
            Some(a) => Ok(str_eq(a.as_str(), addr)),
            None => Err(()),
        }
    }

    /// Try to allocate the ongoing-process slot.
    pub fn alloc_ongoing(&mut self) -> (r: Result<(), ()>)
        ensures
            match r {
                Ok(_) => old(self).ongoing == Ongoing::Idle && final(self).ongoing
                    == (Ongoing::Running { shall_stop: false }) && *final(self) == (Context {
                    ongoing: final(self).ongoing,
                    ..*old(self)
                }),
                Err(_) => old(self).ongoing is Running && *final(self) == *old(self),
            },
    {
        match self.ongoing {
            Ongoing::Idle => {
                self.ongoing = Ongoing::Running { shall_stop: false };
                Ok(())
            },
            Ongoing::Running { .. } => Err(()),
        }
    }

    /// Free the ongoing-process slot.
    pub fn free_ongoing(&mut self)
        ensures
            final(self).ongoing == Ongoing::Idle,
            *final(self) == (Context { ongoing: final(self).ongoing, ..*old(self) }),
    {
        self.ongoing = Ongoing::Idle;
    }

    /// Signal the ongoing process to stop.
    pub fn stop_ongoing(&mut self)
        ensures
            final(self).ongoing == match old(self).ongoing {
                Ongoing::Idle => Ongoing::Idle,
                Ongoing::Running { .. } => Ongoing::Running { shall_stop: true },
            },
            *final(self) == (Context { ongoing: final(self).ongoing, ..*old(self) }),
    {
        match self.ongoing {
            Ongoing::Idle => {},
            Ongoing::Running { .. } => {
                self.ongoing = Ongoing::Running { shall_stop: true };
            },
        }
    }

    /// Whether the ongoing process was asked to stop.
    pub fn shall_stop_ongoing(&self) -> (r: bool)
        ensures
            r == (self.ongoing == (Ongoing::Running { shall_stop: true })),
    {
        match self.ongoing {
            Ongoing::Running { shall_stop } => shall_stop,
            Ongoing::Idle => false,
        }
    }

    /// Whether `c` is the 1:1 chat with exactly the given contact.
    pub open spec fn is_single_chat_of(c: ChatRecord, contact_id: u32) -> bool {
        c.typ == Chattype::Single && c.members@ == seq![contact_id]
    }

    /// Look up the 1:1 chat with a contact, or create it with the given
    /// blocked state.  Fails exactly when the contact does not exist.
    pub fn create_or_lookup_by_contact_id(&mut self, contact_id: u32, create_blocked: Blocked) -> (r:
        Result<(ChatId, Blocked), ()>)
        requires
            old(self).wf(),
            old(self).chats@.len() < CHAT_CAPACITY,
        ensures
            final(self).wf(),
            !old(self).has_contact(contact_id) ==> r is Err && *final(self) == *old(self),
            old(self).has_contact(contact_id) ==> (r matches Ok((id, bl)) && {
                if exists|i: int|
                    0 <= i < old(self).chats@.len() && Self::is_single_chat_of(
                        #[trigger] old(self).chats@[i],
                        contact_id,
                    ) {
                    &&& *final(self) == *old(self)
                    &&& final(self).has_chat(id)
                    &&& Self::is_single_chat_of(final(self).spec_chat(id), contact_id)
                    &&& bl == final(self).spec_chat(id).blocked
                    &&& forall|j: int|
                        0 <= j < Self::chat_index(id) ==> !Self::is_single_chat_of(
                            #[trigger] old(self).chats@[j],
                            contact_id,
                        )
                } else {
                    &&& final(self).chats@.len() == old(self).chats@.len() + 1
                    &&& final(self).chats@ == old(self).chats@.push(final(self).chats@.last())
                    &&& final(self).chats@.last().typ == Chattype::Single
                    &&& final(self).chats@.last().members@ == seq![contact_id]
                    &&& final(self).chats@.last().blocked == create_blocked
                    &&& final(self).chats@.last().grpid@ == Seq::<char>::empty()
                    &&& id == final(self).chats@.last().id
                    &&& final(self).has_chat(id)
                    &&& bl == create_blocked
                    &&& *final(self) == (Context { chats: final(self).chats, ..*old(self) })
                }
            }),
    {
        if self.get_contact_by_id(contact_id).is_none() {
            return Err(());
        }
        let addr = self.get_contact_by_id(contact_id).unwrap().addr.clone();
        let n = self.chats.len();
        let mut i: usize = 0;
        while i < n
            invariant
                n == self.chats@.len(),
                0 <= i <= n,
                self.wf(),
                *self == *old(self),
                old(self).has_contact(contact_id),
                forall|j: int|
                    0 <= j < i ==> !Self::is_single_chat_of(
                        #[trigger] self.chats@[j],
                        contact_id,
                    ),
            decreases n - i,
        {
            let c = &self.chats[i];
            let single = match c.typ {
                Chattype::Single => true,
                _ => false,
            };
            if single && c.members.len() == 1 && c.members[0] == contact_id {
                assert(c.members@ =~= seq![contact_id]);
                assert(Self::is_single_chat_of(self.chats@[i as int], contact_id));
                assert(Self::chat_index(c.id) == i as int);
                return Ok((c.id, c.blocked));
            }
            assert(!Self::is_single_chat_of(self.chats@[i as int], contact_id));
            i += 1;
        }
        let id = ChatId::new(DC_CHAT_ID_LAST_SPECIAL + 1 + (n as u32));
        let mut members: Vec<u32> = Vec::new();
        members.push(contact_id);
        assert(members@ =~= seq![contact_id]);
        let chat = ChatRecord {
            id,
            typ: Chattype::Single,
            name: addr,
            grpid: String::new(),
            blocked: create_blocked,
            members,
        };
        self.chats.push(chat);
        Ok((id, create_blocked))
    }

    /// Create the 1:1 chat with a contact, unblocked.  Fails exactly
    /// when the contact does not exist.
    pub fn create_by_contact_id(&mut self, contact_id: u32) -> (r: Result<ChatId, ()>)
        requires
            old(self).wf(),
            old(self).chats@.len() < CHAT_CAPACITY,
        ensures
            final(self).wf(),
            !old(self).has_contact(contact_id) ==> r is Err && *final(self) == *old(self),
            old(self).has_contact(contact_id) ==> (r matches Ok(id) && final(self).has_chat(id)
                && Self::is_single_chat_of(final(self).spec_chat(id), contact_id) && {
                ||| *final(self) == *old(self)
                ||| {
                    &&& final(self).chats@ == old(self).chats@.push(final(self).chats@.last())
                    &&& *final(self) == (Context { chats: final(self).chats, ..*old(self) })
                }
            }),
    {
        match self.create_or_lookup_by_contact_id(contact_id, Blocked::Not) {
            Ok((id, _)) => Ok(id),
            Err(_) => Err(()),
        }
    }

    /// Set the blocked state of a chat.  Returns false, changing
    /// nothing, for a special or unknown chat id.
    pub fn set_blocked(&mut self, chat_id: ChatId, blocked: Blocked) -> (r: bool)
        requires
            old(self).wf(),
        ensures
            final(self).wf(),
            r == old(self).has_chat(chat_id),
            !old(self).has_chat(chat_id) ==> *final(self) == *old(self),
            old(self).has_chat(chat_id) ==> {
                &&& final(self).chats@ == old(self).chats@.update(
                    Self::chat_index(chat_id),
                    final(self).spec_chat(chat_id),
                )
                &&& final(self).spec_chat(chat_id) == (ChatRecord {
                    blocked,
                    ..old(self).spec_chat(chat_id)
                })
                &&& *final(self) == (Context { chats: final(self).chats, ..*old(self) })
            },
    {
        let raw = chat_id.to_u32();
        if raw <= DC_CHAT_ID_LAST_SPECIAL {
            return false;
        }
        let idx = (raw - (DC_CHAT_ID_LAST_SPECIAL + 1)) as usize;
        if idx >= self.chats.len() {
            return false;
        }
        self.chats[idx].blocked = blocked;
        true
    }

    /// Unblock a chat.
    pub fn unblock(&mut self, chat_id: ChatId)
        requires
            old(self).wf(),
        ensures
            final(self).wf(),
            !old(self).has_chat(chat_id) ==> *final(self) == *old(self),
            old(self).has_chat(chat_id) ==> {
                &&& final(self).chats@ == old(self).chats@.update(
                    Self::chat_index(chat_id),
                    final(self).spec_chat(chat_id),
                )
                &&& final(self).spec_chat(chat_id) == (ChatRecord {
                    blocked: Blocked::Not,
                    ..old(self).spec_chat(chat_id)
                })
                &&& *final(self) == (Context { chats: final(self).chats, ..*old(self) })
            },
    {
        self.set_blocked(chat_id, Blocked::Not);
    }

    /// The member contact ids of a chat; empty for unknown chats.
    pub fn get_chat_contacts(&self, chat_id: ChatId) -> (r: Vec<u32>)
        requires
            self.wf(),
        ensures
            self.has_chat(chat_id) ==> r@ == self.spec_chat(chat_id).members@,
            !self.has_chat(chat_id) ==> r@ == Seq::<u32>::empty(),
    {
        match self.get_chat_by_id(chat_id) {
            Some(c) => {
                let n = c.members.len();
                let mut out: Vec<u32> = Vec::new();
                let mut i: usize = 0;
                while i < n
                    invariant
                        n == c.members@.len(),
                        0 <= i <= n,
                        out@ == c.members@.take(i as int),
                    decreases n - i,
                {
                    out.push(c.members[i]);
                    assert(out@ =~= c.members@.take(i as int + 1));
                    i += 1;
                }
                assert(out@ =~= c.members@);
                out
            },
            None => Vec::new(),
        }
    }

    /// Look up a group chat by its group id.  Returns the chat id,
    /// whether the group is a verified group, and its blocked state.
    pub fn get_chat_id_by_grpid(&self, grpid: &str) -> (r: Option<(ChatId, bool, Blocked)>)
        requires
            self.wf(),
        ensures
            match r {
                Some((id, verified, bl)) => {
                    &&& self.has_chat(id)
                    &&& self.spec_chat(id).grpid@ == grpid@
                    &&& verified == (self.spec_chat(id).typ == Chattype::VerifiedGroup)
                    &&& bl == self.spec_chat(id).blocked
                    &&& forall|j: int|
                        0 <= j < Self::chat_index(id) ==> (#[trigger] self.chats@[j]).grpid@
                            != grpid@
                },
                None => forall|i: int|
                    0 <= i < self.chats@.len() ==> (#[trigger] self.chats@[i]).grpid@ != grpid@,
            },
    {
        let n = self.chats.len();
        let mut i: usize = 0;
        while i < n
            invariant
                n == self.chats@.len(),
                0 <= i <= n,
                self.wf(),
                forall|j: int| 0 <= j < i ==> (#[trigger] self.chats@[j]).grpid@ != grpid@,
            decreases n - i,
        {
            let c = &self.chats[i];
            if str_eq(c.grpid.as_str(), grpid) {
                let verified = match c.typ {
                    Chattype::VerifiedGroup => true,
                    _ => false,
                };
                return Some((c.id, verified, c.blocked));
            }
            i += 1;
        }
        None
    }

    /// Add a contact to a group chat.  Returns whether the member list
    /// changed; fails exactly when chat or contact does not exist.
    pub fn add_contact_to_chat_ex(&mut self, chat_id: ChatId, contact_id: u32) -> (r: Result<
        bool,
        (),
    >)
        requires
            old(self).wf(),
        ensures
            final(self).wf(),
            (!old(self).has_chat(chat_id) || !old(self).has_contact(contact_id)) ==> r is Err
                && *final(self) == *old(self),
            (old(self).has_chat(chat_id) && old(self).has_contact(contact_id)) ==> {
                if old(self).spec_chat(chat_id).members@.contains(contact_id) {
                    r == Ok::<bool, ()>(false) && *final(self) == *old(self)
                } else {
                    &&& r == Ok::<bool, ()>(true)
                    &&& final(self).chats@ == old(self).chats@.update(
                        Self::chat_index(chat_id),
                        final(self).spec_chat(chat_id),
                    )
                    &&& final(self).spec_chat(chat_id) == (ChatRecord {
                        members: final(self).spec_chat(chat_id).members,
                        ..old(self).spec_chat(chat_id)
                    })
                    &&& final(self).spec_chat(chat_id).members@ == old(self).spec_chat(
                        chat_id,
                    ).members@.push(contact_id)
                    &&& *final(self) == (Context { chats: final(self).chats, ..*old(self) })
                }
            },
    {
        if self.get_contact_by_id(contact_id).is_none() {
            return Err(());
        }
        let raw = chat_id.to_u32();
        if raw <= DC_CHAT_ID_LAST_SPECIAL {
            return Err(());
        }
        let idx = (raw - (DC_CHAT_ID_LAST_SPECIAL + 1)) as usize;
        if idx >= self.chats.len() {
            return Err(());
        }
        let n = self.chats[idx].members.len();
        let mut i: usize = 0;
        while i < n
            invariant
                idx < self.chats@.len(),
                n == self.chats@[idx as int].members@.len(),
                0 <= i <= n,
                *self == *old(self),
                old(self).wf(),
                old(self).has_chat(chat_id),
                old(self).has_contact(contact_id),
                idx as int == Self::chat_index(chat_id),
                forall|j: int| 0 <= j < i ==> self.chats@[idx as int].members@[j] != contact_id,
            decreases n - i,
        {
            if self.chats[idx].members[i] == contact_id {
                assert(self.chats@[idx as int].members@.contains(contact_id));
                return Ok(false);
            }
            i += 1;
        }
        assert(!self.chats@[idx as int].members@.contains(contact_id));
        self.chats[idx].members.push(contact_id);
        Ok(true)
    }

    /// Raise a contact's origin to `min_origin` if it is stronger than
    /// the current one; weaker origins never lower it.
    pub fn scaleup_origin_by_id(&mut self, contact_id: u32, min_origin: Origin)
        requires
            old(self).wf(),
        ensures
            final(self).wf(),
            !old(self).has_contact(contact_id) ==> *final(self) == *old(self),
            old(self).has_contact(contact_id) ==> {
                if min_origin.spec_rank() > old(self).spec_contact(contact_id).origin.spec_rank() {
                    &&& final(self).contacts@ == old(self).contacts@.update(
                        Self::contact_index(contact_id),
                        final(self).spec_contact(contact_id),
                    )
                    &&& final(self).spec_contact(contact_id) == (Contact {
                        origin: min_origin,
                        ..old(self).spec_contact(contact_id)
                    })
                    &&& *final(self) == (Context { contacts: final(self).contacts, ..*old(self) })
                } else {
                    *final(self) == *old(self)
                }
            },
    {
        if contact_id <= DC_CONTACT_ID_LAST_SPECIAL {
            return ;
        }
        let idx = (contact_id - (DC_CONTACT_ID_LAST_SPECIAL + 1)) as usize;
        if idx >= self.contacts.len() {
            return ;
        }
        if min_origin.rank() > self.contacts[idx].origin.rank() {
            self.contacts[idx].origin = min_origin;
        }
    }

    /// The position of the trust record for the given address.
    pub fn peerstate_idx_by_addr(&self, addr: &str) -> (r: Option<usize>)
        ensures
            match r {
                Some(i) => i < self.peerstates@.len() && self.peerstates@[i as int].addr@ == addr@,
                None => forall|i: int|
                    0 <= i < self.peerstates@.len() ==> (#[trigger] self.peerstates@[i]).addr@
                        != addr@,
            },
    {
        let n = self.peerstates.len();
        let mut i: usize = 0;
        while i < n
            invariant
                n == self.peerstates@.len(),
                0 <= i <= n,
                forall|j: int| 0 <= j < i ==> (#[trigger] self.peerstates@[j]).addr@ != addr@,
            decreases n - i,
        {
            if str_eq(self.peerstates[i].addr.as_str(), addr) {
                return Some(i);
            }
            i += 1;
        }
        None
    }

    /// The position of the first trust record whose announced public
    /// key has the given (already normalized) fingerprint.
    pub fn peerstate_idx_by_fingerprint(&self, fingerprint: &str) -> (r: Option<usize>)
        ensures
            match r {
                Some(i) => {
                    &&& i < self.peerstates@.len()
                    &&& self.peerstates@[i as int].public_key_fingerprint matches Some(f) && f@
                        == fingerprint@
                    &&& forall|j: int|
                        0 <= j < i ==> !((#[trigger] self.peerstates@[j]).public_key_fingerprint
                            matches Some(f) && f@ == fingerprint@)
                },
                None => forall|i: int|
                    0 <= i < self.peerstates@.len() ==> !((
                    #[trigger] self.peerstates@[i]).public_key_fingerprint matches Some(f) && f@
                        == fingerprint@),
            },
    {
        let n = self.peerstates.len();
        let mut i: usize = 0;
        while i < n
            invariant
                n == self.peerstates@.len(),
                0 <= i <= n,
                forall|j: int|
                    0 <= j < i ==> !((#[trigger] self.peerstates@[j]).public_key_fingerprint
                        matches Some(f) && f@ == fingerprint@),
            decreases n - i,
        {
            let known = &self.peerstates[i].public_key_fingerprint;
            match known {
                Some(f) => {
                    if str_eq(f.as_str(), fingerprint) {
                        return Some(i);
                    }
                },
                None => {},
            }
            i += 1;
        }
        None
    }

    /// The id of the contact with the given address, if any.
    pub fn contact_id_by_addr(&self, addr: &str) -> (r: Option<u32>)
        requires
            self.wf(),
        ensures
            match r {
                Some(id) => self.has_contact(id) && self.spec_contact(id).addr@ == addr@,
                None => forall|i: int|
                    0 <= i < self.contacts@.len() ==> (#[trigger] self.contacts@[i]).addr@
                        != addr@,
            },
    {
        let n = self.contacts.len();
        let mut i: usize = 0;
        while i < n
            invariant
                n == self.contacts@.len(),
                0 <= i <= n,
                self.wf(),
                forall|j: int| 0 <= j < i ==> (#[trigger] self.contacts@[j]).addr@ != addr@,
            decreases n - i,
        {
            if str_eq(self.contacts[i].addr.as_str(), addr) {
                return Some(self.contacts[i].id);
            }
            i += 1;
        }
        None
    }

    /// Best-effort wake of the inbox loop; a no-op while the
    /// scheduler is stopped.  Never blocks and never fails.
    pub fn interrupt_inbox(&mut self, info: InterruptInfo)
        ensures
            final(self).scheduler == interrupt_spec(old(self).scheduler, ConnKind::Inbox, info),
            *final(self) == (Context { scheduler: final(self).scheduler, ..*old(self) }),
    {
        self.scheduler.interrupt_inbox(info);
    }

    /// Best-effort wake of the special-mailbox loop; a no-op while
    /// the scheduler is stopped.
    pub fn interrupt_mvbox(&mut self, info: InterruptInfo)
        ensures
            final(self).scheduler == interrupt_spec(old(self).scheduler, ConnKind::Mvbox, info),
            *final(self) == (Context { scheduler: final(self).scheduler, ..*old(self) }),
    {
        self.scheduler.interrupt_mvbox(info);
    }

    /// Best-effort wake of the sent-mailbox loop; a no-op while the
    /// scheduler is stopped.
    pub fn interrupt_sentbox(&mut self, info: InterruptInfo)
        ensures
            final(self).scheduler == interrupt_spec(old(self).scheduler, ConnKind::Sentbox, info),
            *final(self) == (Context { scheduler: final(self).scheduler, ..*old(self) }),
    {
        self.scheduler.interrupt_sentbox(info);
    }

    /// Best-effort wake of the outbound loop; a no-op while the
    /// scheduler is stopped.
    pub fn interrupt_smtp(&mut self, info: InterruptInfo)
        ensures
            final(self).scheduler == interrupt_spec(old(self).scheduler, ConnKind::Smtp, info),
            *final(self) == (Context { scheduler: final(self).scheduler, ..*old(self) }),
    {
        self.scheduler.interrupt_smtp(info);
    }

    /// Indicate that the network likely has come back: broadcast a
    /// network probe to all four connections.  A no-op while the
    /// scheduler is stopped.
    pub fn maybe_network(&mut self)
        ensures
            final(self).scheduler == interrupt_spec(
                interrupt_spec(
                    interrupt_spec(
                        interrupt_spec(old(self).scheduler, ConnKind::Inbox, InterruptInfo {
                            probe_network: true,
                            correlated_msg_id: None,
                        }),
                        ConnKind::Mvbox,
                        InterruptInfo { probe_network: true, correlated_msg_id: None },
                    ),
                    ConnKind::Sentbox,
                    InterruptInfo { probe_network: true, correlated_msg_id: None },
                ),
                ConnKind::Smtp,
                InterruptInfo { probe_network: true, correlated_msg_id: None },
            ),
            *final(self) == (Context { scheduler: final(self).scheduler, ..*old(self) }),
    {
        self.scheduler.maybe_network();
    }

    /// Whether the contact is a member of the chat.
    pub fn is_contact_in_chat(&self, chat_id: ChatId, contact_id: u32) -> (r: bool)
        requires
            self.wf(),
        ensures
            r == (self.has_chat(chat_id) && self.spec_chat(chat_id).members@.contains(contact_id)),
    {
        let members = self.get_chat_contacts(chat_id);
        let n = members.len();
        let mut i: usize = 0;
        while i < n
            invariant
                n == members@.len(),
                0 <= i <= n,
                self.has_chat(chat_id) ==> members@ == self.spec_chat(chat_id).members@,
                !self.has_chat(chat_id) ==> members@.len() == 0,
                forall|j: int| 0 <= j < i ==> members@[j] != contact_id,
            decreases n - i,
        {
            if members[i] == contact_id {
                assert(members@.contains(contact_id));
                assert(self.has_chat(chat_id));
                return true;
            }
            i += 1;
        }
        false
    }

    /// Hand a message to the outbound transport for a chat.
    pub fn send_msg(&mut self, chat_id: ChatId, msg: Message)
        ensures
            final(self).outbox@ == old(self).outbox@.push(
                SentMessage { chat_id, msg: final(self).outbox@.last().msg },
            ),
            final(self).outbox@.last().chat_id == chat_id,
            final(self).outbox@.last().msg == msg,
            *final(self) == (Context { outbox: final(self).outbox, ..*old(self) }),
    {
        self.outbox.push(SentMessage { chat_id, msg });
    }
}

} // verus!
