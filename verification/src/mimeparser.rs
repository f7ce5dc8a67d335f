//! The view of a parsed incoming message that the engine consumes.
//!
//! Full MIME parsing is an external collaborator; the engine only needs
//! header lookup by well-known name, the encryption flag and the set of
//! fingerprints whose signatures verified, so exactly that is modelled
//! here as plain values.

use vstd::prelude::*;

verus! {

/// Kinds of system messages.
#[derive(Debug, Copy, Clone, PartialEq, Eq, Structural)]
pub enum SystemMessage {
    Unknown,
    GroupNameChanged,
    GroupImageChanged,
    MemberAddedToGroup,
    MemberRemovedFromGroup,
    AutocryptSetupMessage,
    SecurejoinMessage,
    LocationStreamingEnabled,
    LocationOnly,
}

impl Default for SystemMessage {
    /// The default classification: not a system message.
    fn default() -> (r: Self)
        ensures
            r == SystemMessage::Unknown,
    {
        SystemMessage::Unknown
    }
}

/// Well-known headers the engine reads from a parsed message.
#[derive(Debug, Copy, Clone, PartialEq, Eq, Structural)]
pub enum HeaderDef {
    /// `Secure-Join`: the handshake step name.
    SecureJoin,
    /// `Secure-Join-Invitenumber`: the first shared secret.
    SecureJoinInvitenumber,
    /// `Secure-Join-Auth`: the second shared secret.
    SecureJoinAuth,
    /// `Secure-Join-Fingerprint`: the sender's key fingerprint.
    SecureJoinFingerprint,
    /// `Secure-Join-Group`: the group id of a group join.
    SecureJoinGroup,
    /// `Chat-Group-Member-Added`: address of the member a group message adds.
    ChatGroupMemberAdded,
}

/// A parsed incoming message, reduced to what the handshake reads.
#[derive(Debug, Clone)]
pub struct MimeMessage {
    /// The `Secure-Join` header, when present.
    pub secure_join: Option<String>,
    /// The `Secure-Join-Invitenumber` header, when present.
    pub secure_join_invitenumber: Option<String>,
    /// The `Secure-Join-Auth` header, when present.
    pub secure_join_auth: Option<String>,
    /// The `Secure-Join-Fingerprint` header, when present.
    pub secure_join_fingerprint: Option<String>,
    /// The `Secure-Join-Group` header, when present.
    pub secure_join_group: Option<String>,
    /// The `Chat-Group-Member-Added` header, when present.
    pub chat_group_member_added: Option<String>,
    /// Whether the payload arrived end-to-end encrypted.
    pub encrypted: bool,
    /// Fingerprints of the keys whose signatures verified.
    pub signatures: Vec<String>,
}

impl MimeMessage {
    /// The header field selected by `headerdef`, as a specification value.
    pub open spec fn spec_get(self, headerdef: HeaderDef) -> Option<String> {
        match headerdef {
            HeaderDef::SecureJoin => self.secure_join,
            HeaderDef::SecureJoinInvitenumber => self.secure_join_invitenumber,
            HeaderDef::SecureJoinAuth => self.secure_join_auth,
            HeaderDef::SecureJoinFingerprint => self.secure_join_fingerprint,
            HeaderDef::SecureJoinGroup => self.secure_join_group,
            HeaderDef::ChatGroupMemberAdded => self.chat_group_member_added,
        }
    }

    /// A message with no headers, unencrypted and unsigned.
    pub fn new() -> (r: MimeMessage)
        ensures
            forall|h: HeaderDef| r.spec_get(h) is None,
            !r.encrypted,
            r.signatures@ =~= Seq::<String>::empty(),
    {
        MimeMessage {
            secure_join: None,
            secure_join_invitenumber: None,
            secure_join_auth: None,
            secure_join_fingerprint: None,
            secure_join_group: None,
            chat_group_member_added: None,
            encrypted: false,
            signatures: Vec::new(),
        }
    }

    /// Look up a well-known header.
    pub fn get(&self, headerdef: HeaderDef) -> (r: Option<&String>)
        ensures
            match r {
                Some(v) => self.spec_get(headerdef) == Some(*v),
                None => self.spec_get(headerdef) is None,
            },
    {
        let field = match headerdef {
            HeaderDef::SecureJoin => &self.secure_join,
            HeaderDef::SecureJoinInvitenumber => &self.secure_join_invitenumber,
            HeaderDef::SecureJoinAuth => &self.secure_join_auth,
            HeaderDef::SecureJoinFingerprint => &self.secure_join_fingerprint,
            HeaderDef::SecureJoinGroup => &self.secure_join_group,
            HeaderDef::ChatGroupMemberAdded => &self.chat_group_member_added,
        };
        field.as_ref()
    }

    /// Whether the payload arrived end-to-end encrypted.
    pub fn was_encrypted(&self) -> (r: bool)
        ensures
            r == self.encrypted,
    {
        self.encrypted
    }
}

/// Whether signature set `sigs` contains the fingerprint `fp`.
pub open spec fn spec_contains_str(sigs: Seq<String>, fp: Seq<char>) -> bool {
    exists|i: int| 0 <= i < sigs.len() && sigs[i]@ == fp
}

/// Whether one of the strings in `sigs` equals `fp`.
pub fn contains_str(sigs: &Vec<String>, fp: &str) -> (r: bool)
    ensures
        r == spec_contains_str(sigs@, fp@),
{
    let n = sigs.len();
    let mut i: usize = 0;
    while i < n
        invariant
            n == sigs@.len(),
            0 <= i <= n,
            forall|j: int| 0 <= j < i ==> sigs@[j]@ != fp@,
        decreases n - i,
    {
        if sigs[i].as_str().to_owned() == fp.to_owned() {
            assert(sigs@[i as int]@ == fp@);
            return true;
        }
        i += 1;
    }
    false
}

/// Whether `key` is one of the header names that the transport itself
/// interprets; all other headers are kept as additional headers.
pub fn is_known(key: &str) -> (r: bool)
    ensures
        r == (key@ == "return-path"@ || key@ == "date"@ || key@ == "from"@ || key@ == "sender"@
            || key@ == "reply-to"@ || key@ == "to"@ || key@ == "cc"@ || key@ == "bcc"@
            || key@ == "message-id"@ || key@ == "in-reply-to"@ || key@ == "references"@
            || key@ == "subject"@),
{
    str_eq(key, "return-path") || str_eq(key, "date") || str_eq(key, "from")
        || str_eq(key, "sender") || str_eq(key, "reply-to") || str_eq(key, "to")
        || str_eq(key, "cc") || str_eq(key, "bcc") || str_eq(key, "message-id")
        || str_eq(key, "in-reply-to") || str_eq(key, "references") || str_eq(key, "subject")
}

/// String equality on views.
pub fn str_eq(a: &str, b: &str) -> (r: bool)
    ensures
        r == (a@ == b@),
{
    a.to_owned() == b.to_owned()
}

/// Whitespace as understood by the message-id parser.
pub open spec fn is_ws(c: char) -> bool {
    c == ' ' || c == '\t' || c == '\n' || c == '\r' || c == '\u{b}' || c == '\u{c}'
}

/// Executable counterpart of [`is_ws`].
pub fn is_ws_char(c: char) -> (r: bool)
    ensures
        r == is_ws(c),
{
    c == ' ' || c == '\t' || c == '\n' || c == '\r' || c == '\u{b}' || c == '\u{c}'
}

/// Length of the maximal whitespace-free prefix of `s`.
pub open spec fn word_len(s: Seq<char>) -> int
    decreases s.len(),
{
    if s.len() == 0 || is_ws(s[0]) {
        0
    } else {
        1 + word_len(s.drop_first())
    }
}

pub proof fn lemma_word_len_bounds(s: Seq<char>)
    ensures
        0 <= word_len(s) <= s.len(),
        forall|k: int| 0 <= k < word_len(s) ==> !is_ws(s[k]),
        word_len(s) < s.len() ==> is_ws(s[word_len(s)]),
    decreases s.len(),
{
    if s.len() == 0 || is_ws(s[0]) {
    } else {
        let t = s.drop_first();
        lemma_word_len_bounds(t);
        assert forall|k: int| 0 <= k < word_len(s) implies !is_ws(s[k]) by {
            if k > 0 {
                assert(s[k] == t[k - 1]);
            }
        }
    }
}

/// The whitespace-separated words of `s`, in order.
pub open spec fn split_ws(s: Seq<char>) -> Seq<Seq<char>>
    decreases s.len(),
    via split_ws_decreases
{
    if s.len() == 0 {
        Seq::empty()
    } else if is_ws(s[0]) {
        split_ws(s.drop_first())
    } else {
        seq![s.take(word_len(s))] + split_ws(s.skip(word_len(s)))
    }
}

#[via_fn]
proof fn split_ws_decreases(s: Seq<char>) {
    lemma_word_len_bounds(s);
}

/// If `s` starts with a whitespace character, dropping it keeps the words.
pub proof fn lemma_split_ws_skip_ws(s: Seq<char>)
    requires
        s.len() > 0,
        is_ws(s[0]),
    ensures
        split_ws(s) == split_ws(s.drop_first()),
{
}

/// If the first `l` characters of `s` are a maximal whitespace-free
/// prefix, they are the first word of `s`.
pub proof fn lemma_split_ws_word(s: Seq<char>, l: int)
    requires
        0 < l <= s.len(),
        forall|k: int| 0 <= k < l ==> !is_ws(s[k]),
        l == s.len() || is_ws(s[l]),
    ensures
        split_ws(s) == seq![s.take(l)] + split_ws(s.skip(l)),
{
    lemma_word_len_eq(s, l);
}

proof fn lemma_word_len_eq(s: Seq<char>, l: int)
    requires
        0 <= l <= s.len(),
        forall|k: int| 0 <= k < l ==> !is_ws(s[k]),
        l == s.len() || is_ws(s[l]),
    ensures
        word_len(s) == l,
    decreases l,
{
    if l == 0 {
    } else {
        let t = s.drop_first();
        assert(forall|k: int| 0 <= k < l - 1 ==> s[k + 1] == t[k] && !is_ws(#[trigger] t[k]));
        assert(l - 1 == t.len() || is_ws(t[l - 1]));
        lemma_word_len_eq(t, l - 1);
    }
}

/// A word with one leading `<` and one trailing `>` stripped.
pub open spec fn strip_id(w: Seq<char>) -> Seq<char> {
    let a = if w.len() > 0 && w[0] == '<' {
        w.drop_first()
    } else {
        w
    };
    if a.len() > 0 && a[a.len() - 1] == '>' {
        a.drop_last()
    } else {
        a
    }
}

/// The stripped, non-empty ids among the words `ws`.
pub open spec fn keep_ids(ws: Seq<Seq<char>>) -> Seq<Seq<char>>
    decreases ws.len(),
{
    if ws.len() == 0 {
        Seq::empty()
    } else if strip_id(ws[0]).len() > 0 {
        seq![strip_id(ws[0])] + keep_ids(ws.drop_first())
    } else {
        keep_ids(ws.drop_first())
    }
}

/// The message ids contained in a `References`/`In-Reply-To`-style
/// header value: its whitespace-separated words, each with one leading
/// `<` and one trailing `>` stripped, empty results dropped.
pub open spec fn msg_ids(s: Seq<char>) -> Seq<Seq<char>> {
    keep_ids(split_ws(s))
}

proof fn lemma_keep_ids_cons(w: Seq<char>, rest: Seq<Seq<char>>)
    ensures
        strip_id(w).len() > 0 ==> keep_ids(seq![w] + rest) == seq![strip_id(w)] + keep_ids(rest),
        strip_id(w).len() == 0 ==> keep_ids(seq![w] + rest) == keep_ids(rest),
{
    let ws = seq![w] + rest;
    assert(ws.len() > 0);
    assert(ws[0] == w);
    assert(ws.drop_first() =~= rest);
}

/// There was no message id in the header value.
#[derive(Debug, Clone, Copy, PartialEq, Eq, Structural)]
pub struct InvalidMsgId;

/// Parse the message ids out of a header value.
///
/// Every whitespace-separated word, with at most one leading `<` and one
/// trailing `>` removed, that is then non-empty counts as one id.
pub fn parse_message_ids(ids: &str) -> (r: Result<Vec<String>, InvalidMsgId>)
    ensures
        r is Ok,
        r matches Ok(v) ==> {
            &&& v@.len() == msg_ids(ids@).len()
            &&& forall|j: int| 0 <= j < v@.len() ==> v@[j]@ == msg_ids(ids@)[j]
        },
{
    let s = ids;
    let n = s.unicode_len();
    let mut out: Vec<String> = Vec::new();
    let ghost mut done: Seq<Seq<char>> = Seq::empty();
    let mut i: usize = 0;
    proof {
        assert(s@.skip(0) =~= s@);
        assert(done + keep_ids(split_ws(s@)) =~= keep_ids(split_ws(s@)));
    }
    while i < n
        invariant
            n == s@.len(),
            0 <= i <= n,
            done.len() == out@.len(),
            forall|j: int| 0 <= j < done.len() ==> out@[j]@ == done[j],
            msg_ids(s@) == done + keep_ids(split_ws(s@.skip(i as int))),
        decreases n - i,
    {
        let c = s.get_char(i);
        if is_ws_char(c) {
            proof {
                let t = s@.skip(i as int);
                lemma_split_ws_skip_ws(t);
                assert(t.drop_first() =~= s@.skip(i as int + 1));
            }
            i += 1;
        } else {
            let start = i;
            let mut j = i + 1;
            while j < n
                invariant_except_break
                    j == n || !is_ws(s@[j - 1]),
                invariant
                    n == s@.len(),
                    0 <= start < j <= n,
                    forall|k: int| start <= k < j ==> !is_ws(s@[k]),
                ensures
                    start < j <= n,
                    forall|k: int| start <= k < j ==> !is_ws(s@[k]),
                    j == n || is_ws(s@[j as int]),
                decreases n - j,
            {
                let cj = s.get_char(j);
                if is_ws_char(cj) {
                    break ;
                }
                j += 1;
            }
            proof {
                let t = s@.skip(start as int);
                let l = j - start;
                assert(forall|k: int|
                    0 <= k < l ==> t[k] == s@[k + start] && !is_ws(#[trigger] t[k]));
                assert(l == t.len() || is_ws(t[l as int]));
                lemma_split_ws_word(t, l as int);
                assert(t.skip(l as int) =~= s@.skip(j as int));
                let w = t.take(l as int);
                lemma_keep_ids_cons(w, split_ws(s@.skip(j as int)));
            }
            let mut a = start;
            let mut b = j;
            if s.get_char(a) == '<' {
                a += 1;
            }
            if b > a && s.get_char(b - 1) == '>' {
                b -= 1;
            }
            proof {
                let t = s@.skip(start as int);
                let w = t.take((j - start) as int);
                assert(w.len() == j - start);
                assert(forall|k: int| 0 <= k < w.len() ==> w[k] == s@[k + start]);
                let w1 = if w.len() > 0 && w[0] == '<' {
                    w.drop_first()
                } else {
                    w
                };
                assert(w1 =~= s@.subrange(
                    if s@[start as int] == '<' {
                        start + 1
                    } else {
                        start as int
                    },
                    j as int,
                ));
                assert(strip_id(w) =~= s@.subrange(a as int, b as int));
            }
            if b > a {
                let id = s.substring_char(a, b).to_owned();
                proof {
                    let t = s@.skip(start as int);
                    let w = t.take((j - start) as int);
                    assert(id@ == strip_id(w));
                    done = done.push(strip_id(w));
                }
                out.push(id);
            } else {
                proof {
                    let t = s@.skip(start as int);
                    let w = t.take((j - start) as int);
                    assert(strip_id(w).len() == 0);
                }
            }
            i = j;
        }
    }
    proof {
        assert(s@.skip(n as int) =~= Seq::<char>::empty());
        assert(msg_ids(s@) =~= done);
    }
    Ok(out)
}

/// Parse exactly one message id: the first id in the header value.
pub fn parse_message_id(ids: &str) -> (r: Result<String, InvalidMsgId>)
    ensures
        match r {
            Ok(id) => msg_ids(ids@).len() > 0 && id@ == msg_ids(ids@)[0],
            Err(_) => msg_ids(ids@).len() == 0,
        },
{
    let all = parse_message_ids(ids)?;
    if all.len() > 0 {
        let id = all[0].clone();
        Ok(id)
    } else {
        Err(InvalidMsgId)
    }
}

} // verus!
