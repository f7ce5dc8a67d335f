//! The QR invitation codec.
//!
//! An invitation is a text of the form
//! `OPENPGP4FPR:<fingerprint>#<key>=<value>&...`; generating and
//! parsing it are two sides of one format, both defined here.

use vstd::prelude::*;

use vstd::utf8::encode_utf8;

use crate::contact::Origin;
use crate::context::{Context, CONTACT_CAPACITY};

verus! {

/// The value of the upper-case hex digit for `v`, as a byte.
pub open spec fn hex_digit_upper(v: u8) -> u8
    recommends
        v < 16,
{
    if v < 10 {
        (48 + v) as u8
    } else {
        (55 + v) as u8
    }
}

/// Relies on `percent_encoding::percent_encode_byte`: the escape of a
/// byte is `%` followed by its value as two upper-case hex digits.
#[verifier::external_body]
fn percent_encode_byte_vec(b: u8) -> (r: Vec<u8>)
    ensures
        r@ == seq![37u8, hex_digit_upper(b / 16), hex_digit_upper(b % 16)],
{
    percent_encoding::percent_encode_byte(b).as_bytes().to_vec()
}

/// Relies on `String::from_utf8`: bytes below 128 are valid UTF-8 and
/// decode to the characters with the same values.
#[verifier::external_body]
fn string_from_ascii(v: Vec<u8>) -> (r: String)
    requires
        forall|i: int| 0 <= i < v@.len() ==> v@[i] < 128,
    ensures
        r@ == ascii_to_chars(v@),
{
    String::from_utf8(v).unwrap_or_default()
}

/// ASCII bytes read as characters.
pub open spec fn ascii_to_chars(bs: Seq<u8>) -> Seq<char> {
    bs.map_values(|b: u8| b as char)
}

/// Whether a byte stays as it is under percent encoding: ASCII
/// alphanumerics always do, and `.` does for the address encoding.
pub open spec fn keeps_byte(b: u8, keep_dot: bool) -> bool {
    (48 <= b <= 57) || (65 <= b <= 90) || (97 <= b <= 122) || (keep_dot && b == 46)
}

/// Percent encoding of a byte sequence: bytes outside the kept set
/// become `%` plus two upper-case hex digits.
pub open spec fn pct_bytes(bs: Seq<u8>, keep_dot: bool) -> Seq<u8>
    decreases bs.len(),
{
    if bs.len() == 0 {
        Seq::empty()
    } else {
        (if keeps_byte(bs[0], keep_dot) {
            seq![bs[0]]
        } else {
            seq![37u8, hex_digit_upper(bs[0] / 16), hex_digit_upper(bs[0] % 16)]
        }) + pct_bytes(bs.drop_first(), keep_dot)
    }
}

/// The escape or passthrough of one byte.
pub open spec fn pct_one(b: u8, keep_dot: bool) -> Seq<u8> {
    if keeps_byte(b, keep_dot) {
        seq![b]
    } else {
        seq![37u8, hex_digit_upper(b / 16), hex_digit_upper(b % 16)]
    }
}

proof fn lemma_pct_bytes_push(bs: Seq<u8>, b: u8, keep_dot: bool)
    ensures
        pct_bytes(bs.push(b), keep_dot) == pct_bytes(bs, keep_dot) + pct_one(b, keep_dot),
    decreases bs.len(),
{
    let p = bs.push(b);
    assert(p.len() == bs.len() + 1);
    if bs.len() == 0 {
        assert(p[0] == b);
        assert(p.drop_first() =~= Seq::<u8>::empty());
        assert(pct_bytes(p.drop_first(), keep_dot) =~= Seq::<u8>::empty());
        assert(pct_bytes(p, keep_dot) =~= pct_one(b, keep_dot));
        assert(pct_bytes(bs, keep_dot) =~= Seq::<u8>::empty());
        assert(pct_bytes(bs, keep_dot) + pct_one(b, keep_dot) =~= pct_one(b, keep_dot));
    } else {
        assert(p[0] == bs[0]);
        assert(p.drop_first() =~= bs.drop_first().push(b));
        lemma_pct_bytes_push(bs.drop_first(), b, keep_dot);
        assert(pct_bytes(p, keep_dot) == pct_one(bs[0], keep_dot) + pct_bytes(
            p.drop_first(),
            keep_dot,
        ));
        assert(pct_bytes(p, keep_dot) == pct_one(bs[0], keep_dot) + (pct_bytes(
            bs.drop_first(),
            keep_dot,
        ) + pct_one(b, keep_dot)));
        assert(pct_one(bs[0], keep_dot) + (pct_bytes(bs.drop_first(), keep_dot) + pct_one(
            b,
            keep_dot,
        )) =~= (pct_one(bs[0], keep_dot) + pct_bytes(bs.drop_first(), keep_dot)) + pct_one(
            b,
            keep_dot,
        ));
    }
}

/// Every byte of a percent-encoded sequence is ASCII.
proof fn lemma_pct_bytes_ascii(bs: Seq<u8>, keep_dot: bool)
    ensures
        forall|i: int| 0 <= i < pct_bytes(bs, keep_dot).len() ==> pct_bytes(bs, keep_dot)[i] < 128,
    decreases bs.len(),
{
    if bs.len() > 0 {
        lemma_pct_bytes_ascii(bs.drop_first(), keep_dot);
        let head = pct_one(bs[0], keep_dot);
        let tail = pct_bytes(bs.drop_first(), keep_dot);
        assert(pct_bytes(bs, keep_dot) == head + tail);
        assert(forall|i: int| 0 <= i < head.len() ==> head[i] < 128);
        assert forall|i: int| 0 <= i < pct_bytes(bs, keep_dot).len() implies pct_bytes(
            bs,
            keep_dot,
        )[i] < 128 by {
            if i < head.len() {
                assert(pct_bytes(bs, keep_dot)[i] == head[i]);
            } else {
                assert(pct_bytes(bs, keep_dot)[i] == tail[i - head.len()]);
            }
        }
    }
}

/// The percent encoding of the UTF-8 bytes of a text, read back as
/// characters.
pub open spec fn percent_encoded(s: Seq<char>, keep_dot: bool) -> Seq<char> {
    ascii_to_chars(pct_bytes(encode_utf8(s), keep_dot))
}

/// Percent-encode a value for the invitation text.  Alphanumerics are
/// kept; with `keep_dot` so is `.`; every other byte is escaped.
pub fn percent_encode_value(s: &str, keep_dot: bool) -> (r: String)
    ensures
        r@ == percent_encoded(s@, keep_dot),
{
    let bytes = s.as_bytes_vec();
    let n = bytes.len();
    let mut out: Vec<u8> = Vec::new();
    let mut i: usize = 0;
    proof {
        assert(bytes@.take(0) =~= Seq::<u8>::empty());
    }
    while i < n
        invariant
            n == bytes@.len(),
            0 <= i <= n,
            out@ == pct_bytes(bytes@.take(i as int), keep_dot),
        decreases n - i,
    {
        let b = bytes[i];
        let keep = (48 <= b && b <= 57) || (65 <= b && b <= 90) || (97 <= b && b <= 122) || (
        keep_dot && b == 46);
        if keep {
            out.push(b);
        } else {
            let mut esc = percent_encode_byte_vec(b);
            out.append(&mut esc);
        }
        proof {
            lemma_pct_bytes_push(bytes@.take(i as int), b, keep_dot);
            assert(bytes@.take(i as int).push(b) =~= bytes@.take(i as int + 1));
        }
        i += 1;
    }
    proof {
        assert(bytes@.take(n as int) =~= bytes@);
        lemma_pct_bytes_ascii(bytes@, keep_dot);
    }
    string_from_ascii(out)
}

/// The upper-case hex form of `c`, if `c` is a hex digit.
pub open spec fn hex_upper_of(c: char) -> Option<char> {
    match c {
        '0' => Some('0'),
        '1' => Some('1'),
        '2' => Some('2'),
        '3' => Some('3'),
        '4' => Some('4'),
        '5' => Some('5'),
        '6' => Some('6'),
        '7' => Some('7'),
        '8' => Some('8'),
        '9' => Some('9'),
        'A' => Some('A'),
        'B' => Some('B'),
        'C' => Some('C'),
        'D' => Some('D'),
        'E' => Some('E'),
        'F' => Some('F'),
        'a' => Some('A'),
        'b' => Some('B'),
        'c' => Some('C'),
        'd' => Some('D'),
        'e' => Some('E'),
        'f' => Some('F'),
        _ => None,
    }
}

/// A fingerprint normalized: hex digits kept and upper-cased, all
/// other characters dropped.
pub open spec fn spec_normalize_fp(s: Seq<char>) -> Seq<char>
    decreases s.len(),
{
    if s.len() == 0 {
        Seq::empty()
    } else {
        (match hex_upper_of(s[0]) {
            Some(c) => seq![c],
            None => Seq::<char>::empty(),
        }) + spec_normalize_fp(s.drop_first())
    }
}

proof fn lemma_normalize_fp_push(s: Seq<char>, c: char)
    ensures
        spec_normalize_fp(s.push(c)) == spec_normalize_fp(s) + (match hex_upper_of(c) {
            Some(h) => seq![h],
            None => Seq::<char>::empty(),
        }),
    decreases s.len(),
{
    let p = s.push(c);
    let e = (match hex_upper_of(c) {
        Some(h) => seq![h],
        None => Seq::<char>::empty(),
    });
    if s.len() == 0 {
        assert(p[0] == c);
        assert(p.drop_first() =~= Seq::<char>::empty());
        assert(spec_normalize_fp(Seq::<char>::empty()) =~= Seq::<char>::empty());
        assert(spec_normalize_fp(p) == e + spec_normalize_fp(p.drop_first()));
        assert(e + Seq::<char>::empty() =~= e);
        assert(spec_normalize_fp(s) + e =~= e);
    } else {
        assert(p[0] == s[0]);
        assert(p.drop_first() =~= s.drop_first().push(c));
        lemma_normalize_fp_push(s.drop_first(), c);
        let h0 = (match hex_upper_of(s[0]) {
            Some(h) => seq![h],
            None => Seq::<char>::empty(),
        });
        assert(spec_normalize_fp(p) == h0 + (spec_normalize_fp(s.drop_first()) + e));
        assert(h0 + (spec_normalize_fp(s.drop_first()) + e) =~= (h0 + spec_normalize_fp(
            s.drop_first(),
        )) + e);
    }
}

/// The upper-case hex form of `c` as a one-character text, if `c` is a
/// hex digit.
fn hex_upper_str(c: char) -> (r: Option<&'static str>)
    ensures
        match r {
            Some(t) => hex_upper_of(c) matches Some(h) && t@ == seq![h],
            None => hex_upper_of(c) is None,
        },
{
    proof {
        reveal_strlit("0");
        reveal_strlit("1");
        reveal_strlit("2");
        reveal_strlit("3");
        reveal_strlit("4");
        reveal_strlit("5");
        reveal_strlit("6");
        reveal_strlit("7");
        reveal_strlit("8");
        reveal_strlit("9");
        reveal_strlit("A");
        reveal_strlit("B");
        reveal_strlit("C");
        reveal_strlit("D");
        reveal_strlit("E");
        reveal_strlit("F");
    }
    match c {
        '0' => Some("0"),
        '1' => Some("1"),
        '2' => Some("2"),
        '3' => Some("3"),
        '4' => Some("4"),
        '5' => Some("5"),
        '6' => Some("6"),
        '7' => Some("7"),
        '8' => Some("8"),
        '9' => Some("9"),
        'A' | 'a' => Some("A"),
        'B' | 'b' => Some("B"),
        'C' | 'c' => Some("C"),
        'D' | 'd' => Some("D"),
        'E' | 'e' => Some("E"),
        'F' | 'f' => Some("F"),
        _ => None,
    }
}

/// Normalize a fingerprint: keep hex digits, upper-cased; drop
/// spacing and any other characters.
pub fn dc_normalize_fingerprint(fp: &str) -> (r: String)
    ensures
        r@ == spec_normalize_fp(fp@),
{
    let n = fp.unicode_len();
    let mut out = String::new();
    let mut i: usize = 0;
    proof {
        assert(fp@.take(0) =~= Seq::<char>::empty());
    }
    while i < n
        invariant
            n == fp@.len(),
            0 <= i <= n,
            out@ == spec_normalize_fp(fp@.take(i as int)),
        decreases n - i,
    {
        let c = fp.get_char(i);
        match hex_upper_str(c) {
            Some(h) => {
                out.append(h);
            },
            None => {},
        }
        proof {
            lemma_normalize_fp_push(fp@.take(i as int), c);
            assert(fp@.take(i as int).push(c) =~= fp@.take(i as int + 1));
        }
        i += 1;
    }
    proof {
        assert(fp@.take(n as int) =~= fp@);
    }
    out
}

/// What `percent_encoding::percent_decode_str` gives back for a text,
/// read as UTF-8.
pub uninterp spec fn percent_decoded(s: Seq<char>) -> Seq<char>;

/// Relies on `percent_encoding::percent_decode_str`: every `%HH`
/// escape becomes the byte `HH`, everything else stays; a text without
/// `%` comes back unchanged.
#[verifier::external_body]
fn percent_decode_value(s: &str) -> (r: String)
    ensures
        r@ == percent_decoded(s@),
        !s@.contains('%') ==> r@ == s@,
{
    percent_encoding::percent_decode_str(s).decode_utf8_lossy().to_string()
}

/// Index of the first occurrence of `c` in `s`, or the length of `s`.
pub open spec fn find_char(s: Seq<char>, c: char) -> int
    decreases s.len(),
{
    if s.len() == 0 {
        0
    } else if s[0] == c {
        0
    } else {
        1 + find_char(s.drop_first(), c)
    }
}

pub proof fn lemma_find_char(s: Seq<char>, c: char)
    ensures
        0 <= find_char(s, c) <= s.len(),
        forall|k: int| 0 <= k < find_char(s, c) ==> s[k] != c,
        find_char(s, c) < s.len() ==> s[find_char(s, c)] == c,
    decreases s.len(),
{
    if s.len() == 0 || s[0] == c {
    } else {
        let t = s.drop_first();
        lemma_find_char(t, c);
        assert forall|k: int| 0 <= k < find_char(s, c) implies s[k] != c by {
            if k > 0 {
                assert(s[k] == t[k - 1]);
            }
        }
    }
}

proof fn lemma_find_char_eq(s: Seq<char>, c: char, l: int)
    requires
        0 <= l <= s.len(),
        forall|k: int| 0 <= k < l ==> s[k] != c,
        l == s.len() || s[l] == c,
    ensures
        find_char(s, c) == l,
    decreases l,
{
    if l == 0 {
    } else {
        let t = s.drop_first();
        assert(forall|k: int| 0 <= k < l - 1 ==> s[k + 1] == #[trigger] t[k] && t[k] != c);
        assert(l - 1 == t.len() || t[l - 1] == c);
        lemma_find_char_eq(t, c, l - 1);
    }
}

/// The sections of `s` between occurrences of the separator `c`: one
/// more section than separators, empty sections kept.
pub open spec fn split_sep(s: Seq<char>, c: char) -> Seq<Seq<char>>
    decreases s.len(),
    via split_sep_decreases
{
    let l = find_char(s, c);
    if l == s.len() {
        seq![s]
    } else {
        seq![s.take(l)] + split_sep(s.skip(l + 1), c)
    }
}

#[via_fn]
proof fn split_sep_decreases(s: Seq<char>, c: char) {
    lemma_find_char(s, c);
}

/// Splitting off the first section: the text up to the first
/// separator is the first section, the rest are those of the suffix.
pub proof fn lemma_split_sep_head(s: Seq<char>, c: char, l: int)
    requires
        0 <= l <= s.len(),
        forall|k: int| 0 <= k < l ==> s[k] != c,
        l == s.len() || s[l] == c,
    ensures
        l == s.len() ==> split_sep(s, c) == seq![s],
        l < s.len() ==> split_sep(s, c) == seq![s.take(l)] + split_sep(s.skip(l + 1), c),
{
    lemma_find_char_eq(s, c, l);
}

/// What a scanned QR text turned out to be.
#[derive(Debug, Copy, Clone, PartialEq, Eq, Structural)]
pub enum QrState {
    /// A 1:1 invitation: ask to verify the contact.
    AskVerifyContact,
    /// A group invitation: ask to verify and join the group.
    AskVerifyGroup,
    /// The text was not a valid invitation.
    Error,
}

/// A decoded invitation.
#[derive(Debug, Clone)]
pub struct QrScan {
    /// What the text turned out to be.
    pub state: QrState,
    /// The id of the contact the invitation came from.
    pub contact_id: u32,
    /// The inviter's address, percent-decoded.
    pub addr: String,
    /// The inviter's key fingerprint, normalized.
    pub fingerprint: String,
    /// The `invitenumber` shared secret.
    pub invitenumber: String,
    /// The `auth` shared secret.
    pub auth: String,
    /// The inviter's display name, or the group name for group invites.
    pub name: String,
    /// The group id for group invites; empty for 1:1 invites.
    pub grpid: String,
}

/// Whether `p` is a `key=value` section for the one-letter `key`.
pub open spec fn is_kv(p: Seq<char>, key: char) -> bool {
    p.len() >= 2 && p[0] == key && p[1] == '='
}

/// The value of the first `key=value` section among `ps`.
pub open spec fn qr_param(ps: Seq<Seq<char>>, key: char) -> Option<Seq<char>>
    decreases ps.len(),
{
    if ps.len() == 0 {
        None
    } else if is_kv(ps[0], key) {
        Some(ps[0].skip(2))
    } else {
        qr_param(ps.drop_first(), key)
    }
}

proof fn lemma_qr_param_cons(p: Seq<char>, rest: Seq<Seq<char>>, key: char)
    ensures
        qr_param(seq![p] + rest, key) == if is_kv(p, key) {
            Some(p.skip(2))
        } else {
            qr_param(rest, key)
        },
{
    let ps = seq![p] + rest;
    assert(ps[0] == p);
    assert(ps.drop_first() =~= rest);
}

/// Index of the first occurrence of `c` in `s` at or after `from`, or
/// the length of `s`.
fn find_char_from(s: &str, from: usize, c: char) -> (r: usize)
    requires
        from <= s@.len(),
    ensures
        from <= r <= s@.len(),
        forall|k: int| from <= k < r ==> s@[k] != c,
        r < s@.len() ==> s@[r as int] == c,
{
    let n = s.unicode_len();
    let mut i = from;
    while i < n
        invariant
            n == s@.len(),
            from <= i <= n,
            forall|k: int| from <= k < i ==> s@[k] != c,
        decreases n - i,
    {
        if s.get_char(i) == c {
            return i;
        }
        i += 1;
    }
    n
}

/// The value of the first `key=value` section of the `&`-separated
/// sections of `s` starting at `start`, still percent-encoded.
fn get_param(s: &str, start: usize, key: char) -> (r: Option<String>)
    requires
        start <= s@.len(),
    ensures
        match r {
            Some(v) => qr_param(split_sep(s@.skip(start as int), '&'), key) == Some(v@),
            None => qr_param(split_sep(s@.skip(start as int), '&'), key) is None,
        },
{
    let n = s.unicode_len();
    let mut i = start;
    loop
        invariant
            n == s@.len(),
            start <= i <= n,
            qr_param(split_sep(s@.skip(start as int), '&'), key) == qr_param(
                split_sep(s@.skip(i as int), '&'),
                key,
            ),
        decreases n - i,
    {
        let j = find_char_from(s, i, '&');
        let ghost t = s@.skip(i as int);
        let ghost l = j - i;
        proof {
            assert(forall|k: int| 0 <= k < t.len() ==> t[k] == s@[k + i]);
            lemma_split_sep_head(t, '&', l);
        }
        let is_match = j - i >= 2 && s.get_char(i) == key && s.get_char(i + 1) == '=';
        proof {
            let part = if l == t.len() {
                t
            } else {
                t.take(l)
            };
            assert(part =~= t.take(l));
            if l == t.len() {
                assert(split_sep(t, '&') == seq![t]);
                assert(seq![t] =~= seq![part] + Seq::<Seq<char>>::empty());
                lemma_qr_param_cons(part, Seq::empty(), key);
            } else {
                assert(split_sep(t, '&') == seq![part] + split_sep(t.skip(l + 1), '&'));
                lemma_qr_param_cons(part, split_sep(t.skip(l + 1), '&'), key);
            }
            assert(part.len() == l);
            if is_match {
                assert(part[0] == s@[i as int] && part[1] == s@[i as int + 1]);
                assert(is_kv(part, key));
            } else {
                assert(!is_kv(part, key)) by {
                    if part.len() >= 2 {
                        assert(part[0] == s@[i as int] && part[1] == s@[i as int + 1]);
                    }
                }
            }
        }
        if is_match {
            let v = s.substring_char(i + 2, j).to_owned();
            proof {
                let part = t.take(l);
                assert(part.skip(2) =~= s@.subrange(i as int + 2, j as int));
                assert(v@ == part.skip(2));
            }
            return Some(v);
        }
        if j >= n {
            proof {
                assert(qr_param(Seq::<Seq<char>>::empty(), key) is None);
            }
            return None;
        }
        proof {
            assert(t.skip(l + 1) =~= s@.skip(j as int + 1));
        }
        i = j + 1;
    }
}

/// The part of a scanned text before its first `#`.
pub open spec fn qr_payload(s: Seq<char>) -> Seq<char> {
    s.take(find_char(s, '#'))
}

/// The part of a scanned text after its first `#`.
pub open spec fn qr_params_sec(s: Seq<char>) -> Seq<char> {
    s.skip(find_char(s, '#') + 1)
}

/// Whether the scanned text has a parameter section.
pub open spec fn qr_has_hash(s: Seq<char>) -> bool {
    find_char(s, '#') < s.len()
}

/// Whether the scanned text starts with the fingerprint scheme.
pub open spec fn qr_prefix_ok(s: Seq<char>) -> bool {
    qr_payload(s).len() >= 12 && qr_payload(s).take(12) == "OPENPGP4FPR:"@
}

/// The normalized fingerprint carried before the `#`.
pub open spec fn qr_fp(s: Seq<char>) -> Seq<char> {
    spec_normalize_fp(qr_payload(s).skip(12))
}

/// The raw value of the one-letter parameter `key`.
pub open spec fn qr_field(s: Seq<char>, key: char) -> Option<Seq<char>> {
    qr_param(split_sep(qr_params_sec(s), '&'), key)
}

/// Whether the text is a well-formed invitation: scheme, a 40-digit
/// fingerprint, the inviter's address and both shared secrets.
pub open spec fn qr_valid(s: Seq<char>) -> bool {
    &&& qr_has_hash(s)
    &&& qr_prefix_ok(s)
    &&& qr_fp(s).len() == 40
    &&& qr_field(s, 'a') is Some
    &&& qr_field(s, 'i') is Some
    &&& qr_field(s, 's') is Some
}

/// Whether a well-formed invitation invites into a group.
pub open spec fn qr_is_group(s: Seq<char>) -> bool {
    qr_valid(s) && qr_field(s, 'g') is Some && qr_field(s, 'x') is Some
}

/// Check a scanned text: decode the invitation and create or look up
/// the contact it came from.
///
/// An ill-formed text gives state [`QrState::Error`] and leaves the
/// context unchanged; a well-formed one fills every field from the
/// text and registers the inviter as a contact.
pub fn check_qr(ctx: &mut Context, qr: &str) -> (r: QrScan)
    requires
        old(ctx).wf(),
        old(ctx).contacts@.len() < CONTACT_CAPACITY,
    ensures
        final(ctx).wf(),
        !qr_valid(qr@) ==> r.state == QrState::Error && *final(ctx) == *old(ctx),
        qr_valid(qr@) ==> {
            &&& r.state == (if qr_is_group(qr@) {
                QrState::AskVerifyGroup
            } else {
                QrState::AskVerifyContact
            })
            &&& r.fingerprint@ == qr_fp(qr@)
            &&& (qr_field(qr@, 'i') matches Some(v) && r.invitenumber@ == v)
            &&& (qr_field(qr@, 's') matches Some(v) && r.auth@ == v)
            &&& (qr_field(qr@, 'a') matches Some(v) && r.addr@ == percent_decoded(v))
            &&& (qr_is_group(qr@) ==> (qr_field(qr@, 'x') matches Some(v) && r.grpid@ == v))
            &&& (qr_is_group(qr@) ==> (qr_field(qr@, 'g') matches Some(v) && r.name@
                == percent_decoded(v)))
            &&& (!qr_is_group(qr@) ==> r.grpid@.len() == 0 && (match qr_field(qr@, 'n') {
                Some(v) => r.name@ == percent_decoded(v),
                None => r.name@.len() == 0,
            }))
            &&& final(ctx).has_contact(r.contact_id)
            &&& final(ctx).spec_contact(r.contact_id).addr@ == r.addr@
            &&& *final(ctx) == (Context { contacts: final(ctx).contacts, ..*old(ctx) })
            &&& old(ctx).contacts@.is_prefix_of(final(ctx).contacts@)
            &&& final(ctx).contacts@.len() <= old(ctx).contacts@.len() + 1
        },
{
    let n = qr.unicode_len();
    let hash = find_char_from(qr, 0, '#');
    proof {
        lemma_find_char_eq(qr@, '#', hash as int);
    }
    if hash >= n {
        return qr_scan_error();
    }
    if hash < 12 {
        assert(qr_payload(qr@).len() < 12);
        return qr_scan_error();
    }
    let prefix = qr.substring_char(0, 12);
    if !crate::mimeparser::str_eq(prefix, "OPENPGP4FPR:") {
        proof {
            assert(qr_payload(qr@).take(12) =~= qr@.subrange(0, 12));
        }
        return qr_scan_error();
    }
    proof {
        assert(qr_payload(qr@).take(12) =~= qr@.subrange(0, 12));
    }
    let fp_raw = qr.substring_char(12, hash);
    let fingerprint = dc_normalize_fingerprint(fp_raw);
    proof {
        assert(qr_payload(qr@).skip(12) =~= qr@.subrange(12, hash as int));
    }
    if fingerprint.as_str().unicode_len() != 40 {
        return qr_scan_error();
    }
    let start = hash + 1;
    proof {
        assert(qr_params_sec(qr@) =~= qr@.skip(start as int));
    }
    let field_a = get_param(qr, start, 'a');
    let field_i = get_param(qr, start, 'i');
    let field_s = get_param(qr, start, 's');
    let field_g = get_param(qr, start, 'g');
    let field_x = get_param(qr, start, 'x');
    let field_n = get_param(qr, start, 'n');
    let addr_enc = match field_a {
        Some(v) => v,
        None => {
            return qr_scan_error();
        },
    };
    let invitenumber = match field_i {
        Some(v) => v,
        None => {
            return qr_scan_error();
        },
    };
    let auth = match field_s {
        Some(v) => v,
        None => {
            return qr_scan_error();
        },
    };
    let addr = percent_decode_value(addr_enc.as_str());
    let contact_id = ctx.add_or_lookup_contact_by_addr(addr.as_str(), Origin::UnhandledQrScan);
    let is_group = field_g.is_some() && field_x.is_some();
    if is_group {
        let grpid = match field_x {
            Some(v) => v,
            None => String::new(),
        };
        let name = match field_g {
            Some(v) => percent_decode_value(v.as_str()),
            None => String::new(),
        };
        QrScan {
            state: QrState::AskVerifyGroup,
            contact_id,
            addr,
            fingerprint,
            invitenumber,
            auth,
            name,
            grpid,
        }
    } else {
        let name = match field_n {
            Some(v) => percent_decode_value(v.as_str()),
            None => String::new(),
        };
        QrScan {
            state: QrState::AskVerifyContact,
            contact_id,
            addr,
            fingerprint,
            invitenumber,
            auth,
            name,
            grpid: String::new(),
        }
    }
}

/// The error result of a scan, leaving everything untouched.
fn qr_scan_error() -> (r: QrScan)
    ensures
        r.state == QrState::Error,
        r.contact_id == 0,
        r.addr@.len() == 0,
        r.fingerprint@.len() == 0,
        r.invitenumber@.len() == 0,
        r.auth@.len() == 0,
        r.name@.len() == 0,
        r.grpid@.len() == 0,
{
    QrScan {
        state: QrState::Error,
        contact_id: 0,
        addr: String::new(),
        fingerprint: String::new(),
        invitenumber: String::new(),
        auth: String::new(),
        name: String::new(),
        grpid: String::new(),
    }
}

/// The invitation text for a 1:1 contact invite.
pub open spec fn qr_contact_text(
    fp: Seq<char>,
    addr_enc: Seq<char>,
    name_enc: Seq<char>,
    inv: Seq<char>,
    auth: Seq<char>,
) -> Seq<char> {
    "OPENPGP4FPR:"@ + fp + "#a="@ + addr_enc + "&n="@ + name_enc + "&i="@ + inv + "&s="@ + auth
}

/// The invitation text for a group invite.
pub open spec fn qr_group_text(
    fp: Seq<char>,
    addr_enc: Seq<char>,
    gname_enc: Seq<char>,
    grpid: Seq<char>,
    inv: Seq<char>,
    auth: Seq<char>,
) -> Seq<char> {
    "OPENPGP4FPR:"@ + fp + "#a="@ + addr_enc + "&g="@ + gname_enc + "&x="@ + grpid + "&i="@ + inv
        + "&s="@ + auth
}

/// Render the 1:1 invitation text; address and display name are
/// percent-encoded, the secrets are carried as they are.
pub fn format_contact_qr(fp: &str, addr: &str, name: &str, inv: &str, auth: &str) -> (r: String)
    ensures
        r@ == qr_contact_text(
            fp@,
            percent_encoded(addr@, true),
            percent_encoded(name@, true),
            inv@,
            auth@,
        ),
{
    let addr_enc = percent_encode_value(addr, true);
    let name_enc = percent_encode_value(name, true);
    let mut out = String::new();
    out.append("OPENPGP4FPR:");
    out.append(fp);
    out.append("#a=");
    out.append(addr_enc.as_str());
    out.append("&n=");
    out.append(name_enc.as_str());
    out.append("&i=");
    out.append(inv);
    out.append("&s=");
    out.append(auth);
    proof {
        assert(out@ =~= qr_contact_text(
            fp@,
            percent_encoded(addr@, true),
            percent_encoded(name@, true),
            inv@,
            auth@,
        ));
    }
    out
}

/// Render the group invitation text; address and group name are
/// percent-encoded, group id and secrets are carried as they are.
pub fn format_group_qr(fp: &str, addr: &str, gname: &str, grpid: &str, inv: &str, auth: &str) -> (r:
    String)
    ensures
        r@ == qr_group_text(
            fp@,
            percent_encoded(addr@, true),
            percent_encoded(gname@, false),
            grpid@,
            inv@,
            auth@,
        ),
{
    let addr_enc = percent_encode_value(addr, true);
    let gname_enc = percent_encode_value(gname, false);
    let mut out = String::new();
    out.append("OPENPGP4FPR:");
    out.append(fp);
    out.append("#a=");
    out.append(addr_enc.as_str());
    out.append("&g=");
    out.append(gname_enc.as_str());
    out.append("&x=");
    out.append(grpid);
    out.append("&i=");
    out.append(inv);
    out.append("&s=");
    out.append(auth);
    proof {
        assert(out@ =~= qr_group_text(
            fp@,
            percent_encoded(addr@, true),
            percent_encoded(gname@, false),
            grpid@,
            inv@,
            auth@,
        ));
    }
    out
}

} // verus!
