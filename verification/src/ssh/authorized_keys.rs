//! Whose keys open a VM's console.
use crate::text::{chars_of, split_words, string_of, trim};
use russh_keys::PublicKeyBase64;
use vstd::prelude::*;

verus! {

/// A public key in SSH wire format: the name of its algorithm, then its numbers or its point
/// on the curve. Two keys are the same exactly if this is the same.
#[derive(Debug)]
pub struct PublicKey {
    pub blob: Vec<u8>,
}

/// What `russh_keys::parse_public_key_base64` makes of a text: the key that it writes in
/// base64, in SSH wire format, if it writes one.
pub uninterp spec fn key_blob_of(text: Seq<char>) -> Option<Seq<u8>>;

/// `russh_keys::parse_public_key_base64` reads a public key from base64, or fails; the result
/// depends on the text alone. `public_key_bytes` writes the key in SSH wire format. For RSA
/// keys that does not depend on the hash that goes with the key.
#[verifier::external_body]
fn parse_key(text: &str) -> (r: Option<PublicKey>)
    ensures
        match r {
            Some(key) => key_blob_of(text@) == Some(key.blob@),
            None => key_blob_of(text@) is None,
        },
{
    russh_keys::parse_public_key_base64(text).ok().map(|k| PublicKey { blob: k.public_key_bytes() })
}

/// What a line of a key list is.
pub enum KeyLine {
    /// Nothing, or a comment.
    Blank,
    /// A line that holds no key.
    Malformed,
    /// A key, in SSH wire format.
    Key(Seq<u8>),
}

/// Reads a line of a key list: `<key-type> <base64-data> [comment]`. Empty lines and lines
/// that start with `#` hold no key.
pub open spec fn key_line(line: Seq<char>) -> KeyLine {
    let t = crate::text::trimmed(line);
    if t.len() == 0 || t[0] == '#' {
        KeyLine::Blank
    } else if crate::text::words(t).len() < 2 {
        KeyLine::Malformed
    } else {
        match key_blob_of(crate::text::words(t)[1]) {
            Some(blob) => KeyLine::Key(blob),
            None => KeyLine::Malformed,
        }
    }
}

/// Whether a line of the list holds the key.
pub open spec fn authorized(blob: Seq<u8>, keys: Seq<String>) -> bool {
    exists|i: int| 0 <= i < keys.len() && key_line(#[trigger] keys[i]@) == KeyLine::Key(blob)
}

/// Whether a line of the list is malformed.
pub open spec fn has_malformed(keys: Seq<String>) -> bool {
    exists|i: int| 0 <= i < keys.len() && key_line(#[trigger] keys[i]@) is Malformed
}

/// Why it is not known whether a key is authorized.
#[derive(Debug, Clone, Copy, PartialEq, Eq, Structural)]
pub enum KeyListError {
    /// No line holds the key, but some line holds no key that could be read.
    Malformed,
}

/// Compare two SSH public keys for equality.
pub fn keys_equal(a: &PublicKey, b: &PublicKey) -> (r: bool)
    ensures
        r == (a.blob@ == b.blob@),
{
    if a.blob.len() != b.blob.len() {
        return false;
    }
    let mut i: usize = 0;
    while i < a.blob.len()
        invariant
            i <= a.blob@.len(),
            a.blob@.len() == b.blob@.len(),
            forall|k: int| 0 <= k < i ==> a.blob@[k] == b.blob@[k],
        decreases a.blob@.len() - i,
    {
        if a.blob[i] != b.blob[i] {
            return false;
        }
        i += 1;
    }
    proof {
        assert(a.blob@ =~= b.blob@);
    }
    true
}

/// Whether a line that was split into words and whose key was read, or not, holds the key:
/// `None` if it holds no key that could be read.
pub fn line_matches(key: &PublicKey, parsed: Option<PublicKey>) -> (r: Option<bool>)
    ensures
        match parsed {
            Some(other) => r == Some(key.blob@ == other.blob@),
            None => r is None,
        },
{
    match parsed {
        Some(other) => Some(keys_equal(key, &other)),
        None => None,
    }
}

/// Reads a line of a key list, and compares its key.
fn check_line(key: &PublicKey, line: &str) -> (r: Option<Option<bool>>)
    ensures
        match key_line(line@) {
            KeyLine::Blank => r is None,
            KeyLine::Malformed => r == Some(None::<bool>),
            KeyLine::Key(blob) => r == Some(Some(key.blob@ == blob)),
        },
{
    let chars = chars_of(line);
    let t = trim(&chars);
    if t.len() == 0 || t[0] == '#' {
        return None;
    }
    let words = split_words(&t);
    let ghost all = crate::text::views(words@);
    if words.len() < 2 {
        return Some(None);
    }
    proof {
        assert(all[1] == words@[1]@);
    }
    let data = string_of(&words[1]);
    Some(line_matches(key, parse_key(data.as_str())))
}

/// Validates that a given SSH public key is authorized for the provided list
/// of SSH keys in OpenSSH authorized_keys format (e.g., "ssh-ed25519 AAAA...").
/// A malformed line does not hide the others.
///
/// Returns:
/// * `Ok(true)` if the key is authorized
/// * `Ok(false)` if the key is not in the authorized list
/// * `Err(_)` if no line holds the key and some line is malformed
pub fn is_key_authorized(key: &PublicKey, authorized_keys: &Vec<String>) -> (r: Result<
    bool,
    KeyListError,
>)
    ensures
        r == if authorized(key.blob@, authorized_keys@) {
            Ok::<bool, KeyListError>(true)
        } else if has_malformed(authorized_keys@) {
            Err::<bool, KeyListError>(KeyListError::Malformed)
        } else {
            Ok::<bool, KeyListError>(false)
        },
{
    let mut malformed = false;
    let mut i: usize = 0;
    while i < authorized_keys.len()
        invariant
            i <= authorized_keys@.len(),
            forall|k: int|
                0 <= k < i ==> key_line(#[trigger] authorized_keys@[k]@) != KeyLine::Key(key.blob@),
            malformed == exists|k: int|
                0 <= k < i && key_line(#[trigger] authorized_keys@[k]@) is Malformed,
        decreases authorized_keys@.len() - i,
    {
        match check_line(key, authorized_keys[i].as_str()) {
            None => {},
            Some(None) => {
                malformed = true;
                proof {
                    assert(key_line(authorized_keys@[i as int]@) is Malformed);
                }
            },
            Some(Some(found)) => if found {
                proof {
                    assert(key_line(authorized_keys@[i as int]@) == KeyLine::Key(key.blob@));
                }
                return Ok(true);
            },
        }
        i += 1;
    }
    if malformed {
        Err(KeyListError::Malformed)
    } else {
        Ok(false)
    }
}

/// No key is authorized by an empty list.
pub proof fn empty_list_authorizes_none(blob: Seq<u8>)
    ensures
        !authorized(blob, Seq::empty()),
        !has_malformed(Seq::empty()),
{
}

/// More lines never take an authorization away.
pub proof fn more_lines_keep_authorization(blob: Seq<u8>, keys: Seq<String>, more: Seq<String>)
    requires
        authorized(blob, keys),
    ensures
        authorized(blob, keys + more),
        authorized(blob, more + keys),
{
    let i = choose|i: int| 0 <= i < keys.len() && key_line(#[trigger] keys[i]@) == KeyLine::Key(blob);
    assert((keys + more)[i] == keys[i]);
    assert((more + keys)[more.len() + i] == keys[i]);
}

/// Where the first solid character of a line stands, trimming leaves it at the front.
proof fn front_of_line(lead: Seq<char>, s: Seq<char>)
    requires
        crate::text::blank(lead),
        s.len() > 0,
        !crate::text::white(s[0]),
    ensures
        crate::text::trimmed(lead + s).len() > 0,
        crate::text::trimmed(lead + s)[0] == s[0],
{
    let line = lead + s;
    let (front, tail) = crate::text::trimmed_parts(line);
    let t = crate::text::trimmed(line);
    let n = lead.len() as int;
    assert(line[n] == s[0]);
    if t.len() == 0 {
        if n < front.len() {
            assert(line[n] == front[n]);
            assert(crate::text::white(front[n]));
        } else {
            assert(line[n] == tail[n - front.len()]);
            assert(crate::text::white(tail[n - front.len()]));
        }
    } else {
        assert(line[front.len() as int] == t[0]);
        if front.len() < n {
            assert(line[front.len() as int] == lead[front.len() as int]);
            assert(crate::text::white(lead[front.len() as int]));
        }
        if front.len() > n {
            assert(line[n] == front[n]);
            assert(crate::text::white(front[n]));
        }
    }
}

/// A line of two words or more is the key that its second word writes, whatever its first
/// word, the white space around its words and the words behind them, unless it begins with
/// `#`. It is malformed if the second word writes no key.
pub proof fn second_word_is_the_key(
    lead: Seq<char>,
    kind: Seq<char>,
    gap: Seq<char>,
    data: Seq<char>,
    rest: Seq<char>,
)
    requires
        crate::text::blank(lead),
        crate::text::solid(kind),
        kind.len() > 0,
        kind[0] != '#',
        crate::text::blank(gap),
        gap.len() > 0,
        crate::text::solid(data),
        data.len() > 0,
        rest.len() == 0 || crate::text::white(rest[0]),
    ensures
        key_line(lead + kind + gap + data + rest) == match key_blob_of(data) {
            Some(blob) => KeyLine::Key(blob),
            None => KeyLine::Malformed,
        },
{
    let line = lead + kind + gap + data + rest;
    let s = kind + gap + data + rest;
    assert(line =~= lead + s);
    assert(s[0] == kind[0]);
    assert(!crate::text::white(kind[0]));
    front_of_line(lead, s);
    crate::text::first_two_words(lead, kind, gap, data, rest);
    crate::text::words_of_trimmed(line);
}

/// A line `<kind> <data>`, with a comment or without, is the key that the data write, whatever
/// the kind of the key.
pub proof fn every_kind_of_key_is_read(
    kind: Seq<char>,
    data: Seq<char>,
    comment: Seq<char>,
    blob: Seq<u8>,
)
    requires
        crate::text::solid(kind),
        kind.len() > 0,
        kind[0] != '#',
        crate::text::solid(data),
        data.len() > 0,
    ensures
        key_blob_of(data) == Some(blob) ==> key_line(kind + seq![' '] + data) == KeyLine::Key(
            blob,
        ),
        key_blob_of(data) == Some(blob) ==> key_line(
            kind + seq![' '] + data + seq![' '] + comment,
        ) == KeyLine::Key(blob),
{
    let none = Seq::<char>::empty();
    second_word_is_the_key(none, kind, seq![' '], data, none);
    second_word_is_the_key(none, kind, seq![' '], data, seq![' '] + comment);
    assert(none + kind + seq![' '] + data + none =~= kind + seq![' '] + data);
    assert(none + kind + seq![' '] + data + (seq![' '] + comment) =~= kind + seq![' '] + data
        + seq![' '] + comment);
}

/// A line of white space, and one whose first solid character is `#`, hold no key and are not
/// malformed. A line of one word is malformed.
pub proof fn lines_without_key(lead: Seq<char>, s: Seq<char>, tail: Seq<char>)
    requires
        crate::text::blank(lead),
        crate::text::blank(tail),
    ensures
        key_line(lead) is Blank,
        key_line(lead + seq!['#'] + s) is Blank,
        s.len() > 0 && crate::text::solid(s) && s[0] != '#' ==> key_line(lead + s + tail)
            is Malformed,
{
    let none = Seq::<char>::empty();
    assert(lead + none + none =~= lead);
    crate::text::trimmed_takes_ends(lead, none, none);
    let comment = seq!['#'] + s;
    assert(lead + seq!['#'] + s =~= lead + comment);
    front_of_line(lead, comment);
    if s.len() > 0 && crate::text::solid(s) && s[0] != '#' {
        assert(!crate::text::white(s[0]));
        assert(!crate::text::white(s[s.len() - 1]));
        crate::text::trimmed_takes_ends(lead, s, tail);
        crate::text::first_word(none, s, none);
        crate::text::blank_has_no_words(none);
        assert(none + s + none =~= s);
    }
}

/// A list authorizes a key that one of its lines writes, whatever the kind of the key and
/// whatever the other lines are.
pub proof fn listed_key_is_authorized(
    key: PublicKey,
    list: Vec<String>,
    i: int,
    lead: Seq<char>,
    kind: Seq<char>,
    gap: Seq<char>,
    data: Seq<char>,
    rest: Seq<char>,
    r: Result<bool, KeyListError>,
)
    requires
        call_ensures(is_key_authorized, (&key, &list), r),
        0 <= i < list@.len(),
        list@[i]@ == lead + kind + gap + data + rest,
        crate::text::blank(lead),
        crate::text::solid(kind),
        kind.len() > 0,
        kind[0] != '#',
        crate::text::blank(gap),
        gap.len() > 0,
        crate::text::solid(data),
        data.len() > 0,
        rest.len() == 0 || crate::text::white(rest[0]),
    ensures
        key_blob_of(data) == Some(key.blob@) ==> r == Ok::<bool, KeyListError>(true),
{
    second_word_is_the_key(lead, kind, gap, data, rest);
    if key_blob_of(data) == Some(key.blob@) {
        assert(key_line(list@[i]@) == KeyLine::Key(key.blob@));
    }
}

/// Whoever is authorized has the key that the second word of some line writes, in a line that
/// is no comment. A list in which no second word writes the key authorizes nobody with it.
pub proof fn authorized_by_a_line_only(
    key: PublicKey,
    list: Vec<String>,
    r: Result<bool, KeyListError>,
)
    requires
        call_ensures(is_key_authorized, (&key, &list), r),
        r == Ok::<bool, KeyListError>(true),
    ensures
        exists|i: int|
            {
                &&& 0 <= i < list@.len()
                &&& crate::text::words(#[trigger] list@[i]@).len() >= 2
                &&& crate::text::words(list@[i]@)[0][0] != '#'
                &&& key_blob_of(crate::text::words(list@[i]@)[1]) == Some(key.blob@)
            },
{
    let i = choose|i: int|
        0 <= i < list@.len() && key_line(#[trigger] list@[i]@) == KeyLine::Key(key.blob@);
    let line = list@[i]@;
    let t = crate::text::trimmed(line);
    crate::text::words_of_trimmed(line);
    let (front, tail) = crate::text::trimmed_parts(line);
    crate::text::first_character_of_words(t);
}

/// A list of two parts authorizes what either part authorizes, and is malformed where either
/// is.
pub proof fn lists_join(blob: Seq<u8>, a: Seq<String>, b: Seq<String>, line: String)
    ensures
        authorized(blob, a + b) == (authorized(blob, a) || authorized(blob, b)),
        has_malformed(a + b) == (has_malformed(a) || has_malformed(b)),
        authorized(blob, seq![line]) == (key_line(line@) == KeyLine::Key(blob)),
        has_malformed(seq![line]) == (key_line(line@) is Malformed),
{
    let all = a + b;
    if authorized(blob, a) {
        more_lines_keep_authorization(blob, a, b);
    }
    if authorized(blob, b) {
        more_lines_keep_authorization(blob, b, a);
    }
    if authorized(blob, all) {
        let i = choose|i: int|
            0 <= i < all.len() && key_line(#[trigger] all[i]@) == KeyLine::Key(blob);
        if i < a.len() {
            assert(key_line(a[i]@) == KeyLine::Key(blob));
        } else {
            assert(key_line(b[i - a.len()]@) == KeyLine::Key(blob));
        }
    }
    if has_malformed(all) {
        let i = choose|i: int| 0 <= i < all.len() && key_line(#[trigger] all[i]@) is Malformed;
        if i < a.len() {
            assert(key_line(a[i]@) is Malformed);
        } else {
            assert(key_line(b[i - a.len()]@) is Malformed);
        }
    }
    if has_malformed(a) {
        let i = choose|i: int| 0 <= i < a.len() && key_line(#[trigger] a[i]@) is Malformed;
        assert(all[i] == a[i]);
    }
    if has_malformed(b) {
        let i = choose|i: int| 0 <= i < b.len() && key_line(#[trigger] b[i]@) is Malformed;
        assert(all[a.len() + i] == b[i]);
    }
    assert(seq![line][0] == line);
}

/// A malformed line does not hide the others; it counts only where no line holds the key.
pub proof fn malformed_lines_hide_nothing(
    key: PublicKey,
    list: Vec<String>,
    r: Result<bool, KeyListError>,
)
    requires
        call_ensures(is_key_authorized, (&key, &list), r),
    ensures
        r is Err ==> exists|i: int| 0 <= i < list@.len() && key_line(#[trigger] list@[i]@)
            is Malformed,
        r is Err ==> forall|i: int|
            0 <= i < list@.len() ==> key_line(#[trigger] list@[i]@) != KeyLine::Key(key.blob@),
        r == Ok::<bool, KeyListError>(false) ==> forall|i: int|
            0 <= i < list@.len() ==> {
                &&& key_line(#[trigger] list@[i]@) != KeyLine::Key(key.blob@)
                &&& !(key_line(list@[i]@) is Malformed)
            },
{
}

/// Two keys are the same exactly if their bytes are.
pub proof fn keys_are_their_bytes(
    a: PublicKey,
    b: PublicKey,
    r: bool,
    m: Option<bool>,
    n: Option<bool>,
)
    requires
        call_ensures(keys_equal, (&a, &b), r),
        call_ensures(line_matches, (&a, Some(b)), m),
        call_ensures(line_matches, (&a, None::<PublicKey>), n),
    ensures
        r <==> a.blob@ == b.blob@,
        m == Some(r),
        n is None,
{
}

} // verus!
