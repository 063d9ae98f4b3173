//! Per-device keys kept in the system keyring.
//!
//! A key record is named by the device identifier (the trimmed host name)
//! followed by the purpose of the key; its secret is a fresh 256-bit key in
//! standard, padded Base64.

use vstd::prelude::*;
use base64::engine::general_purpose;
use base64::Engine;
use rand::RngCore;

verus! {

/// The keyring service under which the records are kept.
pub const APP_NAME: &'static str = "clipboardplusplus";

/// Declares the host-name error of `sys_info` so that results carry it.
#[verifier::external_type_specification]
#[verifier::external_body]
pub struct ExHostInfoError(sys_info::Error);

/// Whether `c` has the Unicode `White_Space` property, as `char::is_whitespace`
/// decides.
pub open spec fn is_white_space(c: char) -> bool {
    let v = c as u32;
    ||| 0x9 <= v <= 0xd
    ||| v == 0x20
    ||| v == 0x85
    ||| v == 0xa0
    ||| v == 0x1680
    ||| 0x2000 <= v <= 0x200a
    ||| v == 0x2028
    ||| v == 0x2029
    ||| v == 0x202f
    ||| v == 0x205f
    ||| v == 0x3000
}

pub open spec fn trim_start_spec(s: Seq<char>) -> Seq<char>
    decreases s.len(),
{
    if s.len() > 0 && is_white_space(s[0]) {
        trim_start_spec(s.drop_first())
    } else {
        s
    }
}

pub open spec fn trim_end_spec(s: Seq<char>) -> Seq<char>
    decreases s.len(),
{
    if s.len() > 0 && is_white_space(s.last()) {
        trim_end_spec(s.drop_last())
    } else {
        s
    }
}

/// `s` without its leading and trailing white space.
pub open spec fn trim_spec(s: Seq<char>) -> Seq<char> {
    trim_end_spec(trim_start_spec(s))
}

/// The character of the standard Base64 alphabet for the 6-bit value `v`.
pub open spec fn base64_digit(v: int) -> char {
    if v < 26 {
        (65 + v) as char
    } else if v < 52 {
        (97 + (v - 26)) as char
    } else if v < 62 {
        (48 + (v - 52)) as char
    } else if v == 62 {
        '+'
    } else {
        '/'
    }
}

/// Standard Base64 with `=` padding (RFC 4648, section 4): each group of
/// three bytes becomes four characters; a last group of one or two bytes is
/// padded to four characters with `=`.
pub open spec fn base64_encode_spec(bytes: Seq<u8>) -> Seq<char>
    decreases bytes.len(),
{
    if bytes.len() == 0 {
        Seq::empty()
    } else if bytes.len() == 1 {
        let b0 = bytes[0] as int;
        seq![base64_digit(b0 / 4), base64_digit((b0 % 4) * 16), '=', '=']
    } else if bytes.len() == 2 {
        let b0 = bytes[0] as int;
        let b1 = bytes[1] as int;
        seq![
            base64_digit(b0 / 4),
            base64_digit((b0 % 4) * 16 + b1 / 16),
            base64_digit((b1 % 16) * 4),
            '=',
        ]
    } else {
        let b0 = bytes[0] as int;
        let b1 = bytes[1] as int;
        let b2 = bytes[2] as int;
        seq![
            base64_digit(b0 / 4),
            base64_digit((b0 % 4) * 16 + b1 / 16),
            base64_digit((b1 % 16) * 4 + b2 / 64),
            base64_digit(b2 % 64),
        ] + base64_encode_spec(bytes.subrange(3, bytes.len() as int))
    }
}

/// The encoding has four characters for every started group of three bytes.
pub proof fn lemma_base64_length(bytes: Seq<u8>)
    ensures
        base64_encode_spec(bytes).len() == 4 * ((bytes.len() + 2) / 3),
    decreases bytes.len(),
{
    if bytes.len() >= 3 {
        lemma_base64_length(bytes.subrange(3, bytes.len() as int));
    }
}

/// Where the last group has two bytes, the encoding ends in one `=`.
pub proof fn lemma_base64_padding(bytes: Seq<u8>)
    requires
        bytes.len() % 3 == 2,
    ensures
        base64_encode_spec(bytes).last() == '=',
    decreases bytes.len(),
{
    if bytes.len() >= 3 {
        let rest = bytes.subrange(3, bytes.len() as int);
        lemma_base64_padding(rest);
        lemma_base64_length(rest);
    }
}

/// What the standard, padded Base64 engine of `base64` decodes `text` to, or
/// `None` where it refuses the text.
pub uninterp spec fn base64_standard_decoding(text: Seq<char>) -> Option<Seq<u8>>;

/// Calls `str::trim`: the result is `s` without leading and trailing white
/// space, white space being the Unicode `White_Space` property.
#[verifier::external_body]
fn trim_str(s: &str) -> (t: &str)
    ensures
        t@ == trim_spec(s@),
{
    s.trim()
}

/// Calls `rand::thread_rng().fill_bytes`, which overwrites `key` with random
/// bytes; nothing is stated of them.
#[verifier::external_body]
fn fill_random(key: &mut [u8; 32]) {
    rand::thread_rng().fill_bytes(key)
}

/// Calls `Engine::encode` of `base64::engine::general_purpose::STANDARD`.
/// States that the result is standard, padded Base64 of `bytes` and that the
/// same engine decodes it back to `bytes` (its output is canonical).
/// The call panics only where the output length overflows `usize`, which
/// `requires` excludes.
#[verifier::external_body]
fn encode_base64(bytes: &[u8]) -> (text: String)
    requires
        bytes@.len() <= usize::MAX / 4,
    ensures
        text@ == base64_encode_spec(bytes@),
        base64_standard_decoding(text@) == Some(bytes@),
{
    general_purpose::STANDARD.encode(bytes)
}

/// Calls `Engine::decode` of `base64::engine::general_purpose::STANDARD` on
/// the bytes of `text`, keeping the decoded bytes and dropping the error.
/// States that the result is the named decoding of `text`.
#[verifier::external_body]
fn decode_base64(text: &str) -> (bytes: Option<Vec<u8>>)
    ensures
        match bytes {
            Some(b) => base64_standard_decoding(text@) == Some(b@),
            None => base64_standard_decoding(text@) is None,
        },
{
    general_purpose::STANDARD.decode(text).ok()
}

/// A fresh random 256-bit key.
fn generate_key() -> [u8; 32] {
    let mut key = [0u8; 32];
    fill_random(&mut key);
    key
}

/// Kept for a key lookup that does nothing yet.
pub fn retrieve_key() {
}

/// The device identifier that the host-name lookup `hostname` gives: the
/// trimmed host name, or the lookup's error.
pub fn get_hardware_uuid(hostname: Result<String, sys_info::Error>) -> (id: Result<
    String,
    sys_info::Error,
>)
    ensures
        match hostname {
            Ok(h) => id matches Ok(i) && i@ == trim_spec(h@),
            Err(e) => id == Err::<String, sys_info::Error>(e),
        },
{
    match hostname {
        Ok(h) => Ok(trim_str(h.as_str()).to_owned()),
        Err(e) => Err(e),
    }
}

/// A key record to be saved in the keyring under [`APP_NAME`].
#[derive(Debug, PartialEq, Eq)]
pub struct KeyEntry {
    /// The record's name: device identifier, then purpose.
    pub user: String,
    /// The key in standard, padded Base64.
    pub secret: String,
}

/// The name of the record for `purpose` on the device `uuid`.
pub fn key_entry_user(uuid: String, purpose: &str) -> (user: String)
    ensures
        user@ == uuid@ + purpose@,
{
    let mut user = uuid;
    user.append(purpose);
    user
}

/// Whether `secret` is what a record holds for the 256-bit key `key`.
pub open spec fn stores_key(secret: Seq<char>, key: Seq<u8>) -> bool {
    &&& key.len() == 32
    &&& secret == base64_encode_spec(key)
    &&& base64_standard_decoding(secret) == Some(key)
}

/// The record for `purpose` on the device `uuid` that holds `key`.
pub fn key_entry_with_key(uuid: String, purpose: &str, key: [u8; 32]) -> (entry: KeyEntry)
    ensures
        entry.user@ == uuid@ + purpose@,
        stores_key(entry.secret@, key@),
        entry.secret@.len() == 44,
        entry.secret@.last() == '=',
{
    let user = key_entry_user(uuid, purpose);
    let secret = encode_base64(&key);
    proof {
        lemma_base64_length(key@);
        lemma_base64_padding(key@);
    }
    KeyEntry { user, secret }
}

/// A new record for `purpose` on the device `uuid`, holding a fresh random key.
pub fn new_key_entry(uuid: String, purpose: &str) -> (entry: KeyEntry)
    ensures
        entry.user@ == uuid@ + purpose@,
        exists|key: Seq<u8>| #[trigger] stores_key(entry.secret@, key),
        entry.secret@.len() == 44,
        entry.secret@.last() == '=',
{
    let key = generate_key();
    let entry = key_entry_with_key(uuid, purpose, key);
    assert(stores_key(entry.secret@, key@));
    entry
}

/// A new record for `purpose`, holding a fresh random key, on the device
/// whose host-name lookup gave `hostname`; or the lookup's error.
pub fn store_key_with_uuid(hostname: Result<String, sys_info::Error>, purpose: String) -> (entry:
    Result<KeyEntry, sys_info::Error>)
    ensures
        match hostname {
            Ok(h) => entry matches Ok(e) && e.user@ == trim_spec(h@) + purpose@ && (exists|
                key: Seq<u8>,
            | #[trigger] stores_key(e.secret@, key)) && e.secret@.len() == 44,
            Err(er) => entry == Err::<KeyEntry, sys_info::Error>(er),
        },
{
    match get_hardware_uuid(hostname) {
        Ok(uuid) => {
            let key = generate_key();
            let record = key_entry_with_key(uuid, purpose.as_str(), key);
            let stored: Result<KeyEntry, sys_info::Error> = Ok(record);
            assert(stored matches Ok(e) && stores_key(e.secret@, key@));
            stored
        },
        Err(e) => Err(e),
    }
}

/// Why a key could not be read back.
#[derive(Debug, Clone, Copy, PartialEq, Eq, Structural)]
pub enum KeyError {
    /// The keyring record could not be opened.
    EntryUnavailable,
    /// The record does not hold valid Base64.
    InvalidEncoding,
}

impl KeyError {
    /// The text that reports this error.
    pub fn message(&self) -> (text: String)
        ensures
            self is EntryUnavailable ==> text@ == "Failed to retrieve value"@,
            self is InvalidEncoding ==> text@ == "Stored key is not valid Base64"@,
    {
        match self {
            KeyError::EntryUnavailable => String::from_str("Failed to retrieve value"),
            KeyError::InvalidEncoding => String::from_str("Stored key is not valid Base64"),
        }
    }
}

/// The key that reading back a record gives: `None` where the record could
/// not be opened, else the decoding of the secret it held.
pub open spec fn retrieve_spec(stored_secret: Option<Seq<char>>) -> Result<Seq<u8>, KeyError> {
    match stored_secret {
        None => Err(KeyError::EntryUnavailable),
        Some(s) => match base64_standard_decoding(s) {
            Some(k) => Ok(k),
            None => Err(KeyError::InvalidEncoding),
        },
    }
}

pub open spec fn key_view(key: Result<Vec<u8>, KeyError>) -> Result<Seq<u8>, KeyError> {
    match key {
        Ok(k) => Ok(k@),
        Err(e) => Err(e),
    }
}

pub open spec fn secret_view(stored_secret: Option<String>) -> Option<Seq<char>> {
    match stored_secret {
        Some(s) => Some(s@),
        None => None,
    }
}

/// Reads back a key from what the keyring record held (`None` where the
/// record could not be opened).
pub fn retrieve_key_with_uuid(stored_secret: Option<String>) -> (key: Result<Vec<u8>, KeyError>)
    ensures
        key_view(key) == retrieve_spec(secret_view(stored_secret)),
{
    match stored_secret {
        None => Err(KeyError::EntryUnavailable),
        Some(s) => match decode_base64(s.as_str()) {
            Some(k) => Ok(k),
            None => Err(KeyError::InvalidEncoding),
        },
    }
}

/// Reading back the secret of a record made by [`new_key_entry`] gives the
/// key that was stored.
pub proof fn lemma_stored_key_is_retrieved(secret: Seq<char>, key: Seq<u8>)
    requires
        stores_key(secret, key),
    ensures
        retrieve_spec(Some(secret)) == Ok::<Seq<u8>, KeyError>(key),
        key.len() == 32,
{
}

/// Trimming removes white space at the front, keeps everything from the
/// first other character on, and never starts with white space.
proof fn lemma_trim_start(s: Seq<char>)
    ensures
        exists|i: int|
            0 <= i <= s.len() && #[trigger] s.subrange(i, s.len() as int) == trim_start_spec(s) && (
            forall|k: int| 0 <= k < i ==> is_white_space(s[k])),
        trim_start_spec(s).len() > 0 ==> !is_white_space(trim_start_spec(s)[0]),
    decreases s.len(),
{
    if s.len() > 0 && is_white_space(s[0]) {
        let rest = s.drop_first();
        lemma_trim_start(rest);
        let i = choose|i: int|
            0 <= i <= rest.len() && #[trigger] rest.subrange(i, rest.len() as int) == trim_start_spec(rest)
                && (forall|k: int| 0 <= k < i ==> is_white_space(rest[k]));
        assert(s.subrange(i + 1, s.len() as int) =~= rest.subrange(i, rest.len() as int));
        assert forall|k: int| 0 <= k < i + 1 implies is_white_space(s[k]) by {
            if k > 0 {
                assert(s[k] == rest[k - 1]);
            }
        }
    } else {
        assert(s.subrange(0, s.len() as int) =~= s);
    }
}

proof fn lemma_trim_end(s: Seq<char>)
    ensures
        exists|j: int|
            0 <= j <= s.len() && #[trigger] s.subrange(0, j) == trim_end_spec(s) && (forall|k: int|
                j <= k < s.len() ==> is_white_space(s[k])),
        trim_end_spec(s).len() > 0 ==> !is_white_space(trim_end_spec(s).last()),
        trim_end_spec(s).len() > 0 && s.len() > 0 ==> trim_end_spec(s)[0] == s[0],
    decreases s.len(),
{
    if s.len() > 0 && is_white_space(s.last()) {
        let rest = s.drop_last();
        lemma_trim_end(rest);
        let j = choose|j: int|
            0 <= j <= rest.len() && #[trigger] rest.subrange(0, j) == trim_end_spec(rest) && (forall|
                k: int,
            | j <= k < rest.len() ==> is_white_space(rest[k]));
        assert(s.subrange(0, j) =~= rest.subrange(0, j));
        assert forall|k: int| j <= k < s.len() implies is_white_space(s[k]) by {
            if k < s.len() - 1 {
                assert(s[k] == rest[k]);
            }
        }
    } else {
        assert(s.subrange(0, s.len() as int) =~= s);
    }
}

/// The trimmed text is a contiguous piece of the text: only white space is
/// removed, from the two ends, and what is left neither starts nor ends with
/// white space.
pub proof fn lemma_trim_removes_only_outer_white_space(s: Seq<char>)
    ensures
        exists|i: int, j: int|
            0 <= i <= j <= s.len() && #[trigger] s.subrange(i, j) == trim_spec(s) && (forall|k: int|
                0 <= k < i ==> is_white_space(s[k])) && (forall|k: int|
                j <= k < s.len() ==> is_white_space(s[k])),
        trim_spec(s).len() > 0 ==> !is_white_space(trim_spec(s)[0]) && !is_white_space(
            trim_spec(s).last(),
        ),
{
    lemma_trim_start(s);
    let i = choose|i: int|
        0 <= i <= s.len() && #[trigger] s.subrange(i, s.len() as int) == trim_start_spec(s) && (
        forall|k: int| 0 <= k < i ==> is_white_space(s[k]));
    let mid = trim_start_spec(s);
    lemma_trim_end(mid);
    let j = choose|j: int|
        0 <= j <= mid.len() && #[trigger] mid.subrange(0, j) == trim_end_spec(mid) && (forall|k: int|
            j <= k < mid.len() ==> is_white_space(mid[k]));
    assert(s.subrange(i, i + j) =~= mid.subrange(0, j));
    assert forall|k: int| i + j <= k < s.len() implies is_white_space(s[k]) by {
        assert(s[k] == mid[k - i]);
    }
}

/// The characters of standard Base64, in the order of the 6-bit values they
/// stand for.
pub proof fn lemma_base64_alphabet(v: int)
    requires
        0 <= v < 64,
    ensures
        base64_digit(v) == "ABCDEFGHIJKLMNOPQRSTUVWXYZabcdefghijklmnopqrstuvwxyz0123456789+/"@[v],
{
    reveal_strlit("ABCDEFGHIJKLMNOPQRSTUVWXYZabcdefghijklmnopqrstuvwxyz0123456789+/");
}

/// Reading back fails with `EntryUnavailable` exactly where the record could
/// not be opened, fails with `InvalidEncoding` where the secret is refused by
/// the decoder, and otherwise gives the decoded bytes.
pub proof fn lemma_retrieve_outcomes(stored_secret: Option<Seq<char>>)
    ensures
        stored_secret is None <==> retrieve_spec(stored_secret) == Err::<Seq<u8>, KeyError>(
            KeyError::EntryUnavailable,
        ),
        stored_secret matches Some(s) ==> (base64_standard_decoding(s) is None <==> retrieve_spec(
            stored_secret,
        ) == Err::<Seq<u8>, KeyError>(KeyError::InvalidEncoding)),
        stored_secret matches Some(s) ==> (base64_standard_decoding(s) matches Some(k)
            ==> retrieve_spec(stored_secret) == Ok::<Seq<u8>, KeyError>(k)),
{
}

} // verus!
