//! Record-scoped API keys.
//!
//! A key is the text `dgo_<prefix>_<secret>`: a public prefix of 12
//! alphanumeric characters, by which the stored record is found, and a secret
//! of 32. Only a salted, memory-hard hash of the whole text is stored, so a
//! key is shown once, when it is issued, and cannot be recovered afterwards.

use argon2::password_hash::{PasswordHash, PasswordHasher, PasswordVerifier, SaltString};
use argon2::Argon2;
use rand::distr::Alphanumeric;
use rand::Rng;
use vstd::prelude::*;
use vstd::string::*;
use vstd::utf8::*;

use crate::text::same_text;
use crate::types::AddApiKey;

verus! {

/// Number of characters in the public prefix of a key.
pub const PREFIX_LEN: usize = 12;

/// Number of characters in the secret of a key.
pub const SECRET_LEN: usize = 32;

/// Number of characters in a whole key.
pub const KEY_TEXT_LEN: usize = 49;

/// What is stored of an issued key. The key is bound to one DNS record for
/// good: nothing in this library changes `dns_record_id`.
#[derive(Debug, Clone)]
pub struct ApiKeyRecord {
    pub id: String,
    pub user_id: String,
    pub dns_record_id: String,
    pub prefix_id: String,
    pub key_hash: String,
    pub name: String,
}

/// A newly issued key: the record to store, and the key text to hand to its
/// owner.
#[derive(Debug, Clone)]
pub struct IssuedKey {
    pub record: ApiKeyRecord,
    pub full_key: String,
}

/// The two parts of a well-formed key text.
#[derive(Debug, Clone)]
pub struct KeyParts {
    pub prefix: String,
    pub secret: String,
}

/// Why a presented key was refused.
#[derive(Debug, Clone, Copy, PartialEq, Eq, Structural)]
pub enum ApiKeyError {
    /// The text does not have the shape of a key.
    MalformedKey,
    /// No stored key has the prefix of the text.
    UnknownPrefix,
    /// The text does not match the stored hash.
    HashMismatch,
}

/// The hash function refused to hash a text.
#[derive(Debug, Clone)]
pub struct HashError {
    pub message: String,
}

/// `argon2::password_hash::Error`, the error of the hash function. Nothing
/// is read of it but the message that its `Display` writes.
#[verifier::external_type_specification]
#[verifier::external_body]
pub struct ExPasswordHashError(argon2::password_hash::Error);

/// A letter or a digit of ASCII.
pub open spec fn is_alphanumeric(c: char) -> bool {
    ('0' <= c <= '9') || ('A' <= c <= 'Z') || ('a' <= c <= 'z')
}

/// Every character is a letter or a digit of ASCII.
pub open spec fn all_alphanumeric(s: Seq<char>) -> bool {
    forall|i: int| 0 <= i < s.len() ==> is_alphanumeric(#[trigger] s[i])
}

/// The marker that every key text begins with.
pub open spec fn key_marker() -> Seq<char> {
    seq!['d', 'g', 'o', '_']
}

/// A prefix and a secret that can make up a key.
pub open spec fn well_formed_parts(prefix: Seq<char>, secret: Seq<char>) -> bool {
    &&& prefix.len() == PREFIX_LEN
    &&& secret.len() == SECRET_LEN
    &&& all_alphanumeric(prefix)
    &&& all_alphanumeric(secret)
}

/// The key text made of a prefix and a secret.
pub open spec fn key_text(prefix: Seq<char>, secret: Seq<char>) -> Seq<char> {
    key_marker() + prefix + seq!['_'] + secret
}

/// The prefix and the secret of a key text, where the text has the shape of
/// a key.
pub open spec fn parsed_key(text: Seq<char>) -> Option<(Seq<char>, Seq<char>)> {
    if text.len() == KEY_TEXT_LEN && text.subrange(0, 4) == key_marker() && text[16] == '_' && well_formed_parts(
        text.subrange(4, 16),
        text.subrange(17, 49),
    ) {
        Some((text.subrange(4, 16), text.subrange(17, 49)))
    } else {
        None
    }
}

/// Whether the Argon2 hash encoded in `encoded` is that of `password`: what
/// `Argon2::verify_password` finds with default settings, after
/// `PasswordHash::new` has read the encoding; false where it cannot be read.
pub uninterp spec fn argon2_verifies(password: Seq<u8>, encoded: Seq<char>) -> bool;

/// Draws `len` characters with `rand::distr::Alphanumeric`, each of which is
/// one of `A-Z`, `a-z`, `0-9`. Nothing else is claimed of them.
#[verifier::external_body]
fn random_alphanumeric(len: usize) -> (r: String)
    ensures
        r@.len() == len,
        all_alphanumeric(r@),
{
    rand::rng().sample_iter(&Alphanumeric).take(len).map(char::from).collect()
}

/// Calls `Argon2::hash_password` with default settings and a salt from
/// `SaltString::generate`. The salt is random, so nothing is claimed of the
/// encoded hash but that it verifies against the password it was made from.
#[verifier::external_body]
fn argon2_hash(password: &[u8]) -> (r: Result<String, argon2::password_hash::Error>)
    ensures
        r matches Ok(encoded) ==> argon2_verifies(password@, encoded@),
{
    let salt = SaltString::generate(&mut argon2::password_hash::rand_core::OsRng);
    Ok(Argon2::default().hash_password(password, &salt)?.to_string())
}

/// Calls `PasswordHash::new` and then `Argon2::verify_password`, which
/// compares the hashes without leaking where they differ.
#[verifier::external_body]
fn argon2_verify(password: &[u8], encoded: &str) -> (r: bool)
    ensures
        r == argon2_verifies(password@, encoded@),
{
    match PasswordHash::new(encoded) {
        Ok(hash) => Argon2::default().verify_password(password, &hash).is_ok(),
        Err(_) => false,
    }
}

/// The message of an error of the hash function, from its `Display`.
#[verifier::external_body]
fn hash_error_message(e: &argon2::password_hash::Error) -> String {
    e.to_string()
}

/// Calls `Uuid::now_v7`, which depends on the clock and on chance.
#[verifier::external_body]
pub(crate) fn fresh_id() -> String {
    uuid::Uuid::now_v7().to_string()
}

/// The code of a letter or a digit of ASCII.
pub open spec fn is_alphanumeric_code(b: u8) -> bool {
    (0x30 <= b <= 0x39) || (0x41 <= b <= 0x5a) || (0x61 <= b <= 0x7a)
}

/// An ASCII character and its code say the same.
proof fn lemma_ascii_code(c: char)
    requires
        (c as nat) < 128,
    ensures
        (c as u8) as nat == c as nat,
        is_alphanumeric(c) == is_alphanumeric_code(c as u8),
        (c == 'd') == (c as u8 == 0x64),
        (c == 'g') == (c as u8 == 0x67),
        (c == 'o') == (c as u8 == 0x6f),
        (c == '_') == (c as u8 == 0x5f),
{
}

/// Whether a byte is the code of a letter or a digit of ASCII.
fn is_alphanumeric_byte(b: u8) -> (r: bool)
    ensures
        r == is_alphanumeric_code(b),
{
    (0x30 <= b && b <= 0x39) || (0x41 <= b && b <= 0x5a) || (0x61 <= b && b <= 0x7a)
}

/// Makes a new key: the whole text, its prefix and its secret.
pub fn generate_api_key() -> (r: (String, String, String))
    ensures
        well_formed_parts(r.1@, r.2@),
        r.0@ == key_text(r.1@, r.2@),
{
    let public_id = random_alphanumeric(PREFIX_LEN);
    let secret = random_alphanumeric(SECRET_LEN);
    let mut full_key = String::from_str("dgo_");
    full_key.append(public_id.as_str());
    full_key.append("_");
    full_key.append(secret.as_str());
    proof {
        reveal_strlit("dgo_");
        reveal_strlit("_");
        assert("dgo_"@ =~= key_marker());
        assert("_"@ =~= seq!['_']);
    }
    (full_key, public_id, secret)
}

/// Splits a presented text into prefix and secret, or refuses it as
/// malformed.
pub fn parse_api_key(presented: &str) -> (r: Result<KeyParts, ApiKeyError>)
    ensures
        match parsed_key(presented@) {
            Some((prefix, secret)) => r is Ok && r->Ok_0.prefix@ == prefix && r->Ok_0.secret@ == secret,
            None => r is Err && r->Err_0 == ApiKeyError::MalformedKey,
        },
{
    broadcast use is_ascii_spec_bytes, is_ascii_chars_nat_bound;

    if !presented.is_ascii() {
        proof {
            lemma_key_text_is_ascii(presented@);
        }
        return Err(ApiKeyError::MalformedKey);
    }
    let bytes = presented.as_bytes();
    if bytes.len() != KEY_TEXT_LEN {
        return Err(ApiKeyError::MalformedKey);
    }
    let ghost text = presented@;
    assert(forall|i: int| 0 <= i < 49 ==> bytes@[i] == #[trigger] text[i] as u8);
    assert(forall|i: int| 0 <= i < 49 ==> (#[trigger] text[i] as nat) < 128);
    proof {
        lemma_ascii_code(text[0]);
        lemma_ascii_code(text[1]);
        lemma_ascii_code(text[2]);
        lemma_ascii_code(text[3]);
        lemma_ascii_code(text[16]);
    }
    if bytes[0] != 0x64 || bytes[1] != 0x67 || bytes[2] != 0x6f || bytes[3] != 0x5f || bytes[16] != 0x5f {
        assert(text.subrange(0, 4)[0] == text[0]);
        assert(text.subrange(0, 4)[1] == text[1]);
        assert(text.subrange(0, 4)[2] == text[2]);
        assert(text.subrange(0, 4)[3] == text[3]);
        return Err(ApiKeyError::MalformedKey);
    }
    assert(text.subrange(0, 4) =~= key_marker());
    let mut i: usize = 4;
    while i < KEY_TEXT_LEN
        invariant
            4 <= i <= 49,
            bytes@.len() == 49,
            text == presented@,
            text.len() == 49,
            presented.is_ascii(),
            text.subrange(0, 4) == key_marker(),
            text[16] == '_',
            forall|j: int| 0 <= j < 49 ==> bytes@[j] == #[trigger] text[j] as u8,
            forall|j: int| 0 <= j < 49 ==> (#[trigger] text[j] as nat) < 128,
            forall|j: int| 4 <= j < i && j != 16 ==> is_alphanumeric(#[trigger] text[j]),
        decreases 49 - i,
    {
        proof {
            lemma_ascii_code(text[i as int]);
        }
        if i != 16 && !is_alphanumeric_byte(bytes[i]) {
            proof {
                let j = i as int;
                assert(!is_alphanumeric(text[j]));
                if j < 16 {
                    assert(text.subrange(4, 16)[j - 4] == text[j]);
                } else {
                    assert(text.subrange(17, 49)[j - 17] == text[j]);
                }
            }
            return Err(ApiKeyError::MalformedKey);
        }
        i += 1;
    }
    let prefix = presented.substring_ascii(4, 16);
    let secret = presented.substring_ascii(17, 49);
    Ok(KeyParts { prefix: prefix.to_owned(), secret: secret.to_owned() })
}

/// What becomes of the hash function's answer: the encoded hash as it came,
/// or an error that carries the message of the hash function's own.
pub fn hash_outcome(outcome: Result<String, argon2::password_hash::Error>) -> (r: Result<String, HashError>)
    ensures
        match outcome {
            Ok(encoded) => r == Ok::<String, HashError>(encoded),
            Err(_) => r is Err,
        },
{
    match outcome {
        Ok(encoded) => Ok(encoded),
        Err(e) => Err(HashError { message: hash_error_message(&e) }),
    }
}

/// Hashes a text with Argon2 under a fresh salt. The encoded hash verifies
/// against the text it was made from.
pub fn hash_raw_string(raw_string: &String) -> (r: Result<String, HashError>)
    ensures
        r matches Ok(encoded) ==> argon2_verifies(encode_utf8(raw_string@), encoded@),
{
    hash_outcome(argon2_hash(raw_string.as_str().as_bytes()))
}

/// A key that was issued for a request: its text has the shape of a key, the
/// record holds its prefix, its owner, its name and the DNS record it is
/// bound to, and the stored hash is that of the whole text.
pub open spec fn issued_for(k: IssuedKey, name: Seq<char>, record_id: Seq<char>, user_id: Seq<char>) -> bool {
    &&& parsed_key(k.full_key@) is Some
    &&& parsed_key(k.full_key@)->Some_0.0 == k.record.prefix_id@
    &&& k.record.name@ == name
    &&& k.record.dns_record_id@ == record_id
    &&& k.record.user_id@ == user_id
    &&& argon2_verifies(encode_utf8(k.full_key@), k.record.key_hash@)
}

/// The record of a key and the key text as they are handed out once the
/// text has been hashed: the record is that of the request's name and DNS
/// record and of the user, under the given id, with the prefix of the key
/// and the hash of its text. Where the text could not be hashed nothing is
/// issued, and the error is that of the hashing.
pub fn bind_api_key(
    request: &AddApiKey,
    user_id: &str,
    id: String,
    full_key: String,
    prefix: String,
    hashed: Result<String, HashError>,
) -> (r: Result<IssuedKey, HashError>)
    ensures
        match hashed {
            Ok(key_hash) => {
                &&& r is Ok
                &&& r->Ok_0.full_key == full_key
                &&& r->Ok_0.record.id == id
                &&& r->Ok_0.record.user_id@ == user_id@
                &&& r->Ok_0.record.dns_record_id@ == request.scope@
                &&& r->Ok_0.record.prefix_id == prefix
                &&& r->Ok_0.record.key_hash == key_hash
                &&& r->Ok_0.record.name@ == request.name@
            },
            Err(e) => r == Err::<IssuedKey, HashError>(e),
        },
{
    match hashed {
        Ok(key_hash) => {
            let record = ApiKeyRecord {
                id,
                user_id: user_id.to_owned(),
                dns_record_id: request.scope.clone(),
                prefix_id: prefix,
                key_hash,
                name: request.name.clone(),
            };
            Ok(IssuedKey { record, full_key })
        },
        Err(e) => Err(e),
    }
}

/// Issues a key for one DNS record of a user: makes the key, hashes its whole
/// text, and returns the record to store together with the text, which is
/// not kept anywhere else.
pub fn issue_api_key(request: &AddApiKey, user_id: &str) -> (r: Result<IssuedKey, HashError>)
    ensures
        r matches Ok(k) ==> issued_for(k, request.name@, request.scope@, user_id@),
{
    let (full_key, public_id, secret) = generate_api_key();
    proof {
        lemma_key_text_parses(public_id@, secret@);
    }
    let hashed = hash_raw_string(&full_key);
    bind_api_key(request, user_id, fresh_id(), full_key, public_id, hashed)
}

/// What presenting a text gives, when `stored` is the record that was found
/// by the prefix of the text, if any was.
pub open spec fn verification(presented: Seq<char>, stored: Option<ApiKeyRecord>) -> Result<
    ApiKeyRecord,
    ApiKeyError,
> {
    match parsed_key(presented) {
        None => Err(ApiKeyError::MalformedKey),
        Some((prefix, _)) => match stored {
            None => Err(ApiKeyError::UnknownPrefix),
            Some(record) => if record.prefix_id@ != prefix {
                Err(ApiKeyError::UnknownPrefix)
            } else if argon2_verifies(encode_utf8(presented), record.key_hash@) {
                Ok(record)
            } else {
                Err(ApiKeyError::HashMismatch)
            },
        },
    }
}

/// What presenting a key gives, once it is known whether the stored hash
/// confirms it: the record that was found by the prefix of the key, where
/// one was found that has this prefix and whose hash confirms the key.
pub fn judge_api_key(prefix: &str, stored: Option<ApiKeyRecord>, hash_confirms: bool) -> (r: Result<
    ApiKeyRecord,
    ApiKeyError,
>)
    ensures
        r == match stored {
            None => Err(ApiKeyError::UnknownPrefix),
            Some(record) => if record.prefix_id@ != prefix@ {
                Err(ApiKeyError::UnknownPrefix)
            } else if hash_confirms {
                Ok(record)
            } else {
                Err(ApiKeyError::HashMismatch)
            },
        },
{
    match stored {
        None => Err(ApiKeyError::UnknownPrefix),
        Some(record) => {
            if !same_text(record.prefix_id.as_str(), prefix) {
                Err(ApiKeyError::UnknownPrefix)
            } else if hash_confirms {
                Ok(record)
            } else {
                Err(ApiKeyError::HashMismatch)
            }
        },
    }
}

/// Verifies a presented text against the record that was found by its
/// prefix. The hash of the whole text is computed again and compared with the
/// stored one; the record is returned only where they agree.
pub fn verify_api_key(presented: &str, stored: Option<ApiKeyRecord>) -> (r: Result<ApiKeyRecord, ApiKeyError>)
    ensures
        r == verification(presented@, stored),
{
    let parts = match parse_api_key(presented) {
        Ok(parts) => parts,
        Err(e) => {
            return Err(e);
        },
    };
    let hash_confirms = match &stored {
        Some(record) => same_text(record.prefix_id.as_str(), parts.prefix.as_str()) && argon2_verify(
            presented.as_bytes(),
            record.key_hash.as_str(),
        ),
        None => false,
    };
    judge_api_key(parts.prefix.as_str(), stored, hash_confirms)
}

impl ApiKeyError {
    /// The HTTP status that a refusal is answered with.
    pub open spec fn status_code(self) -> u16 {
        401
    }

    /// The message that a refusal is answered with. An unknown prefix and a
    /// wrong secret are told apart by nothing.
    pub open spec fn message_text(self) -> Seq<char> {
        match self {
            ApiKeyError::MalformedKey => "Malformed API key."@,
            ApiKeyError::UnknownPrefix => "Invalid authorization"@,
            ApiKeyError::HashMismatch => "Invalid authorization"@,
        }
    }

    /// The HTTP status that a refusal is answered with.
    pub fn status(&self) -> (r: u16)
        ensures
            r == self.status_code(),
    {
        401
    }

    /// The message that a refusal is answered with.
    pub fn message(&self) -> (r: String)
        ensures
            r@ == self.message_text(),
    {
        match self {
            ApiKeyError::MalformedKey => String::from_str("Malformed API key."),
            ApiKeyError::UnknownPrefix => String::from_str("Invalid authorization"),
            ApiKeyError::HashMismatch => String::from_str("Invalid authorization"),
        }
    }
}

/// An issued key verifies against its own record, however often it is
/// presented: verification reads the record and changes nothing.
pub proof fn lemma_issued_key_verifies(k: IssuedKey, name: Seq<char>, record_id: Seq<char>, user_id: Seq<char>)
    requires
        issued_for(k, name, record_id, user_id),
    ensures
        verification(k.full_key@, Some(k.record)) == Ok::<ApiKeyRecord, ApiKeyError>(k.record),
{
}

/// A text with the prefix of a stored key whose hash does not confirm it is
/// refused, and the refusal is answered exactly as an unknown prefix is.
pub proof fn lemma_wrong_secret_is_refused_uniformly(presented: Seq<char>, record: ApiKeyRecord)
    requires
        parsed_key(presented) is Some,
        parsed_key(presented)->Some_0.0 == record.prefix_id@,
        !argon2_verifies(encode_utf8(presented), record.key_hash@),
    ensures
        verification(presented, Some(record)) == Err::<ApiKeyRecord, ApiKeyError>(ApiKeyError::HashMismatch),
        ApiKeyError::HashMismatch.status_code() == ApiKeyError::UnknownPrefix.status_code(),
        ApiKeyError::HashMismatch.message_text() == ApiKeyError::UnknownPrefix.message_text(),
{
}

/// Every text with the shape of a key is ASCII.
pub proof fn lemma_key_text_is_ascii(text: Seq<char>)
    ensures
        parsed_key(text) is Some ==> is_ascii_chars(text),
{
    if parsed_key(text) is Some {
        assert forall|i: int| 0 <= i < text.len() implies '\0' <= #[trigger] text[i] <= '\u{7f}' by {
            if i < 4 {
                assert(text.subrange(0, 4)[i] == text[i]);
            } else if i < 16 {
                assert(text.subrange(4, 16)[i - 4] == text[i]);
            } else if i > 16 {
                assert(text.subrange(17, 49)[i - 17] == text[i]);
            }
        }
    }
}

/// The text made of a well-formed prefix and secret parses back into them.
pub proof fn lemma_key_text_parses(prefix: Seq<char>, secret: Seq<char>)
    requires
        well_formed_parts(prefix, secret),
    ensures
        parsed_key(key_text(prefix, secret)) == Some((prefix, secret)),
{
    let text = key_text(prefix, secret);
    assert(text.subrange(0, 4) =~= key_marker());
    assert(text.subrange(4, 16) =~= prefix);
    assert(text.subrange(17, 49) =~= secret);
}

} // verus!
