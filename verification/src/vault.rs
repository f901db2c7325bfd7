//! Authenticated encryption of provider secrets at rest.
//!
//! A secret is sealed with AES-256-GCM under one configured key and a nonce
//! that is drawn fresh for every call. The sealed value is kept in three
//! parts: the nonce, the ciphertext, and the authentication tag.

use aes_gcm::aead::{Aead, AeadCore, KeyInit, OsRng};
use aes_gcm::{Aes256Gcm, Key, Nonce};
use vstd::prelude::*;
use vstd::slice::*;
use vstd::string::*;
use vstd::utf8::*;

use crate::text::bytes_view;

verus! {

/// Length of the encryption key in bytes.
pub const KEY_LEN: usize = 32;

/// Length of a nonce in bytes.
pub const NONCE_LEN: usize = 12;

/// Length of an authentication tag in bytes.
pub const TAG_LEN: usize = 16;

/// The longest plaintext, in bytes, that one call can seal.
pub const PLAINTEXT_MAX: u64 = 0x10_0000_0000;

/// A sealed secret, split the way it is stored.
#[derive(Debug, Clone)]
pub struct EncryptionResult {
    pub nonce: Vec<u8>,
    pub ciphertext: Vec<u8>,
    pub tag: Vec<u8>,
}

/// Why a vault operation failed.
#[derive(Debug, Clone, Copy, PartialEq, Eq, Structural)]
pub enum CryptoError {
    /// The configured key is not 64 hexadecimal digits.
    KeyMisconfigured,
    /// The plaintext is too long to be sealed.
    EncryptionFailure,
    /// The sealed value is not authentic, or does not hold text.
    DecryptionFailure,
}

impl CryptoError {
    /// What the error says.
    pub open spec fn message_text(self) -> Seq<char> {
        match self {
            CryptoError::KeyMisconfigured => "Key must be exactly 32 bytes (64 hex chars)"@,
            CryptoError::EncryptionFailure => "Encryption failure"@,
            CryptoError::DecryptionFailure => "Decryption failure"@,
        }
    }

    /// What the error says.
    pub fn message(&self) -> (r: String)
        ensures
            r@ == self.message_text(),
    {
        match self {
            CryptoError::KeyMisconfigured => String::from_str("Key must be exactly 32 bytes (64 hex chars)"),
            CryptoError::EncryptionFailure => String::from_str("Encryption failure"),
            CryptoError::DecryptionFailure => String::from_str("Decryption failure"),
        }
    }
}

/// The value of one hexadecimal digit, in either case.
pub open spec fn hex_digit(c: u8) -> Option<u8> {
    if 0x30 <= c <= 0x39 {
        Some((c - 0x30) as u8)
    } else if 0x41 <= c <= 0x46 {
        Some((c - 0x41 + 10) as u8)
    } else if 0x61 <= c <= 0x66 {
        Some((c - 0x61 + 10) as u8)
    } else {
        None
    }
}

/// The bytes that a hexadecimal text stands for: two digits per byte, the
/// high one first. Text of odd length, or with any other character, stands
/// for nothing.
pub open spec fn hex_bytes(text: Seq<u8>) -> Option<Seq<u8>> {
    if text.len() % 2 == 0 && (forall|i: int| 0 <= i < text.len() ==> hex_digit(#[trigger] text[i]) is Some) {
        Some(
            Seq::new(
                text.len() / 2,
                |i: int| (hex_digit(text[2 * i]).unwrap() * 16 + hex_digit(text[2 * i + 1]).unwrap()) as u8,
            ),
        )
    } else {
        None
    }
}

/// The key that a configured text stands for, where it stands for one.
pub open spec fn encryption_key(key_hex: Seq<char>) -> Option<Seq<u8>> {
    match hex_bytes(encode_utf8(key_hex)) {
        Some(key) => if key.len() == KEY_LEN {
            Some(key)
        } else {
            None
        },
        None => None,
    }
}

/// What AES-256-GCM makes of a plaintext under a key and a nonce, with no
/// associated data: the ciphertext followed by the tag.
pub uninterp spec fn aes256gcm_sealed(key: Seq<u8>, nonce: Seq<u8>, plaintext: Seq<u8>) -> Seq<u8>;

/// What AES-256-GCM recovers from a sealed value under a key and a nonce, with
/// no associated data; nothing where the value is not authentic.
pub uninterp spec fn aes256gcm_opened(key: Seq<u8>, nonce: Seq<u8>, sealed: Seq<u8>) -> Option<Seq<u8>>;

/// Opening what was sealed under the same key and nonce gives the plaintext
/// back.
pub open spec fn opens_own_sealing(key: Seq<u8>, nonce: Seq<u8>, sealed: Seq<u8>, opened: Option<Seq<u8>>) -> bool {
    forall|plaintext: Seq<u8>|
        plaintext.len() <= PLAINTEXT_MAX && sealed == #[trigger] aes256gcm_sealed(key, nonce, plaintext)
            ==> opened == Some(plaintext)
}

/// What opens is what was sealed: a sealed value opens to a plaintext only
/// if sealing that plaintext under the same key and nonce gives the value.
pub open spec fn opens_only_own_sealing(
    key: Seq<u8>,
    nonce: Seq<u8>,
    sealed: Seq<u8>,
    opened: Option<Seq<u8>>,
) -> bool {
    opened is Some && opened->Some_0.len() <= PLAINTEXT_MAX ==> sealed == aes256gcm_sealed(
        key,
        nonce,
        opened->Some_0,
    )
}

/// A ciphertext that was sealed under the same key and nonce opens only with
/// the tag it was sealed with.
pub open spec fn rejects_other_tag(key: Seq<u8>, nonce: Seq<u8>, sealed: Seq<u8>, opened: Option<Seq<u8>>) -> bool {
    forall|plaintext: Seq<u8>|
        {
            let own = #[trigger] aes256gcm_sealed(key, nonce, plaintext);
            plaintext.len() <= PLAINTEXT_MAX && sealed.len() == own.len() && sealed.take(plaintext.len() as int)
                == own.take(plaintext.len() as int) && sealed != own
        } ==> opened is None
}

/// Calls `hex::decode`. The contract restates its documentation: the text
/// decodes when its length is even and every byte is a hexadecimal digit of
/// either case, and each pair of digits gives one byte, high digit first.
#[verifier::external_body]
fn hex_decode(text: &[u8]) -> (r: Option<Vec<u8>>)
    ensures
        bytes_view(r) == hex_bytes(text@),
{
    hex::decode(text).ok()
}

/// Calls `Aes256Gcm::generate_nonce` with the operating system's generator.
/// Nothing is claimed of the nonce but its length.
#[verifier::external_body]
fn fresh_nonce() -> (r: Vec<u8>)
    ensures
        r@.len() == NONCE_LEN,
{
    Aes256Gcm::generate_nonce(&mut OsRng).to_vec()
}

/// Calls `Aes256Gcm::encrypt` with no associated data. The call fails exactly
/// when the plaintext is longer than the cipher's limit; otherwise it returns
/// the ciphertext, as long as the plaintext, followed by the 16-byte tag.
#[verifier::external_body]
fn aead_seal(key: &[u8], nonce: &[u8], plaintext: &[u8]) -> (r: Option<Vec<u8>>)
    requires
        key@.len() == KEY_LEN,
        nonce@.len() == NONCE_LEN,
    ensures
        r is Some <==> plaintext@.len() <= PLAINTEXT_MAX,
        r matches Some(sealed) ==> sealed@ == aes256gcm_sealed(key@, nonce@, plaintext@) && sealed@.len()
            == plaintext@.len() + TAG_LEN,
{
    let cipher = Aes256Gcm::new(Key::<Aes256Gcm>::from_slice(key));
    cipher.encrypt(Nonce::from_slice(nonce), plaintext).ok()
}

/// Calls `Aes256Gcm::decrypt` with no associated data. The cipher takes the
/// last 16 bytes as the tag, computes the tag of the bytes before them as it
/// does when sealing, and compares the two; where they agree it undoes the
/// key stream that sealing applied. So it opens what it sealed, opens nothing
/// but what sealing would give, and refuses a sealed ciphertext under any
/// other tag. What it returns is 16 bytes shorter than what it was given.
#[verifier::external_body]
fn aead_open(key: &[u8], nonce: &[u8], sealed: &[u8]) -> (r: Option<Vec<u8>>)
    requires
        key@.len() == KEY_LEN,
        nonce@.len() == NONCE_LEN,
    ensures
        bytes_view(r) == aes256gcm_opened(key@, nonce@, sealed@),
        r matches Some(plaintext) ==> plaintext@.len() + TAG_LEN == sealed@.len(),
        opens_own_sealing(key@, nonce@, sealed@, bytes_view(r)),
        opens_only_own_sealing(key@, nonce@, sealed@, bytes_view(r)),
        rejects_other_tag(key@, nonce@, sealed@, bytes_view(r)),
{
    let cipher = Aes256Gcm::new(Key::<Aes256Gcm>::from_slice(key));
    cipher.decrypt(Nonce::from_slice(nonce), sealed).ok()
}

/// Calls `String::from_utf8`: the bytes become a string exactly when they are
/// valid UTF-8, and the string then holds the text they encode.
#[verifier::external_body]
fn text_from_utf8(bytes: Vec<u8>) -> (r: Option<String>)
    ensures
        r is Some <==> valid_utf8(bytes@),
        r matches Some(text) ==> text@ == decode_utf8(bytes@),
{
    String::from_utf8(bytes).ok()
}

/// Reads the configured key: 64 hexadecimal digits that stand for 32 bytes.
pub fn parse_key(key_hex: &str) -> (r: Result<Vec<u8>, CryptoError>)
    ensures
        match encryption_key(key_hex@) {
            Some(key) => r matches Ok(k) && k@ == key,
            None => r == Err::<Vec<u8>, CryptoError>(CryptoError::KeyMisconfigured),
        },
{
    match hex_decode(key_hex.as_bytes()) {
        Some(key) => {
            if key.len() == KEY_LEN {
                Ok(key)
            } else {
                Err(CryptoError::KeyMisconfigured)
            }
        },
        None => Err(CryptoError::KeyMisconfigured),
    }
}

/// A sealed value that holds `plaintext` under `key`.
pub open spec fn sealed_under(key: Seq<u8>, plaintext: Seq<u8>, e: EncryptionResult) -> bool {
    &&& e.nonce@.len() == NONCE_LEN
    &&& e.ciphertext@.len() == plaintext.len()
    &&& e.tag@.len() == TAG_LEN
    &&& e.ciphertext@ + e.tag@ == aes256gcm_sealed(key, e.nonce@, plaintext)
}

/// What `encrypt` returns for a configured key and a secret.
pub open spec fn encrypt_outcome(
    key_hex: Seq<char>,
    plain_text: Seq<char>,
    r: Result<EncryptionResult, CryptoError>,
) -> bool {
    match encryption_key(key_hex) {
        None => r is Err && r->Err_0 == CryptoError::KeyMisconfigured,
        Some(key) => if encode_utf8(plain_text).len() > PLAINTEXT_MAX {
            r is Err && r->Err_0 == CryptoError::EncryptionFailure
        } else {
            r is Ok && sealed_under(key, encode_utf8(plain_text), r->Ok_0)
        },
    }
}

/// What the stored parts open to under `key`: the bytes of the secret, or
/// nothing where the nonce has the wrong length or the parts are not
/// authentic.
pub open spec fn opened_parts(key: Seq<u8>, nonce: Seq<u8>, ciphertext: Seq<u8>, tag: Seq<u8>) -> Option<
    Seq<u8>,
> {
    if nonce.len() == NONCE_LEN {
        aes256gcm_opened(key, nonce, ciphertext + tag)
    } else {
        None
    }
}

/// The secret that the stored parts hold under a configured key, or why they
/// hold none.
pub open spec fn decrypted_text(key_hex: Seq<char>, nonce: Seq<u8>, ciphertext: Seq<u8>, tag: Seq<u8>) -> Result<
    Seq<char>,
    CryptoError,
> {
    match encryption_key(key_hex) {
        None => Err(CryptoError::KeyMisconfigured),
        Some(key) => match opened_parts(key, nonce, ciphertext, tag) {
            Some(bytes) => if valid_utf8(bytes) {
                Ok(decode_utf8(bytes))
            } else {
                Err(CryptoError::DecryptionFailure)
            },
            None => Err(CryptoError::DecryptionFailure),
        },
    }
}

/// The cipher opens what it sealed under the key and nonce, nothing but
/// what sealing would give, and nothing that carries another tag.
pub open spec fn opening_is_faithful(key_hex: Seq<char>, nonce: Seq<u8>, ciphertext: Seq<u8>, tag: Seq<u8>) -> bool {
    encryption_key(key_hex) is Some && nonce.len() == NONCE_LEN ==> {
        let key = encryption_key(key_hex)->Some_0;
        let sealed = ciphertext + tag;
        &&& aes256gcm_opened(key, nonce, sealed) is Some ==> aes256gcm_opened(key, nonce, sealed)->Some_0.len()
            + TAG_LEN == sealed.len()
        &&& opens_own_sealing(key, nonce, sealed, aes256gcm_opened(key, nonce, sealed))
        &&& opens_only_own_sealing(key, nonce, sealed, aes256gcm_opened(key, nonce, sealed))
        &&& rejects_other_tag(key, nonce, sealed, aes256gcm_opened(key, nonce, sealed))
    }
}

/// What `decrypt` returns for a configured key and the stored parts.
pub open spec fn decrypt_outcome(
    key_hex: Seq<char>,
    nonce: Seq<u8>,
    ciphertext: Seq<u8>,
    tag: Seq<u8>,
    r: Result<String, CryptoError>,
) -> bool {
    &&& match decrypted_text(key_hex, nonce, ciphertext, tag) {
        Ok(text) => r is Ok && r->Ok_0@ == text,
        Err(e) => r is Err && r->Err_0 == e,
    }
    &&& opening_is_faithful(key_hex, nonce, ciphertext, tag)
}

/// Splits what the cipher made into the parts that are stored: the last 16
/// bytes are the tag, and what stands before them is the ciphertext. Fewer
/// bytes than a tag cannot be split.
pub fn split_sealed(nonce: Vec<u8>, sealed: Vec<u8>) -> (r: Option<EncryptionResult>)
    ensures
        match r {
            Some(parts) => {
                &&& sealed@.len() >= TAG_LEN
                &&& parts.nonce == nonce
                &&& parts.ciphertext@ == sealed@.take(sealed@.len() - TAG_LEN)
                &&& parts.tag@ == sealed@.skip(sealed@.len() - TAG_LEN)
            },
            None => sealed@.len() < TAG_LEN,
        },
{
    if sealed.len() < TAG_LEN {
        return None;
    }
    let split = sealed.len() - TAG_LEN;
    let ciphertext = slice_to_vec(slice_subrange(sealed.as_slice(), 0, split));
    let tag = slice_to_vec(slice_subrange(sealed.as_slice(), split, sealed.len()));
    assert(ciphertext@ =~= sealed@.take(split as int));
    assert(tag@ =~= sealed@.skip(split as int));
    Some(EncryptionResult { nonce, ciphertext, tag })
}

/// Puts the stored ciphertext and tag together as the cipher expects them:
/// the tag after the ciphertext.
pub fn join_sealed(ciphertext: &[u8], tag: &[u8]) -> (r: Vec<u8>)
    ensures
        r@ == ciphertext@ + tag@,
{
    let mut sealed = slice_to_vec(ciphertext);
    sealed.extend_from_slice(tag);
    assert(sealed@ =~= ciphertext@ + tag@);
    sealed
}

/// Reads what the cipher opened as text. What was not opened, and what is
/// not valid UTF-8, is a decryption failure.
pub fn opened_text(opened: Option<Vec<u8>>) -> (r: Result<String, CryptoError>)
    ensures
        match opened {
            Some(bytes) => if valid_utf8(bytes@) {
                r is Ok && r->Ok_0@ == decode_utf8(bytes@)
            } else {
                r is Err && r->Err_0 == CryptoError::DecryptionFailure
            },
            None => r is Err && r->Err_0 == CryptoError::DecryptionFailure,
        },
{
    match opened {
        Some(bytes) => match text_from_utf8(bytes) {
            Some(text) => Ok(text),
            None => Err(CryptoError::DecryptionFailure),
        },
        None => Err(CryptoError::DecryptionFailure),
    }
}

/// Seals a secret under the configured key and a fresh nonce.
///
/// Fails with `KeyMisconfigured` where the key text is not 64 hexadecimal
/// digits, with `EncryptionFailure` where the secret is too long, and
/// otherwise returns the nonce, the ciphertext and the tag.
pub fn encrypt(key_hex: &str, plain_text: &str) -> (r: Result<EncryptionResult, CryptoError>)
    ensures
        encrypt_outcome(key_hex@, plain_text@, r),
{
    let key = match parse_key(key_hex) {
        Ok(key) => key,
        Err(e) => {
            return Err(e);
        },
    };
    let nonce = fresh_nonce();
    let sealed = match aead_seal(key.as_slice(), nonce.as_slice(), plain_text.as_bytes()) {
        Some(sealed) => sealed,
        None => {
            return Err(CryptoError::EncryptionFailure);
        },
    };
    let ghost whole = sealed@;
    match split_sealed(nonce, sealed) {
        Some(parts) => {
            assert(parts.ciphertext@ + parts.tag@ =~= whole);
            Ok(parts)
        },
        None => Err(CryptoError::EncryptionFailure),
    }
}

/// Opens the stored parts of a sealed secret under the configured key.
///
/// Fails with `KeyMisconfigured` where the key text is not 64 hexadecimal
/// digits, and with `DecryptionFailure` where the nonce is not 12 bytes long,
/// where the ciphertext and tag are not authentic, or where what they open to
/// is not text. Nothing of the plaintext is returned on failure.
pub fn decrypt(key_hex: &str, nonce: &[u8], ciphertext: &[u8], tag: &[u8]) -> (r: Result<String, CryptoError>)
    ensures
        decrypt_outcome(key_hex@, nonce@, ciphertext@, tag@, r),
{
    let key = match parse_key(key_hex) {
        Ok(key) => key,
        Err(e) => {
            return Err(e);
        },
    };
    if nonce.len() != NONCE_LEN {
        return Err(CryptoError::DecryptionFailure);
    }
    let sealed = join_sealed(ciphertext, tag);
    opened_text(aead_open(key.as_slice(), nonce, sealed.as_slice()))
}

/// Decrypting what `encrypt` returned, under the same key, gives the secret
/// back.
pub proof fn lemma_decrypt_inverts_encrypt(
    key_hex: Seq<char>,
    plain_text: Seq<char>,
    e: EncryptionResult,
    d: Result<String, CryptoError>,
)
    requires
        encrypt_outcome(key_hex, plain_text, Ok(e)),
        decrypt_outcome(key_hex, e.nonce@, e.ciphertext@, e.tag@, d),
    ensures
        d is Ok,
        d->Ok_0@ == plain_text,
{
    broadcast use encode_utf8_valid_utf8, encode_utf8_decode_utf8;

    let key = encryption_key(key_hex)->Some_0;
    let bytes = encode_utf8(plain_text);
    assert(e.ciphertext@ + e.tag@ == aes256gcm_sealed(key, e.nonce@, bytes));
    assert(aes256gcm_opened(key, e.nonce@, e.ciphertext@ + e.tag@) == Some(bytes));
}

/// Decrypting what `encrypt` returned with any other tag of the same length
/// fails with `DecryptionFailure`.
pub proof fn lemma_altered_tag_is_rejected(
    key_hex: Seq<char>,
    plain_text: Seq<char>,
    e: EncryptionResult,
    tag: Seq<u8>,
    d: Result<String, CryptoError>,
)
    requires
        encrypt_outcome(key_hex, plain_text, Ok(e)),
        tag.len() == e.tag@.len(),
        tag != e.tag@,
        decrypt_outcome(key_hex, e.nonce@, e.ciphertext@, tag, d),
    ensures
        d is Err,
        d->Err_0 == CryptoError::DecryptionFailure,
{
    let key = encryption_key(key_hex)->Some_0;
    let bytes = encode_utf8(plain_text);
    let own = aes256gcm_sealed(key, e.nonce@, bytes);
    let altered = e.ciphertext@ + tag;
    assert(own == e.ciphertext@ + e.tag@);
    assert(altered.take(bytes.len() as int) =~= own.take(bytes.len() as int));
    assert(altered != own) by {
        if altered == own {
            assert(altered.skip(bytes.len() as int) =~= tag);
            assert(own.skip(bytes.len() as int) =~= e.tag@);
        }
    }
    assert(aes256gcm_opened(key, e.nonce@, altered) is None);
}

/// What `decrypt` returns is never an altered secret: the parts that were
/// presented are exactly what sealing the returned secret under the same key
/// and nonce gives.
pub proof fn lemma_decrypted_was_sealed(
    key_hex: Seq<char>,
    nonce: Seq<u8>,
    ciphertext: Seq<u8>,
    tag: Seq<u8>,
    d: Result<String, CryptoError>,
)
    requires
        decrypt_outcome(key_hex, nonce, ciphertext, tag, d),
        d is Ok,
        ciphertext.len() + tag.len() <= PLAINTEXT_MAX + TAG_LEN,
    ensures
        encryption_key(key_hex) is Some,
        ciphertext + tag == aes256gcm_sealed(encryption_key(key_hex)->Some_0, nonce, encode_utf8(d->Ok_0@)),
{
    broadcast use decode_utf8_encode_utf8;

    let key = encryption_key(key_hex)->Some_0;
    let bytes = aes256gcm_opened(key, nonce, ciphertext + tag)->Some_0;
    assert(nonce.len() == NONCE_LEN);
    assert(bytes.len() + TAG_LEN == (ciphertext + tag).len());
    assert(encode_utf8(decode_utf8(bytes)) == bytes);
}

/// Decrypting what `encrypt` returned with any other ciphertext of the same
/// length fails with `DecryptionFailure`, unless the key and nonce give
/// another plaintext of that length the same tag.
pub proof fn lemma_altered_ciphertext_is_rejected(
    key_hex: Seq<char>,
    plain_text: Seq<char>,
    e: EncryptionResult,
    ciphertext: Seq<u8>,
    d: Result<String, CryptoError>,
)
    requires
        encrypt_outcome(key_hex, plain_text, Ok(e)),
        ciphertext.len() == e.ciphertext@.len(),
        ciphertext != e.ciphertext@,
        decrypt_outcome(key_hex, e.nonce@, ciphertext, e.tag@, d),
        forall|other: Seq<u8>|
            other.len() == e.ciphertext@.len() && other != encode_utf8(plain_text) ==> (#[trigger] aes256gcm_sealed(
                encryption_key(key_hex)->Some_0,
                e.nonce@,
                other,
            )).skip(other.len() as int) != e.tag@,
    ensures
        d is Err,
        d->Err_0 == CryptoError::DecryptionFailure,
{
    let key = encryption_key(key_hex)->Some_0;
    let bytes = encode_utf8(plain_text);
    let altered = ciphertext + e.tag@;
    let opened = aes256gcm_opened(key, e.nonce@, altered);
    if opened is Some {
        let other = opened->Some_0;
        let sealed_other = aes256gcm_sealed(key, e.nonce@, other);
        assert(other.len() + TAG_LEN == altered.len());
        assert(altered == sealed_other);
        assert(altered.skip(other.len() as int) =~= e.tag@);
        if other == bytes {
            assert(altered == e.ciphertext@ + e.tag@);
            assert(altered.take(bytes.len() as int) =~= ciphertext);
            assert((e.ciphertext@ + e.tag@).take(bytes.len() as int) =~= e.ciphertext@);
        }
    }
}

} // verus!
