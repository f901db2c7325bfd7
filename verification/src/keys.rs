//! The cache of the issuer's public keys.
//!
//! The issuer publishes the keys it signs tokens with as a key set. Keys are
//! cached under their key id for as long as the process lives: the cache
//! only grows, and a key id that is in it keeps the key it was first seen
//! with.

use base64::engine::general_purpose::URL_SAFE_NO_PAD;
use base64::Engine;
use vstd::prelude::*;
use vstd::string::*;
use vstd::utf8::*;

use crate::text::{bytes_view, same_text};

verus! {

/// Length of an Ed25519 public key in bytes.
pub const PUBLIC_KEY_LEN: usize = 32;

/// One key of a published key set.
#[derive(Debug, Clone)]
pub struct JwkKey {
    /// The key type, `kty`.
    pub key_type: String,
    /// The curve, `crv`.
    pub curve: Option<String>,
    /// The public coordinate `x`, in base64url without padding.
    pub x: String,
    /// The key id, `kid`.
    pub kid: String,
}

/// A published key set.
#[derive(Debug, Clone)]
pub struct JwksResponse {
    pub keys: Vec<JwkKey>,
}

/// A cached key.
#[derive(Debug, Clone)]
pub struct KeyEntry {
    pub kid: String,
    pub key: Vec<u8>,
}

/// The cache of verifying keys, and where the key set is published.
pub struct AuthState {
    keystore: Vec<KeyEntry>,
    jwks_url: String,
}

/// The key set could not be taken in: the coordinate of one of its Ed25519
/// keys is not base64url.
#[derive(Debug, Clone, Copy, PartialEq, Eq, Structural)]
pub struct UnreadableKeySet;

/// The bytes that a base64url text without padding stands for, as
/// `URL_SAFE_NO_PAD.decode` of the `base64` crate finds them; nothing where
/// it refuses the text.
pub uninterp spec fn base64url_decoded(text: Seq<u8>) -> Option<Seq<u8>>;

/// Whether 32 bytes are the encoding of a point of the curve, as
/// `VerifyingKey::from_bytes` of `ed25519_dalek` finds.
pub uninterp spec fn ed25519_key_accepted(key: Seq<u8>) -> bool;

/// Calls `URL_SAFE_NO_PAD.decode`.
#[verifier::external_body]
pub(crate) fn base64url_decode(text: &[u8]) -> (r: Option<Vec<u8>>)
    ensures
        bytes_view(r) == base64url_decoded(text@),
{
    URL_SAFE_NO_PAD.decode(text).ok()
}

/// Calls `VerifyingKey::from_bytes`, which succeeds where the bytes
/// decompress to a point of the curve.
#[verifier::external_body]
fn ed25519_accepts_key(key: &[u8]) -> (r: bool)
    requires
        key@.len() == PUBLIC_KEY_LEN,
    ensures
        r == ed25519_key_accepted(key@),
{
    let bytes: [u8; 32] = key.try_into().unwrap();
    ed25519_dalek::VerifyingKey::from_bytes(&bytes).is_ok()
}

/// Whether a published key is an Ed25519 key: of type `OKP`, on the curve
/// `Ed25519`.
pub open spec fn is_ed25519(jwk: JwkKey) -> bool {
    jwk.key_type@ == "OKP"@ && jwk.curve is Some && jwk.curve->Some_0@ == "Ed25519"@
}

/// The verifying key that a published key gives: the 32 bytes that its
/// coordinate decodes to, where it is an Ed25519 key and the bytes are a
/// point of the curve.
pub open spec fn usable_key(jwk: JwkKey) -> Option<Seq<u8>> {
    if is_ed25519(jwk) {
        match base64url_decoded(encode_utf8(jwk.x@)) {
            Some(bytes) => if bytes.len() == PUBLIC_KEY_LEN && ed25519_key_accepted(bytes) {
                Some(bytes)
            } else {
                None
            },
            None => None,
        }
    } else {
        None
    }
}

/// Whether a published key is an Ed25519 key whose coordinate cannot be
/// decoded. Such a key makes the whole key set unreadable.
pub open spec fn is_unreadable(jwk: JwkKey) -> bool {
    is_ed25519(jwk) && base64url_decoded(encode_utf8(jwk.x@)) is None
}

/// The keys after one published key has been taken in: a usable key is
/// added under its key id, unless the key id is known already.
pub open spec fn with_key(keys: Map<Seq<char>, Seq<u8>>, jwk: JwkKey) -> Map<Seq<char>, Seq<u8>> {
    match usable_key(jwk) {
        Some(bytes) => if keys.contains_key(jwk.kid@) {
            keys
        } else {
            keys.insert(jwk.kid@, bytes)
        },
        None => keys,
    }
}

/// The keys after a run of published keys has been taken in, in order.
pub open spec fn with_keys(keys: Map<Seq<char>, Seq<u8>>, published: Seq<JwkKey>) -> Map<Seq<char>, Seq<u8>>
    decreases published.len(),
{
    if published.len() == 0 {
        keys
    } else {
        with_key(with_keys(keys, published.drop_last()), published.last())
    }
}

/// The number of published keys before the first unreadable one.
pub open spec fn readable_run(published: Seq<JwkKey>) -> nat
    decreases published.len(),
{
    if published.len() == 0 || is_unreadable(published.first()) {
        0
    } else {
        1 + readable_run(published.drop_first())
    }
}

/// The readable run ends at the first unreadable key, or with the keys.
proof fn lemma_readable_run(published: Seq<JwkKey>, i: int)
    requires
        0 <= i <= published.len(),
        forall|j: int| 0 <= j < i ==> !is_unreadable(#[trigger] published[j]),
        i == published.len() || is_unreadable(published[i]),
    ensures
        readable_run(published) == i,
    decreases i,
{
    if i > 0 {
        let rest = published.drop_first();
        assert(!is_unreadable(published[0]));
        assert forall|j: int| 0 <= j < i - 1 implies !is_unreadable(#[trigger] rest[j]) by {
            assert(rest[j] == published[j + 1]);
        }
        if i < published.len() {
            assert(rest[i - 1] == published[i]);
        }
        lemma_readable_run(rest, i - 1);
    }
}

/// Taking published keys in removes no key and changes none.
pub proof fn lemma_with_keys_only_adds(keys: Map<Seq<char>, Seq<u8>>, published: Seq<JwkKey>)
    ensures
        forall|kid: Seq<char>| #[trigger]
            keys.contains_key(kid) ==> with_keys(keys, published).contains_key(kid) && with_keys(
                keys,
                published,
            )[kid] == keys[kid],
    decreases published.len(),
{
    if published.len() > 0 {
        lemma_with_keys_only_adds(keys, published.drop_last());
    }
}

/// The keys that a run of cache entries holds: each key id with the key of
/// the first entry that names it.
pub open spec fn entries_keys(entries: Seq<KeyEntry>) -> Map<Seq<char>, Seq<u8>>
    decreases entries.len(),
{
    if entries.len() == 0 {
        Map::empty()
    } else {
        let before = entries_keys(entries.drop_last());
        if before.contains_key(entries.last().kid@) {
            before
        } else {
            before.insert(entries.last().kid@, entries.last().key@)
        }
    }
}

/// No two entries name the same key id, and every key has the length of an
/// Ed25519 public key.
pub open spec fn entries_sound(entries: Seq<KeyEntry>) -> bool {
    &&& forall|i: int| 0 <= i < entries.len() ==> (#[trigger] entries[i]).key@.len() == PUBLIC_KEY_LEN
    &&& forall|i: int, j: int|
        0 <= i < j < entries.len() ==> (#[trigger] entries[i]).kid@ != (#[trigger] entries[j]).kid@
}

/// An entry is found under its key id.
proof fn lemma_entry_is_found(entries: Seq<KeyEntry>, i: int)
    requires
        entries_sound(entries),
        0 <= i < entries.len(),
    ensures
        entries_keys(entries).contains_key(entries[i].kid@),
        entries_keys(entries)[entries[i].kid@] == entries[i].key@,
    decreases entries.len(),
{
    let before = entries.drop_last();
    if i < entries.len() - 1 {
        assert(before[i] == entries[i]);
        lemma_entry_is_found(before, i);
        assert(entries_keys(before).contains_key(entries[i].kid@));
        assert(entries[i].kid@ != entries.last().kid@);
    } else {
        if entries_keys(before).contains_key(entries.last().kid@) {
            lemma_found_has_entry(before, entries.last().kid@);
            let j = choose|j: int| 0 <= j < before.len() && before[j].kid@ == entries.last().kid@;
            assert(before[j] == entries[j]);
        }
    }
}

/// A key id that is found is named by an entry.
proof fn lemma_found_has_entry(entries: Seq<KeyEntry>, kid: Seq<char>)
    requires
        entries_keys(entries).contains_key(kid),
    ensures
        exists|j: int| 0 <= j < entries.len() && entries[j].kid@ == kid,
    decreases entries.len(),
{
    if entries.len() > 0 {
        let before = entries.drop_last();
        if entries.last().kid@ == kid {
            assert(entries[entries.len() - 1].kid@ == kid);
        } else {
            lemma_found_has_entry(before, kid);
            let j = choose|j: int| 0 <= j < before.len() && before[j].kid@ == kid;
            assert(entries[j] == before[j]);
        }
    }
}

/// Whether a published key is an Ed25519 key.
pub fn is_ed25519_key(jwk: &JwkKey) -> (r: bool)
    ensures
        r == is_ed25519(*jwk),
{
    let on_curve = match &jwk.curve {
        Some(curve) => same_text(curve.as_str(), "Ed25519"),
        None => false,
    };
    same_text(jwk.key_type.as_str(), "OKP") && on_curve
}

/// Finds the entry with this key id.
fn find_entry<'a>(entries: &'a Vec<KeyEntry>, kid: &str) -> (r: Option<&'a Vec<u8>>)
    requires
        entries_sound(entries@),
    ensures
        match r {
            Some(key) => entries_keys(entries@).contains_key(kid@) && entries_keys(entries@)[kid@] == key@
                && key@.len() == PUBLIC_KEY_LEN,
            None => !entries_keys(entries@).contains_key(kid@),
        },
{
    let mut i: usize = 0;
    while i < entries.len()
        invariant
            0 <= i <= entries@.len(),
            entries_sound(entries@),
            forall|j: int| 0 <= j < i ==> (#[trigger] entries@[j]).kid@ != kid@,
        decreases entries@.len() - i,
    {
        if same_text(entries[i].kid.as_str(), kid) {
            proof {
                lemma_entry_is_found(entries@, i as int);
            }
            return Some(&entries[i].key);
        }
        i += 1;
    }
    proof {
        if entries_keys(entries@).contains_key(kid@) {
            lemma_found_has_entry(entries@, kid@);
        }
    }
    None
}

/// Takes a published key set into a run of cache entries.
fn merge_entries(entries: &mut Vec<KeyEntry>, published: &Vec<JwkKey>) -> (r: Result<(), UnreadableKeySet>)
    requires
        entries_sound(old(entries)@),
    ensures
        entries_sound(final(entries)@),
        entries_keys(final(entries)@) == with_keys(
            entries_keys(old(entries)@),
            published@.take(readable_run(published@) as int),
        ),
        r is Ok <==> readable_run(published@) == published@.len(),
{
    proof {
        assert(published@.take(0) =~= Seq::<JwkKey>::empty());
    }
    let ghost start = entries_keys(entries@);
    let mut i: usize = 0;
    while i < published.len()
        invariant
            0 <= i <= published@.len(),
            entries_sound(entries@),
            start == entries_keys(old(entries)@),
            entries_keys(entries@) == with_keys(start, published@.take(i as int)),
            forall|j: int| 0 <= j < i ==> !is_unreadable(#[trigger] published@[j]),
        decreases published@.len() - i,
    {
        let jwk = &published[i];
        let ghost before = entries@;
        proof {
            assert(published@.take(i + 1).drop_last() =~= published@.take(i as int));
            assert(published@.take(i + 1).last() == published@[i as int]);
        }
        if is_ed25519_key(jwk) {
            match base64url_decode(jwk.x.as_str().as_bytes()) {
                None => {
                    proof {
                        lemma_readable_run(published@, i as int);
                    }
                    return Err(UnreadableKeySet);
                },
                Some(bytes) => {
                    if bytes.len() == PUBLIC_KEY_LEN && ed25519_accepts_key(bytes.as_slice()) && find_entry(
                        entries,
                        jwk.kid.as_str(),
                    ).is_none() {
                        let entry = KeyEntry { kid: jwk.kid.clone(), key: bytes };
                        proof {
                            assert forall|j: int| 0 <= j < before.len() implies (#[trigger] before[j]).kid@
                                != entry.kid@ by {
                                if before[j].kid@ == entry.kid@ {
                                    lemma_entry_is_found(before, j);
                                }
                            }
                            assert(before.push(entry).drop_last() =~= before);
                        }
                        entries.push(entry);
                    }
                },
            }
        }
        i += 1;
    }
    proof {
        lemma_readable_run(published@, published@.len() as int);
        assert(published@.take(published@.len() as int) =~= published@);
    }
    Ok(())
}

impl AuthState {
    /// No key id is cached twice, and every cached key has the length of an
    /// Ed25519 public key.
    #[verifier::type_invariant]
    spec fn sound(self) -> bool {
        entries_sound(self.keystore@)
    }

    /// The cached keys, by key id.
    pub closed spec fn keys(self) -> Map<Seq<char>, Seq<u8>> {
        entries_keys(self.keystore@)
    }

    /// Where the key set is published.
    pub closed spec fn url(self) -> Seq<char> {
        self.jwks_url@
    }

    /// An empty cache for the issuer at `base_url`.
    pub fn new(base_url: &str) -> (r: Self)
        ensures
            r.keys() == Map::<Seq<char>, Seq<u8>>::empty(),
            r.url() == base_url@ + "/api/auth/jwks"@,
    {
        AuthState { keystore: Vec::new(), jwks_url: String::from_str(base_url).concat("/api/auth/jwks") }
    }

    /// Where the key set is published.
    pub fn jwks_url(&self) -> (r: &str)
        ensures
            r@ == self.url(),
    {
        self.jwks_url.as_str()
    }

    /// The number of cached keys.
    pub fn len(&self) -> (r: usize)
        ensures
            r == self.keys().dom().len(),
            self.keys().dom().finite(),
    {
        proof {
            use_type_invariant(self);
            lemma_entries_count(self.keystore@);
        }
        self.keystore.len()
    }

    /// Takes a published key set in. Each Ed25519 key whose coordinate
    /// decodes to a point of the curve is cached under its key id, unless the
    /// key id is cached already: no cached key is removed or replaced.
    ///
    /// An Ed25519 key whose coordinate is not base64url makes the key set
    /// unreadable: the keys before it have been taken in, and it and those
    /// after it are not.
    pub fn merge_keys(&mut self, published: &Vec<JwkKey>) -> (r: Result<(), UnreadableKeySet>)
        ensures
            final(self).keys() == with_keys(
                old(self).keys(),
                published@.take(readable_run(published@) as int),
            ),
            final(self).url() == old(self).url(),
            r is Ok <==> readable_run(published@) == published@.len(),
    {
        proof {
            use_type_invariant(&*self);
        }
        let mut entries: Vec<KeyEntry> = Vec::new();
        core::mem::swap(&mut self.keystore, &mut entries);
        let r = merge_entries(&mut entries, published);
        core::mem::swap(&mut self.keystore, &mut entries);
        r
    }

    /// The cached key with this key id, if there is one. Every cached key is
    /// 32 bytes long.
    pub fn get_key(&self, kid: &str) -> (r: Option<&Vec<u8>>)
        ensures
            match r {
                Some(key) => self.keys().contains_key(kid@) && self.keys()[kid@] == key@ && key@.len()
                    == PUBLIC_KEY_LEN,
                None => !self.keys().contains_key(kid@),
            },
    {
        proof {
            use_type_invariant(self);
        }
        find_entry(&self.keystore, kid)
    }
}

/// Sound entries hold as many keys as there are entries.
proof fn lemma_entries_count(entries: Seq<KeyEntry>)
    requires
        entries_sound(entries),
    ensures
        entries_keys(entries).dom().finite(),
        entries_keys(entries).dom().len() == entries.len(),
    decreases entries.len(),
{
    if entries.len() > 0 {
        let before = entries.drop_last();
        lemma_entries_count(before);
        if entries_keys(before).contains_key(entries.last().kid@) {
            lemma_found_has_entry(before, entries.last().kid@);
            let j = choose|j: int| 0 <= j < before.len() && before[j].kid@ == entries.last().kid@;
            assert(before[j] == entries[j]);
        }
    }
}

} // verus!
