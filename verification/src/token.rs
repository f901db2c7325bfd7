//! Verification of signed bearer tokens.
//!
//! A token is three base64url segments joined by dots: a header, a payload
//! and a signature. The header names the algorithm, which has to be EdDSA,
//! and the id of the signing key. The signature is an Ed25519 signature of
//! the first two segments with the dot between them, and is verified
//! strictly against the cached key. The payload is a JSON object that has to
//! name a subject and an expiry.

use serde_json::Value;
use vstd::prelude::*;
use vstd::slice::*;
use vstd::string::*;
use vstd::utf8::*;

use crate::keys::{base64url_decode, base64url_decoded, AuthState, JwkKey, PUBLIC_KEY_LEN};
use crate::text::{decimal_usize, parse_decimal, same_text, strip_prefix, text_view};

verus! {

/// Length of an Ed25519 signature in bytes.
pub const SIGNATURE_LEN: usize = 64;

/// The byte that separates the segments of a token.
pub const DOT: u8 = 0x2e;

/// Why a request was not authenticated.
#[derive(Debug, Clone, Copy, PartialEq, Eq, Structural)]
pub enum AuthError {
    /// The request has no authorization header.
    MissingHeader,
    /// The authorization header is not a bearer token, or the token is not
    /// three segments with a readable header.
    MalformedHeader,
    /// The token names no key id, or one that the issuer does not publish.
    UnknownKeyId,
    /// The token is signed with another algorithm than EdDSA.
    AlgorithmMismatch,
    /// The signature is not 64 bytes of base64url, or does not verify.
    InvalidSignature,
    /// The payload is not a JSON object with a subject and an expiry.
    MalformedClaims,
    /// The expiry of the token is in the past.
    TokenExpired,
    /// The issuer's key set could not be fetched or read.
    IssuerUnavailable,
}

/// The value of a claim. A number is kept as the text it was written with,
/// and an array or an object as its JSON text.
#[derive(Debug, Clone, PartialEq, Eq)]
pub enum ClaimValue {
    Null,
    Bool(bool),
    Number(String),
    Text(String),
    Nested(String),
}

/// A claim value as mathematics sees it.
pub enum ClaimValueView {
    Null,
    Bool(bool),
    Number(Seq<char>),
    Text(Seq<char>),
    Nested(Seq<char>),
}

impl View for ClaimValue {
    type V = ClaimValueView;

    open spec fn view(&self) -> ClaimValueView {
        match self {
            ClaimValue::Null => ClaimValueView::Null,
            ClaimValue::Bool(b) => ClaimValueView::Bool(*b),
            ClaimValue::Number(n) => ClaimValueView::Number(n@),
            ClaimValue::Text(t) => ClaimValueView::Text(t@),
            ClaimValue::Nested(j) => ClaimValueView::Nested(j@),
        }
    }
}

/// What a verified token says: who its subject is, when it expires, in
/// seconds since the Unix epoch, and whatever else the issuer put in.
#[derive(Debug, Clone)]
pub struct Claims {
    pub sub: String,
    pub exp: usize,
    pub extra: Vec<(String, ClaimValue)>,
}

/// Claims as mathematics sees them.
pub struct ClaimsView {
    pub sub: Seq<char>,
    pub exp: usize,
    pub extra: Seq<(Seq<char>, ClaimValueView)>,
}

/// The views of a run of named values.
pub open spec fn fields_view(fields: Seq<(String, ClaimValue)>) -> Seq<(Seq<char>, ClaimValueView)> {
    Seq::new(fields.len(), |i: int| (fields[i].0@, fields[i].1@))
}

impl View for Claims {
    type V = ClaimsView;

    open spec fn view(&self) -> ClaimsView {
        ClaimsView { sub: self.sub@, exp: self.exp, extra: fields_view(self.extra@) }
    }
}

/// An authenticated user.
#[derive(Debug, Clone)]
pub struct User(pub Claims);

/// The header of a token, as far as it is read.
#[derive(Debug, Clone)]
pub struct TokenHeader {
    /// The name of the algorithm, `alg`.
    pub algorithm: String,
    /// The key id, `kid`.
    pub kid: Option<String>,
}

/// The algorithm and the key id that `jsonwebtoken::decode_header` reads
/// from a token, the algorithm by the name of its variant; nothing where it
/// refuses the token.
pub uninterp spec fn jwt_header(token: Seq<u8>) -> Option<(Seq<char>, Option<Seq<char>>)>;

/// Whether `VerifyingKey::verify_strict` of `ed25519_dalek` accepts a
/// signature of a message under the key that `VerifyingKey::from_bytes`
/// reads; false where the key is refused.
pub uninterp spec fn ed25519_strictly_verifies(key: Seq<u8>, message: Seq<u8>, signature: Seq<u8>) -> bool;

/// The members of the JSON object that `serde_json::from_slice` reads, each
/// with its name, in the order in which `serde_json::Map` hands them out;
/// nothing where the bytes are not one JSON object.
pub uninterp spec fn json_object(bytes: Seq<u8>) -> Option<Seq<(Seq<char>, ClaimValueView)>>;

/// The view of a header that may be missing.
pub open spec fn header_view(r: Option<TokenHeader>) -> Option<(Seq<char>, Option<Seq<char>>)> {
    match r {
        Some(h) => Some(
            (
                h.algorithm@,
                match h.kid {
                    Some(kid) => Some(kid@),
                    None => None,
                },
            ),
        ),
        None => None,
    }
}

/// The view of members that may be missing.
pub open spec fn members_view(r: Option<Vec<(String, ClaimValue)>>) -> Option<Seq<(Seq<char>, ClaimValueView)>> {
    match r {
        Some(fields) => Some(fields_view(fields@)),
        None => None,
    }
}

/// Calls `jsonwebtoken::decode_header`, and keeps of the header the name of
/// the algorithm and the key id.
#[verifier::external_body]
fn decode_token_header(token: &[u8]) -> (r: Option<TokenHeader>)
    ensures
        header_view(r) == jwt_header(token@),
{
    match jsonwebtoken::decode_header(token) {
        Ok(header) => Some(TokenHeader { algorithm: format!("{:?}", header.alg), kid: header.kid }),
        Err(_) => None,
    }
}

/// Calls `VerifyingKey::from_bytes` and then `verify_strict` with the
/// signature that `Signature::from_bytes` makes of the 64 bytes.
#[verifier::external_body]
fn ed25519_verify_strict(key: &[u8], message: &[u8], signature: &[u8]) -> (r: bool)
    requires
        key@.len() == PUBLIC_KEY_LEN,
        signature@.len() == SIGNATURE_LEN,
    ensures
        r == ed25519_strictly_verifies(key@, message@, signature@),
{
    let key_bytes: [u8; 32] = key.try_into().unwrap();
    let signature_bytes: [u8; 64] = signature.try_into().unwrap();
    match ed25519_dalek::VerifyingKey::from_bytes(&key_bytes) {
        Ok(verifying_key) => verifying_key.verify_strict(
            message,
            &ed25519_dalek::Signature::from_bytes(&signature_bytes),
        ).is_ok(),
        Err(_) => false,
    }
}

/// Calls `serde_json::from_slice` for a JSON object, and hands out its
/// members: null, booleans and strings as they are, a number as the text that
/// its `Display` writes, an array or object as its JSON text.
#[verifier::external_body]
fn parse_json_object(bytes: &[u8]) -> (r: Option<Vec<(String, ClaimValue)>>)
    ensures
        members_view(r) == json_object(bytes@),
{
    let object: serde_json::Map<String, Value> = serde_json::from_slice(bytes).ok()?;
    let mut members = Vec::new();
    for (name, value) in object {
        members.push((name, match value {
            Value::Null => ClaimValue::Null,
            Value::Bool(b) => ClaimValue::Bool(b),
            Value::Number(n) => ClaimValue::Number(n.to_string()),
            Value::String(s) => ClaimValue::Text(s),
            Value::Array(a) => ClaimValue::Nested(Value::Array(a).to_string()),
            Value::Object(o) => ClaimValue::Nested(Value::Object(o).to_string()),
        }));
    }
    Some(members)
}

/// The index of the first dot, or the length where there is none.
pub open spec fn dot_at(s: Seq<u8>) -> int
    decreases s.len(),
{
    if s.len() == 0 || s.first() == DOT {
        0
    } else {
        1 + dot_at(s.drop_first())
    }
}

/// The three segments of a token: what stands before the first dot, between
/// the first and the second, and after the second. A text with fewer or more
/// dots than two is no token.
pub open spec fn segments(token: Seq<u8>) -> Option<(Seq<u8>, Seq<u8>, Seq<u8>)> {
    let first = dot_at(token);
    let rest = token.skip(first + 1);
    let second = dot_at(rest);
    let tail = rest.skip(second + 1);
    if first < token.len() && second < rest.len() && dot_at(tail) == tail.len() {
        Some((token.take(first), rest.take(second), tail))
    } else {
        None
    }
}

/// The first dot stands where no dot stands before.
proof fn lemma_dot_at(s: Seq<u8>, i: int)
    requires
        0 <= i <= s.len(),
        forall|j: int| 0 <= j < i ==> #[trigger] s[j] != DOT,
        i == s.len() || s[i] == DOT,
    ensures
        dot_at(s) == i,
    decreases i,
{
    if i > 0 {
        let rest = s.drop_first();
        assert(s[0] != DOT);
        assert forall|j: int| 0 <= j < i - 1 implies #[trigger] rest[j] != DOT by {
            assert(rest[j] == s[j + 1]);
        }
        if i < s.len() {
            assert(rest[i - 1] == s[i]);
        }
        lemma_dot_at(rest, i - 1);
    }
}

/// Text without a dot.
pub open spec fn has_no_dot(s: Seq<u8>) -> bool {
    forall|i: int| 0 <= i < s.len() ==> #[trigger] s[i] != DOT
}

/// Three texts without a dot, joined by dots, are the segments of what they
/// make.
pub proof fn lemma_joined_segments(header: Seq<u8>, payload: Seq<u8>, signature: Seq<u8>)
    requires
        has_no_dot(header),
        has_no_dot(payload),
        has_no_dot(signature),
    ensures
        segments(header + seq![DOT] + payload + seq![DOT] + signature) == Some((header, payload, signature)),
{
    let token = header + seq![DOT] + payload + seq![DOT] + signature;
    lemma_dot_at(token, header.len() as int);
    let rest = token.skip(header.len() as int + 1);
    assert(rest =~= payload + seq![DOT] + signature);
    lemma_dot_at(rest, payload.len() as int);
    let tail = rest.skip(payload.len() as int + 1);
    assert(tail =~= signature);
    lemma_dot_at(tail, tail.len() as int);
    assert(token.take(header.len() as int) =~= header);
    assert(rest.take(payload.len() as int) =~= payload);
}

/// Finds the first dot at or after `from`.
fn find_dot(s: &[u8], from: usize) -> (r: usize)
    requires
        from <= s@.len(),
    ensures
        r == from + dot_at(s@.skip(from as int)),
        from <= r <= s@.len(),
{
    let mut i = from;
    while i < s.len() && s[i] != DOT
        invariant
            from <= i <= s@.len(),
            forall|j: int| from <= j < i ==> #[trigger] s@[j] != DOT,
        decreases s@.len() - i,
    {
        i += 1;
    }
    proof {
        let rest = s@.skip(from as int);
        assert forall|j: int| 0 <= j < i - from implies #[trigger] rest[j] != DOT by {
            assert(rest[j] == s@[from + j]);
        }
        lemma_dot_at(rest, i - from);
    }
    i
}

/// Where the two dots of a token stand.
pub struct Dots {
    pub first: usize,
    pub second: usize,
}

/// Finds the two dots of a token.
pub fn split_token(token: &[u8]) -> (r: Option<Dots>)
    ensures
        match r {
            Some(dots) => {
                &&& dots.first < dots.second < token@.len()
                &&& segments(token@) == Some(
                    (
                        token@.take(dots.first as int),
                        token@.subrange(dots.first + 1, dots.second as int),
                        token@.skip(dots.second + 1),
                    ),
                )
            },
            None => segments(token@) is None,
        },
{
    let first = find_dot(token, 0);
    assert(token@.skip(0) =~= token@);
    if first >= token.len() {
        return None;
    }
    let second = find_dot(token, first + 1);
    if second >= token.len() {
        return None;
    }
    let third = find_dot(token, second + 1);
    proof {
        let rest = token@.skip(first + 1);
        assert(rest.skip(second - first) =~= token@.skip(second + 1));
        assert(rest.take(second - first - 1) =~= token@.subrange(first + 1, second as int));
    }
    if third < token.len() {
        return None;
    }
    Some(Dots { first, second })
}

/// The value of the member with this name, the last one where there are
/// several.
pub open spec fn member(fields: Seq<(Seq<char>, ClaimValueView)>, name: Seq<char>) -> Option<ClaimValueView>
    decreases fields.len(),
{
    if fields.len() == 0 {
        None
    } else if fields.last().0 == name {
        Some(fields.last().1)
    } else {
        member(fields.drop_last(), name)
    }
}

/// Whether a member is the subject or the expiry.
pub open spec fn is_registered(name: Seq<char>) -> bool {
    name == "sub"@ || name == "exp"@
}

/// The members other than the subject and the expiry, in their order.
pub open spec fn other_members(fields: Seq<(Seq<char>, ClaimValueView)>) -> Seq<(Seq<char>, ClaimValueView)>
    decreases fields.len(),
{
    if fields.len() == 0 {
        Seq::empty()
    } else if is_registered(fields.last().0) {
        other_members(fields.drop_last())
    } else {
        other_members(fields.drop_last()).push(fields.last())
    }
}

/// The claims that the members of a payload make: the subject has to be a
/// string and the expiry a whole number that is not negative; all other
/// members are kept as they are.
pub open spec fn claims_of(fields: Seq<(Seq<char>, ClaimValueView)>) -> Option<ClaimsView> {
    match (member(fields, "sub"@), member(fields, "exp"@)) {
        (Some(ClaimValueView::Text(sub)), Some(ClaimValueView::Number(written))) => match decimal_usize(written) {
            Some(exp) => Some(ClaimsView { sub, exp, extra: other_members(fields) }),
            None => None,
        },
        _ => None,
    }
}

/// The view of claims that may be missing.
pub open spec fn claims_view(r: Option<Claims>) -> Option<ClaimsView> {
    match r {
        Some(claims) => Some(claims@),
        None => None,
    }
}

/// A copy of a claim value.
fn copy_value(value: &ClaimValue) -> (r: ClaimValue)
    ensures
        r@ == value@,
{
    match value {
        ClaimValue::Null => ClaimValue::Null,
        ClaimValue::Bool(b) => ClaimValue::Bool(*b),
        ClaimValue::Number(n) => ClaimValue::Number(n.clone()),
        ClaimValue::Text(t) => ClaimValue::Text(t.clone()),
        ClaimValue::Nested(j) => ClaimValue::Nested(j.clone()),
    }
}

/// Reads the claims from the members of a payload.
pub fn read_claims(fields: &Vec<(String, ClaimValue)>) -> (r: Option<Claims>)
    ensures
        claims_view(r) == claims_of(fields_view(fields@)),
{
    let ghost all = fields_view(fields@);
    let mut sub: Option<&ClaimValue> = None;
    let mut exp: Option<&ClaimValue> = None;
    let mut extra: Vec<(String, ClaimValue)> = Vec::new();
    let mut i: usize = 0;
    proof {
        assert(all.take(0) =~= Seq::<(Seq<char>, ClaimValueView)>::empty());
        assert(fields_view(extra@) =~= other_members(all.take(0)));
    }
    while i < fields.len()
        invariant
            0 <= i <= fields@.len(),
            all == fields_view(fields@),
            match sub {
                Some(value) => member(all.take(i as int), "sub"@) == Some(value@),
                None => member(all.take(i as int), "sub"@) is None,
            },
            match exp {
                Some(value) => member(all.take(i as int), "exp"@) == Some(value@),
                None => member(all.take(i as int), "exp"@) is None,
            },
            fields_view(extra@) == other_members(all.take(i as int)),
        decreases fields@.len() - i,
    {
        let field = &fields[i];
        proof {
            assert(all.take(i + 1).drop_last() =~= all.take(i as int));
            assert(all.take(i + 1).last() == (field.0@, field.1@));
        }
        let is_sub = same_text(field.0.as_str(), "sub");
        let is_exp = same_text(field.0.as_str(), "exp");
        if is_sub {
            sub = Some(&field.1);
        }
        if is_exp {
            exp = Some(&field.1);
        }
        if !is_sub && !is_exp {
            let ghost before = extra@;
            extra.push((field.0.clone(), copy_value(&field.1)));
            proof {
                assert(fields_view(extra@) =~= fields_view(before).push((field.0@, field.1@)));
            }
        } else {
            proof {
                reveal_strlit("sub");
                reveal_strlit("exp");
            }
        }
        i += 1;
    }
    proof {
        assert(all.take(fields@.len() as int) =~= all);
    }
    match (sub, exp) {
        (Some(ClaimValue::Text(subject)), Some(ClaimValue::Number(written))) => match parse_decimal(
            written.as_str(),
        ) {
            Some(expiry) => Some(Claims { sub: subject.clone(), exp: expiry, extra }),
            None => None,
        },
        _ => None,
    }
}

/// The name by which the header of a token calls EdDSA.
pub open spec fn eddsa() -> Seq<char> {
    "EdDSA"@
}

/// The key id under which the key of a token has to be found: the header has
/// to be readable and name EdDSA and a key id.
pub open spec fn key_id(token: Seq<u8>) -> Result<Seq<char>, AuthError> {
    header_key_id(jwt_header(token))
}

/// What is signed of a token: its first two segments and the dot between
/// them.
pub open spec fn signing_input(header: Seq<u8>, payload: Seq<u8>) -> Seq<u8> {
    header + seq![DOT] + payload
}

/// Whether the third segment of a token is 64 bytes of base64url that are a
/// strictly valid signature of the first two under the key.
pub open spec fn is_signed(key: Seq<u8>, token: Seq<u8>) -> bool {
    match segments(token) {
        Some((header, payload, signature)) => match base64url_decoded(signature) {
            Some(bytes) => bytes.len() == SIGNATURE_LEN && ed25519_strictly_verifies(
                key,
                signing_input(header, payload),
                bytes,
            ),
            None => false,
        },
        None => false,
    }
}

/// The claims in the payload of a token, or why it has none that count at
/// the time `now`.
pub open spec fn payload_claims(payload: Seq<u8>, now: usize) -> Result<ClaimsView, AuthError> {
    match base64url_decoded(payload) {
        None => Err(AuthError::MalformedClaims),
        Some(bytes) => match json_object(bytes) {
            None => Err(AuthError::MalformedClaims),
            Some(fields) => unexpired(claims_of(fields), now),
        },
    }
}

/// What a token is worth against a set of keys at the time `now`: its
/// claims, or the first reason to reject it.
pub open spec fn token_verdict(keys: Map<Seq<char>, Seq<u8>>, token: Seq<u8>, now: usize) -> Result<
    ClaimsView,
    AuthError,
> {
    match key_id(token) {
        Err(e) => Err(e),
        Ok(kid) => if !keys.contains_key(kid) {
            Err(AuthError::UnknownKeyId)
        } else if segments(token) is None {
            Err(AuthError::MalformedHeader)
        } else if !is_signed(keys[kid], token) {
            Err(AuthError::InvalidSignature)
        } else {
            payload_claims(segments(token)->Some_0.1, now)
        },
    }
}

/// The view of a verdict.
pub open spec fn verdict_view(r: Result<Claims, AuthError>) -> Result<ClaimsView, AuthError> {
    match r {
        Ok(claims) => Ok(claims@),
        Err(e) => Err(e),
    }
}

/// The key id that a header calls for, where it names EdDSA and a key id.
pub open spec fn header_key_id(header: Option<(Seq<char>, Option<Seq<char>>)>) -> Result<Seq<char>, AuthError> {
    match header {
        None => Err(AuthError::MalformedHeader),
        Some((algorithm, kid)) => if algorithm != eddsa() {
            Err(AuthError::AlgorithmMismatch)
        } else {
            match kid {
                Some(kid) => Ok(kid),
                None => Err(AuthError::UnknownKeyId),
            }
        },
    }
}

/// The claims that count at the time `now`: those that were read, unless
/// their expiry is in the past.
pub open spec fn unexpired(claims: Option<ClaimsView>, now: usize) -> Result<ClaimsView, AuthError> {
    match claims {
        None => Err(AuthError::MalformedClaims),
        Some(claims) => if claims.exp < now {
            Err(AuthError::TokenExpired)
        } else {
            Ok(claims)
        },
    }
}

/// Takes from a header, if one could be read, the key id under which the
/// key of its token has to be found.
pub fn key_id_of_header(header: Option<TokenHeader>) -> (r: Result<String, AuthError>)
    ensures
        match header_key_id(header_view(header)) {
            Ok(kid) => r is Ok && r->Ok_0@ == kid,
            Err(e) => r is Err && r->Err_0 == e,
        },
{
    match header {
        None => Err(AuthError::MalformedHeader),
        Some(header) => {
            if !same_text(header.algorithm.as_str(), "EdDSA") {
                Err(AuthError::AlgorithmMismatch)
            } else {
                match header.kid {
                    Some(kid) => Ok(kid),
                    None => Err(AuthError::UnknownKeyId),
                }
            }
        },
    }
}

/// Reads from the header of a token the key id under which its key has to
/// be found.
pub fn token_key_id(token: &[u8]) -> (r: Result<String, AuthError>)
    ensures
        match key_id(token@) {
            Ok(kid) => r is Ok && r->Ok_0@ == kid,
            Err(e) => r is Err && r->Err_0 == e,
        },
{
    key_id_of_header(decode_token_header(token))
}

/// Accepts 64 bytes as a signature to be verified.
pub fn signature_of(decoded: Option<Vec<u8>>) -> (r: Result<Vec<u8>, AuthError>)
    ensures
        match decoded {
            Some(bytes) => if bytes@.len() == SIGNATURE_LEN {
                r == Ok::<Vec<u8>, AuthError>(bytes)
            } else {
                r == Err::<Vec<u8>, AuthError>(AuthError::InvalidSignature)
            },
            None => r == Err::<Vec<u8>, AuthError>(AuthError::InvalidSignature),
        },
{
    match decoded {
        Some(bytes) => {
            if bytes.len() == SIGNATURE_LEN {
                Ok(bytes)
            } else {
                Err(AuthError::InvalidSignature)
            }
        },
        None => Err(AuthError::InvalidSignature),
    }
}

/// Lets claims count that were read and have not expired at the time `now`.
pub fn check_expiry(claims: Option<Claims>, now: usize) -> (r: Result<Claims, AuthError>)
    ensures
        verdict_view(r) == unexpired(claims_view(claims), now),
{
    match claims {
        Some(claims) => {
            if claims.exp < now {
                Err(AuthError::TokenExpired)
            } else {
                Ok(claims)
            }
        },
        None => Err(AuthError::MalformedClaims),
    }
}

/// Reads the claims from the payload segment of a token and checks that
/// they have not expired.
pub fn read_payload(payload: &[u8], now: usize) -> (r: Result<Claims, AuthError>)
    ensures
        verdict_view(r) == payload_claims(payload@, now),
{
    let bytes = match base64url_decode(payload) {
        Some(bytes) => bytes,
        None => {
            return Err(AuthError::MalformedClaims);
        },
    };
    match parse_json_object(bytes.as_slice()) {
        Some(fields) => check_expiry(read_claims(&fields), now),
        None => Err(AuthError::MalformedClaims),
    }
}

/// Verifies a token against the cached keys at the time `now`, in seconds
/// since the Unix epoch. A token whose expiry is `now` still counts.
pub fn verify_token(state: &AuthState, token: &[u8], now: usize) -> (r: Result<Claims, AuthError>)
    ensures
        verdict_view(r) == token_verdict(state.keys(), token@, now),
{
    let kid = match token_key_id(token) {
        Ok(kid) => kid,
        Err(e) => {
            return Err(e);
        },
    };
    let key = match state.get_key(kid.as_str()) {
        Some(key) => key,
        None => {
            return Err(AuthError::UnknownKeyId);
        },
    };
    let dots = match split_token(token) {
        Some(dots) => dots,
        None => {
            return Err(AuthError::MalformedHeader);
        },
    };
    let end = token.len();
    let signature = match signature_of(base64url_decode(slice_subrange(token, dots.second + 1, end))) {
        Ok(signature) => signature,
        Err(e) => {
            return Err(e);
        },
    };
    let message = slice_subrange(token, 0, dots.second);
    proof {
        let header = token@.take(dots.first as int);
        let payload = token@.subrange(dots.first + 1, dots.second as int);
        assert(token@.subrange(dots.second + 1, token@.len() as int) =~= token@.skip(dots.second + 1));
        lemma_dot_stands_at(token@);
        assert(message@ =~= signing_input(header, payload));
    }
    if !ed25519_verify_strict(key.as_slice(), message, signature.as_slice()) {
        return Err(AuthError::InvalidSignature);
    }
    read_payload(slice_subrange(token, dots.first + 1, dots.second), now)
}

/// Where the first dot is found, a dot stands.
proof fn lemma_dot_stands_at(s: Seq<u8>)
    ensures
        0 <= dot_at(s) <= s.len(),
        dot_at(s) < s.len() ==> s[dot_at(s)] == DOT,
    decreases s.len(),
{
    if s.len() > 0 && s.first() != DOT {
        lemma_dot_stands_at(s.drop_first());
    }
}

/// How the authentication of a request stands.
#[derive(Debug, Clone)]
pub enum Authentication {
    /// The token is good: the request is that of this user.
    Accepted(User),
    /// The request is refused.
    Rejected(AuthError),
    /// The key of the token is not cached: the issuer's key set is wanted.
    KeysWanted,
}

/// The word and the space that a bearer authorization begins with.
pub open spec fn bearer_prefix() -> Seq<char> {
    "Bearer "@
}

/// The token that an authorization header carries.
pub open spec fn bearer(authorization: Option<Seq<char>>) -> Result<Seq<char>, AuthError> {
    match authorization {
        None => Err(AuthError::MissingHeader),
        Some(header) => if bearer_prefix().is_prefix_of(header) {
            Ok(header.skip(bearer_prefix().len() as int))
        } else {
            Err(AuthError::MalformedHeader)
        },
    }
}

/// What becomes of a request with this authorization header, against the
/// cached keys at the time `now`. The key set is wanted where the token
/// names a key id that is not cached and the key set has not been fetched
/// for this request yet; once it has been, such a token is rejected.
pub open spec fn authentication_of(
    keys: Map<Seq<char>, Seq<u8>>,
    authorization: Option<Seq<char>>,
    now: usize,
    refreshed: bool,
    r: Authentication,
) -> bool {
    match bearer(authorization) {
        Err(e) => r is Rejected && r->Rejected_0 == e,
        Ok(text) => {
            let token = encode_utf8(text);
            match token_verdict(keys, token, now) {
                Ok(claims) => r is Accepted && r->Accepted_0.0@ == claims,
                Err(e) => if key_id(token) is Ok && !keys.contains_key(key_id(token)->Ok_0) && !refreshed {
                    r is KeysWanted
                } else {
                    r is Rejected && r->Rejected_0 == e
                },
            }
        },
    }
}

/// Takes the token from an authorization header.
pub fn bearer_token<'a>(authorization: Option<&'a str>) -> (r: Result<&'a str, AuthError>)
    ensures
        match bearer(text_view(authorization)) {
            Ok(token) => r is Ok && r->Ok_0@ == token,
            Err(e) => r is Err && r->Err_0 == e,
        },
{
    match authorization {
        None => Err(AuthError::MissingHeader),
        Some(header) => match strip_prefix(header, "Bearer ") {
            Some(token) => {
                assert(token@ =~= header@.skip("Bearer "@.len() as int));
                Ok(token)
            },
            None => Err(AuthError::MalformedHeader),
        },
    }
}

impl User {
    /// Authenticates a request by its authorization header. `refreshed` says
    /// whether the issuer's key set has been fetched for this request already.
    pub fn from_request_parts(state: &AuthState, authorization: Option<&str>, now: usize, refreshed: bool) -> (r:
        Authentication)
        ensures
            authentication_of(state.keys(), text_view(authorization), now, refreshed, r),
    {
        let token = match bearer_token(authorization) {
            Ok(token) => token,
            Err(e) => {
                return Authentication::Rejected(e);
            },
        };
        if !refreshed {
            match token_key_id(token.as_bytes()) {
                Ok(kid) => {
                    if state.get_key(kid.as_str()).is_none() {
                        return Authentication::KeysWanted;
                    }
                },
                Err(_) => {},
            }
        }
        match verify_token(state, token.as_bytes(), now) {
            Ok(claims) => Authentication::Accepted(User(claims)),
            Err(e) => Authentication::Rejected(e),
        }
    }
}

/// Takes in the key set that was fetched from the issuer, if any was. A key
/// set that could not be fetched or read leaves the request unanswerable for
/// the issuer's sake, not the caller's.
pub fn refresh(state: &mut AuthState, fetched: Option<&Vec<JwkKey>>) -> (r: Result<(), AuthError>)
    ensures
        final(state).url() == old(state).url(),
        match fetched {
            Some(published) => {
                &&& final(state).keys() == crate::keys::with_keys(
                    old(state).keys(),
                    published@.take(crate::keys::readable_run(published@) as int),
                )
                &&& r is Ok <==> crate::keys::readable_run(published@) == published@.len()
            },
            None => final(state).keys() == old(state).keys() && r is Err,
        },
        r is Err ==> r->Err_0 == AuthError::IssuerUnavailable,
{
    match fetched {
        Some(published) => match state.merge_keys(published) {
            Ok(_) => Ok(()),
            Err(_) => Err(AuthError::IssuerUnavailable),
        },
        None => Err(AuthError::IssuerUnavailable),
    }
}

impl AuthError {
    /// The HTTP status that the error is answered with: a failure of the
    /// issuer is the server's, every other one the caller's.
    pub open spec fn status_code(self) -> u16 {
        if self == AuthError::IssuerUnavailable {
            500
        } else {
            401
        }
    }

    /// What the error says.
    pub open spec fn message_text(self) -> Seq<char> {
        match self {
            AuthError::MissingHeader => "Missing Authorization"@,
            AuthError::MalformedHeader => "Invalid format"@,
            AuthError::UnknownKeyId => "Unknown key id"@,
            AuthError::AlgorithmMismatch => "Unsupported algorithm"@,
            AuthError::InvalidSignature => "Signature verification failed"@,
            AuthError::MalformedClaims => "Failed to parse claims"@,
            AuthError::TokenExpired => "Token has expired"@,
            AuthError::IssuerUnavailable => "Issuer unavailable"@,
        }
    }

    /// The HTTP status that the error is answered with.
    pub fn status(&self) -> (r: u16)
        ensures
            r == self.status_code(),
    {
        match self {
            AuthError::IssuerUnavailable => 500,
            _ => 401,
        }
    }

    /// What the error says.
    pub fn message(&self) -> (r: String)
        ensures
            r@ == self.message_text(),
    {
        match self {
            AuthError::MissingHeader => String::from_str("Missing Authorization"),
            AuthError::MalformedHeader => String::from_str("Invalid format"),
            AuthError::UnknownKeyId => String::from_str("Unknown key id"),
            AuthError::AlgorithmMismatch => String::from_str("Unsupported algorithm"),
            AuthError::InvalidSignature => String::from_str("Signature verification failed"),
            AuthError::MalformedClaims => String::from_str("Failed to parse claims"),
            AuthError::TokenExpired => String::from_str("Token has expired"),
            AuthError::IssuerUnavailable => String::from_str("Issuer unavailable"),
        }
    }
}

/// A token whose key id is not among the keys is rejected as of an unknown
/// key, whatever else it holds.
pub proof fn lemma_unknown_key_is_rejected(keys: Map<Seq<char>, Seq<u8>>, token: Seq<u8>, now: usize)
    requires
        key_id(token) is Ok,
        !keys.contains_key(key_id(token)->Ok_0),
    ensures
        token_verdict(keys, token, now) == Err::<ClaimsView, AuthError>(AuthError::UnknownKeyId),
{
}

/// A token that is well formed and correctly signed, with an expiry in the
/// past, is rejected as expired.
pub proof fn lemma_expired_token_is_rejected(
    keys: Map<Seq<char>, Seq<u8>>,
    token: Seq<u8>,
    now: usize,
    claims: ClaimsView,
)
    requires
        key_id(token) is Ok,
        keys.contains_key(key_id(token)->Ok_0),
        is_signed(keys[key_id(token)->Ok_0], token),
        base64url_decoded(segments(token)->Some_0.1) is Some,
        json_object(base64url_decoded(segments(token)->Some_0.1)->Some_0) is Some,
        claims_of(json_object(base64url_decoded(segments(token)->Some_0.1)->Some_0)->Some_0) == Some(claims),
        claims.exp < now,
    ensures
        token_verdict(keys, token, now) == Err::<ClaimsView, AuthError>(AuthError::TokenExpired),
{
}

/// A token is accepted only with a strictly valid signature under the
/// cached key that its header names, and only before its expiry has passed.
pub proof fn lemma_accepted_token_is_signed(
    keys: Map<Seq<char>, Seq<u8>>,
    token: Seq<u8>,
    now: usize,
)
    requires
        token_verdict(keys, token, now) is Ok,
    ensures
        key_id(token) is Ok,
        keys.contains_key(key_id(token)->Ok_0),
        is_signed(keys[key_id(token)->Ok_0], token),
        token_verdict(keys, token, now)->Ok_0.exp >= now,
{
}

} // verus!
