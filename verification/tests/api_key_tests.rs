use drago::api_key::{
    bind_api_key, generate_api_key, hash_outcome, hash_raw_string, issue_api_key, judge_api_key, parse_api_key,
    verify_api_key, ApiKeyError, ApiKeyRecord, HashError,
};
use drago::types::AddApiKey;

fn request() -> AddApiKey {
    AddApiKey { name: "drago-home".to_string(), scope: "rec-1".to_string() }
}

#[test]
fn generated_key_has_the_documented_shape() {
    let (full_key, prefix, secret) = generate_api_key();
    assert_eq!(prefix.len(), 12);
    assert_eq!(secret.len(), 32);
    assert!(prefix.chars().all(|c| c.is_ascii_alphanumeric()));
    assert!(secret.chars().all(|c| c.is_ascii_alphanumeric()));
    assert_eq!(full_key, format!("dgo_{}_{}", prefix, secret));
    assert_eq!(full_key.len(), 49);
}

#[test]
fn generated_keys_differ() {
    let (a, _, _) = generate_api_key();
    let (b, _, _) = generate_api_key();
    assert_ne!(a, b);
}

#[test]
fn parse_splits_a_well_formed_key() {
    let parts = parse_api_key("dgo_abcDEF012345_0123456789abcdefghijABCDEFGHIJ01").unwrap();
    assert_eq!(parts.prefix, "abcDEF012345");
    assert_eq!(parts.secret, "0123456789abcdefghijABCDEFGHIJ01");
}

#[test]
fn parse_refuses_other_shapes() {
    let malformed = [
        "",
        "dgo_",
        "abc_abcDEF012345_0123456789abcdefghijABCDEFGHIJ01",
        "dgo-abcDEF012345_0123456789abcdefghijABCDEFGHIJ01",
        "dgo_abcDEF012345-0123456789abcdefghijABCDEFGHIJ01",
        "dgo_abcDEF01234_0123456789abcdefghijABCDEFGHIJ012",
        "dgo_abcDEF012345_0123456789abcdefghijABCDEFGHIJ0",
        "dgo_abcDEF012345_0123456789abcdefghijABCDEFGHIJ012",
        "dgo_abc_EF012345_0123456789abcdefghijABCDEFGHIJ01",
        "dgo_abcDEF012345_0123456789abcdefghij!BCDEFGHIJ01",
        "dgo_abcDEF01234é_0123456789abcdefghijABCDEFGHIJ0",
        "Bearer dgo_abcDEF012345_0123456789abcdefghijABCDEFGHIJ01",
    ];
    for text in malformed {
        assert_eq!(parse_api_key(text).unwrap_err(), ApiKeyError::MalformedKey, "{}", text);
    }
}

#[test]
fn hash_is_salted_and_encoded() {
    let text = "dgo_abcDEF012345_0123456789abcdefghijABCDEFGHIJ01".to_string();
    let a = hash_raw_string(&text).unwrap();
    let b = hash_raw_string(&text).unwrap();
    assert!(a.starts_with("$argon2id$v=19$"));
    assert_ne!(a, text);
    assert_ne!(a, b);
    assert_eq!(a.len(), 97);
}

#[test]
fn issued_key_verifies_repeatedly() {
    let issued = issue_api_key(&request(), "user-1").unwrap();
    assert_eq!(issued.record.name, "drago-home");
    assert_eq!(issued.record.dns_record_id, "rec-1");
    assert_eq!(issued.record.user_id, "user-1");
    assert_eq!(issued.record.id.len(), 36);
    assert_eq!(&issued.full_key[4..16], issued.record.prefix_id);
    assert!(!issued.record.key_hash.contains(&issued.full_key[17..]));
    for _ in 0..3 {
        let found = verify_api_key(&issued.full_key, Some(issued.record.clone())).unwrap();
        assert_eq!(found.id, issued.record.id);
        assert_eq!(found.dns_record_id, "rec-1");
        assert_eq!(found.user_id, "user-1");
    }
}

#[test]
fn wrong_secret_and_unknown_prefix_are_answered_alike() {
    let issued = issue_api_key(&request(), "user-1").unwrap();
    let mut wrong = issued.full_key.clone();
    let last = wrong.pop().unwrap();
    wrong.push(if last == 'a' { 'b' } else { 'a' });
    let mismatch = verify_api_key(&wrong, Some(issued.record.clone())).unwrap_err();
    assert_eq!(mismatch, ApiKeyError::HashMismatch);
    let unknown = verify_api_key(&wrong, None).unwrap_err();
    assert_eq!(unknown, ApiKeyError::UnknownPrefix);
    assert_eq!(mismatch.status(), 401);
    assert_eq!(unknown.status(), 401);
    assert_eq!(mismatch.message(), unknown.message());
    assert_eq!(mismatch.message(), "Invalid authorization");
}

#[test]
fn record_of_another_prefix_counts_as_unknown() {
    let issued = issue_api_key(&request(), "user-1").unwrap();
    let other = issue_api_key(&request(), "user-2").unwrap();
    let r = verify_api_key(&issued.full_key, Some(other.record));
    assert_eq!(r.unwrap_err(), ApiKeyError::UnknownPrefix);
}

#[test]
fn malformed_key_is_refused_before_any_lookup() {
    let issued = issue_api_key(&request(), "user-1").unwrap();
    let r = verify_api_key("dgo_short", Some(issued.record));
    let e = r.unwrap_err();
    assert_eq!(e, ApiKeyError::MalformedKey);
    assert_eq!(e.status(), 401);
    assert_eq!(e.message(), "Malformed API key.");
}

#[test]
fn unreadable_stored_hash_is_a_mismatch() {
    let record = ApiKeyRecord {
        id: "k1".to_string(),
        user_id: "user-1".to_string(),
        dns_record_id: "rec-1".to_string(),
        prefix_id: "abcDEF012345".to_string(),
        key_hash: "not a hash".to_string(),
        name: "n".to_string(),
    };
    let r = verify_api_key("dgo_abcDEF012345_0123456789abcdefghijABCDEFGHIJ01", Some(record));
    assert_eq!(r.unwrap_err(), ApiKeyError::HashMismatch);
}

#[test]
fn judgement_follows_prefix_and_hash() {
    let record = ApiKeyRecord {
        id: "k1".to_string(),
        user_id: "user-1".to_string(),
        dns_record_id: "rec-1".to_string(),
        prefix_id: "abcDEF012345".to_string(),
        key_hash: "h".to_string(),
        name: "n".to_string(),
    };
    assert_eq!(judge_api_key("abcDEF012345", Some(record.clone()), true).unwrap().id, "k1");
    assert_eq!(judge_api_key("abcDEF012345", Some(record.clone()), false).unwrap_err(), ApiKeyError::HashMismatch);
    assert_eq!(judge_api_key("abcDEF012346", Some(record.clone()), true).unwrap_err(), ApiKeyError::UnknownPrefix);
    assert_eq!(judge_api_key("abcDEF012346", Some(record), false).unwrap_err(), ApiKeyError::UnknownPrefix);
    assert_eq!(judge_api_key("abcDEF012345", None, true).unwrap_err(), ApiKeyError::UnknownPrefix);
}

#[test]
fn hash_function_answer_is_handed_on() {
    assert_eq!(hash_outcome(Ok("$argon2id$v=19$x".to_string())).unwrap(), "$argon2id$v=19$x");
    let refused = hash_outcome(Err(argon2::password_hash::Error::Password)).unwrap_err();
    assert_eq!(refused.message, argon2::password_hash::Error::Password.to_string());
    assert!(!refused.message.is_empty());
}

#[test]
fn hashed_key_is_bound_to_the_request() {
    let issued = bind_api_key(
        &request(),
        "user-1",
        "id-1".to_string(),
        "dgo_abcDEF012345_0123456789abcdefghijABCDEFGHIJ01".to_string(),
        "abcDEF012345".to_string(),
        Ok("hash".to_string()),
    )
    .unwrap();
    assert_eq!(issued.full_key, "dgo_abcDEF012345_0123456789abcdefghijABCDEFGHIJ01");
    assert_eq!(issued.record.id, "id-1");
    assert_eq!(issued.record.user_id, "user-1");
    assert_eq!(issued.record.dns_record_id, "rec-1");
    assert_eq!(issued.record.prefix_id, "abcDEF012345");
    assert_eq!(issued.record.key_hash, "hash");
    assert_eq!(issued.record.name, "drago-home");
}

#[test]
fn key_that_could_not_be_hashed_is_not_issued() {
    let refused = bind_api_key(
        &request(),
        "user-1",
        "id-1".to_string(),
        "dgo_abcDEF012345_0123456789abcdefghijABCDEFGHIJ01".to_string(),
        "abcDEF012345".to_string(),
        Err(HashError { message: "too long".to_string() }),
    )
    .unwrap_err();
    assert_eq!(refused.message, "too long");
}
