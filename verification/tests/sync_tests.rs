use drago::api_key::{issue_api_key, ApiKeyError, ApiKeyRecord};
use drago::sync::{
    get_user_token, sync_record, sync_with_api_key, DnsAccessToken, PutDnsRecord, SyncAction, SyncError, SyncEvent,
    SyncOutcome, SyncState,
};
use drago::types::{AddApiKey, PutRecordResponse, RecordResponse, SyncRequest, Timestamp};
use drago::vault::encrypt;

const KEY: &str = "603deb1015ca71be2b73aef0857d77811f352c073b6108d72d9810a30914dff4";

fn request(ip: &str) -> SyncRequest {
    SyncRequest { ip_address: ip.to_string(), time_synced: Timestamp { seconds: 1_700_000_000, nanos: 5 } }
}

fn record(content: &str) -> PutDnsRecord {
    PutDnsRecord {
        user_id: "user-1".to_string(),
        id: "rec-1".to_string(),
        zone_id: "zone-1".to_string(),
        content: content.to_string(),
        record_name: "home.example.com".to_string(),
        ttl: 300,
        record_type: "A".to_string(),
    }
}

fn issued() -> (String, ApiKeyRecord) {
    let request = AddApiKey { name: "drago-home".to_string(), scope: "rec-1".to_string() };
    let issued = issue_api_key(&request, "user-1").unwrap();
    (issued.full_key, issued.record)
}

fn credential(token: &str) -> DnsAccessToken {
    let sealed = encrypt(KEY, token).unwrap();
    DnsAccessToken {
        id: "tok-1".to_string(),
        user_id: "user-1".to_string(),
        name: "Cloudflare".to_string(),
        nonce: sealed.nonce,
        token_encrypted: sealed.ciphertext,
        tag: sealed.tag,
    }
}

fn confirmed(id: &str) -> SyncEvent {
    SyncEvent::ProviderAnswer(Ok(PutRecordResponse { result: RecordResponse { id: id.to_string() }, success: true }))
}

fn outcome_of(action: SyncAction) -> SyncOutcome {
    match action {
        SyncAction::Finish(outcome) => outcome,
        other => panic!("{:?}", other),
    }
}

/// Drives a call up to the lookup of the bound record.
fn awaiting_record(ip: &str) -> SyncState {
    let (full_key, stored) = issued();
    let header = format!("Bearer {}", full_key);
    let (state, action) = sync_record(Some(&header), request(ip));
    match action {
        SyncAction::FindKey { prefix } => assert_eq!(prefix, stored.prefix_id),
        other => panic!("{:?}", other),
    }
    let (state, action) = sync_with_api_key(state, SyncEvent::KeyLookup(Some(stored.clone())), KEY);
    match action {
        SyncAction::FindRecord { key_id, record_id } => {
            assert_eq!(key_id, stored.id);
            assert_eq!(record_id, "rec-1");
        },
        other => panic!("{:?}", other),
    }
    state
}

/// Drives a call up to the provider's answer.
fn awaiting_provider(ip: &str) -> SyncState {
    let state = awaiting_record(ip);
    let (state, _) = sync_with_api_key(state, SyncEvent::RecordLookup(Some(record("1.2.3.4"))), KEY);
    let (state, _) = sync_with_api_key(state, SyncEvent::CredentialLookup(Some(credential("cf-secret"))), KEY);
    state
}

#[test]
fn unchanged_address_ends_without_provider_call_or_write() {
    let state = awaiting_record("1.2.3.4");
    let (state, action) = sync_with_api_key(state, SyncEvent::RecordLookup(Some(record("1.2.3.4"))), KEY);
    assert!(matches!(state, SyncState::Done));
    let outcome = outcome_of(action);
    assert!(matches!(outcome, SyncOutcome::Unchanged));
    let response = outcome.response();
    assert!(response.success);
    assert!(!response.updated);
    assert_eq!(response.message, "Record unchanged");
    assert_eq!(outcome.status(), 200);
}

#[test]
fn two_syncs_of_an_unchanged_address_give_the_same_answer() {
    for _ in 0..2 {
        let state = awaiting_record("1.2.3.4");
        let (_, action) = sync_with_api_key(state, SyncEvent::RecordLookup(Some(record("1.2.3.4"))), KEY);
        let response = outcome_of(action).response();
        assert_eq!((response.success, response.updated), (true, false));
    }
}

#[test]
fn changed_address_is_sent_to_the_provider_and_written_after_confirmation() {
    let state = awaiting_record("5.6.7.8");
    let (state, action) = sync_with_api_key(state, SyncEvent::RecordLookup(Some(record("1.2.3.4"))), KEY);
    match action {
        SyncAction::FindCredential { user_id } => assert_eq!(user_id, "user-1"),
        other => panic!("{:?}", other),
    }
    let (state, action) = sync_with_api_key(state, SyncEvent::CredentialLookup(Some(credential("cf-secret"))), KEY);
    match action {
        SyncAction::UpdateProvider { zone_id, record_id, payload, token } => {
            assert_eq!(zone_id, "zone-1");
            assert_eq!(record_id, "rec-1");
            assert_eq!(payload.record_type, "A");
            assert_eq!(payload.name, "home.example.com");
            assert_eq!(payload.content, "5.6.7.8");
            assert_eq!(payload.ttl, 300);
            assert_eq!(token, "cf-secret");
        },
        other => panic!("{:?}", other),
    }
    let (state, action) = sync_with_api_key(state, confirmed("rec-1"), KEY);
    let mut local = record("1.2.3.4");
    match action {
        SyncAction::Persist { user_id, record_id, content, last_synced_at } => {
            assert_eq!(user_id, "user-1");
            assert_eq!(record_id, "rec-1");
            assert_eq!(last_synced_at, Timestamp { seconds: 1_700_000_000, nanos: 5 });
            local.content = content;
        },
        other => panic!("{:?}", other),
    }
    assert_eq!(local.content, "5.6.7.8");
    let (state, action) = sync_with_api_key(state, SyncEvent::PersistResult(Ok(())), KEY);
    assert!(matches!(state, SyncState::Done));
    let outcome = outcome_of(action);
    let response = outcome.response();
    assert!(response.success);
    assert!(response.updated);
    assert_eq!(response.message, "Record synced successfully");
    assert_eq!(outcome.status(), 200);
}

#[test]
fn provider_rejection_ends_without_a_write() {
    let answer = SyncEvent::ProviderAnswer(Ok(PutRecordResponse {
        result: RecordResponse { id: "rec-1".to_string() },
        success: false,
    }));
    let (state, action) = sync_with_api_key(awaiting_provider("5.6.7.8"), answer, KEY);
    assert!(matches!(state, SyncState::Done));
    let outcome = outcome_of(action);
    assert!(matches!(outcome, SyncOutcome::Failed(SyncError::ProviderRejected)));
    let response = outcome.response();
    assert_eq!((response.success, response.updated), (false, false));
    assert_eq!(response.message, "DNS provider error");
    assert_eq!(outcome.status(), 200);
}

#[test]
fn provider_confirmation_of_another_record_ends_without_a_write() {
    let (state, action) = sync_with_api_key(awaiting_provider("5.6.7.8"), confirmed("rec-2"), KEY);
    assert!(matches!(state, SyncState::Done));
    assert!(matches!(outcome_of(action), SyncOutcome::Failed(SyncError::ProviderRejected)));
}

#[test]
fn unreachable_provider_ends_without_a_write() {
    let answer = SyncEvent::ProviderAnswer(Err("connection timed out".to_string()));
    let (state, action) = sync_with_api_key(awaiting_provider("5.6.7.8"), answer, KEY);
    assert!(matches!(state, SyncState::Done));
    let outcome = outcome_of(action);
    assert!(matches!(outcome, SyncOutcome::Failed(SyncError::ProviderUnreachable(_))));
    assert_eq!(outcome.response().message, "connection timed out");
    assert_eq!(outcome.status(), 500);
}

#[test]
fn failed_write_is_reported_as_failure() {
    let (state, _) = sync_with_api_key(awaiting_provider("5.6.7.8"), confirmed("rec-1"), KEY);
    let (state, action) = sync_with_api_key(state, SyncEvent::PersistResult(Err("deadlock".to_string())), KEY);
    assert!(matches!(state, SyncState::Done));
    let outcome = outcome_of(action);
    let response = outcome.response();
    assert_eq!((response.success, response.updated), (false, false));
    assert_eq!(response.message, "DB update failed: deadlock");
    assert_eq!(outcome.status(), 500);
}

#[test]
fn missing_or_foreign_header_is_refused_before_any_lookup() {
    for header in [None, Some("Basic abc"), Some("bearer dgo_x")] {
        let (state, action) = sync_record(header, request("1.2.3.4"));
        assert!(matches!(state, SyncState::Done));
        let outcome = outcome_of(action);
        assert!(matches!(outcome, SyncOutcome::Failed(SyncError::MissingKey)));
        assert_eq!(outcome.status(), 401);
        assert_eq!(
            outcome.response().message,
            "Missing or invalid Authorization header (expected Bearer token)"
        );
    }
}

#[test]
fn bearer_value_that_is_no_api_key_is_refused() {
    let (state, action) = sync_record(Some("Bearer eyJhbGciOiJFZERTQSJ9.e30.sig"), request("1.2.3.4"));
    assert!(matches!(state, SyncState::Done));
    let outcome = outcome_of(action);
    assert!(matches!(outcome, SyncOutcome::Failed(SyncError::NotAnApiKey)));
    assert_eq!(outcome.status(), 401);
    assert_eq!(outcome.response().message, "Invalid API key format. Expected dgo_<prefix>_<secret>");
}

#[test]
fn malformed_api_key_is_refused() {
    let (state, action) = sync_record(Some("Bearer dgo_short_key"), request("1.2.3.4"));
    assert!(matches!(state, SyncState::Done));
    let outcome = outcome_of(action);
    assert!(matches!(outcome, SyncOutcome::Failed(SyncError::Unauthorized(ApiKeyError::MalformedKey))));
    assert_eq!(outcome.status(), 401);
    assert_eq!(outcome.response().message, "Malformed API key.");
}

#[test]
fn whitespace_around_the_key_is_ignored() {
    let (full_key, stored) = issued();
    let header = format!("Bearer \t {}  ", full_key);
    let (state, action) = sync_record(Some(&header), request("1.2.3.4"));
    match (state, action) {
        (SyncState::AwaitingKey { presented, .. }, SyncAction::FindKey { prefix }) => {
            assert_eq!(presented, full_key);
            assert_eq!(prefix, stored.prefix_id);
        },
        other => panic!("{:?}", other),
    }
}

#[test]
fn unknown_prefix_and_wrong_secret_are_refused_alike() {
    let (full_key, stored) = issued();
    let header = format!("Bearer {}", full_key);
    let (state, _) = sync_record(Some(&header), request("1.2.3.4"));
    let (state, action) = sync_with_api_key(state, SyncEvent::KeyLookup(None), KEY);
    assert!(matches!(state, SyncState::Done));
    let unknown = outcome_of(action);
    assert!(matches!(unknown, SyncOutcome::Failed(SyncError::Unauthorized(ApiKeyError::UnknownPrefix))));

    let mut wrong = full_key.clone();
    let last = wrong.pop().unwrap();
    wrong.push(if last == 'x' { 'y' } else { 'x' });
    let header = format!("Bearer {}", wrong);
    let (state, _) = sync_record(Some(&header), request("1.2.3.4"));
    let (state, action) = sync_with_api_key(state, SyncEvent::KeyLookup(Some(stored)), KEY);
    assert!(matches!(state, SyncState::Done));
    let mismatch = outcome_of(action);
    assert!(matches!(mismatch, SyncOutcome::Failed(SyncError::Unauthorized(ApiKeyError::HashMismatch))));

    assert_eq!(unknown.status(), 401);
    assert_eq!(mismatch.status(), 401);
    assert_eq!(unknown.response().message, "Invalid authorization");
    assert_eq!(mismatch.response().message, "Invalid authorization");
}

#[test]
fn key_whose_record_is_gone_fails_closed() {
    let (_, action) = sync_with_api_key(awaiting_record("1.2.3.4"), SyncEvent::RecordLookup(None), KEY);
    let outcome = outcome_of(action);
    assert!(matches!(outcome, SyncOutcome::Failed(SyncError::NoBoundRecord)));
    assert_eq!(outcome.status(), 404);
    assert_eq!(outcome.response().message, "No record associated to API key");
}

#[test]
fn record_that_the_key_is_not_bound_to_fails_closed() {
    let mut other = record("1.2.3.4");
    other.id = "rec-2".to_string();
    let (_, action) = sync_with_api_key(awaiting_record("1.2.3.4"), SyncEvent::RecordLookup(Some(other)), KEY);
    assert!(matches!(outcome_of(action), SyncOutcome::Failed(SyncError::NoBoundRecord)));
    let mut other = record("1.2.3.4");
    other.user_id = "user-2".to_string();
    let (_, action) = sync_with_api_key(awaiting_record("1.2.3.4"), SyncEvent::RecordLookup(Some(other)), KEY);
    assert!(matches!(outcome_of(action), SyncOutcome::Failed(SyncError::NoBoundRecord)));
}

#[test]
fn missing_or_unopenable_credential_ends_before_the_provider_is_called() {
    let state = awaiting_record("5.6.7.8");
    let (state, _) = sync_with_api_key(state, SyncEvent::RecordLookup(Some(record("1.2.3.4"))), KEY);
    let (state, action) = sync_with_api_key(state, SyncEvent::CredentialLookup(None), KEY);
    assert!(matches!(state, SyncState::Done));
    let outcome = outcome_of(action);
    assert!(matches!(outcome, SyncOutcome::Failed(SyncError::CredentialUnavailable)));
    assert_eq!(outcome.status(), 500);
    assert_eq!(outcome.response().message, "Failed to get user token");

    let state = awaiting_record("5.6.7.8");
    let (state, _) = sync_with_api_key(state, SyncEvent::RecordLookup(Some(record("1.2.3.4"))), KEY);
    let mut tampered = credential("cf-secret");
    tampered.tag[0] ^= 1;
    let (_, action) = sync_with_api_key(state, SyncEvent::CredentialLookup(Some(tampered)), KEY);
    assert!(matches!(outcome_of(action), SyncOutcome::Failed(SyncError::CredentialUnavailable)));
}

#[test]
fn event_out_of_turn_ends_the_call() {
    let (state, action) = sync_with_api_key(awaiting_record("1.2.3.4"), SyncEvent::PersistResult(Ok(())), KEY);
    assert!(matches!(state, SyncState::Done));
    let outcome = outcome_of(action);
    assert!(matches!(outcome, SyncOutcome::Failed(SyncError::OutOfTurn)));
    assert_eq!(outcome.status(), 500);
    let (_, action) = sync_with_api_key(SyncState::Done, SyncEvent::RecordLookup(None), KEY);
    assert!(matches!(outcome_of(action), SyncOutcome::Failed(SyncError::OutOfTurn)));
}

#[test]
fn user_token_is_opened_or_explained() {
    let stored = credential("cf-secret");
    assert_eq!(get_user_token(KEY, Some(&stored)).unwrap(), "cf-secret");
    assert_eq!(get_user_token(KEY, None).unwrap_err(), "No token found for account");
    let mut tampered = credential("cf-secret");
    tampered.token_encrypted[0] ^= 0x80;
    assert_eq!(get_user_token(KEY, Some(&tampered)).unwrap_err(), "Decryption error: Decryption failure");
    assert_eq!(
        get_user_token("zz", Some(&stored)).unwrap_err(),
        "Decryption error: Key must be exactly 32 bytes (64 hex chars)"
    );
}
