//! The sync reconciler.
//!
//! A sync call presents an API key and the address that the caller has seen.
//! The reconciler authenticates the key, finds the one record the key is
//! bound to, and compares the record's content with the claimed address.
//! Where they agree nothing is done. Where they differ the provider is asked
//! to change the record, and only after the provider has confirmed is the new
//! content written to the local record.
//!
//! The reconciler itself touches neither the database nor the network. It is
//! a machine that is told what was found and answers what to do next.

use vstd::prelude::*;
use vstd::string::*;

use crate::api_key::{
    key_marker, parse_api_key, parsed_key, verification, verify_api_key, ApiKeyError, ApiKeyRecord,
};
use crate::text::{strip_prefix, text_view, trim, trimmed};
use crate::types::{PutDnsRecordPayload, PutRecordResponse, SyncRequest, SyncResponse, Timestamp};
use crate::vault::{decrypt, decrypted_text};

verus! {

/// A DNS record as it is kept locally, with the user it belongs to.
/// `content` is the address last confirmed by the provider.
#[derive(Debug, Clone)]
pub struct PutDnsRecord {
    pub user_id: String,
    pub id: String,
    pub zone_id: String,
    pub content: String,
    pub record_name: String,
    pub ttl: i32,
    pub record_type: String,
}

/// A provider token as it is stored: sealed, in three parts.
#[derive(Debug, Clone)]
pub struct DnsAccessToken {
    pub id: String,
    pub user_id: String,
    pub name: String,
    pub nonce: Vec<u8>,
    pub token_encrypted: Vec<u8>,
    pub tag: Vec<u8>,
}

/// Why a sync call failed.
#[derive(Debug, Clone)]
pub enum SyncError {
    /// No authorization header, or not a bearer value.
    MissingKey,
    /// The bearer value does not begin like an API key.
    NotAnApiKey,
    /// The API key was refused.
    Unauthorized(ApiKeyError),
    /// The record that the key is bound to does not exist.
    NoBoundRecord,
    /// The user's provider token is missing or could not be opened.
    CredentialUnavailable,
    /// The provider answered, and did not confirm the change.
    ProviderRejected,
    /// The provider could not be reached, or its answer could not be read.
    ProviderUnreachable(String),
    /// The provider confirmed, and the local write failed.
    PersistFailure(String),
    /// The reconciler was told something it had not asked for.
    OutOfTurn,
}

/// How a sync call ended.
#[derive(Debug, Clone)]
pub enum SyncOutcome {
    /// The record already held the claimed address.
    Unchanged,
    /// The provider confirmed the change and the record was written.
    Updated,
    /// Nothing was changed locally.
    Failed(SyncError),
}

/// What the reconciler is waiting for.
#[derive(Debug, Clone)]
pub enum SyncState {
    /// The stored key with the prefix of the presented text.
    AwaitingKey { presented: String, request: SyncRequest },
    /// The record that the key is bound to.
    AwaitingRecord { key: ApiKeyRecord, request: SyncRequest },
    /// The stored provider token of the record's user.
    AwaitingCredential { record: PutDnsRecord, request: SyncRequest },
    /// The provider's answer to the update.
    AwaitingProvider { record: PutDnsRecord, request: SyncRequest },
    /// The result of the local write.
    AwaitingPersist,
    /// Nothing: the call has ended.
    Done,
}

/// What the reconciler is told.
#[derive(Debug)]
pub enum SyncEvent {
    /// The stored key with the asked prefix, if there is one.
    KeyLookup(Option<ApiKeyRecord>),
    /// The record bound to the asked key, if it exists.
    RecordLookup(Option<PutDnsRecord>),
    /// The stored provider token of the asked user, if it could be read.
    CredentialLookup(Option<DnsAccessToken>),
    /// The provider's answer, or why there is none.
    ProviderAnswer(Result<PutRecordResponse, String>),
    /// Whether the local write went through, or why not.
    PersistResult(Result<(), String>),
}

/// What the reconciler asks for.
#[derive(Debug, Clone)]
pub enum SyncAction {
    /// Look up the stored key with this prefix.
    FindKey { prefix: String },
    /// Look up the record that this key is bound to.
    FindRecord { key_id: String, record_id: String },
    /// Look up the stored provider token of this user.
    FindCredential { user_id: String },
    /// Ask the provider to update this record, with this token.
    UpdateProvider { zone_id: String, record_id: String, payload: PutDnsRecordPayload, token: String },
    /// Write the new content and the time of the sync to this record of this
    /// user, in one transaction.
    Persist { user_id: String, record_id: String, content: String, last_synced_at: Timestamp },
    /// Answer the caller.
    Finish(SyncOutcome),
}

impl SyncOutcome {
    /// The HTTP status of the answer.
    pub open spec fn status_code(self) -> u16 {
        match self {
            SyncOutcome::Unchanged => 200,
            SyncOutcome::Updated => 200,
            SyncOutcome::Failed(e) => match e {
                SyncError::MissingKey => 401,
                SyncError::NotAnApiKey => 401,
                SyncError::Unauthorized(k) => k.status_code(),
                SyncError::NoBoundRecord => 404,
                SyncError::ProviderRejected => 200,
                _ => 500,
            },
        }
    }

    /// The message of the answer.
    pub open spec fn message_text(self) -> Seq<char> {
        match self {
            SyncOutcome::Unchanged => "Record unchanged"@,
            SyncOutcome::Updated => "Record synced successfully"@,
            SyncOutcome::Failed(e) => match e {
                SyncError::MissingKey => "Missing or invalid Authorization header (expected Bearer token)"@,
                SyncError::NotAnApiKey => "Invalid API key format. Expected dgo_<prefix>_<secret>"@,
                SyncError::Unauthorized(k) => k.message_text(),
                SyncError::NoBoundRecord => "No record associated to API key"@,
                SyncError::CredentialUnavailable => "Failed to get user token"@,
                SyncError::ProviderRejected => "DNS provider error"@,
                SyncError::ProviderUnreachable(why) => why@,
                SyncError::PersistFailure(why) => "DB update failed: "@ + why@,
                SyncError::OutOfTurn => "Internal error"@,
            },
        }
    }

    /// Whether the record now equals the claimed address.
    pub open spec fn succeeded(self) -> bool {
        self is Unchanged || self is Updated
    }

    /// Whether the record was written.
    pub open spec fn updated(self) -> bool {
        self is Updated
    }

    /// The HTTP status of the answer.
    pub fn status(&self) -> (r: u16)
        ensures
            r == self.status_code(),
    {
        match self {
            SyncOutcome::Unchanged => 200,
            SyncOutcome::Updated => 200,
            SyncOutcome::Failed(e) => match e {
                SyncError::MissingKey => 401,
                SyncError::NotAnApiKey => 401,
                SyncError::Unauthorized(k) => k.status(),
                SyncError::NoBoundRecord => 404,
                SyncError::ProviderRejected => 200,
                _ => 500,
            },
        }
    }

    /// The body of the answer. `success` is set for the two outcomes that
    /// leave the record equal to the claimed address, and `updated` only
    /// where the record was written.
    pub fn response(&self) -> (r: SyncResponse)
        ensures
            r.success == self.succeeded(),
            r.updated == self.updated(),
            r.message@ == self.message_text(),
    {
        let message = match self {
            SyncOutcome::Unchanged => String::from_str("Record unchanged"),
            SyncOutcome::Updated => String::from_str("Record synced successfully"),
            SyncOutcome::Failed(e) => match e {
                SyncError::MissingKey => String::from_str(
                    "Missing or invalid Authorization header (expected Bearer token)",
                ),
                SyncError::NotAnApiKey => String::from_str("Invalid API key format. Expected dgo_<prefix>_<secret>"),
                SyncError::Unauthorized(k) => k.message(),
                SyncError::NoBoundRecord => String::from_str("No record associated to API key"),
                SyncError::CredentialUnavailable => String::from_str("Failed to get user token"),
                SyncError::ProviderRejected => String::from_str("DNS provider error"),
                SyncError::ProviderUnreachable(why) => why.clone(),
                SyncError::PersistFailure(why) => String::from_str("DB update failed: ").concat(why.as_str()),
                SyncError::OutOfTurn => String::from_str("Internal error"),
            },
        };
        match self {
            SyncOutcome::Unchanged => SyncResponse { success: true, updated: false, message },
            SyncOutcome::Updated => SyncResponse { success: true, updated: true, message },
            SyncOutcome::Failed(_) => SyncResponse { success: false, updated: false, message },
        }
    }
}

/// The word that a bearer authorization begins with.
pub open spec fn bearer_word() -> Seq<char> {
    seq!['B', 'e', 'a', 'r', 'e', 'r']
}

/// The API key that an authorization header presents, or why it presents
/// none: the header has to begin with `Bearer`, and what follows, without the
/// whitespace around it, has to have the shape of a key.
pub open spec fn presented_key(authorization: Option<Seq<char>>) -> Result<Seq<char>, SyncError> {
    match authorization {
        None => Err(SyncError::MissingKey),
        Some(header) => if !bearer_word().is_prefix_of(header) {
            Err(SyncError::MissingKey)
        } else {
            let text = trimmed(header.skip(6));
            if !key_marker().is_prefix_of(text) {
                Err(SyncError::NotAnApiKey)
            } else if parsed_key(text) is None {
                Err(SyncError::Unauthorized(ApiKeyError::MalformedKey))
            } else {
                Ok(text)
            }
        },
    }
}

/// How a sync call begins: with the lookup of the stored key by the prefix of
/// the presented one, or with a refusal.
pub open spec fn begin_outcome(
    authorization: Option<Seq<char>>,
    request: SyncRequest,
    next: SyncState,
    action: SyncAction,
) -> bool {
    match presented_key(authorization) {
        Ok(text) => {
            &&& next matches SyncState::AwaitingKey { presented, request: kept }
            &&& presented@ == text
            &&& kept == request
            &&& action matches SyncAction::FindKey { prefix }
            &&& prefix@ == parsed_key(text)->Some_0.0
        },
        Err(e) => next is Done && action == SyncAction::Finish(SyncOutcome::Failed(e)),
    }
}

/// The provider token of a user in the clear, where it is stored and opens
/// under the configured key.
pub open spec fn opened_token(key_hex: Seq<char>, found: Option<DnsAccessToken>) -> Option<Seq<char>> {
    match found {
        Some(stored) => match decrypted_text(key_hex, stored.nonce@, stored.token_encrypted@, stored.tag@) {
            Ok(token) => Some(token),
            Err(_) => None,
        },
        None => None,
    }
}

/// The update that is due for a record whose content differs from the
/// claimed address: the record itself at the provider, with its own type,
/// name and TTL, and the claimed address as its content.
pub open spec fn is_update_of(
    action: SyncAction,
    record: PutDnsRecord,
    request: SyncRequest,
    token: Seq<char>,
) -> bool {
    &&& action matches SyncAction::UpdateProvider { zone_id, record_id, payload, token: sent }
    &&& zone_id@ == record.zone_id@
    &&& record_id@ == record.id@
    &&& payload.record_type@ == record.record_type@
    &&& payload.name@ == record.record_name@
    &&& payload.ttl == record.ttl
    &&& payload.content@ == request.ip_address@
    &&& sent@ == token
}

/// The write that is due after the provider has confirmed: the claimed
/// address and the time of the sync, to the record of the user.
pub open spec fn is_write_through(action: SyncAction, record: PutDnsRecord, request: SyncRequest) -> bool {
    &&& action matches SyncAction::Persist { user_id, record_id, content, last_synced_at }
    &&& user_id@ == record.user_id@
    &&& record_id@ == record.id@
    &&& content@ == request.ip_address@
    &&& last_synced_at == request.time_synced
}

/// The call ends, with this outcome.
pub open spec fn ends_with(next: SyncState, action: SyncAction, outcome: SyncOutcome) -> bool {
    next is Done && action == SyncAction::Finish(outcome)
}

/// What the reconciler does when it is told `event` in `state`.
pub open spec fn step_outcome(
    state: SyncState,
    event: SyncEvent,
    key_hex: Seq<char>,
    next: SyncState,
    action: SyncAction,
) -> bool {
    match state {
        SyncState::AwaitingKey { presented, request } => match event {
            SyncEvent::KeyLookup(stored) => match verification(presented@, stored) {
                Ok(key) => {
                    &&& next == SyncState::AwaitingRecord { key, request }
                    &&& action matches SyncAction::FindRecord { key_id, record_id }
                    &&& key_id@ == key.id@
                    &&& record_id@ == key.dns_record_id@
                },
                Err(e) => ends_with(next, action, SyncOutcome::Failed(SyncError::Unauthorized(e))),
            },
            _ => ends_with(next, action, SyncOutcome::Failed(SyncError::OutOfTurn)),
        },
        SyncState::AwaitingRecord { key, request } => match event {
            SyncEvent::RecordLookup(Some(record)) => if record.id@ != key.dns_record_id@ || record.user_id@
                != key.user_id@ {
                ends_with(next, action, SyncOutcome::Failed(SyncError::NoBoundRecord))
            } else if record.content@ == request.ip_address@ {
                ends_with(next, action, SyncOutcome::Unchanged)
            } else {
                &&& next == SyncState::AwaitingCredential { record, request }
                &&& action matches SyncAction::FindCredential { user_id }
                &&& user_id@ == record.user_id@
            },
            SyncEvent::RecordLookup(None) => ends_with(next, action, SyncOutcome::Failed(SyncError::NoBoundRecord)),
            _ => ends_with(next, action, SyncOutcome::Failed(SyncError::OutOfTurn)),
        },
        SyncState::AwaitingCredential { record, request } => match event {
            SyncEvent::CredentialLookup(found) => match opened_token(key_hex, found) {
                Some(token) => {
                    &&& next == SyncState::AwaitingProvider { record, request }
                    &&& is_update_of(action, record, request, token)
                },
                None => ends_with(next, action, SyncOutcome::Failed(SyncError::CredentialUnavailable)),
            },
            _ => ends_with(next, action, SyncOutcome::Failed(SyncError::OutOfTurn)),
        },
        SyncState::AwaitingProvider { record, request } => match event {
            SyncEvent::ProviderAnswer(Ok(answer)) => if answer.success && answer.result.id@ == record.id@ {
                next is AwaitingPersist && is_write_through(action, record, request)
            } else {
                ends_with(next, action, SyncOutcome::Failed(SyncError::ProviderRejected))
            },
            SyncEvent::ProviderAnswer(Err(why)) => ends_with(
                next,
                action,
                SyncOutcome::Failed(SyncError::ProviderUnreachable(why)),
            ),
            _ => ends_with(next, action, SyncOutcome::Failed(SyncError::OutOfTurn)),
        },
        SyncState::AwaitingPersist => match event {
            SyncEvent::PersistResult(Ok(_)) => ends_with(next, action, SyncOutcome::Updated),
            SyncEvent::PersistResult(Err(why)) => ends_with(
                next,
                action,
                SyncOutcome::Failed(SyncError::PersistFailure(why)),
            ),
            _ => ends_with(next, action, SyncOutcome::Failed(SyncError::OutOfTurn)),
        },
        SyncState::Done => ends_with(next, action, SyncOutcome::Failed(SyncError::OutOfTurn)),
    }
}

/// Ends the call with a failure.
fn fail(e: SyncError) -> (r: (SyncState, SyncAction))
    ensures
        ends_with(r.0, r.1, SyncOutcome::Failed(e)),
{
    (SyncState::Done, SyncAction::Finish(SyncOutcome::Failed(e)))
}

/// Opens the stored provider token of a user under the configured key.
pub fn get_user_token(key_hex: &str, found: Option<&DnsAccessToken>) -> (r: Result<String, String>)
    ensures
        match found {
            None => r is Err && r->Err_0@ == "No token found for account"@,
            Some(stored) => match decrypted_text(key_hex@, stored.nonce@, stored.token_encrypted@, stored.tag@) {
                Ok(token) => r is Ok && r->Ok_0@ == token,
                Err(e) => r is Err && r->Err_0@ == "Decryption error: "@ + e.message_text(),
            },
        },
{
    match found {
        None => Err(String::from_str("No token found for account")),
        Some(stored) => match decrypt(
            key_hex,
            stored.nonce.as_slice(),
            stored.token_encrypted.as_slice(),
            stored.tag.as_slice(),
        ) {
            Ok(token) => Ok(token),
            Err(e) => Err(String::from_str("Decryption error: ").concat(e.message().as_str())),
        },
    }
}

/// Begins a sync call: reads the API key from the authorization header and
/// asks for the stored key with its prefix. Nothing is looked up for a header
/// that presents no well-formed key.
pub fn sync_record(authorization: Option<&str>, request: SyncRequest) -> (r: (SyncState, SyncAction))
    ensures
        begin_outcome(text_view(authorization), request, r.0, r.1),
{
    let header = match authorization {
        Some(header) => header,
        None => {
            return fail(SyncError::MissingKey);
        },
    };
    proof {
        reveal_strlit("Bearer");
        reveal_strlit("dgo_");
        assert("Bearer"@ =~= bearer_word());
        assert("dgo_"@ =~= key_marker());
    }
    let rest = match strip_prefix(header, "Bearer") {
        Some(rest) => rest,
        None => {
            return fail(SyncError::MissingKey);
        },
    };
    assert(rest@ =~= header@.skip(6));
    let text = trim(rest);
    if strip_prefix(text, "dgo_").is_none() {
        return fail(SyncError::NotAnApiKey);
    }
    match parse_api_key(text) {
        Ok(parts) => (
            SyncState::AwaitingKey { presented: text.to_owned(), request },
            SyncAction::FindKey { prefix: parts.prefix },
        ),
        Err(e) => fail(SyncError::Unauthorized(e)),
    }
}

/// Tells the reconciler what was found, and returns what it waits for now and
/// what it asks for. `key_hex` is the configured key of the vault.
pub fn sync_with_api_key(state: SyncState, event: SyncEvent, key_hex: &str) -> (r: (SyncState, SyncAction))
    ensures
        step_outcome(state, event, key_hex@, r.0, r.1),
{
    match state {
        SyncState::AwaitingKey { presented, request } => match event {
            SyncEvent::KeyLookup(stored) => match verify_api_key(presented.as_str(), stored) {
                Ok(key) => {
                    let action = SyncAction::FindRecord { key_id: key.id.clone(), record_id: key.dns_record_id.clone() };
                    (SyncState::AwaitingRecord { key, request }, action)
                },
                Err(e) => fail(SyncError::Unauthorized(e)),
            },
            _ => fail(SyncError::OutOfTurn),
        },
        SyncState::AwaitingRecord { key, request } => match event {
            SyncEvent::RecordLookup(Some(record)) => {
                if record.id != key.dns_record_id || record.user_id != key.user_id {
                    fail(SyncError::NoBoundRecord)
                } else if record.content == request.ip_address {
                    (SyncState::Done, SyncAction::Finish(SyncOutcome::Unchanged))
                } else {
                    let action = SyncAction::FindCredential { user_id: record.user_id.clone() };
                    (SyncState::AwaitingCredential { record, request }, action)
                }
            },
            SyncEvent::RecordLookup(None) => fail(SyncError::NoBoundRecord),
            _ => fail(SyncError::OutOfTurn),
        },
        SyncState::AwaitingCredential { record, request } => match event {
            SyncEvent::CredentialLookup(found) => match get_user_token(key_hex, found.as_ref()) {
                Ok(token) => {
                    let payload = PutDnsRecordPayload {
                        record_type: record.record_type.clone(),
                        name: record.record_name.clone(),
                        content: request.ip_address.clone(),
                        ttl: record.ttl,
                    };
                    let action = SyncAction::UpdateProvider {
                        zone_id: record.zone_id.clone(),
                        record_id: record.id.clone(),
                        payload,
                        token,
                    };
                    (SyncState::AwaitingProvider { record, request }, action)
                },
                Err(_) => fail(SyncError::CredentialUnavailable),
            },
            _ => fail(SyncError::OutOfTurn),
        },
        SyncState::AwaitingProvider { record, request } => match event {
            SyncEvent::ProviderAnswer(Ok(answer)) => {
                if answer.success && answer.result.id == record.id {
                    let action = SyncAction::Persist {
                        user_id: record.user_id,
                        record_id: record.id,
                        content: request.ip_address,
                        last_synced_at: request.time_synced,
                    };
                    (SyncState::AwaitingPersist, action)
                } else {
                    fail(SyncError::ProviderRejected)
                }
            },
            SyncEvent::ProviderAnswer(Err(why)) => fail(SyncError::ProviderUnreachable(why)),
            _ => fail(SyncError::OutOfTurn),
        },
        SyncState::AwaitingPersist => match event {
            SyncEvent::PersistResult(Ok(_)) => (SyncState::Done, SyncAction::Finish(SyncOutcome::Updated)),
            SyncEvent::PersistResult(Err(why)) => fail(SyncError::PersistFailure(why)),
            _ => fail(SyncError::OutOfTurn),
        },
        SyncState::Done => fail(SyncError::OutOfTurn),
    }
}

/// The local content of a record once an action has been carried out: a
/// write puts its content there, and nothing else touches it.
pub open spec fn content_after(content: Seq<char>, action: SyncAction) -> Seq<char> {
    match action {
        SyncAction::Persist { content: written, .. } => written@,
        _ => content,
    }
}

/// The key is bound to this record of its user.
pub open spec fn bound_to(key: ApiKeyRecord, record: PutDnsRecord) -> bool {
    record.id@ == key.dns_record_id@ && record.user_id@ == key.user_id@
}

/// A provider's answer that confirms the update of this record.
pub open spec fn confirms(answer: Result<PutRecordResponse, String>, record: PutDnsRecord) -> bool {
    answer matches Ok(a) && a.success && a.result.id@ == record.id@
}

/// Two sync calls in a row that claim the address the record already holds
/// both end as unchanged, and neither asks for a provider call or a write:
/// the second call finds the record as the first one left it.
pub proof fn lemma_unchanged_address_is_idempotent(
    key: ApiKeyRecord,
    request: SyncRequest,
    key_hex: Seq<char>,
    first: PutDnsRecord,
    first_next: SyncState,
    first_action: SyncAction,
    second: PutDnsRecord,
    second_next: SyncState,
    second_action: SyncAction,
)
    requires
        bound_to(key, first),
        bound_to(key, second),
        first.content@ == request.ip_address@,
        step_outcome(
            SyncState::AwaitingRecord { key, request },
            SyncEvent::RecordLookup(Some(first)),
            key_hex,
            first_next,
            first_action,
        ),
        second.content@ == content_after(first.content@, first_action),
        step_outcome(
            SyncState::AwaitingRecord { key, request },
            SyncEvent::RecordLookup(Some(second)),
            key_hex,
            second_next,
            second_action,
        ),
    ensures
        ends_with(first_next, first_action, SyncOutcome::Unchanged),
        ends_with(second_next, second_action, SyncOutcome::Unchanged),
        SyncOutcome::Unchanged.succeeded() && !SyncOutcome::Unchanged.updated(),
        !(first_action is UpdateProvider) && !(first_action is Persist),
        !(second_action is UpdateProvider) && !(second_action is Persist),
        content_after(second.content@, second_action) == request.ip_address@,
{
}

/// Once the provider has answered, the local record converges on the
/// provider's state: a confirmation is followed by the write of the claimed
/// address, and any other answer ends the call with the content untouched.
pub proof fn lemma_local_content_follows_provider(
    record: PutDnsRecord,
    request: SyncRequest,
    answer: Result<PutRecordResponse, String>,
    key_hex: Seq<char>,
    next: SyncState,
    action: SyncAction,
)
    requires
        step_outcome(
            SyncState::AwaitingProvider { record, request },
            SyncEvent::ProviderAnswer(answer),
            key_hex,
            next,
            action,
        ),
    ensures
        confirms(answer, record) ==> next is AwaitingPersist && is_write_through(action, record, request)
            && content_after(record.content@, action) == request.ip_address@,
        !confirms(answer, record) ==> next is Done && action is Finish && action->Finish_0 is Failed
            && content_after(record.content@, action) == record.content@,
{
}

/// In every state and for every event, a write is asked for only after a
/// provider's confirmation, a provider call only with the user's token
/// opened, and an update is reported only after the write went through.
pub proof fn lemma_writes_only_after_confirmation(
    state: SyncState,
    event: SyncEvent,
    key_hex: Seq<char>,
    next: SyncState,
    action: SyncAction,
)
    requires
        step_outcome(state, event, key_hex, next, action),
    ensures
        action is Persist ==> {
            &&& state matches SyncState::AwaitingProvider { record, request }
            &&& event matches SyncEvent::ProviderAnswer(answer)
            &&& confirms(answer, record)
            &&& is_write_through(action, record, request)
        },
        action is UpdateProvider ==> {
            &&& state matches SyncState::AwaitingCredential { record, request }
            &&& event matches SyncEvent::CredentialLookup(found)
            &&& opened_token(key_hex, found) matches Some(token)
            &&& is_update_of(action, record, request, token)
        },
        action is Finish && action->Finish_0.succeeded() && action->Finish_0.updated() ==> state
            is AwaitingPersist && event matches SyncEvent::PersistResult(Ok(_)),
{
}

/// A call never begins with a provider call or a write.
pub proof fn lemma_begin_touches_nothing(
    authorization: Option<Seq<char>>,
    request: SyncRequest,
    next: SyncState,
    action: SyncAction,
)
    requires
        begin_outcome(authorization, request, next, action),
    ensures
        !(action is UpdateProvider),
        !(action is Persist),
        content_after(request.ip_address@, action) == request.ip_address@,
{
}

/// How far a call is from its end.
pub open spec fn steps_left(state: SyncState) -> nat {
    match state {
        SyncState::AwaitingKey { .. } => 5,
        SyncState::AwaitingRecord { .. } => 4,
        SyncState::AwaitingCredential { .. } => 3,
        SyncState::AwaitingProvider { .. } => 2,
        SyncState::AwaitingPersist => 1,
        SyncState::Done => 0,
    }
}

/// A call only moves forward: whatever it is told, it comes closer to its
/// end, and once it has ended it stays ended. The provider is called only
/// from the one state that waits for the user's token, and a write is asked
/// for only from the one that waits for the provider.
pub proof fn lemma_call_moves_forward(
    state: SyncState,
    event: SyncEvent,
    key_hex: Seq<char>,
    next: SyncState,
    action: SyncAction,
)
    requires
        step_outcome(state, event, key_hex, next, action),
    ensures
        steps_left(next) < steps_left(state) || (state is Done && next is Done),
        action is UpdateProvider ==> steps_left(state) == 3,
        action is Persist ==> steps_left(state) == 2,
{
}

/// A run of a call: told `events` one after the other from `state`, the
/// reconciler asked for `actions`, one for each event.
pub open spec fn ran(state: SyncState, events: Seq<SyncEvent>, key_hex: Seq<char>, actions: Seq<SyncAction>) -> bool
    decreases events.len(),
{
    if events.len() == 0 {
        actions.len() == 0
    } else {
        &&& actions.len() == events.len()
        &&& exists|next: SyncState|
            #[trigger] step_outcome(state, events.first(), key_hex, next, actions.first()) && ran(
                next,
                events.drop_first(),
                key_hex,
                actions.drop_first(),
            )
    }
}

/// The number of provider calls among some actions.
pub open spec fn provider_calls(actions: Seq<SyncAction>) -> nat
    decreases actions.len(),
{
    if actions.len() == 0 {
        0
    } else if actions.first() is UpdateProvider {
        1 + provider_calls(actions.drop_first())
    } else {
        provider_calls(actions.drop_first())
    }
}

/// The number of writes among some actions.
pub open spec fn writes(actions: Seq<SyncAction>) -> nat
    decreases actions.len(),
{
    if actions.len() == 0 {
        0
    } else if actions.first() is Persist {
        1 + writes(actions.drop_first())
    } else {
        writes(actions.drop_first())
    }
}

/// Whatever a call is told, and however long it is driven, it asks for at
/// most one provider call and at most one write; a call that is past the
/// state from which either is asked for asks for none.
pub proof fn lemma_at_most_one_call_and_write(
    state: SyncState,
    events: Seq<SyncEvent>,
    key_hex: Seq<char>,
    actions: Seq<SyncAction>,
)
    requires
        ran(state, events, key_hex, actions),
    ensures
        provider_calls(actions) <= 1,
        writes(actions) <= 1,
        steps_left(state) < 3 ==> provider_calls(actions) == 0,
        steps_left(state) < 2 ==> writes(actions) == 0,
    decreases events.len(),
{
    if events.len() > 0 {
        let next = choose|next: SyncState|
            #[trigger] step_outcome(state, events.first(), key_hex, next, actions.first()) && ran(
                next,
                events.drop_first(),
                key_hex,
                actions.drop_first(),
            );
        lemma_call_moves_forward(state, events.first(), key_hex, next, actions.first());
        lemma_at_most_one_call_and_write(next, events.drop_first(), key_hex, actions.drop_first());
    }
}

/// A call that finds the record of its key holding the claimed address
/// already answers that nothing changed, and asks for no provider call and
/// no write, however it is driven on.
pub proof fn lemma_unchanged_call_asks_for_nothing(
    key: ApiKeyRecord,
    request: SyncRequest,
    record: PutDnsRecord,
    events: Seq<SyncEvent>,
    key_hex: Seq<char>,
    actions: Seq<SyncAction>,
)
    requires
        bound_to(key, record),
        record.content@ == request.ip_address@,
        events.len() > 0,
        events.first() == SyncEvent::RecordLookup(Some(record)),
        ran(SyncState::AwaitingRecord { key, request }, events, key_hex, actions),
    ensures
        actions.first() == SyncAction::Finish(SyncOutcome::Unchanged),
        provider_calls(actions) == 0,
        writes(actions) == 0,
{
    let state = SyncState::AwaitingRecord { key, request };
    let next = choose|next: SyncState|
        #[trigger] step_outcome(state, events.first(), key_hex, next, actions.first()) && ran(
            next,
            events.drop_first(),
            key_hex,
            actions.drop_first(),
        );
    lemma_at_most_one_call_and_write(next, events.drop_first(), key_hex, actions.drop_first());
}

} // verus!
