//! What the service decides when a user manages records and provider tokens.
//!
//! A record is created at the provider first and kept locally only once the
//! provider has answered; it is deleted at the provider first and then
//! locally. As in a sync call, the decisions are told what was found and
//! answer what to do next.

use vstd::prelude::*;
use vstd::string::*;

use crate::api_key::fresh_id;
use crate::sync::{get_user_token, opened_token, DnsAccessToken};
use crate::types::{
    AddAccessToken, AddDnsRecord, CreateRecordResponse, DeleteDnsRecord, DeleteRecordResponse, DnsRecord,
    DnsRecordPayload, Zone,
};
use crate::vault::{decrypted_text, encrypt, encrypt_outcome, sealed_under, CryptoError, EncryptionResult};

verus! {

/// An answer to the caller: an HTTP status and a message.
#[derive(Debug, Clone)]
pub struct Reply {
    pub status: u16,
    pub message: String,
}

/// A record as it is first kept locally.
#[derive(Debug, Clone)]
pub struct NewDnsRecord {
    pub id: String,
    pub user_id: String,
    pub record_name: String,
    pub zone_id: String,
    pub content: String,
    pub ttl: i32,
    pub record_type: String,
    pub proxied: bool,
}

/// The name under which a record is kept: its own name and the name of its
/// zone, with a dot between them.
pub open spec fn record_name(name: Seq<char>, zone_name: Seq<char>) -> Seq<char> {
    name + seq!['.'] + zone_name
}

/// The name under which a record is kept.
pub fn full_record_name(name: &str, zone_name: &str) -> (r: String)
    ensures
        r@ == record_name(name@, zone_name@),
{
    proof {
        reveal_strlit(".");
        assert("."@ =~= seq!['.']);
    }
    String::from_str(name).concat(".").concat(zone_name)
}

/// What the creation of a record waits for.
#[derive(Debug, Clone)]
pub enum AddRecordState {
    /// Whether the user has a record of this name in the zone already.
    CheckingExisting { user_id: String, body: AddDnsRecord },
    /// The stored provider token of the user.
    AwaitingCredential { user_id: String, body: AddDnsRecord },
    /// The provider's answer.
    AwaitingProvider { user_id: String, zone_id: String },
    /// The result of the local insertion.
    AwaitingInsert,
    /// Nothing: the request is answered.
    Done,
}

/// What the creation of a record is told.
#[derive(Debug)]
pub enum AddRecordEvent {
    /// The id of the record of that name, if there is one, or why the lookup
    /// failed.
    Existing(Result<Option<String>, String>),
    /// The stored provider token of the user, if it could be read.
    Credential(Option<DnsAccessToken>),
    /// The provider's answer, or why there is none.
    Provider(Result<CreateRecordResponse, String>),
    /// Whether the local insertion went through, or why not.
    Inserted(Result<(), String>),
}

/// What the creation of a record asks for.
#[derive(Debug, Clone)]
pub enum AddRecordAction {
    /// Look up the user's record of this name in this zone.
    FindExisting { user_id: String, zone_id: String, record_name: String },
    /// Look up the stored provider token of this user.
    FindCredential { user_id: String },
    /// Create the record at the provider, with this token.
    Create { zone_id: String, payload: DnsRecordPayload, token: String },
    /// Keep the record locally.
    Insert(NewDnsRecord),
    /// Answer the caller.
    Answer(Reply),
}

/// The request is answered with this status and message.
pub open spec fn answered(action: AddRecordAction, status: u16, message: Seq<char>) -> bool {
    action matches AddRecordAction::Answer(reply) && reply.status == status && reply.message@ == message
}

/// What the provider is sent for a request: the request's own type, name,
/// content, TTL and proxying.
pub open spec fn is_payload_of(payload: DnsRecordPayload, body: AddDnsRecord) -> bool {
    &&& payload.record_type@ == body.record_type@
    &&& payload.name@ == body.name@
    &&& payload.content@ == body.content@
    &&& payload.ttl == body.ttl
    &&& payload.proxied == body.proxied
}

/// What is kept locally of a record that the provider created: the record
/// as the provider describes it, for this user and zone.
pub open spec fn is_row_of(row: NewDnsRecord, created: DnsRecord, user_id: Seq<char>, zone_id: Seq<char>) -> bool {
    &&& row.id@ == created.id@
    &&& row.user_id@ == user_id
    &&& row.record_name@ == created.name@
    &&& row.zone_id@ == zone_id
    &&& row.content@ == created.content@
    &&& row.ttl == created.ttl
    &&& row.record_type@ == created.record_type@
    &&& row.proxied == created.proxied
}

/// What the creation of a record does when it is told `event` in `state`.
pub open spec fn add_record_outcome(
    state: AddRecordState,
    event: AddRecordEvent,
    key_hex: Seq<char>,
    next: AddRecordState,
    action: AddRecordAction,
) -> bool {
    match state {
        AddRecordState::CheckingExisting { user_id, body } => match event {
            AddRecordEvent::Existing(Ok(None)) => {
                &&& next == AddRecordState::AwaitingCredential { user_id, body }
                &&& action matches AddRecordAction::FindCredential { user_id: asked }
                &&& asked@ == user_id@
            },
            AddRecordEvent::Existing(Ok(Some(_))) => next is Done && answered(action, 409, "Record already exists"@),
            AddRecordEvent::Existing(Err(why)) => next is Done && answered(action, 500, why@),
            _ => next is Done && answered(action, 500, "Internal error"@),
        },
        AddRecordState::AwaitingCredential { user_id, body } => match event {
            AddRecordEvent::Credential(found) => match opened_token(key_hex, found) {
                Some(token) => {
                    &&& next matches AddRecordState::AwaitingProvider { user_id: kept, zone_id }
                    &&& kept == user_id
                    &&& zone_id@ == body.zone_id@
                    &&& action matches AddRecordAction::Create { zone_id: asked, payload, token: sent }
                    &&& asked@ == body.zone_id@
                    &&& is_payload_of(payload, body)
                    &&& sent@ == token
                },
                None => next is Done && answered(action, 500, "Failed to get user token"@),
            },
            _ => next is Done && answered(action, 500, "Internal error"@),
        },
        AddRecordState::AwaitingProvider { user_id, zone_id } => match event {
            AddRecordEvent::Provider(Ok(created)) => {
                &&& next is AwaitingInsert
                &&& action matches AddRecordAction::Insert(row)
                &&& is_row_of(row, created.result, user_id@, zone_id@)
            },
            AddRecordEvent::Provider(Err(why)) => next is Done && answered(action, 500, why@),
            _ => next is Done && answered(action, 500, "Internal error"@),
        },
        AddRecordState::AwaitingInsert => match event {
            AddRecordEvent::Inserted(Ok(_)) => next is Done && answered(action, 201, "Record added successfully"@),
            AddRecordEvent::Inserted(Err(why)) => next is Done && answered(action, 500, why@),
            _ => next is Done && answered(action, 500, "Internal error"@),
        },
        AddRecordState::Done => next is Done && answered(action, 500, "Internal error"@),
    }
}

/// Ends a request with an answer.
fn answer(status: u16, message: String) -> (r: (AddRecordState, AddRecordAction))
    ensures
        r.0 is Done,
        answered(r.1, status, message@),
{
    (AddRecordState::Done, AddRecordAction::Answer(Reply { status, message }))
}

/// Ends a request that was driven out of turn.
fn out_of_turn() -> (r: (AddRecordState, AddRecordAction))
    ensures
        r.0 is Done,
        answered(r.1, 500, "Internal error"@),
{
    answer(500, String::from_str("Internal error"))
}

/// Begins the creation of a record for a user: asks whether the user has a
/// record of the same name in the zone already. The name is that of the
/// request and the name of the zone, with a dot between them.
pub fn begin_add_dns_record(user_id: String, body: AddDnsRecord) -> (r: (AddRecordState, AddRecordAction))
    ensures
        r.0 == (AddRecordState::CheckingExisting { user_id, body }),
        r.1 matches AddRecordAction::FindExisting { user_id: asked, zone_id, record_name: name },
        r.1->FindExisting_user_id@ == user_id@,
        r.1->FindExisting_zone_id@ == body.zone_id@,
        r.1->FindExisting_record_name@ == record_name(body.name@, body.zone_name@),
{
    let action = AddRecordAction::FindExisting {
        user_id: user_id.clone(),
        zone_id: body.zone_id.clone(),
        record_name: full_record_name(body.name.as_str(), body.zone_name.as_str()),
    };
    (AddRecordState::CheckingExisting { user_id, body }, action)
}

/// Tells the creation of a record what was found, and returns what it waits
/// for now and what it asks for. A record that exists already is a conflict,
/// and nothing is kept locally before the provider has answered.
pub fn add_dns_record(state: AddRecordState, event: AddRecordEvent, key_hex: &str) -> (r: (
    AddRecordState,
    AddRecordAction,
))
    ensures
        add_record_outcome(state, event, key_hex@, r.0, r.1),
{
    match state {
        AddRecordState::CheckingExisting { user_id, body } => match event {
            AddRecordEvent::Existing(Ok(None)) => {
                let action = AddRecordAction::FindCredential { user_id: user_id.clone() };
                (AddRecordState::AwaitingCredential { user_id, body }, action)
            },
            AddRecordEvent::Existing(Ok(Some(_))) => answer(409, String::from_str("Record already exists")),
            AddRecordEvent::Existing(Err(why)) => answer(500, why),
            _ => out_of_turn(),
        },
        AddRecordState::AwaitingCredential { user_id, body } => match event {
            AddRecordEvent::Credential(found) => match get_user_token(key_hex, found.as_ref()) {
                Ok(token) => {
                    let payload = DnsRecordPayload {
                        record_type: body.record_type,
                        name: body.name,
                        content: body.content,
                        ttl: body.ttl,
                        proxied: body.proxied,
                    };
                    let action = AddRecordAction::Create { zone_id: body.zone_id.clone(), payload, token };
                    (AddRecordState::AwaitingProvider { user_id, zone_id: body.zone_id }, action)
                },
                Err(_) => answer(500, String::from_str("Failed to get user token")),
            },
            _ => out_of_turn(),
        },
        AddRecordState::AwaitingProvider { user_id, zone_id } => match event {
            AddRecordEvent::Provider(Ok(created)) => {
                let row = NewDnsRecord {
                    id: created.result.id,
                    user_id,
                    record_name: created.result.name,
                    zone_id,
                    content: created.result.content,
                    ttl: created.result.ttl,
                    record_type: created.result.record_type,
                    proxied: created.result.proxied,
                };
                (AddRecordState::AwaitingInsert, AddRecordAction::Insert(row))
            },
            AddRecordEvent::Provider(Err(why)) => answer(500, why),
            _ => out_of_turn(),
        },
        AddRecordState::AwaitingInsert => match event {
            AddRecordEvent::Inserted(Ok(_)) => answer(201, String::from_str("Record added successfully")),
            AddRecordEvent::Inserted(Err(why)) => answer(500, why),
            _ => out_of_turn(),
        },
        AddRecordState::Done => out_of_turn(),
    }
}

/// What the deletion of a record waits for.
#[derive(Debug, Clone)]
pub enum DeleteRecordState {
    /// The stored provider token of the user.
    AwaitingCredential { user_id: String, params: DeleteDnsRecord },
    /// The provider's answer.
    AwaitingProvider { user_id: String, zone_id: String },
    /// The result of the local deletion.
    AwaitingDelete,
    /// Nothing: the request is answered.
    Done,
}

/// What the deletion of a record is told.
#[derive(Debug)]
pub enum DeleteRecordEvent {
    /// The stored provider token of the user, if it could be read.
    Credential(Option<DnsAccessToken>),
    /// The provider's answer, or why there is none.
    Provider(Result<DeleteRecordResponse, String>),
    /// Whether the local deletion went through, or why not.
    Deleted(Result<(), String>),
}

/// What the deletion of a record asks for.
#[derive(Debug, Clone)]
pub enum DeleteRecordAction {
    /// Look up the stored provider token of this user.
    FindCredential { user_id: String },
    /// Delete the record at the provider, with this token.
    DeleteAtProvider { zone_id: String, record_id: String, token: String },
    /// Delete this record of this user and zone locally.
    DeleteLocal { user_id: String, zone_id: String, record_id: String },
    /// Answer the caller.
    Answer(Reply),
}

/// The request is answered with this status and message.
pub open spec fn deletion_answered(action: DeleteRecordAction, status: u16, message: Seq<char>) -> bool {
    action matches DeleteRecordAction::Answer(reply) && reply.status == status && reply.message@ == message
}

/// Why the stored provider token of a user cannot be used, where it cannot.
pub open spec fn token_failure(key_hex: Seq<char>, found: Option<DnsAccessToken>) -> Seq<char> {
    match found {
        None => "No token found for account"@,
        Some(stored) => match decrypted_text(key_hex, stored.nonce@, stored.token_encrypted@, stored.tag@) {
            Ok(_) => Seq::empty(),
            Err(e) => "Decryption error: "@ + e.message_text(),
        },
    }
}

/// What the deletion of a record does when it is told `event` in `state`.
pub open spec fn delete_record_outcome(
    state: DeleteRecordState,
    event: DeleteRecordEvent,
    key_hex: Seq<char>,
    next: DeleteRecordState,
    action: DeleteRecordAction,
) -> bool {
    match state {
        DeleteRecordState::AwaitingCredential { user_id, params } => match event {
            DeleteRecordEvent::Credential(found) => match opened_token(key_hex, found) {
                Some(token) => {
                    &&& next matches DeleteRecordState::AwaitingProvider { user_id: kept, zone_id }
                    &&& kept == user_id
                    &&& zone_id@ == params.zone_id@
                    &&& action matches DeleteRecordAction::DeleteAtProvider { zone_id: asked, record_id, token: sent }
                    &&& asked@ == params.zone_id@
                    &&& record_id@ == params.record_id@
                    &&& sent@ == token
                },
                None => next is Done && deletion_answered(action, 500, token_failure(key_hex, found)),
            },
            _ => next is Done && deletion_answered(action, 500, "Internal error"@),
        },
        DeleteRecordState::AwaitingProvider { user_id, zone_id } => match event {
            DeleteRecordEvent::Provider(Ok(deleted)) => {
                &&& next is AwaitingDelete
                &&& action matches DeleteRecordAction::DeleteLocal { user_id: of_user, zone_id: of_zone, record_id }
                &&& of_user@ == user_id@
                &&& of_zone@ == zone_id@
                &&& record_id@ == deleted.result.id@
            },
            DeleteRecordEvent::Provider(Err(why)) => next is Done && deletion_answered(action, 500, why@),
            _ => next is Done && deletion_answered(action, 500, "Internal error"@),
        },
        DeleteRecordState::AwaitingDelete => match event {
            DeleteRecordEvent::Deleted(Ok(_)) => next is Done && deletion_answered(
                action,
                200,
                "Deleted DNS record from account"@,
            ),
            DeleteRecordEvent::Deleted(Err(why)) => next is Done && deletion_answered(action, 500, why@),
            _ => next is Done && deletion_answered(action, 500, "Internal error"@),
        },
        DeleteRecordState::Done => next is Done && deletion_answered(action, 500, "Internal error"@),
    }
}

/// Ends a deletion with an answer.
fn deletion_answer(status: u16, message: String) -> (r: (DeleteRecordState, DeleteRecordAction))
    ensures
        r.0 is Done,
        deletion_answered(r.1, status, message@),
{
    (DeleteRecordState::Done, DeleteRecordAction::Answer(Reply { status, message }))
}

/// Begins the deletion of a record of a user: asks for the user's stored
/// provider token.
pub fn begin_delete_dns_record(user_id: String, params: DeleteDnsRecord) -> (r: (
    DeleteRecordState,
    DeleteRecordAction,
))
    ensures
        r.0 == (DeleteRecordState::AwaitingCredential { user_id, params }),
        r.1 matches DeleteRecordAction::FindCredential { user_id: asked } && asked@ == user_id@,
{
    let action = DeleteRecordAction::FindCredential { user_id: user_id.clone() };
    (DeleteRecordState::AwaitingCredential { user_id, params }, action)
}

/// Tells the deletion of a record what was found, and returns what it waits
/// for now and what it asks for. The record is deleted locally only once the
/// provider has answered, and under the id that the provider names.
pub fn delete_dns_record(state: DeleteRecordState, event: DeleteRecordEvent, key_hex: &str) -> (r: (
    DeleteRecordState,
    DeleteRecordAction,
))
    ensures
        delete_record_outcome(state, event, key_hex@, r.0, r.1),
{
    match state {
        DeleteRecordState::AwaitingCredential { user_id, params } => match event {
            DeleteRecordEvent::Credential(found) => match get_user_token(key_hex, found.as_ref()) {
                Ok(token) => {
                    let action = DeleteRecordAction::DeleteAtProvider {
                        zone_id: params.zone_id.clone(),
                        record_id: params.record_id,
                        token,
                    };
                    (DeleteRecordState::AwaitingProvider { user_id, zone_id: params.zone_id }, action)
                },
                Err(why) => deletion_answer(500, why),
            },
            _ => deletion_answer(500, String::from_str("Internal error")),
        },
        DeleteRecordState::AwaitingProvider { user_id, zone_id } => match event {
            DeleteRecordEvent::Provider(Ok(deleted)) => (
                DeleteRecordState::AwaitingDelete,
                DeleteRecordAction::DeleteLocal { user_id, zone_id, record_id: deleted.result.id },
            ),
            DeleteRecordEvent::Provider(Err(why)) => deletion_answer(500, why),
            _ => deletion_answer(500, String::from_str("Internal error")),
        },
        DeleteRecordState::AwaitingDelete => match event {
            DeleteRecordEvent::Deleted(Ok(_)) => deletion_answer(
                200,
                String::from_str("Deleted DNS record from account"),
            ),
            DeleteRecordEvent::Deleted(Err(why)) => deletion_answer(500, why),
            _ => deletion_answer(500, String::from_str("Internal error")),
        },
        DeleteRecordState::Done => deletion_answer(500, String::from_str("Internal error")),
    }
}

/// A stored token that holds the token of a request, sealed under `key`,
/// for this user and under the name of the request.
pub open spec fn holds_token(
    stored: DnsAccessToken,
    key: Seq<u8>,
    body: AddAccessToken,
    user_id: Seq<char>,
) -> bool {
    &&& stored.name@ == body.name@
    &&& stored.user_id@ == user_id
    &&& sealed_under(
        key,
        vstd::utf8::encode_utf8(body.token@),
        EncryptionResult { nonce: stored.nonce, ciphertext: stored.token_encrypted, tag: stored.tag },
    )
}

/// Seals the provider token of a request under the configured key, to be
/// stored for the user under a new id. The token in the clear is not kept.
pub fn add_dns_access_token(key_hex: &str, body: &AddAccessToken, user_id: &str) -> (r: Result<
    DnsAccessToken,
    CryptoError,
>)
    ensures
        match r {
            Ok(stored) => crate::vault::encryption_key(key_hex@) is Some && holds_token(
                stored,
                crate::vault::encryption_key(key_hex@)->Some_0,
                *body,
                user_id@,
            ),
            Err(e) => encrypt_outcome(key_hex@, body.token@, Err(e)),
        },
{
    match encrypt(key_hex, body.token.as_str()) {
        Ok(sealed) => Ok(
            DnsAccessToken {
                id: fresh_id(),
                user_id: String::from_str(user_id),
                name: body.name.clone(),
                nonce: sealed.nonce,
                token_encrypted: sealed.ciphertext,
                tag: sealed.tag,
            },
        ),
        Err(e) => Err(e),
    }
}

/// What the listing of a user's records waits for.
#[derive(Debug, Clone)]
pub enum ListRecordsState {
    /// The zones that are kept for the user, each with id and name.
    AwaitingZones { user_id: String },
    /// The stored provider token of the user, because no zones are kept.
    AwaitingCredential { user_id: String },
    /// The user's zones at the provider.
    AwaitingProviderZones { user_id: String, token_id: String },
    /// The result of keeping the fetched zones.
    AwaitingInsert { fetched: Vec<Zone> },
    /// The records of the zone that is listed next: `listed` are the zones
    /// that are done, and `zones[listed.len()]` is the one that is asked for.
    AwaitingRecords { user_id: String, zones: Vec<(String, String)>, listed: Vec<(Zone, Vec<DnsRecord>)> },
    /// Nothing: the request is answered.
    Done,
}

/// What the listing of a user's records is told.
#[derive(Debug)]
pub enum ListRecordsEvent {
    /// The zones that are kept for the user, each with id and name.
    Zones(Vec<(String, String)>),
    /// The stored provider token of the user, if it could be read.
    Credential(Option<DnsAccessToken>),
    /// The user's zones at the provider, or why they could not be fetched.
    ProviderZones(Result<Vec<Zone>, String>),
    /// Whether the fetched zones were kept, or why not.
    Inserted(Result<(), String>),
    /// The records that are kept of the zone that was asked for.
    Records(Vec<DnsRecord>),
}

/// What the listing of a user's records asks for.
#[derive(Debug, Clone)]
pub enum ListRecordsAction {
    /// Look up the zones that are kept for this user.
    FindZones { user_id: String },
    /// Look up the stored provider token of this user.
    FindCredential { user_id: String },
    /// Fetch the user's zones from the provider, with this token.
    FetchZones { token: String },
    /// Keep these zones for this user, as fetched with this stored token.
    InsertZones { user_id: String, token_id: String, zones: Vec<Zone> },
    /// Look up the records that are kept of this zone of this user.
    FindRecords { user_id: String, zone_id: String },
    /// Answer the caller with the listing.
    Listing(Vec<(Zone, Vec<DnsRecord>)>),
    /// Answer the caller with a failure.
    Answer(Reply),
}

/// The request fails with this status and message.
pub open spec fn listing_fails(next: ListRecordsState, action: ListRecordsAction, status: u16, message: Seq<char>) -> bool {
    &&& next is Done
    &&& action matches ListRecordsAction::Answer(reply)
    &&& reply.status == status
    &&& reply.message@ == message
}

/// A zone that is kept locally, listed as active with these records.
pub open spec fn is_listed(entry: (Zone, Vec<DnsRecord>), zone: (String, String), records: Vec<DnsRecord>) -> bool {
    entry.0.id@ == zone.0@ && entry.0.name@ == zone.1@ && entry.0.status@ == "active"@ && entry.1 == records
}

/// The listing goes on with the zone after those that are listed, or ends
/// with the listing where every zone is listed.
pub open spec fn listing_goes_on(
    user_id: String,
    zones: Vec<(String, String)>,
    listed: Vec<(Zone, Vec<DnsRecord>)>,
    next: ListRecordsState,
    action: ListRecordsAction,
) -> bool {
    if listed@.len() < zones@.len() {
        &&& next == ListRecordsState::AwaitingRecords { user_id, zones, listed }
        &&& action matches ListRecordsAction::FindRecords { user_id: asked, zone_id }
        &&& asked@ == user_id@
        &&& zone_id@ == zones@[listed@.len() as int].0@
    } else {
        next is Done && action == ListRecordsAction::Listing(listed)
    }
}

/// What the listing of a user's records does when it is told `event` in
/// `state`. Zones that are kept are listed with their records, in order.
/// Where none are kept they are fetched from the provider with the user's
/// token, kept, and listed without records.
pub open spec fn list_records_outcome(
    state: ListRecordsState,
    event: ListRecordsEvent,
    key_hex: Seq<char>,
    next: ListRecordsState,
    action: ListRecordsAction,
) -> bool {
    match state {
        ListRecordsState::AwaitingZones { user_id } => match event {
            ListRecordsEvent::Zones(zones) => if zones@.len() == 0 {
                &&& next == ListRecordsState::AwaitingCredential { user_id }
                &&& action matches ListRecordsAction::FindCredential { user_id: asked }
                &&& asked@ == user_id@
            } else {
                exists|listed: Vec<(Zone, Vec<DnsRecord>)>|
                    listed@.len() == 0 && #[trigger] listing_goes_on(user_id, zones, listed, next, action)
            },
            _ => listing_fails(next, action, 500, "Internal error"@),
        },
        ListRecordsState::AwaitingCredential { user_id } => match event {
            ListRecordsEvent::Credential(None) => listing_fails(next, action, 404, "No DNS Token found"@),
            ListRecordsEvent::Credential(Some(stored)) => match opened_token(key_hex, Some(stored)) {
                Some(token) => {
                    &&& next matches ListRecordsState::AwaitingProviderZones { user_id: kept, token_id }
                    &&& kept == user_id
                    &&& token_id@ == stored.id@
                    &&& action matches ListRecordsAction::FetchZones { token: sent }
                    &&& sent@ == token
                },
                None => listing_fails(next, action, 500, "Security Error"@),
            },
            _ => listing_fails(next, action, 500, "Internal error"@),
        },
        ListRecordsState::AwaitingProviderZones { user_id, token_id } => match event {
            ListRecordsEvent::ProviderZones(Ok(zones)) => {
                &&& next matches ListRecordsState::AwaitingInsert { fetched: kept }
                &&& kept@ == zones@
                &&& action matches ListRecordsAction::InsertZones { user_id: of_user, token_id: with_token, zones: sent }
                &&& of_user == user_id
                &&& with_token == token_id
                &&& sent == zones
            },
            ListRecordsEvent::ProviderZones(Err(_)) => listing_fails(next, action, 500, "Error fetching DNS Zones"@),
            _ => listing_fails(next, action, 500, "Internal error"@),
        },
        ListRecordsState::AwaitingInsert { fetched } => match event {
            ListRecordsEvent::Inserted(Ok(_)) => {
                &&& next is Done
                &&& action matches ListRecordsAction::Listing(listing)
                &&& listing@.len() == fetched@.len()
                &&& forall|i: int|
                    0 <= i < fetched@.len() ==> (#[trigger] listing@[i]).0 == fetched@[i] && listing@[i].1@.len()
                        == 0
            },
            ListRecordsEvent::Inserted(Err(_)) => listing_fails(next, action, 500, "Error fetching DNS Zones"@),
            _ => listing_fails(next, action, 500, "Internal error"@),
        },
        ListRecordsState::AwaitingRecords { user_id, zones, listed } => match event {
            ListRecordsEvent::Records(records) => if listed@.len() < zones@.len() {
                exists|longer: Vec<(Zone, Vec<DnsRecord>)>|
                    {
                        &&& longer@.len() == listed@.len() + 1
                        &&& longer@.take(listed@.len() as int) == listed@
                        &&& is_listed(longer@[listed@.len() as int], zones@[listed@.len() as int], records)
                        &&& #[trigger] listing_goes_on(user_id, zones, longer, next, action)
                    }
            } else {
                listing_fails(next, action, 500, "Internal error"@)
            },
            _ => listing_fails(next, action, 500, "Internal error"@),
        },
        ListRecordsState::Done => listing_fails(next, action, 500, "Internal error"@),
    }
}

/// Ends a listing with a failure.
fn listing_failure(status: u16, message: &str) -> (r: (ListRecordsState, ListRecordsAction))
    ensures
        listing_fails(r.0, r.1, status, message@),
{
    (ListRecordsState::Done, ListRecordsAction::Answer(Reply { status, message: String::from_str(message) }))
}

/// Goes on with the zone after those that are listed.
fn go_on_listing(user_id: String, zones: Vec<(String, String)>, listed: Vec<(Zone, Vec<DnsRecord>)>) -> (r: (
    ListRecordsState,
    ListRecordsAction,
))
    ensures
        listing_goes_on(user_id, zones, listed, r.0, r.1),
{
    if listed.len() < zones.len() {
        let action = ListRecordsAction::FindRecords {
            user_id: user_id.clone(),
            zone_id: zones[listed.len()].0.clone(),
        };
        (ListRecordsState::AwaitingRecords { user_id, zones, listed }, action)
    } else {
        (ListRecordsState::Done, ListRecordsAction::Listing(listed))
    }
}

/// Begins the listing of a user's records: asks for the zones that are kept
/// for the user.
pub fn begin_list_dns_records(user_id: String) -> (r: (ListRecordsState, ListRecordsAction))
    ensures
        r.0 == (ListRecordsState::AwaitingZones { user_id }),
        r.1 matches ListRecordsAction::FindZones { user_id: asked } && asked@ == user_id@,
{
    let action = ListRecordsAction::FindZones { user_id: user_id.clone() };
    (ListRecordsState::AwaitingZones { user_id }, action)
}

/// Tells the listing of a user's records what was found, and returns what it
/// waits for now and what it asks for.
pub fn list_dns_records(state: ListRecordsState, event: ListRecordsEvent, key_hex: &str) -> (r: (
    ListRecordsState,
    ListRecordsAction,
))
    ensures
        list_records_outcome(state, event, key_hex@, r.0, r.1),
{
    match state {
        ListRecordsState::AwaitingZones { user_id } => match event {
            ListRecordsEvent::Zones(zones) => {
                if zones.len() == 0 {
                    let action = ListRecordsAction::FindCredential { user_id: user_id.clone() };
                    (ListRecordsState::AwaitingCredential { user_id }, action)
                } else {
                    let listed: Vec<(Zone, Vec<DnsRecord>)> = Vec::new();
                    let r = go_on_listing(user_id, zones, listed);
                    assert(listing_goes_on(user_id, zones, listed, r.0, r.1));
                    r
                }
            },
            _ => listing_failure(500, "Internal error"),
        },
        ListRecordsState::AwaitingCredential { user_id } => match event {
            ListRecordsEvent::Credential(None) => listing_failure(404, "No DNS Token found"),
            ListRecordsEvent::Credential(Some(stored)) => match get_user_token(key_hex, Some(&stored)) {
                Ok(token) => (
                    ListRecordsState::AwaitingProviderZones { user_id, token_id: stored.id },
                    ListRecordsAction::FetchZones { token },
                ),
                Err(_) => listing_failure(500, "Security Error"),
            },
            _ => listing_failure(500, "Internal error"),
        },
        ListRecordsState::AwaitingProviderZones { user_id, token_id } => match event {
            ListRecordsEvent::ProviderZones(Ok(zones)) => {
                let kept = copy_zones(&zones);
                (
                    ListRecordsState::AwaitingInsert { fetched: kept },
                    ListRecordsAction::InsertZones { user_id, token_id, zones },
                )
            },
            ListRecordsEvent::ProviderZones(Err(_)) => listing_failure(500, "Error fetching DNS Zones"),
            _ => listing_failure(500, "Internal error"),
        },
        ListRecordsState::AwaitingInsert { fetched } => match event {
            ListRecordsEvent::Inserted(Ok(_)) => (
                ListRecordsState::Done,
                ListRecordsAction::Listing(fresh_listing(&fetched)),
            ),
            ListRecordsEvent::Inserted(Err(_)) => listing_failure(500, "Error fetching DNS Zones"),
            _ => listing_failure(500, "Internal error"),
        },
        ListRecordsState::AwaitingRecords { user_id, zones, listed } => match event {
            ListRecordsEvent::Records(records) => {
                if listed.len() < zones.len() {
                    let ghost before = listed@;
                    let zone = active_zone(zones[listed.len()].0.clone(), zones[listed.len()].1.clone());
                    let mut longer = listed;
                    longer.push((zone, records));
                    proof {
                        assert(longer@.take(before.len() as int) =~= before);
                    }
                    let r = go_on_listing(user_id, zones, longer);
                    assert(listing_goes_on(user_id, zones, longer, r.0, r.1));
                    r
                } else {
                    listing_failure(500, "Internal error")
                }
            },
            _ => listing_failure(500, "Internal error"),
        },
        ListRecordsState::Done => listing_failure(500, "Internal error"),
    }
}

/// A copy of a list of zones.
fn copy_zones(zones: &Vec<Zone>) -> (r: Vec<Zone>)
    ensures
        r@ == zones@,
{
    let mut copy: Vec<Zone> = Vec::new();
    let mut i: usize = 0;
    while i < zones.len()
        invariant
            0 <= i <= zones@.len(),
            copy@ == zones@.take(i as int),
        decreases zones@.len() - i,
    {
        let zone = Zone { id: zones[i].id.clone(), name: zones[i].name.clone(), status: zones[i].status.clone() };
        proof {
            assert(zones@.take(i + 1) =~= zones@.take(i as int).push(zones@[i as int]));
        }
        copy.push(zone);
        i += 1;
    }
    proof {
        assert(zones@.take(zones@.len() as int) =~= zones@);
    }
    copy
}

/// A zone as it is listed from the local store, where every zone is active.
pub fn active_zone(id: String, name: String) -> (r: Zone)
    ensures
        r.id == id,
        r.name == name,
        r.status@ == "active"@,
{
    Zone { id, name, status: String::from_str("active") }
}

/// The listing of zones that were just fetched from the provider: each zone
/// as it came, with no records yet.
pub fn fresh_listing(zones: &Vec<Zone>) -> (r: Vec<(Zone, Vec<DnsRecord>)>)
    ensures
        r@.len() == zones@.len(),
        forall|i: int| 0 <= i < zones@.len() ==> (#[trigger] r@[i]).0 == zones@[i] && r@[i].1@.len() == 0,
{
    let mut listing: Vec<(Zone, Vec<DnsRecord>)> = Vec::new();
    let mut i: usize = 0;
    while i < zones.len()
        invariant
            0 <= i <= zones@.len(),
            listing@.len() == i,
            forall|j: int| 0 <= j < i ==> (#[trigger] listing@[j]).0 == zones@[j] && listing@[j].1@.len() == 0,
        decreases zones@.len() - i,
    {
        let zone = Zone { id: zones[i].id.clone(), name: zones[i].name.clone(), status: zones[i].status.clone() };
        listing.push((zone, Vec::new()));
        i += 1;
    }
    listing
}

} // verus!
