//! The plain records that travel between the service and its clients.

use vstd::prelude::*;

verus! {

/// Request to issue an API key: a name for it, and in `scope` the id of the
/// DNS record it is bound to.
#[derive(Debug, Clone)]
pub struct AddApiKey {
    pub name: String,
    pub scope: String,
}

/// Request to store a provider token under a name.
#[derive(Debug, Clone)]
pub struct AddAccessToken {
    pub name: String,
    pub token: String,
}

/// Answer to a sync call.
#[derive(Debug, Clone)]
pub struct SyncResponse {
    pub success: bool,
    pub updated: bool,
    pub message: String,
}

/// A point in time: seconds since the Unix epoch, and the nanoseconds within
/// the second.
#[derive(Debug, Clone, Copy, PartialEq, Eq, Structural)]
pub struct Timestamp {
    pub seconds: i64,
    pub nanos: u32,
}

/// Body of a sync call: the address the caller claims, and when it saw it.
#[derive(Debug, Clone)]
pub struct SyncRequest {
    pub ip_address: String,
    pub time_synced: Timestamp,
}

/// What the provider is sent to update a record. Type, name and TTL are
/// those the record already has; only the content is new.
#[derive(Debug, Clone)]
pub struct PutDnsRecordPayload {
    pub record_type: String,
    pub name: String,
    pub content: String,
    pub ttl: i32,
}

/// The record that the provider names in its answer.
#[derive(Debug, Clone)]
pub struct RecordResponse {
    pub id: String,
}

/// The provider's answer to an update.
#[derive(Debug, Clone)]
pub struct PutRecordResponse {
    pub result: RecordResponse,
    pub success: bool,
}

/// The issuer's answer to a device authorization request.
#[derive(Debug, Clone)]
pub struct DeviceCodeResponse {
    pub device_code: String,
    pub user_code: String,
    pub verification_uri: String,
    pub verification_uri_complete: Option<String>,
    pub expires_in: u64,
    pub interval: u64,
}

/// The issuer's answer to a poll that was granted.
#[derive(Debug, Clone)]
pub struct DeviceTokenResponse {
    pub access_token: String,
    pub token_type: String,
    pub expires_in: Option<u64>,
}

/// The issuer's answer to a poll that was not granted.
#[derive(Debug, Clone)]
pub struct DeviceErrorResponse {
    pub error: String,
    pub error_description: Option<String>,
}

/// A DNS zone of a user.
#[derive(Debug, Clone)]
pub struct Zone {
    pub id: String,
    pub name: String,
    pub status: String,
}

/// A DNS record as the provider and the clients see it.
#[derive(Debug, Clone)]
pub struct DnsRecord {
    pub id: String,
    pub name: String,
    pub record_type: String,
    pub content: String,
    pub ttl: i32,
    pub proxied: bool,
}

/// An API key as it is listed: without its prefix and its hash.
#[derive(Debug, Clone)]
pub struct ApiKeyInfo {
    pub id: String,
    pub name: String,
    pub record_name: String,
}

/// Request to create a DNS record in a zone.
#[derive(Debug, Clone)]
pub struct AddDnsRecord {
    pub zone_id: String,
    pub zone_name: String,
    pub record_type: String,
    pub name: String,
    pub content: String,
    pub ttl: i32,
    pub proxied: bool,
}

/// What the provider is sent to create a record.
#[derive(Debug, Clone)]
pub struct DnsRecordPayload {
    pub record_type: String,
    pub name: String,
    pub content: String,
    pub ttl: i32,
    pub proxied: bool,
}

/// The provider's answer to the creation of a record.
#[derive(Debug, Clone)]
pub struct CreateRecordResponse {
    pub result: DnsRecord,
    pub success: bool,
}

/// The provider's list of zones.
#[derive(Debug, Clone)]
pub struct DnsZonesResponse {
    pub result: Vec<Zone>,
    pub success: bool,
}

/// Request to delete a DNS record of a zone.
#[derive(Debug, Clone)]
pub struct DeleteDnsRecord {
    pub record_id: String,
    pub zone_id: String,
}

/// The record that the provider names as deleted.
#[derive(Debug, Clone)]
pub struct DeletedDnsRecord {
    pub id: String,
}

/// The provider's answer to the deletion of a record.
#[derive(Debug, Clone)]
pub struct DeleteRecordResponse {
    pub result: DeletedDnsRecord,
    pub success: bool,
}

} // verus!
