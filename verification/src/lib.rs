//! Credential custody and delegated access for a dynamic DNS service.
//!
//! An unattended client keeps a DNS record pointed at the public address of
//! its host, and a service stands between the client, its users, and the DNS
//! provider. The crate holds the rules of both, and leaves the network, the
//! database and the clock to whoever calls it:
//!
//! - [`vault`] keeps provider secrets encrypted at rest;
//! - [`api_key`] issues and verifies the record-scoped keys that clients sync
//!   with;
//! - [`keys`] and [`token`] verify the signed bearer tokens of users against
//!   the issuer's published keys;
//! - [`device_flow`] is the handshake by which a client without a browser
//!   signs a user in;
//! - [`sync`] is the reconciler that decides what a sync call has to do;
//! - [`records`] decides how records and provider tokens are managed;
//! - [`client`] and [`daemon`] hold what the command line client decides;
//! - [`types`] and [`text`] hold the records and the text operations that
//!   the others share.

pub mod api_key;
pub mod client;
pub mod daemon;
pub mod device_flow;
pub mod keys;
pub mod records;
pub mod sync;
pub mod text;
pub mod token;
pub mod types;
pub mod vault;
