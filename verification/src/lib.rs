//! A content store in a bucket of S3 or of any service that speaks its protocol.
//!
//! Gateways hand large results and media to a content store and serve them back by an id. This
//! store keeps content by its BLAKE3 hash, so that the same bytes are kept once, and lets a name
//! within a session, an alias, stand for it. Under the key prefix of the store lie
//!
//! - `blobs/<hash>`: the bytes, with their mime type, times, session, tenant and size as metadata;
//! - `aliases/<base64url(alias id)>`: the hash that an alias stands for, and when it expires.
//!
//! The store decides and computes; it sends no request itself. Each operation hands out the request
//! that is due, and goes on with the answer to it, until it is done: [`put`], [`get`], [`delete`],
//! [`sign`] and [`sweep`]. What holds of them on a bucket that answers stands in [`bucket`]
//! and, of a whole sweep, in [`sweeping`]; what each of them promises of its texts and numbers, in
//! [`promises`].
pub mod bucket;
pub mod content;
pub mod delete;
pub mod encoding;
pub mod get;
pub mod keys;
pub mod metadata;
pub mod plugin;
pub mod presign;
pub mod promises;
pub mod put;
pub mod requests;
pub mod sign;
pub mod store;
pub mod sweep;
pub mod sweeping;
pub mod text;
pub mod time;
pub mod views;

pub use crate::plugin::S3StoragePlugin;
pub use crate::store::S3ContentStore;
pub use crate::store::S3ContentStoreConfig;
pub use crate::store::S3StaticCredentials;
