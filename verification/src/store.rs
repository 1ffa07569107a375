//! The store: its configuration, the keys of its objects, and what single answers of the bucket
//! mean to it.
use crate::content::request_error;
use crate::content::AliasRecord;
use crate::content::AliasView;
use crate::content::ContentStoreError;
use crate::content::ContentStoreStats;
use crate::content::ErrorView;
use crate::keys::KeyKind;
use crate::requests::AliasReply;
use crate::requests::AliasReplyView;
use crate::requests::HeadReply;
use crate::requests::HeadReplyView;
use crate::requests::HeadResult;
use std::sync::Arc;
use vstd::prelude::*;

verus! {

/// How to reach the bucket, and what the store puts there.
#[derive(Debug, Clone)]
pub struct S3ContentStoreConfig {
    /// The bucket, which must exist and be writable.
    pub bucket: String,
    /// The key prefix of every object. A slash is added behind it if it has none; empty stands for
    /// the root of the bucket.
    pub prefix: String,
    /// The region, which the client needs even where the provider has none.
    pub region: String,
    /// The endpoint of a provider other than AWS.
    pub endpoint_url: Option<String>,
    /// Whether the bucket stands in the path and not in the host name.
    pub force_path_style: bool,
    /// The keys to sign with. Without them the client looks for some in its surroundings.
    pub credentials: Option<S3StaticCredentials>,
    /// The largest content that is stored, in bytes. Zero stands for no bound.
    pub max_bytes: u64,
}

/// Keys to sign requests with.
#[derive(Debug, Clone)]
pub struct S3StaticCredentials {
    pub access_key_id: String,
    pub secret_access_key: String,
    pub session_token: Option<String>,
}

/// Where a client takes its keys from.
#[derive(Debug)]
pub enum CredentialSource {
    /// From the configuration.
    Static { keys: S3StaticCredentials, provider_name: &'static str },
    /// From its surroundings.
    DefaultChain,
}

/// What a client for the bucket is made with.
#[derive(Debug)]
pub struct ClientSettings {
    pub region: String,
    pub endpoint_url: Option<String>,
    pub force_path_style: bool,
    pub credentials: CredentialSource,
}

/// The name under which keys of the configuration are known to the client.
pub const STATIC_PROVIDER: &'static str = "mcpg-static";

/// A content store in an S3 bucket.
#[derive(Debug)]
pub struct S3ContentStore {
    bucket: String,
    prefix: String,
    max_bytes: u64,
}

/// The text and numbers of an [`S3ContentStore`].
pub struct StoreView {
    pub bucket: Seq<char>,
    pub prefix: Seq<char>,
    pub max_bytes: u64,
}

impl View for S3ContentStore {
    type V = StoreView;

    closed spec fn view(&self) -> StoreView {
        StoreView { bucket: self.bucket@, prefix: self.prefix@, max_bytes: self.max_bytes }
    }
}

/// The store for a configuration.
pub open spec fn opened(cfg: S3ContentStoreConfig) -> StoreView {
    StoreView {
        bucket: cfg.bucket@,
        prefix: crate::keys::directory_of(cfg.prefix@),
        max_bytes: cfg.max_bytes,
    }
}

/// What the client for a configuration is made with: keys of the configuration if it has any, and
/// only otherwise those of the surroundings.
pub open spec fn settings_of(cfg: S3ContentStoreConfig) -> ClientSettings {
    ClientSettings {
        region: cfg.region,
        endpoint_url: cfg.endpoint_url,
        force_path_style: cfg.force_path_style,
        credentials: match cfg.credentials {
            Some(keys) => CredentialSource::Static { keys, provider_name: STATIC_PROVIDER },
            None => CredentialSource::DefaultChain,
        },
    }
}

/// What the answer to a request for an alias record means: the record, or that there is none, or a
/// failure.
pub open spec fn alias_outcome(
    alias_id: Seq<char>,
    reply: AliasReplyView,
) -> Result<Option<AliasView>, ErrorView> {
    match reply {
        AliasReplyView::Found(record) => Ok(Some(record)),
        AliasReplyView::Missing => Ok(None),
        AliasReplyView::Failed(why) => Err(
            crate::content::request_failure("GetObject alias "@, alias_id, why),
        ),
        AliasReplyView::BodyFailed(why) => Err(
            crate::content::request_failure("read alias body "@, alias_id, why),
        ),
        AliasReplyView::DecodeFailed(why) => Err(
            crate::content::request_failure("decode alias "@, alias_id, why),
        ),
    }
}

/// What the answer to a request for the head of an object means: when the content expires, or that
/// there is none, or a failure. An expiry that cannot be read is none.
pub open spec fn head_outcome(
    hash: Seq<char>,
    reply: HeadReplyView,
) -> Result<Option<HeadResult>, ErrorView> {
    match reply {
        HeadReplyView::Found { metadata } => Ok(
            Some(
                HeadResult {
                    expires_at: crate::metadata::lookup_instant(
                        metadata,
                        crate::metadata::META_EXPIRES_AT@,
                    ),
                },
            ),
        ),
        HeadReplyView::Missing => Ok(None),
        HeadReplyView::Failed(why) => Err(
            crate::content::request_failure("HeadObject "@, hash, why),
        ),
    }
}

/// What the answer to a request to delete content means.
pub open spec fn delete_blob_outcome(
    hash: Seq<char>,
    reply: Result<(), Seq<char>>,
) -> Result<(), ErrorView> {
    match reply {
        Ok(()) => Ok(()),
        Err(why) => Err(crate::content::request_failure("DeleteObject "@, hash, why)),
    }
}

/// What the answer to a request to delete an alias record means.
pub open spec fn delete_alias_outcome(
    alias_id: Seq<char>,
    reply: Result<(), Seq<char>>,
) -> Result<(), ErrorView> {
    match reply {
        Ok(()) => Ok(()),
        Err(why) => Err(crate::content::request_failure("DeleteObject alias "@, alias_id, why)),
    }
}

impl S3ContentStoreConfig {
    /// What the client is made with: keys of the configuration if it has any, and only otherwise
    /// those of the surroundings.
    pub fn client_settings(&self) -> (r: ClientSettings)
        ensures
            r == settings_of(*self),
    {
        let endpoint_url = match &self.endpoint_url {
            Some(url) => Some(url.clone()),
            None => None,
        };
        let credentials = match &self.credentials {
            Some(keys) => CredentialSource::Static {
                keys: S3StaticCredentials {
                    access_key_id: keys.access_key_id.clone(),
                    secret_access_key: keys.secret_access_key.clone(),
                    session_token: match &keys.session_token {
                        Some(token) => Some(token.clone()),
                        None => None,
                    },
                },
                provider_name: STATIC_PROVIDER,
            },
            None => CredentialSource::DefaultChain,
        };
        ClientSettings {
            region: self.region.clone(),
            endpoint_url,
            force_path_style: self.force_path_style,
            credentials,
        }
    }
}

/// Whether a key prefix is empty or ends in a slash.
fn ends_as_directory(prefix: &str) -> (r: bool)
    ensures
        r == crate::keys::is_directory(prefix@),
{
    let n: usize = prefix.unicode_len();
    n == 0 || prefix.get_char(n - 1) == '/'
}

impl S3ContentStore {
    /// The key prefix of a store is empty or ends in a slash.
    #[verifier::type_invariant]
    closed spec fn well_formed(self) -> bool {
        crate::keys::is_directory(self.prefix@)
    }

    /// The store for a configuration. No request is made for it.
    pub fn open(cfg: S3ContentStoreConfig) -> (r: Result<Arc<Self>, ContentStoreError>)
        ensures
            r matches Ok(store) && store@ == opened(cfg),
    {
        proof {
            crate::keys::law_directory_of(cfg.prefix@);
        }
        let prefix = if ends_as_directory(cfg.prefix.as_str()) {
            cfg.prefix
        } else {
            crate::text::join2(cfg.prefix.as_str(), "/")
        };
        Ok(Arc::new(S3ContentStore { bucket: cfg.bucket, prefix, max_bytes: cfg.max_bytes }))
    }

    /// The bucket that every request goes to.
    pub fn bucket(&self) -> (r: &str)
        ensures
            r@ == self@.bucket,
    {
        self.bucket.as_str()
    }

    /// The key prefix of every object, which is empty or ends in a slash.
    pub fn prefix(&self) -> (r: &str)
        ensures
            r@ == self@.prefix,
            crate::keys::is_directory(r@),
    {
        proof {
            use_type_invariant(self);
        }
        self.prefix.as_str()
    }

    /// The largest content that is stored, in bytes; zero stands for no bound.
    pub fn max_bytes(&self) -> (r: u64)
        ensures
            r == self@.max_bytes,
    {
        self.max_bytes
    }

    /// The key of the object that holds the content with this hash.
    pub fn blob_key(&self, hash: &str) -> (r: String)
        ensures
            r@ == crate::keys::blob_key(self@.prefix, hash@),
    {
        crate::text::join3(self.prefix.as_str(), "blobs/", hash)
    }

    /// The key of the object that holds the record of this alias.
    pub fn alias_key(&self, alias_id: &str) -> (r: String)
        ensures
            r@ == crate::keys::alias_key(self@.prefix, alias_id@),
    {
        let encoded = crate::encoding::base64url_encode(alias_id);
        crate::text::join3(self.prefix.as_str(), "aliases/", encoded.as_str())
    }

    /// What an id stands for, if for anything.
    pub fn resolve_to_hash_blob_key(&self, id: &str) -> (r: Option<KeyKind>)
        ensures
            r.deep_view() == crate::keys::resolve(id@),
    {
        proof {
            reveal_strlit("hash:");
        }
        match crate::text::strip_prefix(id, "hash:") {
            Some(rest) => {
                return Some(KeyKind::Blob { hash: rest });
            },
            None => {},
        }
        if crate::text::begins_with(id, "alias:") {
            return Some(KeyKind::Alias { alias_id: id.to_owned() });
        }
        if !id.is_empty() && crate::text::all_hex_digits(id) {
            return Some(KeyKind::Blob { hash: id.to_owned() });
        }
        None
    }

    /// What the answer to a request for the head of an object means.
    pub fn head_blob(&self, hash: &str, reply: HeadReply) -> (r: Result<
        Option<HeadResult>,
        ContentStoreError,
    >)
        ensures
            crate::content::outcome(r) == head_outcome(hash@, reply.deep_view()),
    {
        match reply {
            HeadReply::Found { metadata } => Ok(
                Some(
                    HeadResult {
                        expires_at: crate::metadata::find_instant(
                            &metadata,
                            crate::metadata::META_EXPIRES_AT,
                        ),
                    },
                ),
            ),
            HeadReply::Missing => Ok(None),
            HeadReply::Failed(why) => Err(request_error("HeadObject ", hash, why.as_str())),
        }
    }

    /// What the answer to a request for an alias record means.
    pub fn read_alias(&self, alias_id: &str, reply: AliasReply) -> (r: Result<
        Option<AliasRecord>,
        ContentStoreError,
    >)
        ensures
            crate::content::outcome(r) == alias_outcome(alias_id@, reply.deep_view()),
    {
        match reply {
            AliasReply::Found(record) => Ok(Some(record)),
            AliasReply::Missing => Ok(None),
            AliasReply::Failed(why) => Err(
                request_error("GetObject alias ", alias_id, why.as_str()),
            ),
            AliasReply::BodyFailed(why) => Err(
                request_error("read alias body ", alias_id, why.as_str()),
            ),
            AliasReply::DecodeFailed(why) => Err(
                request_error("decode alias ", alias_id, why.as_str()),
            ),
        }
    }

    /// What the answer to a request to delete content means.
    pub fn delete_blob(&self, hash: &str, reply: Result<(), String>) -> (r: Result<
        (),
        ContentStoreError,
    >)
        ensures
            crate::content::outcome(r) == delete_blob_outcome(
                hash@,
                crate::content::outcome(reply),
            ),
    {
        match reply {
            Ok(()) => Ok(()),
            Err(why) => Err(request_error("DeleteObject ", hash, why.as_str())),
        }
    }

    /// What the answer to a request to delete an alias record means.
    pub fn delete_alias(&self, alias_id: &str, reply: Result<(), String>) -> (r: Result<
        (),
        ContentStoreError,
    >)
        ensures
            crate::content::outcome(r) == delete_alias_outcome(
                alias_id@,
                crate::content::outcome(reply),
            ),
    {
        match reply {
            Ok(()) => Ok(()),
            Err(why) => Err(request_error("DeleteObject alias ", alias_id, why.as_str())),
        }
    }

    /// How full the store is. A bucket does not tell, so all numbers are zero.
    pub fn stats(&self) -> (r: ContentStoreStats)
        ensures
            r == (ContentStoreStats { item_count: 0, byte_count: 0, max_bytes: 0 }),
    {
        ContentStoreStats::default()
    }
}

} // verus!
