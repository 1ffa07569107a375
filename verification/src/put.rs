//! Storing content: the object with the bytes, and then the record of the alias, if there is one.
use crate::content::request_error;
use crate::content::AliasRecord;
use crate::content::AliasView;
use crate::content::ContentStoreError;
use crate::content::ContentToStore;
use crate::content::ContentView;
use crate::content::ErrorView;
use crate::content::HandleView;
use crate::content::ResourceHandle;
use crate::metadata::Tags;
use crate::metadata::TagsView;
use crate::requests::PutAlias;
use crate::requests::PutAliasFailure;
use crate::requests::PutAliasFailureView;
use crate::requests::PutAliasView;
use crate::requests::PutObject;
use crate::requests::PutObjectView;
use crate::store::S3ContentStore;
use crate::store::StoreView;
use crate::time::Timestamp;
use vstd::prelude::*;

verus! {

/// What is still to be known of content while its object is being written.
#[derive(Debug)]
pub struct PendingBlob {
    pub hash: String,
    pub size_bytes: usize,
    pub mime_type: String,
    pub expires_at: Option<Timestamp>,
    pub session_id: Option<String>,
    pub alias: Option<String>,
}

/// What is still to be known of content while the record of its alias is being written.
#[derive(Debug)]
pub struct PendingAlias {
    pub alias_id: String,
    pub handle: ResourceHandle,
}

/// What is due while content is being stored.
#[derive(Debug)]
pub enum PutStep {
    /// Write the object, and go on with [`S3ContentStore::put_after_blob`].
    WriteBlob { object: PutObject, pending: PendingBlob },
    /// Write the alias record, and go on with [`S3ContentStore::put_after_alias`].
    WriteAlias { record: PutAlias, pending_alias: PendingAlias },
    /// Nothing more.
    Done(Result<ResourceHandle, ContentStoreError>),
}

/// The text and numbers of a [`PendingBlob`].
#[verifier::ext_equal]
pub struct PendingBlobView {
    pub hash: Seq<char>,
    pub size_bytes: nat,
    pub mime_type: Seq<char>,
    pub expires_at: Option<Timestamp>,
    pub session_id: Option<Seq<char>>,
    pub alias: Option<Seq<char>>,
}

/// The text and numbers of a [`PendingAlias`].
#[verifier::ext_equal]
pub struct PendingAliasView {
    pub alias_id: Seq<char>,
    pub handle: HandleView,
}

/// The text, bytes and numbers of a [`PutStep`].
#[verifier::ext_equal]
pub enum PutStepView {
    WriteBlob { object: PutObjectView, pending: PendingBlobView },
    WriteAlias { record: PutAliasView, pending_alias: PendingAliasView },
    Done(Result<HandleView, ErrorView>),
}

impl DeepView for PendingBlob {
    type V = PendingBlobView;

    open spec fn deep_view(&self) -> PendingBlobView {
        PendingBlobView {
            hash: self.hash@,
            size_bytes: self.size_bytes as nat,
            mime_type: self.mime_type@,
            expires_at: self.expires_at,
            session_id: self.session_id.deep_view(),
            alias: self.alias.deep_view(),
        }
    }
}

impl DeepView for PendingAlias {
    type V = PendingAliasView;

    open spec fn deep_view(&self) -> PendingAliasView {
        PendingAliasView { alias_id: self.alias_id@, handle: self.handle.deep_view() }
    }
}

impl DeepView for PutStep {
    type V = PutStepView;

    open spec fn deep_view(&self) -> PutStepView {
        match self {
            PutStep::WriteBlob { object, pending } => PutStepView::WriteBlob {
                object: object.deep_view(),
                pending: pending.deep_view(),
            },
            PutStep::WriteAlias { record, pending_alias } => PutStepView::WriteAlias {
                record: record.deep_view(),
                pending_alias: pending_alias.deep_view(),
            },
            PutStep::Done(result) => PutStepView::Done(crate::content::outcome(*result)),
        }
    }
}

/// The content type of an alias record.
pub const ALIAS_CONTENT_TYPE: &'static str = "application/json";

/// The hash that content is known by: its BLAKE3 digest in hexadecimal.
pub open spec fn content_hash(bytes: Seq<u8>) -> Seq<char> {
    crate::encoding::hex_lower(crate::encoding::blake3_digest(bytes))
}

/// Whether content is larger than the store takes.
pub open spec fn is_too_large(store: StoreView, bytes: Seq<u8>) -> bool {
    store.max_bytes > 0 && bytes.len() > store.max_bytes
}

/// The handle for content under the given id.
pub open spec fn handle_for(id: Seq<char>, pending: PendingBlobView) -> HandleView {
    HandleView {
        id,
        uri: "mcpg-resource://"@ + id,
        size_bytes: pending.size_bytes,
        mime_type: pending.mime_type,
        expires_at: pending.expires_at,
        content_hash: "blake3:"@ + pending.hash,
    }
}

/// What content stored at `stored_at` says of itself in the metadata of its object.
pub open spec fn tags_for(content: ContentView, stored_at: Timestamp) -> TagsView {
    TagsView {
        mime_type: content.mime_type,
        stored_at,
        size: content.bytes.len(),
        expires_at: crate::time::expiry(stored_at, content.ttl),
        session_id: content.session_id,
        tenant_id: content.tenant_id,
    }
}

/// The object for content stored at `stored_at`.
pub open spec fn object_for(
    store: StoreView,
    content: ContentView,
    stored_at: Timestamp,
) -> PutObjectView {
    PutObjectView {
        key: crate::keys::blob_key(store.prefix, content_hash(content.bytes)),
        content_type: content.mime_type,
        body: content.bytes,
        metadata: crate::metadata::metadata_for(tags_for(content, stored_at)),
    }
}

/// What is to be known of content while its object is being written.
pub open spec fn pending_for(content: ContentView, stored_at: Timestamp) -> PendingBlobView {
    PendingBlobView {
        hash: content_hash(content.bytes),
        size_bytes: content.bytes.len(),
        mime_type: content.mime_type,
        expires_at: crate::time::expiry(stored_at, content.ttl),
        session_id: content.session_id,
        alias: content.alias,
    }
}

/// What is due first for content stored at `stored_at`: content that is too large is refused, and
/// for any other the object with its bytes is written.
pub open spec fn put_start(
    store: StoreView,
    content: ContentView,
    stored_at: Timestamp,
) -> PutStepView {
    if is_too_large(store, content.bytes) {
        PutStepView::Done(
            Err(
                ErrorView::SizeLimit {
                    limit_bytes: store.max_bytes as nat,
                    actual_bytes: content.bytes.len(),
                },
            ),
        )
    } else {
        PutStepView::WriteBlob {
            object: object_for(store, content, stored_at),
            pending: pending_for(content, stored_at),
        }
    }
}

/// Whether what is read from the metadata for content stored at `stored_at` is known of its
/// instants: each itself where its year has four digits, and nothing elsewhere.
pub open spec fn readings_are_known(content: ContentView, stored_at: Timestamp) -> bool {
    &&& crate::metadata::reading_is_known(stored_at)
    &&& crate::time::expiry(stored_at, content.ttl) matches Some(t)
        ==> crate::metadata::reading_is_known(t)
}

/// Whether `step` is what is due first for content stored at `stored_at`. Wherever an object is
/// written, its hash has 64 digits, and its instants can be read back where their years have four.
pub open spec fn put_starts_with(
    store: StoreView,
    content: ContentView,
    stored_at: Timestamp,
    step: PutStepView,
) -> bool {
    &&& step == put_start(store, content, stored_at)
    &&& !is_too_large(store, content.bytes) ==> content_hash(content.bytes).len() == 64
        && readings_are_known(content, stored_at)
}

/// Whether `begun` is what is due first for content that is stored at an instant that, where it is
/// not too large, the clock gave. Nothing is begun just where its lifetime ends behind the last date
/// that there is.
pub open spec fn begins_now(
    store: StoreView,
    content: ContentView,
    begun: Option<PutStepView>,
) -> bool {
    exists|now: Timestamp|
        {
            &&& #[trigger] now.is_clock_reading()
            &&& store.max_bytes == 0 || content.bytes.len() <= store.max_bytes
                ==> now.was_read_from_the_clock()
            &&& begun is Some <==> is_too_large(store, content.bytes)
                || crate::time::expiry_in_range(now, content.ttl)
            &&& begun matches Some(step) ==> put_starts_with(store, content, now, step)
        }
}

/// What is due after the object was written: the record of the alias if there is one, and otherwise
/// nothing more.
pub open spec fn put_after_blob(
    store: StoreView,
    pending: PendingBlobView,
    reply: Result<(), Seq<char>>,
) -> PutStepView {
    match reply {
        Err(why) => PutStepView::Done(
            Err(crate::content::request_failure("PutObject "@, pending.hash, why)),
        ),
        Ok(()) => match pending.alias {
            Some(alias) => {
                let id = crate::keys::alias_id(pending.session_id, alias);
                PutStepView::WriteAlias {
                    record: PutAliasView {
                        key: crate::keys::alias_key(store.prefix, id),
                        content_type: ALIAS_CONTENT_TYPE@,
                        record: AliasView {
                            target_hash: pending.hash,
                            expires_at: pending.expires_at,
                        },
                    },
                    pending_alias: PendingAliasView {
                        alias_id: id,
                        handle: handle_for(id, pending),
                    },
                }
            },
            None => PutStepView::Done(
                Ok(handle_for(crate::keys::hash_id(pending.hash), pending)),
            ),
        },
    }
}

/// What comes of storing content after the record of its alias was written.
pub open spec fn put_after_alias(
    pending: PendingAliasView,
    reply: Result<(), PutAliasFailureView>,
) -> Result<HandleView, ErrorView> {
    match reply {
        Ok(()) => Ok(pending.handle),
        Err(PutAliasFailureView::Encode(why)) => Err(
            ErrorView::Storage { message: "encode alias: "@ + why },
        ),
        Err(PutAliasFailureView::Send(why)) => Err(
            crate::content::request_failure("PutObject alias "@, pending.alias_id, why),
        ),
    }
}

/// The record of an alias is written only after the object with its content was. It names that
/// content, and it expires when the content does.
pub proof fn law_alias_follows_its_content(
    store: StoreView,
    pending: PendingBlobView,
    reply: Result<(), Seq<char>>,
)
    ensures
        put_after_blob(store, pending, reply) matches PutStepView::WriteAlias { record, .. }
            ==> reply is Ok && record.record.target_hash == pending.hash
            && record.record.expires_at == pending.expires_at,
        reply is Ok && pending.alias is Some ==> put_after_blob(store, pending, reply)
            is WriteAlias,
{
}

/// A copy of text that may be missing.
fn copy_of(text: &Option<String>) -> (r: Option<String>)
    ensures
        r == *text,
{
    match text {
        Some(t) => Some(t.clone()),
        None => None,
    }
}

/// The handle for content under the given id.
fn make_handle(id: &str, pending: PendingBlob) -> (r: ResourceHandle)
    ensures
        r.deep_view() == handle_for(id@, pending.deep_view()),
{
    ResourceHandle {
        id: id.to_owned(),
        uri: crate::text::join2("mcpg-resource://", id),
        size_bytes: pending.size_bytes,
        mime_type: pending.mime_type,
        expires_at: pending.expires_at,
        content_hash: crate::text::join2("blake3:", pending.hash.as_str()),
    }
}

impl S3ContentStore {
    /// Begins to store content now. Where its lifetime ends behind the last date that there is,
    /// nothing is begun. For content that is too large the clock is not read.
    pub fn put(&self, content: ContentToStore) -> (r: Option<PutStep>)
        requires
            content.ttl matches Some(ttl) ==> ttl.valid(),
        ensures
            self@.max_bytes > 0 && content.bytes@.len() > self@.max_bytes ==> (r matches Some(
                PutStep::Done(Err(ContentStoreError::SizeLimit { limit_bytes, actual_bytes })),
            ) && limit_bytes == self@.max_bytes && actual_bytes == content.bytes@.len()),
            begins_now(self@, content.deep_view(), r.deep_view()),
    {
        let now = crate::time::now_if(!self.refuses(&content.bytes));
        assert(now.is_clock_reading());
        self.put_checked_at(content, now)
    }

    /// Whether content is larger than the store takes.
    fn refuses(&self, bytes: &Vec<u8>) -> (r: bool)
        ensures
            r == is_too_large(self@, bytes@),
    {
        let max: u64 = self.max_bytes();
        max > 0 && bytes.len() as u64 > max
    }

    /// Begins to store content at `now`, unless its lifetime ends behind the last date that there
    /// is. Content that is too large is refused whatever its lifetime.
    pub fn put_checked_at(&self, content: ContentToStore, now: Timestamp) -> (r: Option<PutStep>)
        requires
            now.is_clock_reading(),
            content.ttl matches Some(ttl) ==> ttl.valid(),
        ensures
            r is Some <==> is_too_large(self@, content.bytes@) || crate::time::expiry_in_range(
                now,
                content.ttl,
            ),
            r matches Some(step) ==> put_starts_with(
                self@,
                content.deep_view(),
                now,
                step.deep_view(),
            ),
            self@.max_bytes > 0 && content.bytes@.len() > self@.max_bytes ==> (r matches Some(
                PutStep::Done(Err(ContentStoreError::SizeLimit { limit_bytes, actual_bytes })),
            ) && limit_bytes == self@.max_bytes && actual_bytes == content.bytes@.len()),
            r matches Some(PutStep::WriteBlob { object, .. }) ==> object.body == content.bytes
                && object.content_type@ == content.mime_type@,
    {
        if !self.refuses(&content.bytes) && !crate::time::check_expiry(now, content.ttl) {
            return None;
        }
        Some(self.put_at(content, now))
    }

    /// Begins to store content at `stored_at`.
    pub fn put_at(&self, content: ContentToStore, stored_at: Timestamp) -> (r: PutStep)
        requires
            stored_at.is_clock_reading(),
            content.ttl matches Some(ttl) ==> ttl.valid(),
            !is_too_large(self@, content.bytes@) ==> crate::time::expiry_in_range(
                stored_at,
                content.ttl,
            ),
        ensures
            put_starts_with(self@, content.deep_view(), stored_at, r.deep_view()),
            self@.max_bytes > 0 && content.bytes@.len() > self@.max_bytes ==> (r matches PutStep::Done(
                Err(ContentStoreError::SizeLimit { limit_bytes, actual_bytes }),
            ) && limit_bytes == self@.max_bytes && actual_bytes == content.bytes@.len()),
            r matches PutStep::WriteBlob { object, .. } ==> object.body == content.bytes
                && object.content_type@ == content.mime_type@,
    {
        let size: usize = content.bytes.len();
        if self.refuses(&content.bytes) {
            return PutStep::Done(
                Err(
                    ContentStoreError::SizeLimit {
                        limit_bytes: self.max_bytes() as usize,
                        actual_bytes: size,
                    },
                ),
            );
        }
        let digest = crate::encoding::blake3_hash(content.bytes.as_slice());
        let hash = crate::encoding::hex_encode(&digest);
        let expires_at = crate::time::expiry_of(stored_at, content.ttl);
        let tags = Tags {
            mime_type: content.mime_type.clone(),
            stored_at,
            size: size as u64,
            expires_at,
            session_id: copy_of(&content.session_id),
            tenant_id: content.tenant_id,
        };
        let object = PutObject {
            key: self.blob_key(hash.as_str()),
            content_type: content.mime_type.clone(),
            body: content.bytes,
            metadata: crate::metadata::make_metadata(tags),
        };
        let pending = PendingBlob {
            hash,
            size_bytes: size,
            mime_type: content.mime_type,
            expires_at,
            session_id: content.session_id,
            alias: content.alias,
        };
        PutStep::WriteBlob { object, pending }
    }

    /// Goes on after the object was written or the request failed.
    pub fn put_after_blob(&self, pending: PendingBlob, reply: Result<(), String>) -> (r: PutStep)
        ensures
            r.deep_view() == put_after_blob(
                self@,
                pending.deep_view(),
                crate::content::outcome(reply),
            ),
    {
        match reply {
            Err(why) => PutStep::Done(
                Err(request_error("PutObject ", pending.hash.as_str(), why.as_str())),
            ),
            Ok(()) => match &pending.alias {
                Some(alias) => {
                    let session = match &pending.session_id {
                        Some(s) => s.as_str(),
                        None => "__no_session__",
                    };
                    let alias_id = crate::text::join4("alias:", session, ":", alias.as_str());
                    let record = PutAlias {
                        key: self.alias_key(alias_id.as_str()),
                        content_type: ALIAS_CONTENT_TYPE.to_owned(),
                        record: AliasRecord {
                            target_hash: pending.hash.clone(),
                            expires_at: pending.expires_at,
                        },
                    };
                    let handle = make_handle(alias_id.as_str(), pending);
                    PutStep::WriteAlias {
                        record,
                        pending_alias: PendingAlias { alias_id, handle },
                    }
                },
                None => {
                    let id = crate::text::join2("hash:", pending.hash.as_str());
                    PutStep::Done(Ok(make_handle(id.as_str(), pending)))
                },
            },
        }
    }

    /// Ends after the record of the alias was written or that failed.
    pub fn put_after_alias(
        &self,
        pending: PendingAlias,
        reply: Result<(), PutAliasFailure>,
    ) -> (r: Result<ResourceHandle, ContentStoreError>)
        ensures
            crate::content::outcome(r) == put_after_alias(
                pending.deep_view(),
                crate::content::outcome(reply),
            ),
    {
        match reply {
            Ok(()) => Ok(pending.handle),
            Err(PutAliasFailure::Encode(why)) => Err(
                crate::content::storage_error("encode alias: ", why.as_str()),
            ),
            Err(PutAliasFailure::Send(why)) => Err(
                request_error("PutObject alias ", pending.alias_id.as_str(), why.as_str()),
            ),
        }
    }
}

} // verus!
