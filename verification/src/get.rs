//! Reading content back: through the record of an alias, where the id is one, to the object with the
//! bytes. What has expired is as good as missing, and is deleted on the way.
use crate::content::request_error;
use crate::content::ContentStoreError;
use crate::content::ErrorView;
use crate::content::ResourceContent;
use crate::content::ResourceView;
use crate::keys::KeyKind;
use crate::keys::KeyKindView;
use crate::requests::AliasReply;
use crate::requests::AliasReplyView;
use crate::requests::BlobReply;
use crate::requests::BlobReplyView;
use crate::store::S3ContentStore;
use crate::store::StoreView;
use crate::time::Timestamp;
use vstd::prelude::*;

verus! {

/// What is known of content while its bytes are being read.
#[derive(Debug)]
pub struct PendingContent {
    pub hash: String,
    pub mime_type: String,
    pub session_id: Option<String>,
    pub tenant_id: Option<String>,
    pub stored_at: Timestamp,
    pub expires_at: Option<Timestamp>,
}

/// What is due while content is being read back.
#[derive(Debug)]
pub enum GetStep {
    /// Ask for the alias record, and go on with [`S3ContentStore::get_after_alias`].
    FetchAlias { alias_id: String, key: String },
    /// Ask for the object, and go on with [`S3ContentStore::get_after_blob`].
    FetchBlob { hash: String, key: String },
    /// Read the body of the object, and go on with [`S3ContentStore::get_after_body`].
    ReadBody(PendingContent),
    /// Delete these objects, one after the other, and go on with
    /// [`S3ContentStore::get_after_discard`].
    Discard { keys: Vec<String> },
    /// Nothing more.
    Done(Result<Option<ResourceContent>, ContentStoreError>),
}

/// The text and numbers of a [`PendingContent`].
#[verifier::ext_equal]
pub struct PendingContentView {
    pub hash: Seq<char>,
    pub mime_type: Seq<char>,
    pub session_id: Option<Seq<char>>,
    pub tenant_id: Option<Seq<char>>,
    pub stored_at: Timestamp,
    pub expires_at: Option<Timestamp>,
}

/// The text, bytes and numbers of a [`GetStep`].
#[verifier::ext_equal]
pub enum GetStepView {
    FetchAlias { alias_id: Seq<char>, key: Seq<char> },
    FetchBlob { hash: Seq<char>, key: Seq<char> },
    ReadBody(PendingContentView),
    Discard { keys: Seq<Seq<char>> },
    Done(Result<Option<ResourceView>, ErrorView>),
}

impl DeepView for PendingContent {
    type V = PendingContentView;

    open spec fn deep_view(&self) -> PendingContentView {
        PendingContentView {
            hash: self.hash@,
            mime_type: self.mime_type@,
            session_id: self.session_id.deep_view(),
            tenant_id: self.tenant_id.deep_view(),
            stored_at: self.stored_at,
            expires_at: self.expires_at,
        }
    }
}

impl DeepView for GetStep {
    type V = GetStepView;

    open spec fn deep_view(&self) -> GetStepView {
        match self {
            GetStep::FetchAlias { alias_id, key } => GetStepView::FetchAlias {
                alias_id: alias_id@,
                key: key@,
            },
            GetStep::FetchBlob { hash, key } => GetStepView::FetchBlob { hash: hash@, key: key@ },
            GetStep::ReadBody(pending) => GetStepView::ReadBody(pending.deep_view()),
            GetStep::Discard { keys } => GetStepView::Discard { keys: keys.deep_view() },
            GetStep::Done(result) => GetStepView::Done(crate::content::outcome(*result)),
        }
    }
}

/// The request for the object that holds the content with this hash.
pub open spec fn fetch_blob(store: StoreView, hash: Seq<char>) -> GetStepView {
    GetStepView::FetchBlob { hash, key: crate::keys::blob_key(store.prefix, hash) }
}

/// What is due first for an id: the record of an alias, the object of content, and nothing for an
/// id that stands for neither.
pub open spec fn get_start(store: StoreView, id: Seq<char>) -> GetStepView {
    match crate::keys::resolve(id) {
        Some(KeyKindView::Blob { hash }) => fetch_blob(store, hash),
        Some(KeyKindView::Alias { alias_id }) => GetStepView::FetchAlias {
            alias_id,
            key: crate::keys::alias_key(store.prefix, alias_id),
        },
        None => GetStepView::Done(Ok(None)),
    }
}

/// What is due at `now` after the answer to the request for an alias record: an expired alias is
/// deleted together with what it names, and through any other the way leads to its content.
pub open spec fn get_after_alias(
    store: StoreView,
    alias_id: Seq<char>,
    reply: AliasReplyView,
    now: Timestamp,
) -> GetStepView {
    match crate::store::alias_outcome(alias_id, reply) {
        Err(e) => GetStepView::Done(Err(e)),
        Ok(None) => GetStepView::Done(Ok(None)),
        Ok(Some(record)) => if crate::time::is_expired(record.expires_at, now) {
            GetStepView::Discard {
                keys: seq![
                    crate::keys::alias_key(store.prefix, alias_id),
                    crate::keys::blob_key(store.prefix, record.target_hash),
                ],
            }
        } else {
            fetch_blob(store, record.target_hash)
        },
    }
}

/// The mime type of an object: by its metadata, else by its content type, else that of any bytes.
pub open spec fn mime_type_of(
    content_type: Option<Seq<char>>,
    metadata: Seq<(Seq<char>, Seq<char>)>,
) -> Seq<char> {
    match crate::metadata::lookup(metadata, crate::metadata::META_MIME@) {
        Some(mime) => mime,
        None => match content_type {
            Some(mime) => mime,
            None => crate::metadata::FALLBACK_MIME@,
        },
    }
}

/// What an object tells of its content. One that does not tell when it was stored counts as stored
/// at `now`.
pub open spec fn description(
    hash: Seq<char>,
    content_type: Option<Seq<char>>,
    metadata: Seq<(Seq<char>, Seq<char>)>,
    now: Timestamp,
) -> PendingContentView {
    PendingContentView {
        hash,
        mime_type: mime_type_of(content_type, metadata),
        session_id: crate::metadata::lookup(metadata, crate::metadata::META_SESSION@),
        tenant_id: crate::metadata::lookup(metadata, crate::metadata::META_TENANT@),
        stored_at: match crate::metadata::lookup_instant(
            metadata,
            crate::metadata::META_STORED_AT@,
        ) {
            Some(t) => t,
            None => now,
        },
        expires_at: crate::metadata::lookup_instant(metadata, crate::metadata::META_EXPIRES_AT@),
    }
}

/// What is due at `now` after the answer to the request for an object: expired content is deleted,
/// and of any other the body is read.
pub open spec fn get_after_blob(
    store: StoreView,
    hash: Seq<char>,
    reply: BlobReplyView,
    now: Timestamp,
) -> GetStepView {
    match reply {
        BlobReplyView::Missing => GetStepView::Done(Ok(None)),
        BlobReplyView::Failed(why) => GetStepView::Done(
            Err(crate::content::request_failure("GetObject "@, hash, why)),
        ),
        BlobReplyView::Found { content_type, metadata } => {
            let pending = description(hash, content_type, metadata, now);
            if crate::time::is_expired(pending.expires_at, now) {
                GetStepView::Discard { keys: seq![crate::keys::blob_key(store.prefix, hash)] }
            } else {
                GetStepView::ReadBody(pending)
            }
        },
    }
}

/// What comes of reading content back after its body was read.
pub open spec fn get_after_body(
    pending: PendingContentView,
    reply: Result<Seq<u8>, Seq<char>>,
) -> Result<Option<ResourceView>, ErrorView> {
    match reply {
        Ok(bytes) => Ok(
            Some(
                ResourceView {
                    bytes,
                    mime_type: pending.mime_type,
                    session_id: pending.session_id,
                    tenant_id: pending.tenant_id,
                    stored_at: pending.stored_at,
                    expires_at: pending.expires_at,
                },
            ),
        ),
        Err(why) => Err(crate::content::request_failure("read blob body "@, pending.hash, why)),
    }
}

/// Whether `step` is what is due after the answer to the request for an alias record, as of an
/// instant that, where the record expires, the clock gave.
pub open spec fn follows_alias_now(
    store: StoreView,
    alias_id: Seq<char>,
    reply: AliasReplyView,
    step: GetStepView,
) -> bool {
    exists|now: Timestamp|
        {
            &&& #[trigger] now.is_clock_reading()
            &&& reply matches AliasReplyView::Found(record) ==> record.expires_at is Some
                ==> now.was_read_from_the_clock()
            &&& step == get_after_alias(store, alias_id, reply, now)
        }
}

/// Whether `step` is what is due after the answer to the request for an object, as of an instant
/// that, where the object expires or does not tell when it was stored, the clock gave.
pub open spec fn follows_blob_now(
    store: StoreView,
    hash: Seq<char>,
    reply: BlobReplyView,
    step: GetStepView,
) -> bool {
    exists|now: Timestamp|
        {
            &&& #[trigger] now.is_clock_reading()
            &&& reply matches BlobReplyView::Found { metadata, .. } ==> (
            crate::metadata::lookup_instant(metadata, crate::metadata::META_EXPIRES_AT@) is Some
                || crate::metadata::lookup_instant(
                metadata,
                crate::metadata::META_STORED_AT@,
            ) is None) ==> now.was_read_from_the_clock()
            &&& step == get_after_blob(store, hash, reply, now)
        }
}

/// The bytes that were read, or why they were not.
pub open spec fn body_outcome(reply: Result<Vec<u8>, String>) -> Result<Seq<u8>, Seq<char>> {
    match reply {
        Ok(bytes) => Ok(bytes@),
        Err(why) => Err(why@),
    }
}

/// Whether something with the given expiry is expired at `now`.
pub(crate) fn expired(expires_at: Option<Timestamp>, now: Timestamp) -> (r: bool)
    ensures
        r == crate::time::is_expired(expires_at, now),
{
    match expires_at {
        Some(t) => t.has_passed(now),
        None => false,
    }
}

/// The mime type of an object.
fn find_mime_type(content_type: Option<String>, metadata: &Vec<(String, String)>) -> (r: String)
    ensures
        r@ == mime_type_of(content_type.deep_view(), metadata.deep_view()),
{
    match crate::metadata::find(metadata, crate::metadata::META_MIME) {
        Some(mime) => mime,
        None => match content_type {
            Some(mime) => mime,
            None => crate::metadata::FALLBACK_MIME.to_owned(),
        },
    }
}

impl S3ContentStore {
    /// Begins to read content back by its id.
    pub fn get(&self, id: &str) -> (r: GetStep)
        ensures
            r.deep_view() == get_start(self@, id@),
    {
        match self.resolve_to_hash_blob_key(id) {
            Some(KeyKind::Blob { hash }) => {
                let key = self.blob_key(hash.as_str());
                GetStep::FetchBlob { hash, key }
            },
            Some(KeyKind::Alias { alias_id }) => {
                let key = self.alias_key(alias_id.as_str());
                GetStep::FetchAlias { alias_id, key }
            },
            None => GetStep::Done(Ok(None)),
        }
    }

    /// Goes on now, after the answer to the request for an alias record. Only a record that expires
    /// has the clock read.
    pub fn get_after_alias(&self, alias_id: &str, reply: AliasReply) -> (r: GetStep)
        ensures
            follows_alias_now(self@, alias_id@, reply.deep_view(), r.deep_view()),
    {
        let expires: bool = match &reply {
            AliasReply::Found(record) => record.expires_at.is_some(),
            _ => false,
        };
        let now = crate::time::now_if(expires);
        self.get_after_alias_at(alias_id, reply, now)
    }

    /// Goes on at `now`, after the answer to the request for an alias record.
    pub fn get_after_alias_at(&self, alias_id: &str, reply: AliasReply, now: Timestamp) -> (r:
        GetStep)
        ensures
            r.deep_view() == get_after_alias(self@, alias_id@, reply.deep_view(), now),
    {
        match self.read_alias(alias_id, reply) {
            Err(e) => GetStep::Done(Err(e)),
            Ok(None) => GetStep::Done(Ok(None)),
            Ok(Some(record)) => {
                let key = self.blob_key(record.target_hash.as_str());
                if expired(record.expires_at, now) {
                    let mut keys: Vec<String> = Vec::new();
                    keys.push(self.alias_key(alias_id));
                    keys.push(key);
                    assert(keys.deep_view() =~= seq![
                        crate::keys::alias_key(self@.prefix, alias_id@),
                        crate::keys::blob_key(self@.prefix, record.target_hash@),
                    ]);
                    GetStep::Discard { keys }
                } else {
                    GetStep::FetchBlob { hash: record.target_hash, key }
                }
            },
        }
    }

    /// Goes on now, after the answer to the request for an object. The clock is read only for an
    /// object that expires or does not tell when it was stored.
    pub fn get_after_blob(&self, hash: &str, reply: BlobReply) -> (r: GetStep)
        ensures
            follows_blob_now(self@, hash@, reply.deep_view(), r.deep_view()),
    {
        let clock_matters: bool = match &reply {
            BlobReply::Found { metadata, .. } => {
                crate::metadata::find_instant(metadata, crate::metadata::META_EXPIRES_AT).is_some()
                    || crate::metadata::find_instant(
                    metadata,
                    crate::metadata::META_STORED_AT,
                ).is_none()
            },
            _ => false,
        };
        let now = crate::time::now_if(clock_matters);
        self.get_after_blob_at(hash, reply, now)
    }

    /// Goes on at `now`, after the answer to the request for an object.
    pub fn get_after_blob_at(&self, hash: &str, reply: BlobReply, now: Timestamp) -> (r: GetStep)
        ensures
            r.deep_view() == get_after_blob(self@, hash@, reply.deep_view(), now),
    {
        match reply {
            BlobReply::Missing => GetStep::Done(Ok(None)),
            BlobReply::Failed(why) => GetStep::Done(
                Err(request_error("GetObject ", hash, why.as_str())),
            ),
            BlobReply::Found { content_type, metadata } => {
                let expires_at = crate::metadata::find_instant(
                    &metadata,
                    crate::metadata::META_EXPIRES_AT,
                );
                if expired(expires_at, now) {
                    let mut keys: Vec<String> = Vec::new();
                    keys.push(self.blob_key(hash));
                    assert(keys.deep_view() =~= seq![
                        crate::keys::blob_key(self@.prefix, hash@),
                    ]);
                    return GetStep::Discard { keys };
                }
                let stored_at = match crate::metadata::find_instant(
                    &metadata,
                    crate::metadata::META_STORED_AT,
                ) {
                    Some(t) => t,
                    None => now,
                };
                GetStep::ReadBody(
                    PendingContent {
                        hash: hash.to_owned(),
                        mime_type: find_mime_type(content_type, &metadata),
                        session_id: crate::metadata::find(
                            &metadata,
                            crate::metadata::META_SESSION,
                        ),
                        tenant_id: crate::metadata::find(&metadata, crate::metadata::META_TENANT),
                        stored_at,
                        expires_at,
                    },
                )
            },
        }
    }

    /// Ends after the body of an object was read or that failed.
    pub fn get_after_body(&self, pending: PendingContent, reply: Result<Vec<u8>, String>) -> (r:
        Result<Option<ResourceContent>, ContentStoreError>)
        ensures
            crate::content::outcome(r) == get_after_body(pending.deep_view(), body_outcome(reply)),
            reply matches Ok(bytes) ==> r matches Ok(Some(content)) && content.bytes == bytes,
    {
        match reply {
            Ok(bytes) => Ok(
                Some(
                    ResourceContent {
                        bytes,
                        mime_type: pending.mime_type,
                        session_id: pending.session_id,
                        tenant_id: pending.tenant_id,
                        stored_at: pending.stored_at,
                        expires_at: pending.expires_at,
                    },
                ),
            ),
            Err(why) => Err(
                request_error("read blob body ", pending.hash.as_str(), why.as_str()),
            ),
        }
    }

    /// Ends after expired objects were deleted: there is nothing, whatever the answers were.
    pub fn get_after_discard(&self, replies: Vec<Result<(), String>>) -> (r: Result<
        Option<ResourceContent>,
        ContentStoreError,
    >)
        ensures
            r == Ok::<Option<ResourceContent>, ContentStoreError>(None),
    {
        Ok(None)
    }
}

} // verus!
