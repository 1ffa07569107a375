//! A bucket as the store sees it, and what holds of the operations of the store on one: what a read
//! gives back of a write, what a deletion leaves behind, and what stays as it was.
use crate::content::AliasView;
use crate::content::ContentView;
use crate::content::ErrorView;
use crate::content::HandleView;
use crate::content::ResourceView;
use crate::delete::DeleteStepView;
use crate::get::GetStepView;
use crate::keys::KeyKindView;
use crate::put::PutStepView;
use crate::requests::AliasReplyView;
use crate::requests::BlobReplyView;
use crate::requests::HeadReplyView;
use crate::requests::PutObjectView;
use crate::sign::SignStepView;
use crate::store::StoreView;
use crate::time::Timestamp;
use crate::time::Ttl;
use vstd::prelude::*;

verus! {

/// What a bucket holds: objects with content and alias records, each by its key.
#[verifier::ext_equal]
pub struct BucketView {
    pub blobs: Map<Seq<char>, PutObjectView>,
    pub aliases: Map<Seq<char>, AliasView>,
}

impl BucketView {
    /// The object with the content of this hash, if there is one.
    pub open spec fn blob(self, store: StoreView, hash: Seq<char>) -> Option<PutObjectView> {
        let key = crate::keys::blob_key(store.prefix, hash);
        if self.blobs.contains_key(key) {
            Some(self.blobs[key])
        } else {
            None
        }
    }

    /// The record of this alias, if there is one.
    pub open spec fn record(self, store: StoreView, alias_id: Seq<char>) -> Option<AliasView> {
        let key = crate::keys::alias_key(store.prefix, alias_id);
        if self.aliases.contains_key(key) {
            Some(self.aliases[key])
        } else {
            None
        }
    }

    /// The answer to a request for an object.
    pub open spec fn blob_reply(self, key: Seq<char>) -> BlobReplyView {
        if self.blobs.contains_key(key) {
            BlobReplyView::Found {
                content_type: Some(self.blobs[key].content_type),
                metadata: self.blobs[key].metadata,
            }
        } else {
            BlobReplyView::Missing
        }
    }

    /// The answer to a request for the head of an object.
    pub open spec fn head_reply(self, key: Seq<char>) -> HeadReplyView {
        if self.blobs.contains_key(key) {
            HeadReplyView::Found { metadata: self.blobs[key].metadata }
        } else {
            HeadReplyView::Missing
        }
    }

    /// The answer to a request for an alias record.
    pub open spec fn alias_reply(self, key: Seq<char>) -> AliasReplyView {
        if self.aliases.contains_key(key) {
            AliasReplyView::Found(self.aliases[key])
        } else {
            AliasReplyView::Missing
        }
    }

    /// The bucket without the object or alias record under this key.
    pub open spec fn without(self, key: Seq<char>) -> BucketView {
        BucketView { blobs: self.blobs.remove(key), aliases: self.aliases.remove(key) }
    }

    /// The bucket without the objects and alias records under these keys.
    pub open spec fn without_all(self, keys: Seq<Seq<char>>) -> BucketView
        decreases keys.len(),
    {
        if keys.len() == 0 {
            self
        } else {
            self.without(keys[0]).without_all(keys.drop_first())
        }
    }

    /// The bucket without what lies under the keys of content with these hashes.
    pub open spec fn without_blobs(self, store: StoreView, hashes: Set<Seq<char>>) -> BucketView {
        let dir = crate::keys::blobs_prefix(store.prefix);
        let gone = Set::new(
            |key: Seq<char>|
                crate::text::strip(key, dir) matches Some(hash) && hashes.contains(hash),
        );
        BucketView {
            blobs: self.blobs.remove_keys(gone),
            aliases: self.aliases.remove_keys(gone),
        }
    }

    /// Whether there is content with this hash, and it is expired at `now`.
    pub open spec fn has_expired(self, store: StoreView, hash: Seq<char>, now: Timestamp) -> bool {
        self.blob(store, hash) matches Some(object) && crate::time::is_expired(
            crate::metadata::lookup_instant(object.metadata, crate::metadata::META_EXPIRES_AT@),
            now,
        )
    }

    /// What comes of a read at `now` from a step on, and what it leaves of the bucket. So many
    /// further requests are made.
    pub open spec fn read_from(
        self,
        store: StoreView,
        step: GetStepView,
        now: Timestamp,
        requests: nat,
    ) -> (Result<Option<ResourceView>, ErrorView>, BucketView)
        decreases requests,
    {
        let rest = (requests - 1) as nat;
        match step {
            GetStepView::Done(result) => (result, self),
            GetStepView::Discard { keys } => (Ok(None), self.without_all(keys)),
            GetStepView::ReadBody(pending) => {
                let key = crate::keys::blob_key(store.prefix, pending.hash);
                (crate::get::get_after_body(pending, Ok(self.blobs[key].body)), self)
            },
            GetStepView::FetchBlob { hash, key } => if requests == 0 {
                arbitrary()
            } else {
                self.read_from(
                    store,
                    crate::get::get_after_blob(store, hash, self.blob_reply(key), now),
                    now,
                    rest,
                )
            },
            GetStepView::FetchAlias { alias_id, key } => if requests == 0 {
                arbitrary()
            } else {
                self.read_from(
                    store,
                    crate::get::get_after_alias(store, alias_id, self.alias_reply(key), now),
                    now,
                    rest,
                )
            },
        }
    }

    /// What a read by id gives at `now`.
    pub open spec fn read(self, store: StoreView, id: Seq<char>, now: Timestamp) -> Result<
        Option<ResourceView>,
        ErrorView,
    > {
        self.read_from(store, crate::get::get_start(store, id), now, 2).0
    }

    /// The bucket after a read by id at `now`.
    pub open spec fn after_read(self, store: StoreView, id: Seq<char>, now: Timestamp) -> BucketView {
        self.read_from(store, crate::get::get_start(store, id), now, 2).1
    }

    /// The bucket after the requests of a put from a step on, all of which succeed, and what comes
    /// of it.
    pub open spec fn put_from(self, store: StoreView, step: PutStepView) -> (
        Result<HandleView, ErrorView>,
        BucketView,
    ) {
        match step {
            PutStepView::WriteBlob { object, pending } => {
                let written = BucketView { blobs: self.blobs.insert(object.key, object), ..self };
                match crate::put::put_after_blob(store, pending, Ok(())) {
                    PutStepView::WriteAlias { record, pending_alias } => (
                        crate::put::put_after_alias(pending_alias, Ok(())),
                        BucketView {
                            aliases: written.aliases.insert(record.key, record.record),
                            ..written
                        },
                    ),
                    PutStepView::Done(result) => (result, written),
                    _ => arbitrary(),
                }
            },
            PutStepView::Done(result) => (result, self),
            _ => arbitrary(),
        }
    }

    /// The bucket after the requests of a deletion by id, all of which succeed, and what comes of
    /// it.
    pub open spec fn delete(self, store: StoreView, id: Seq<char>) -> (
        Result<(), ErrorView>,
        BucketView,
    ) {
        match crate::delete::delete_start(store, id) {
            DeleteStepView::DeleteBlob { hash, key } => (
                crate::store::delete_blob_outcome(hash, Ok(())),
                self.without(key),
            ),
            DeleteStepView::FetchAlias { alias_id, key } => {
                let step = crate::delete::delete_after_alias(
                    store,
                    alias_id,
                    self.alias_reply(key),
                );
                let cleared = match step {
                    DeleteStepView::DeleteTarget { key, .. } => self.without(key),
                    _ => self,
                };
                match (step, crate::delete::delete_record(store, alias_id)) {
                    (DeleteStepView::Done(result), _) => (result, self),
                    (_, DeleteStepView::DeleteAlias { key, .. }) => (
                        crate::store::delete_alias_outcome(alias_id, Ok(())),
                        cleared.without(key),
                    ),
                    _ => arbitrary(),
                }
            },
            DeleteStepView::Done(result) => (result, self),
            _ => arbitrary(),
        }
    }

    /// What is due for a link by id after the last request that asks whether the content is there.
    pub open spec fn sign(self, store: StoreView, id: Seq<char>, ttl: Ttl) -> SignStepView {
        let step = match crate::sign::sign_start(store, id, ttl) {
            SignStepView::FetchAlias { alias_id, key } => crate::sign::sign_after_alias(
                store,
                alias_id,
                self.alias_reply(key),
            ),
            other => other,
        };
        match step {
            SignStepView::HeadBlob { hash, key } => crate::sign::sign_after_head(
                store,
                hash,
                ttl,
                self.head_reply(key),
            ),
            other => other,
        }
    }

    /// The hash of the content that an id leads to, through an alias record if it is one.
    pub open spec fn target(self, store: StoreView, id: Seq<char>) -> Option<Seq<char>> {
        match crate::keys::resolve(id) {
            Some(KeyKindView::Blob { hash }) => Some(hash),
            Some(KeyKindView::Alias { alias_id }) => match self.record(store, alias_id) {
                Some(record) => Some(record.target_hash),
                None => None,
            },
            None => None,
        }
    }
}

/// The id that content is put under: that of its alias if it has one, and else that of its hash.
pub open spec fn id_of(content: ContentView) -> Seq<char> {
    match content.alias {
        Some(alias) => crate::keys::alias_id(content.session_id, alias),
        None => crate::keys::hash_id(crate::put::content_hash(content.bytes)),
    }
}

/// What is to be read of content that was put at `stored_at`.
pub open spec fn resource_of(content: ContentView, stored_at: Timestamp) -> ResourceView {
    ResourceView {
        bytes: content.bytes,
        mime_type: content.mime_type,
        session_id: content.session_id,
        tenant_id: content.tenant_id,
        stored_at,
        expires_at: crate::time::expiry(stored_at, content.ttl),
    }
}

/// What is read at `now` of content that was put at `stored_at`: all of it, but for an instant whose
/// year has not four digits. An expiry like that is none, and content that does not tell when it was
/// stored counts as stored at `now`.
pub open spec fn resource_read(
    content: ContentView,
    stored_at: Timestamp,
    now: Timestamp,
) -> ResourceView {
    ResourceView {
        stored_at: match stored_at.as_read() {
            Some(t) => t,
            None => now,
        },
        expires_at: expiry_read(content, stored_at),
        ..resource_of(content, stored_at)
    }
}

/// When content that was put at `stored_at` expires, as far as its object tells.
pub open spec fn expiry_read(content: ContentView, stored_at: Timestamp) -> Option<Timestamp> {
    match crate::time::expiry(stored_at, content.ttl) {
        Some(t) => t.as_read(),
        None => None,
    }
}

/// Whether the instants of content put at `stored_at` have years of four digits, without which
/// their text cannot be read.
pub open spec fn has_four_digit_years(content: ContentView, stored_at: Timestamp) -> bool {
    &&& stored_at.has_four_digit_year()
    &&& crate::time::expiry(stored_at, content.ttl) matches Some(t) ==> t.has_four_digit_year()
}

/// A bucket without the content of some hashes still holds the content of all others and every alias
/// record, just as they were.
pub proof fn law_without_blobs(
    bucket: BucketView,
    store: StoreView,
    hashes: Set<Seq<char>>,
    hash: Seq<char>,
    alias_id: Seq<char>,
)
    ensures
        bucket.without_blobs(store, hashes).blob(store, hash) == (if hashes.contains(hash) {
            None
        } else {
            bucket.blob(store, hash)
        }),
        bucket.without_blobs(store, hashes).record(store, alias_id) == bucket.record(
            store,
            alias_id,
        ),
{
    let dir = crate::keys::blobs_prefix(store.prefix);
    let key = crate::keys::alias_key(store.prefix, alias_id);
    crate::keys::law_blob_key_gives_hash_back(store.prefix, hash);
    if crate::text::strip(key, dir) is Some {
        let name = crate::text::strip(key, dir)->Some_0;
        crate::keys::law_blobs_and_aliases_are_apart(store.prefix, name, alias_id);
        assert(key =~= dir + name);
    }
}

/// Content that is not too large is put under its id, and its handle tells that id, its size, its
/// mime type, its expiry and its hash.
pub proof fn law_put_gives_a_handle(
    bucket: BucketView,
    store: StoreView,
    content: ContentView,
    stored_at: Timestamp,
)
    requires
        !crate::put::is_too_large(store, content.bytes),
    ensures
        bucket.put_from(store, crate::put::put_start(store, content, stored_at)).0 == Ok::<
            HandleView,
            ErrorView,
        >(
            HandleView {
                id: id_of(content),
                uri: "mcpg-resource://"@ + id_of(content),
                size_bytes: content.bytes.len(),
                mime_type: content.mime_type,
                expires_at: crate::time::expiry(stored_at, content.ttl),
                content_hash: "blake3:"@ + crate::put::content_hash(content.bytes),
            },
        ),
{
}

/// Content that is too large leaves the bucket as it is. Without a bound nothing is too large, and
/// content of just the size of the bound is not.
pub proof fn law_too_large_content_is_refused(
    bucket: BucketView,
    store: StoreView,
    content: ContentView,
    stored_at: Timestamp,
)
    ensures
        crate::put::is_too_large(store, content.bytes) ==> bucket.put_from(
            store,
            crate::put::put_start(store, content, stored_at),
        ) == (
            Err::<HandleView, ErrorView>(
                ErrorView::SizeLimit {
                    limit_bytes: store.max_bytes as nat,
                    actual_bytes: content.bytes.len(),
                },
            ),
            bucket,
        ),
        store.max_bytes == 0 ==> !crate::put::is_too_large(store, content.bytes),
        content.bytes.len() <= store.max_bytes ==> !crate::put::is_too_large(store, content.bytes),
{
}

/// What is told of content by the metadata that was written with it, at a time before it expires
/// and after.
proof fn lemma_blob_is_read_back(
    store: StoreView,
    content: ContentView,
    stored_at: Timestamp,
    content_type: Option<Seq<char>>,
    metadata: Seq<(Seq<char>, Seq<char>)>,
    now: Timestamp,
)
    requires
        crate::put::readings_are_known(content, stored_at),
        crate::metadata::tells_the_same(
            metadata,
            crate::put::object_for(store, content, stored_at).metadata,
        ),
    ensures
        ({
            let hash = crate::put::content_hash(content.bytes);
            let step = crate::get::get_after_blob(
                store,
                hash,
                BlobReplyView::Found { content_type, metadata },
                now,
            );
            if crate::time::is_expired(expiry_read(content, stored_at), now) {
                step == (GetStepView::Discard {
                    keys: seq![crate::keys::blob_key(store.prefix, hash)],
                })
            } else {
                step matches GetStepView::ReadBody(pending) && pending.hash == hash
                    && crate::get::get_after_body(pending, Ok(content.bytes)) == Ok::<
                    Option<ResourceView>,
                    ErrorView,
                >(Some(resource_read(content, stored_at, now)))
            }
        }),
{
    let written = crate::put::object_for(store, content, stored_at).metadata;
    crate::metadata::law_metadata_is_found_again(crate::put::tags_for(content, stored_at));
    assert(crate::metadata::lookup(metadata, crate::metadata::META_MIME@)
        == crate::metadata::lookup(written, crate::metadata::META_MIME@));
    assert(crate::metadata::lookup(metadata, crate::metadata::META_SESSION@)
        == crate::metadata::lookup(written, crate::metadata::META_SESSION@));
    assert(crate::metadata::lookup(metadata, crate::metadata::META_TENANT@)
        == crate::metadata::lookup(written, crate::metadata::META_TENANT@));
    assert(crate::metadata::lookup(metadata, crate::metadata::META_STORED_AT@)
        == crate::metadata::lookup(written, crate::metadata::META_STORED_AT@));
    assert(crate::metadata::lookup(metadata, crate::metadata::META_EXPIRES_AT@)
        == crate::metadata::lookup(written, crate::metadata::META_EXPIRES_AT@));
}

/// The answer to a request for the object of content need not keep the order of its metadata: what
/// is read is the content as it was stored, as far as its object tells, until it expires, and then
/// it is deleted.
pub proof fn law_object_is_read_back(
    store: StoreView,
    content: ContentView,
    stored_at: Timestamp,
    step: PutStepView,
    content_type: Option<Seq<char>>,
    metadata: Seq<(Seq<char>, Seq<char>)>,
    now: Timestamp,
)
    requires
        crate::put::put_starts_with(store, content, stored_at, step),
        step matches PutStepView::WriteBlob { object, .. } && crate::metadata::tells_the_same(
            metadata,
            object.metadata,
        ),
    ensures
        step matches PutStepView::WriteBlob { object, pending } && {
            let next = crate::get::get_after_blob(
                store,
                pending.hash,
                BlobReplyView::Found { content_type, metadata },
                now,
            );
            if crate::time::is_expired(expiry_read(content, stored_at), now) {
                next == (GetStepView::Discard { keys: seq![object.key] })
            } else {
                next matches GetStepView::ReadBody(told) && crate::get::get_after_body(
                    told,
                    Ok(object.body),
                ) == Ok::<Option<ResourceView>, ErrorView>(
                    Some(resource_read(content, stored_at, now)),
                )
            }
        },
{
    lemma_blob_is_read_back(store, content, stored_at, content_type, metadata, now);
}

/// Whatever the years of its instants, what was put is read back under the id that its handle tells,
/// and under the id made from its hash even where it has an alias: the same bytes, mime type,
/// session and tenant, with those of its instants whose years have four digits. There is nothing
/// from the instant on at which it expires, as an alias record tells it, or else the object itself.
pub proof fn law_content_of_any_year_is_read_back(
    bucket: BucketView,
    store: StoreView,
    content: ContentView,
    stored_at: Timestamp,
    step: PutStepView,
    now: Timestamp,
)
    requires
        crate::put::put_starts_with(store, content, stored_at, step),
        !crate::put::is_too_large(store, content.bytes),
    ensures
        ({
            let (result, full) = bucket.put_from(store, step);
            let told = resource_read(content, stored_at, now);
            let record_expiry = match content.alias {
                Some(_) => crate::time::expiry(stored_at, content.ttl),
                None => expiry_read(content, stored_at),
            };
            let hash_id = crate::keys::hash_id(crate::put::content_hash(content.bytes));
            &&& told.bytes == content.bytes
            &&& told.mime_type == content.mime_type
            &&& told.session_id == content.session_id
            &&& told.tenant_id == content.tenant_id
            &&& result matches Ok(handle) && full.read(store, handle.id, now) == Ok::<
                Option<ResourceView>,
                ErrorView,
            >(
                if crate::time::is_expired(record_expiry, now) {
                    None
                } else {
                    Some(told)
                },
            )
            &&& full.read(store, hash_id, now) == Ok::<Option<ResourceView>, ErrorView>(
                if crate::time::is_expired(expiry_read(content, stored_at), now) {
                    None
                } else {
                    Some(told)
                },
            )
        }),
{
    let hash = crate::put::content_hash(content.bytes);
    let object = crate::put::object_for(store, content, stored_at);
    let full = bucket.put_from(store, step).1;
    law_put_gives_a_handle(bucket, store, content, stored_at);
    lemma_blob_is_read_back(
        store,
        content,
        stored_at,
        Some(object.content_type),
        object.metadata,
        now,
    );
    assert(full.blobs[object.key] == object);
    match content.alias {
        Some(alias) => {
            let id = crate::keys::alias_id(content.session_id, alias);
            crate::keys::law_alias_id_resolves(content.session_id, alias);
            assert(full.aliases[crate::keys::alias_key(store.prefix, id)].target_hash == hash);
        },
        None => {},
    }
    crate::keys::law_hash_id_resolves(hash);
    reveal_with_fuel(BucketView::read_from, 3);
}

/// Where the years of its instants have four digits, what was put is read back under the id that its
/// handle tells, and under the id made from its hash even where it has an alias: the same bytes,
/// mime type, session and tenant, with the instants at which it was stored and expires. From the
/// instant at which it expires on, there is nothing.
pub proof fn law_read_gives_back_what_was_put(
    bucket: BucketView,
    store: StoreView,
    content: ContentView,
    stored_at: Timestamp,
    step: PutStepView,
    now: Timestamp,
)
    requires
        crate::put::put_starts_with(store, content, stored_at, step),
        !crate::put::is_too_large(store, content.bytes),
        has_four_digit_years(content, stored_at),
    ensures
        ({
            let (result, full) = bucket.put_from(store, step);
            let told = if crate::time::is_expired(
                crate::time::expiry(stored_at, content.ttl),
                now,
            ) {
                None
            } else {
                Some(resource_of(content, stored_at))
            };
            let hash_id = crate::keys::hash_id(crate::put::content_hash(content.bytes));
            &&& result matches Ok(handle) && full.read(store, handle.id, now) == Ok::<
                Option<ResourceView>,
                ErrorView,
            >(told)
            &&& full.read(store, hash_id, now) == Ok::<Option<ResourceView>, ErrorView>(told)
        }),
{
    law_content_of_any_year_is_read_back(bucket, store, content, stored_at, step, now);
}

/// The hash of content that was put, without anything before it, is as good an id as the one made
/// from it.
pub proof fn law_hash_alone_is_an_id(
    store: StoreView,
    content: ContentView,
    stored_at: Timestamp,
    step: PutStepView,
)
    requires
        crate::put::put_starts_with(store, content, stored_at, step),
        !crate::put::is_too_large(store, content.bytes),
    ensures
        ({
            let hash = crate::put::content_hash(content.bytes);
            &&& crate::keys::resolve(hash) == Some(KeyKindView::Blob { hash })
            &&& crate::keys::resolve(hash) == crate::keys::resolve(crate::keys::hash_id(hash))
        }),
{
    let hash = crate::put::content_hash(content.bytes);
    crate::encoding::lemma_hex_lower_digits(crate::encoding::blake3_digest(content.bytes));
    crate::keys::law_bare_hash_resolves(hash);
    crate::keys::law_hash_id_resolves(hash);
}

/// Nothing that has expired is ever read: what a read gives expires later than now, if at all, and
/// so does the alias record that led to it.
pub proof fn law_nothing_expired_is_read(
    bucket: BucketView,
    store: StoreView,
    id: Seq<char>,
    now: Timestamp,
)
    ensures
        bucket.read(store, id, now) matches Ok(Some(resource)) ==> {
            &&& !crate::time::is_expired(resource.expires_at, now)
            &&& crate::keys::resolve(id) matches Some(KeyKindView::Alias { alias_id })
                ==> bucket.record(store, alias_id) matches Some(record) && !crate::time::is_expired(
                record.expires_at,
                now,
            )
        },
{
    reveal_with_fuel(BucketView::read_from, 3);
}

/// A read leaves the bucket as it is, unless it comes upon something expired. Then the expired
/// content is gone, and with an expired alias both its record and what it names.
pub proof fn law_read_deletes_only_what_has_expired(
    bucket: BucketView,
    store: StoreView,
    id: Seq<char>,
    now: Timestamp,
)
    ensures
        ({
            let after = bucket.after_read(store, id, now);
            let record_key = crate::keys::alias_key(store.prefix, id);
            let alias_expired = crate::keys::resolve(id) is Some && crate::keys::resolve(id)->Some_0
                is Alias && bucket.aliases.contains_key(record_key) && crate::time::is_expired(
                bucket.aliases[record_key].expires_at,
                now,
            );
            match bucket.target(store, id) {
                None => after == bucket,
                Some(hash) => {
                    let key = crate::keys::blob_key(store.prefix, hash);
                    if alias_expired {
                        after == bucket.without(record_key).without(key)
                    } else if bucket.blobs.contains_key(key) && crate::time::is_expired(
                        crate::metadata::lookup_instant(
                            bucket.blobs[key].metadata,
                            crate::metadata::META_EXPIRES_AT@,
                        ),
                        now,
                    ) {
                        after == bucket.without(key)
                    } else {
                        after == bucket
                    }
                },
            }
        }),
{
    reveal_with_fuel(BucketView::read_from, 3);
    reveal_with_fuel(BucketView::without_all, 3);
    let alias_key = crate::keys::alias_key(store.prefix, id);
    match bucket.target(store, id) {
        None => {},
        Some(hash) => {
            let key = crate::keys::blob_key(store.prefix, hash);
            assert(seq![key].drop_first() =~= seq![]);
            assert(seq![alias_key, key].drop_first() =~= seq![key]);
        },
    }
}

/// A deletion succeeds for every id, and after it there is nothing to be read under that id.
pub proof fn law_deleted_content_is_gone(
    bucket: BucketView,
    store: StoreView,
    id: Seq<char>,
    now: Timestamp,
)
    ensures
        bucket.delete(store, id).0 == Ok::<(), ErrorView>(()),
        bucket.delete(store, id).1.read(store, id, now) == Ok::<Option<ResourceView>, ErrorView>(
            None,
        ),
{
    reveal_with_fuel(BucketView::read_from, 3);
}

/// A deletion by id deletes the content that the id leads to and the alias record if it is one.
/// Content with another hash and the records of other aliases stay as they were.
pub proof fn law_delete_deletes_nothing_else(
    bucket: BucketView,
    store: StoreView,
    id: Seq<char>,
    other_hash: Seq<char>,
    other_alias: Seq<char>,
)
    ensures
        bucket.target(store, id) matches Some(hash) ==> bucket.delete(store, id).1.blob(
            store,
            hash,
        ) is None,
        bucket.target(store, id) != Some(other_hash) ==> bucket.delete(store, id).1.blob(
            store,
            other_hash,
        ) == bucket.blob(store, other_hash),
        id != other_alias ==> bucket.delete(store, id).1.record(store, other_alias)
            == bucket.record(store, other_alias),
{
    if bucket.target(store, id) is Some {
        let hash = bucket.target(store, id)->Some_0;
        if crate::keys::blob_key(store.prefix, hash) == crate::keys::blob_key(
            store.prefix,
            other_hash,
        ) {
            crate::keys::law_blob_keys_are_distinct(store.prefix, hash, other_hash);
        }
        crate::keys::law_blobs_and_aliases_are_apart(store.prefix, hash, other_alias);
    }
    if crate::keys::alias_key(store.prefix, id) == crate::keys::alias_key(
        store.prefix,
        other_alias,
    ) {
        crate::keys::law_alias_keys_are_distinct(store.prefix, id, other_alias);
    }
    crate::keys::law_blobs_and_aliases_are_apart(store.prefix, other_hash, id);
}

/// A put leaves what is read under any other id as it was, as long as that id does not lead to the
/// same bytes.
pub proof fn law_put_keeps_other_content(
    bucket: BucketView,
    store: StoreView,
    content: ContentView,
    stored_at: Timestamp,
    id: Seq<char>,
    now: Timestamp,
)
    requires
        id != id_of(content),
        bucket.target(store, id) != Some(crate::put::content_hash(content.bytes)),
    ensures
        bucket.put_from(store, crate::put::put_start(store, content, stored_at)).1.read(
            store,
            id,
            now,
        ) == bucket.read(store, id, now),
{
    let hash = crate::put::content_hash(content.bytes);
    match bucket.target(store, id) {
        Some(h) => {
            if crate::keys::blob_key(store.prefix, h) == crate::keys::blob_key(
                store.prefix,
                hash,
            ) {
                crate::keys::law_blob_keys_are_distinct(store.prefix, h, hash);
            }
        },
        None => {},
    }
    if crate::keys::alias_key(store.prefix, id) == crate::keys::alias_key(
        store.prefix,
        id_of(content),
    ) {
        crate::keys::law_alias_keys_are_distinct(store.prefix, id, id_of(content));
    }
    reveal_with_fuel(BucketView::read_from, 3);
}

/// The same bytes are kept once, whatever else is said of them: a second put of them writes to the
/// same object.
pub proof fn law_same_bytes_are_kept_once(
    bucket: BucketView,
    store: StoreView,
    first: ContentView,
    first_at: Timestamp,
    second: ContentView,
    second_at: Timestamp,
)
    requires
        first.bytes == second.bytes,
    ensures
        ({
            let once = bucket.put_from(store, crate::put::put_start(store, first, first_at)).1;
            let twice = once.put_from(store, crate::put::put_start(store, second, second_at)).1;
            twice.blobs.dom() == once.blobs.dom()
        }),
{
    let once = bucket.put_from(store, crate::put::put_start(store, first, first_at)).1;
    let twice = once.put_from(store, crate::put::put_start(store, second, second_at)).1;
    assert(twice.blobs.dom() =~= once.blobs.dom());
}

/// Content is kept apart from other content as far as their digests differ.
pub proof fn law_different_digests_are_kept_apart(store: StoreView, a: Seq<u8>, b: Seq<u8>)
    requires
        crate::encoding::blake3_digest(a) != crate::encoding::blake3_digest(b),
    ensures
        crate::keys::blob_key(store.prefix, crate::put::content_hash(a)) != crate::keys::blob_key(
            store.prefix,
            crate::put::content_hash(b),
        ),
{
    let (x, y) = (crate::put::content_hash(a), crate::put::content_hash(b));
    if crate::keys::blob_key(store.prefix, x) == crate::keys::blob_key(store.prefix, y) {
        crate::keys::law_blob_keys_are_distinct(store.prefix, x, y);
        crate::encoding::lemma_hex_lower_injective(
            crate::encoding::blake3_digest(a),
            crate::encoding::blake3_digest(b),
        );
    }
}

/// A link is signed just where its lifetime is at most seven days and the id leads to content that
/// is there. It is signed for that content, on terms with the lifetime that was asked for, never a
/// shorter one. A longer lifetime is refused before any request is made, whatever the id.
pub proof fn law_links_are_signed_as_asked(
    bucket: BucketView,
    store: StoreView,
    id: Seq<char>,
    ttl: Ttl,
)
    ensures
        bucket.sign(store, id, ttl) == (if crate::sign::exceeds_ceiling(ttl) {
            SignStepView::Done(Err(crate::sign::ceiling_failure(ttl)))
        } else {
            match bucket.target(store, id) {
                Some(hash) if bucket.blob(store, hash) is Some => SignStepView::Presign {
                    hash,
                    key: crate::keys::blob_key(store.prefix, hash),
                    ttl,
                },
                _ => SignStepView::Done(Ok(None)),
            }
        }),
        crate::sign::exceeds_ceiling(ttl) ==> crate::sign::sign_start(store, id, ttl)
            == SignStepView::Done(Err(crate::sign::ceiling_failure(ttl))),
{
}

/// A sweep deletes just the content that a read would find expired at the same instant.
pub proof fn law_sweep_agrees_with_read(
    bucket: BucketView,
    store: StoreView,
    hash: Seq<char>,
    now: Timestamp,
)
    ensures
        ({
            let key = crate::keys::blob_key(store.prefix, hash);
            crate::sweep::head_tells_expired(hash, bucket.head_reply(key), now) <==> (
            crate::get::get_after_blob(store, hash, bucket.blob_reply(key), now) is Discard)
        }),
{
}

/// Every object and alias record that the store writes lies below its key prefix.
pub proof fn law_objects_lie_below_the_prefix(
    bucket: BucketView,
    store: StoreView,
    content: ContentView,
    stored_at: Timestamp,
    key: Seq<char>,
)
    ensures
        ({
            let after = bucket.put_from(
                store,
                crate::put::put_start(store, content, stored_at),
            ).1;
            (after.blobs.contains_key(key) && !bucket.blobs.contains_key(key)
                || after.aliases.contains_key(key) && !bucket.aliases.contains_key(key))
                ==> store.prefix.is_prefix_of(key)
        }),
{
    let blob = crate::keys::blob_key(store.prefix, crate::put::content_hash(content.bytes));
    let record = crate::keys::alias_key(store.prefix, id_of(content));
    assert(blob.subrange(0, store.prefix.len() as int) =~= store.prefix);
    assert(record.subrange(0, store.prefix.len() as int) =~= store.prefix);
}

} // verus!
