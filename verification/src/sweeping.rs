//! What holds of a whole sweep of a bucket: which objects are deleted, how many are counted, and what
//! stays as it was.
use crate::bucket::BucketView;
use crate::requests::HeadReplyView;
use crate::requests::ListPageView;
use crate::store::StoreView;
use crate::sweep::SweepProgressView;
use crate::sweep::SweepStepView;
use crate::time::Timestamp;
use vstd::prelude::*;

verus! {

/// How a service answers during a sweep, apart from what the bucket holds: its listing, the keys for
/// which a request fails, and the instant at which the content with each hash is looked at.
pub struct ServiceView {
    pub list: spec_fn(Option<Seq<char>>) -> Result<ListPageView, Seq<char>>,
    pub unreadable: Set<Seq<char>>,
    pub undeletable: Set<Seq<char>>,
    pub why: Seq<char>,
    pub clock: spec_fn(Seq<char>) -> Timestamp,
}

impl ServiceView {
    /// The answer to a request for the head of an object.
    pub open spec fn head_reply(self, bucket: BucketView, key: Seq<char>) -> HeadReplyView {
        if self.unreadable.contains(key) {
            HeadReplyView::Failed(self.why)
        } else {
            bucket.head_reply(key)
        }
    }

    /// The answer to a request to delete an object, and the bucket after it.
    pub open spec fn delete(self, bucket: BucketView, key: Seq<char>) -> (
        Result<(), Seq<char>>,
        BucketView,
    ) {
        if self.undeletable.contains(key) {
            (Err(self.why), bucket)
        } else {
            (Ok(()), bucket.without(key))
        }
    }

    /// Whether there is expired content with this hash, and neither request for it fails.
    pub open spec fn takes(self, bucket: BucketView, store: StoreView, hash: Seq<char>) -> bool {
        let key = crate::keys::blob_key(store.prefix, hash);
        &&& bucket.has_expired(store, hash, (self.clock)(hash))
        &&& !self.unreadable.contains(key)
        &&& !self.undeletable.contains(key)
    }

    /// Those of the hashes for which there is expired content, and no request fails.
    pub open spec fn taken(
        self,
        bucket: BucketView,
        store: StoreView,
        hashes: Seq<Seq<char>>,
    ) -> Set<Seq<char>> {
        hashes.to_set().filter(|hash: Seq<char>| self.takes(bucket, store, hash))
    }

    /// The hashes on the page that starts at `continuation` and on those behind it, up to one that
    /// cannot be had, among the next `pages`.
    pub open spec fn listed(
        self,
        store: StoreView,
        continuation: Option<Seq<char>>,
        pages: nat,
    ) -> Seq<Seq<char>>
        decreases pages,
    {
        if pages == 0 {
            seq![]
        } else {
            match (self.list)(continuation) {
                Err(_) => seq![],
                Ok(page) => crate::sweep::hashes_of(
                    page.keys,
                    crate::keys::blobs_prefix(store.prefix),
                ) + match page.next {
                    Some(token) if token.len() > 0 => self.listed(
                        store,
                        page.next,
                        (pages - 1) as nat,
                    ),
                    _ => seq![],
                },
            }
        }
    }

    /// Whether the key stands on the page that starts at `continuation` or on one of those behind it,
    /// up to one that cannot be had, among the next `pages`.
    pub open spec fn lists(
        self,
        continuation: Option<Seq<char>>,
        pages: nat,
        key: Seq<char>,
    ) -> bool
        decreases pages,
    {
        pages > 0 && match (self.list)(continuation) {
            Err(_) => false,
            Ok(page) => page.keys.contains(Some(key)) || match page.next {
                Some(token) if token.len() > 0 => self.lists(page.next, (pages - 1) as nat, key),
                _ => false,
            },
        }
    }

    /// Whether the listing from `continuation` on ends, or fails, within so many pages.
    pub open spec fn ends_within(self, continuation: Option<Seq<char>>, pages: nat) -> bool
        decreases pages,
    {
        pages > 0 && match (self.list)(continuation) {
            Err(_) => true,
            Ok(page) => match page.next {
                Some(token) if token.len() > 0 => self.ends_within(page.next, (pages - 1) as nat),
                _ => true,
            },
        }
    }

    /// Where a sweep gets from `step` within the page that it is at, and the bucket then.
    pub open spec fn finish_page(
        self,
        bucket: BucketView,
        store: StoreView,
        step: SweepStepView,
    ) -> (SweepStepView, BucketView)
        decreases
                (match step {
                    SweepStepView::Head { progress, .. } => 2 * progress.todo.len() + 2,
                    SweepStepView::Delete { progress, .. } => 2 * progress.todo.len() + 1,
                    _ => 0,
                }),
    {
        match step {
            SweepStepView::Head { hash, key, progress } => self.finish_page(
                bucket,
                store,
                crate::sweep::sweep_after_head(
                    store,
                    hash,
                    progress,
                    self.head_reply(bucket, key),
                    (self.clock)(hash),
                ),
            ),
            SweepStepView::Delete { hash, key, progress } => {
                let (reply, after) = self.delete(bucket, key);
                self.finish_page(
                    after,
                    store,
                    crate::sweep::sweep_after_delete(store, progress, reply),
                )
            },
            _ => (step, bucket),
        }
    }

    /// Where a sweep gets from `step` within so many pages, and the bucket then.
    pub open spec fn finish(
        self,
        bucket: BucketView,
        store: StoreView,
        step: SweepStepView,
        pages: nat,
    ) -> (SweepStepView, BucketView)
        decreases pages,
    {
        match step {
            SweepStepView::List { continuation, removed, .. } if pages > 0 => {
                let (next, after) = self.finish_page(
                    bucket,
                    store,
                    crate::sweep::sweep_after_list(store, removed, (self.list)(continuation)),
                );
                self.finish(after, store, next, (pages - 1) as nat)
            },
            _ => (step, bucket),
        }
    }

    /// Where a sweep gets from its start within so many pages, and the bucket then.
    pub open spec fn sweep(self, bucket: BucketView, store: StoreView, pages: nat) -> (
        SweepStepView,
        BucketView,
    ) {
        self.finish(bucket, store, crate::sweep::list_request(store, None, 0), pages)
    }
}

/// To take one object out of a bucket is to take out the content of one hash.
proof fn lemma_without_one(bucket: BucketView, store: StoreView, hash: Seq<char>)
    ensures
        bucket.without(crate::keys::blob_key(store.prefix, hash)) == bucket.without_blobs(
            store,
            set![hash],
        ),
        bucket == bucket.without_blobs(store, set![]),
{
    let dir = crate::keys::blobs_prefix(store.prefix);
    crate::keys::law_blob_key_gives_hash_back(store.prefix, hash);
    assert forall|key: Seq<char>| #[trigger] crate::text::strip(key, dir) == Some(hash) implies key
        == crate::keys::blob_key(store.prefix, hash) by {
        assert(key =~= dir + hash);
    }
    assert(bucket.without(crate::keys::blob_key(store.prefix, hash)) =~= bucket.without_blobs(
        store,
        set![hash],
    ));
    assert(bucket =~= bucket.without_blobs(store, set![]));
}

/// What is taken of two lists of hashes, one after the other, is what is taken of both together, and
/// nothing is taken twice.
proof fn lemma_taken_adds_up(
    service: ServiceView,
    bucket: BucketView,
    store: StoreView,
    first: Seq<Seq<char>>,
    second: Seq<Seq<char>>,
)
    ensures
        ({
            let before = service.taken(bucket, store, first);
            let between = bucket.without_blobs(store, before);
            let behind = service.taken(between, store, second);
            let all = service.taken(bucket, store, first + second);
            &&& all.finite()
            &&& all.len() == before.len() + behind.len()
            &&& bucket.without_blobs(store, all) == between.without_blobs(store, behind)
        }),
{
    let before = service.taken(bucket, store, first);
    let between = bucket.without_blobs(store, before);
    let behind = service.taken(between, store, second);
    let all = service.taken(bucket, store, first + second);
    vstd::seq_lib::seq_to_set_is_finite(first);
    vstd::seq_lib::seq_to_set_is_finite(second);
    vstd::seq_lib::seq_to_set_distributes_over_add(first, second);
    assert forall|hash: Seq<char>| #[trigger]
        service.takes(between, store, hash) <==> service.takes(bucket, store, hash)
            && !before.contains(hash) by {
        crate::bucket::law_without_blobs(bucket, store, before, hash, seq![]);
    }
    assert(all =~= before + behind);
    vstd::set_lib::lemma_set_disjoint_lens(before, behind);
    assert(bucket.without_blobs(store, all) =~= between.without_blobs(store, behind));
}

/// What a sweep looks at is what follows `blobs/` in the keys on the pages, all of it and nothing
/// else.
pub proof fn law_sweep_looks_at_all_that_is_listed(
    service: ServiceView,
    store: StoreView,
    continuation: Option<Seq<char>>,
    pages: nat,
    hash: Seq<char>,
)
    ensures
        service.listed(store, continuation, pages).contains(hash) <==> service.lists(
            continuation,
            pages,
            store.prefix + "blobs/"@ + hash,
        ),
    decreases pages,
{
    if pages > 0 {
        match (service.list)(continuation) {
            Err(_) => {},
            Ok(page) => {
                let prefix = store.prefix + "blobs/"@;
                let first = crate::sweep::hashes_of(page.keys, prefix);
                crate::promises::law_what_is_looked_at_was_listed(page.keys, prefix, hash);
                match page.next {
                    Some(token) if token.len() > 0 => {
                        let rest = (pages - 1) as nat;
                        law_sweep_looks_at_all_that_is_listed(
                            service,
                            store,
                            page.next,
                            rest,
                            hash,
                        );
                        vstd::seq_lib::lemma_seq_concat_contains_all_elements(
                            first,
                            service.listed(store, page.next, rest),
                            hash,
                        );
                    },
                    _ => {
                        assert(first + seq![] =~= first);
                    },
                }
            },
        }
    }
}

/// On each page a sweep deletes the objects whose content is expired, as far as no request for them
/// fails, and no others. It counts just those, each of them once.
pub proof fn law_sweep_of_a_page(
    service: ServiceView,
    bucket: BucketView,
    store: StoreView,
    progress: SweepProgressView,
)
    ensures
        ({
            let taken = service.taken(bucket, store, progress.todo);
            &&& taken.finite()
            &&& service.finish_page(bucket, store, crate::sweep::advance(store, progress)) == (
                crate::sweep::after_page(store, progress.removed + taken.len(), progress.next),
                bucket.without_blobs(store, taken),
            )
        }),
    decreases progress.todo.len(),
{
    reveal_with_fuel(ServiceView::finish_page, 3);
    let taken = service.taken(bucket, store, progress.todo);
    lemma_without_one(bucket, store, seq![]);
    if progress.todo.len() == 0 {
        assert(taken =~= set![]);
    } else {
        let hash = progress.todo[0];
        let rest = SweepProgressView { todo: progress.todo.drop_first(), ..progress };
        let first = service.taken(bucket, store, seq![hash]);
        assert(progress.todo =~= seq![hash] + rest.todo);
        assert(seq![hash][0] == hash);
        lemma_taken_adds_up(service, bucket, store, seq![hash], rest.todo);
        if service.takes(bucket, store, hash) {
            assert(first =~= set![hash]);
            lemma_without_one(bucket, store, hash);
            law_sweep_of_a_page(
                service,
                bucket.without_blobs(store, first),
                store,
                SweepProgressView { removed: rest.removed + 1, ..rest },
            );
        } else {
            assert(first =~= set![]);
            law_sweep_of_a_page(service, bucket, store, rest);
        }
    }
}

/// A sweep goes through the whole listing, or up to a page that cannot be had. It deletes the objects
/// whose keys stand there and whose content is expired, as far as no request for them fails, and no
/// others. It ends with their number.
pub proof fn law_sweep_of_a_bucket(
    service: ServiceView,
    bucket: BucketView,
    store: StoreView,
    continuation: Option<Seq<char>>,
    removed: nat,
    pages: nat,
)
    requires
        service.ends_within(continuation, pages),
    ensures
        ({
            let taken = service.taken(bucket, store, service.listed(store, continuation, pages));
            &&& forall|hash: Seq<char>|
                taken.contains(hash) <==> #[trigger] service.takes(bucket, store, hash)
                    && service.lists(continuation, pages, store.prefix + "blobs/"@ + hash)
            &&& taken.finite()
            &&& service.finish(
                bucket,
                store,
                crate::sweep::list_request(store, continuation, removed),
                pages,
            ) == (
                SweepStepView::Done { removed: removed + taken.len() },
                bucket.without_blobs(store, taken),
            )
        }),
    decreases pages,
{
    assert forall|hash: Seq<char>|
        service.taken(bucket, store, service.listed(store, continuation, pages)).contains(hash)
            <==> #[trigger] service.takes(bucket, store, hash) && service.lists(
            continuation,
            pages,
            store.prefix + "blobs/"@ + hash,
        ) by {
        law_sweep_looks_at_all_that_is_listed(service, store, continuation, pages, hash);
    }
    reveal_with_fuel(ServiceView::finish, 2);
    reveal_with_fuel(ServiceView::finish_page, 2);
    let rest = (pages - 1) as nat;
    match (service.list)(continuation) {
        Err(_) => {
            lemma_without_one(bucket, store, seq![]);
            assert(service.taken(bucket, store, seq![]) =~= set![]);
        },
        Ok(page) => {
            let todo = crate::sweep::hashes_of(
                page.keys,
                crate::keys::blobs_prefix(store.prefix),
            );
            let taken = service.taken(bucket, store, todo);
            law_sweep_of_a_page(
                service,
                bucket,
                store,
                SweepProgressView { removed, todo, next: page.next },
            );
            match page.next {
                Some(token) if token.len() > 0 => {
                    let behind = service.listed(store, page.next, rest);
                    lemma_taken_adds_up(service, bucket, store, todo, behind);
                    law_sweep_of_a_bucket(
                        service,
                        bucket.without_blobs(store, taken),
                        store,
                        page.next,
                        removed + taken.len(),
                        rest,
                    );
                },
                _ => {
                    assert(todo + seq![] =~= todo);
                },
            }
        },
    }
}

/// The hashes of all content in a bucket that is expired when it is looked at.
pub open spec fn expired_hashes(
    bucket: BucketView,
    store: StoreView,
    clock: spec_fn(Seq<char>) -> Timestamp,
) -> Set<Seq<char>> {
    Set::new(|hash: Seq<char>| bucket.has_expired(store, hash, clock(hash)))
}

/// Where no request for an object fails and the listing ends and names every object below `blobs/`,
/// a sweep ends with the number of objects that have expired. Exactly those are gone.
pub proof fn law_sweep_deletes_all_that_has_expired(
    service: ServiceView,
    bucket: BucketView,
    store: StoreView,
    pages: nat,
)
    requires
        service.unreadable.is_empty(),
        service.undeletable.is_empty(),
        service.ends_within(None, pages),
        forall|hash: Seq<char>| #[trigger]
            bucket.blob(store, hash) is Some ==> service.lists(
                None,
                pages,
                store.prefix + "blobs/"@ + hash,
            ),
    ensures
        ({
            let expired = expired_hashes(bucket, store, service.clock);
            &&& expired.finite()
            &&& service.sweep(bucket, store, pages) == (
                SweepStepView::Done { removed: expired.len() },
                bucket.without_blobs(store, expired),
            )
        }),
{
    let taken = service.taken(bucket, store, service.listed(store, None, pages));
    law_sweep_of_a_bucket(service, bucket, store, None, 0, pages);
    assert forall|hash: Seq<char>|
        taken.contains(hash) <==> bucket.has_expired(store, hash, (service.clock)(hash)) by {
        if bucket.has_expired(store, hash, (service.clock)(hash)) {
            assert(bucket.blob(store, hash) is Some);
            assert(service.takes(bucket, store, hash));
        }
    }
    assert(taken =~= expired_hashes(bucket, store, service.clock));
}

/// After such a sweep a second one removes nothing, whatever it lists, as long as nothing more has
/// expired meanwhile.
pub proof fn law_second_sweep_removes_nothing(
    service: ServiceView,
    bucket: BucketView,
    store: StoreView,
    pages: nat,
    again: ServiceView,
    more_pages: nat,
)
    requires
        service.unreadable.is_empty(),
        service.undeletable.is_empty(),
        service.ends_within(None, pages),
        forall|hash: Seq<char>| #[trigger]
            bucket.blob(store, hash) is Some ==> service.lists(
                None,
                pages,
                store.prefix + "blobs/"@ + hash,
            ),
        again.ends_within(None, more_pages),
        forall|hash: Seq<char>| #[trigger]
            bucket.has_expired(store, hash, (again.clock)(hash)) ==> bucket.has_expired(
                store,
                hash,
                (service.clock)(hash),
            ),
    ensures
        ({
            let swept = service.sweep(bucket, store, pages).1;
            again.sweep(swept, store, more_pages) == (SweepStepView::Done { removed: 0 }, swept)
        }),
{
    let expired = expired_hashes(bucket, store, service.clock);
    let swept = bucket.without_blobs(store, expired);
    let hashes = again.listed(store, None, more_pages);
    law_sweep_deletes_all_that_has_expired(service, bucket, store, pages);
    law_sweep_of_a_bucket(again, swept, store, None, 0, more_pages);
    assert forall|hash: Seq<char>| !(#[trigger] again.takes(swept, store, hash)) by {
        crate::bucket::law_without_blobs(bucket, store, expired, hash, seq![]);
        if again.takes(swept, store, hash) {
            assert(bucket.has_expired(store, hash, (again.clock)(hash)));
        }
    }
    assert(again.taken(swept, store, hashes) =~= set![]);
    lemma_without_one(swept, store, seq![]);
}

/// A sweep, whatever it lists and whichever requests fail, changes nothing that is read at an
/// instant by which it has looked at all its objects: it only deletes what such a read would not
/// have given.
pub proof fn law_sweep_changes_no_read(
    service: ServiceView,
    bucket: BucketView,
    store: StoreView,
    pages: nat,
    id: Seq<char>,
    now: Timestamp,
)
    requires
        service.ends_within(None, pages),
        forall|hash: Seq<char>| #[trigger] (service.clock)(hash).at_or_before(now),
    ensures
        service.sweep(bucket, store, pages).1.read(store, id, now) == bucket.read(store, id, now),
{
    let taken = service.taken(bucket, store, service.listed(store, None, pages));
    law_sweep_of_a_bucket(service, bucket, store, None, 0, pages);
    crate::bucket::law_without_blobs(bucket, store, taken, seq![], id);
    if bucket.target(store, id) is Some {
        let hash = bucket.target(store, id)->Some_0;
        crate::bucket::law_without_blobs(bucket, store, taken, hash, id);
        assert((service.clock)(hash).at_or_before(now));
    }
    reveal_with_fuel(BucketView::read_from, 3);
}

} // verus!
