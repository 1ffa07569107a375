//! Deleting all content that has expired: the objects are listed page by page, and the head of each
//! tells whether it goes.
use crate::requests::HeadReply;
use crate::requests::HeadReplyView;
use crate::requests::ListPage;
use crate::requests::ListPageView;
use crate::store::S3ContentStore;
use crate::store::StoreView;
use crate::time::Timestamp;
use vstd::prelude::*;

verus! {

/// How far a sweep has come within a page.
#[derive(Debug)]
pub struct SweepProgress {
    /// How many objects were deleted so far.
    pub removed: usize,
    /// The hashes of this page that are still to be looked at.
    pub todo: Vec<String>,
    /// Where the next page starts.
    pub next: Option<String>,
}

/// What is due while expired content is being deleted.
#[derive(Debug)]
pub enum SweepStep {
    /// Ask for a page of the objects under `prefix`, and go on with
    /// [`S3ContentStore::sweep_after_list`].
    List { prefix: String, continuation: Option<String>, removed: usize },
    /// Ask for the head of the object, and go on with [`S3ContentStore::sweep_after_head`].
    Head { hash: String, key: String, progress: SweepProgress },
    /// Delete the object, and go on with [`S3ContentStore::sweep_after_delete`].
    Delete { hash: String, key: String, progress: SweepProgress },
    /// Nothing more; so many objects were deleted.
    Done { removed: usize },
}

/// The text and numbers of a [`SweepProgress`].
#[verifier::ext_equal]
pub struct SweepProgressView {
    pub removed: nat,
    pub todo: Seq<Seq<char>>,
    pub next: Option<Seq<char>>,
}

/// The text and numbers of a [`SweepStep`].
#[verifier::ext_equal]
pub enum SweepStepView {
    List { prefix: Seq<char>, continuation: Option<Seq<char>>, removed: nat },
    Head { hash: Seq<char>, key: Seq<char>, progress: SweepProgressView },
    Delete { hash: Seq<char>, key: Seq<char>, progress: SweepProgressView },
    Done { removed: nat },
}

impl DeepView for SweepProgress {
    type V = SweepProgressView;

    open spec fn deep_view(&self) -> SweepProgressView {
        SweepProgressView {
            removed: self.removed as nat,
            todo: self.todo.deep_view(),
            next: self.next.deep_view(),
        }
    }
}

impl DeepView for SweepStep {
    type V = SweepStepView;

    open spec fn deep_view(&self) -> SweepStepView {
        match self {
            SweepStep::List { prefix, continuation, removed } => SweepStepView::List {
                prefix: prefix@,
                continuation: continuation.deep_view(),
                removed: *removed as nat,
            },
            SweepStep::Head { hash, key, progress } => SweepStepView::Head {
                hash: hash@,
                key: key@,
                progress: progress.deep_view(),
            },
            SweepStep::Delete { hash, key, progress } => SweepStepView::Delete {
                hash: hash@,
                key: key@,
                progress: progress.deep_view(),
            },
            SweepStep::Done { removed } => SweepStepView::Done { removed: *removed as nat },
        }
    }
}

/// The hashes of the listed keys, in order. Entries without a key and keys elsewhere are left out.
pub open spec fn hashes_of(keys: Seq<Option<Seq<char>>>, prefix: Seq<char>) -> Seq<Seq<char>>
    decreases keys.len(),
{
    if keys.len() == 0 {
        seq![]
    } else {
        let before = hashes_of(keys.drop_last(), prefix);
        match keys.last() {
            Some(key) => match crate::text::strip(key, prefix) {
                Some(hash) => before.push(hash),
                None => before,
            },
            None => before,
        }
    }
}

/// The request for the page that starts at `continuation`.
pub open spec fn list_request(
    store: StoreView,
    continuation: Option<Seq<char>>,
    removed: nat,
) -> SweepStepView {
    SweepStepView::List {
        prefix: crate::keys::blobs_prefix(store.prefix),
        continuation,
        removed,
    }
}

/// What is due at the end of a page: the next page, if the listing names one.
pub open spec fn after_page(
    store: StoreView,
    removed: nat,
    next: Option<Seq<char>>,
) -> SweepStepView {
    match next {
        Some(token) if token.len() > 0 => list_request(store, next, removed),
        _ => SweepStepView::Done { removed },
    }
}

/// What is due next: the head of the next object of this page, or the end of the page.
pub open spec fn advance(store: StoreView, progress: SweepProgressView) -> SweepStepView {
    if progress.todo.len() > 0 {
        SweepStepView::Head {
            hash: progress.todo[0],
            key: crate::keys::blob_key(store.prefix, progress.todo[0]),
            progress: SweepProgressView { todo: progress.todo.drop_first(), ..progress },
        }
    } else {
        after_page(store, progress.removed, progress.next)
    }
}

/// What is due after the answer to the request for a page: a failure ends the sweep.
pub open spec fn sweep_after_list(
    store: StoreView,
    removed: nat,
    reply: Result<ListPageView, Seq<char>>,
) -> SweepStepView {
    match reply {
        Ok(page) => advance(
            store,
            SweepProgressView {
                removed,
                todo: hashes_of(page.keys, crate::keys::blobs_prefix(store.prefix)),
                next: page.next,
            },
        ),
        Err(_) => SweepStepView::Done { removed },
    }
}

/// Whether the head of an object tells that its content is expired at `now`.
pub open spec fn head_tells_expired(hash: Seq<char>, reply: HeadReplyView, now: Timestamp) -> bool {
    crate::store::head_outcome(hash, reply) matches Ok(Some(head)) && crate::time::is_expired(
        head.expires_at,
        now,
    )
}

/// What is due at `now` after the answer to the request for the head of an object: expired content
/// is deleted, and anything else is passed over, an object whose head cannot be had too.
pub open spec fn sweep_after_head(
    store: StoreView,
    hash: Seq<char>,
    progress: SweepProgressView,
    reply: HeadReplyView,
    now: Timestamp,
) -> SweepStepView {
    if head_tells_expired(hash, reply, now) {
        SweepStepView::Delete { hash, key: crate::keys::blob_key(store.prefix, hash), progress }
    } else {
        advance(store, progress)
    }
}

/// What is due after the answer to the request to delete an object. Only one that was deleted
/// counts.
pub open spec fn sweep_after_delete(
    store: StoreView,
    progress: SweepProgressView,
    reply: Result<(), Seq<char>>,
) -> SweepStepView {
    advance(
        store,
        SweepProgressView {
            removed: if reply is Ok {
                progress.removed + 1
            } else {
                progress.removed
            },
            ..progress
        },
    )
}

/// Whether `step` is what is due after the answer to the request for the head of an object, as of an
/// instant that, where the object expires, the clock gave.
pub open spec fn follows_head_now(
    store: StoreView,
    hash: Seq<char>,
    progress: SweepProgressView,
    reply: HeadReplyView,
    step: SweepStepView,
) -> bool {
    exists|now: Timestamp|
        {
            &&& #[trigger] now.is_clock_reading()
            &&& reply matches HeadReplyView::Found { metadata } ==> crate::metadata::lookup_instant(
                metadata,
                crate::metadata::META_EXPIRES_AT@,
            ) is Some ==> now.was_read_from_the_clock()
            &&& step == sweep_after_head(store, hash, progress, reply, now)
        }
}

impl S3ContentStore {
    /// The prefix of every object that holds content.
    fn blobs_prefix(&self) -> (r: String)
        ensures
            r@ == crate::keys::blobs_prefix(self@.prefix),
    {
        crate::text::join2(self.prefix(), "blobs/")
    }

    /// Begins to delete all content that has expired.
    pub fn sweep_expired(&self) -> (r: SweepStep)
        ensures
            r.deep_view() == list_request(self@, None, 0),
    {
        SweepStep::List { prefix: self.blobs_prefix(), continuation: None, removed: 0 }
    }

    /// What is due next.
    fn advance(&self, progress: SweepProgress) -> (r: SweepStep)
        ensures
            r.deep_view() == advance(self@, progress.deep_view()),
    {
        let mut todo = progress.todo;
        if todo.len() > 0 {
            let hash = todo.remove(0);
            assert(todo.deep_view() =~= progress.todo.deep_view().drop_first());
            let key = self.blob_key(hash.as_str());
            return SweepStep::Head {
                hash,
                key,
                progress: SweepProgress { removed: progress.removed, todo, next: progress.next },
            };
        }
        match progress.next {
            Some(token) => {
                if token.as_str().is_empty() {
                    SweepStep::Done { removed: progress.removed }
                } else {
                    SweepStep::List {
                        prefix: self.blobs_prefix(),
                        continuation: Some(token),
                        removed: progress.removed,
                    }
                }
            },
            None => SweepStep::Done { removed: progress.removed },
        }
    }

    /// The hashes of the listed keys, in order.
    fn hashes_of(&self, keys: &Vec<Option<String>>) -> (r: Vec<String>)
        ensures
            r.deep_view() == hashes_of(
                keys.deep_view(),
                crate::keys::blobs_prefix(self@.prefix),
            ),
    {
        let prefix = self.blobs_prefix();
        let ghost all = keys.deep_view();
        let mut r: Vec<String> = Vec::new();
        let mut i: usize = 0;
        assert(r.deep_view() =~= hashes_of(all.take(0), prefix@));
        while i < keys.len()
            invariant
                i <= keys.len(),
                all == keys.deep_view(),
                r.deep_view() == hashes_of(all.take(i as int), prefix@),
            decreases keys.len() - i,
        {
            assert(all.take(i + 1).drop_last() =~= all.take(i as int));
            assert(all.take(i + 1).last() == keys@[i as int].deep_view());
            let ghost before = r.deep_view();
            if let Some(key) = &keys[i] {
                if let Some(hash) = crate::text::strip_prefix(key.as_str(), prefix.as_str()) {
                    r.push(hash);
                    assert(r.deep_view() =~= before.push(hash@));
                }
            }
            i += 1;
        }
        assert(all.take(i as int) =~= all);
        r
    }

    /// Goes on after the answer to the request for a page.
    pub fn sweep_after_list(&self, removed: usize, reply: Result<ListPage, String>) -> (r:
        SweepStep)
        ensures
            r.deep_view() == sweep_after_list(
                self@,
                removed as nat,
                crate::content::outcome(reply),
            ),
    {
        match reply {
            Ok(page) => {
                let todo = self.hashes_of(&page.keys);
                self.advance(SweepProgress { removed, todo, next: page.next })
            },
            Err(_) => SweepStep::Done { removed },
        }
    }

    /// Goes on now, after the answer to the request for the head of an object. Only one that expires
    /// has the clock read.
    pub fn sweep_after_head(&self, hash: &str, progress: SweepProgress, reply: HeadReply) -> (r:
        SweepStep)
        ensures
            follows_head_now(
                self@,
                hash@,
                progress.deep_view(),
                reply.deep_view(),
                r.deep_view(),
            ),
    {
        let expires: bool = match &reply {
            HeadReply::Found { metadata } => crate::metadata::find_instant(
                metadata,
                crate::metadata::META_EXPIRES_AT,
            ).is_some(),
            _ => false,
        };
        let now = crate::time::now_if(expires);
        self.sweep_after_head_at(hash, progress, reply, now)
    }

    /// Goes on at `now`, after the answer to the request for the head of an object.
    pub fn sweep_after_head_at(
        &self,
        hash: &str,
        progress: SweepProgress,
        reply: HeadReply,
        now: Timestamp,
    ) -> (r: SweepStep)
        ensures
            r.deep_view() == sweep_after_head(
                self@,
                hash@,
                progress.deep_view(),
                reply.deep_view(),
                now,
            ),
    {
        match self.head_blob(hash, reply) {
            Ok(Some(head)) => {
                if crate::get::expired(head.expires_at, now) {
                    SweepStep::Delete {
                        hash: hash.to_owned(),
                        key: self.blob_key(hash),
                        progress,
                    }
                } else {
                    self.advance(progress)
                }
            },
            _ => self.advance(progress),
        }
    }

    /// Goes on after the answer to the request to delete an object.
    pub fn sweep_after_delete(
        &self,
        hash: &str,
        progress: SweepProgress,
        reply: Result<(), String>,
    ) -> (r: SweepStep)
        requires
            progress.removed < usize::MAX,
        ensures
            r.deep_view() == sweep_after_delete(
                self@,
                progress.deep_view(),
                crate::content::outcome(reply),
            ),
    {
        let mut progress = progress;
        if self.delete_blob(hash, reply).is_ok() {
            progress.removed = progress.removed + 1;
        }
        self.advance(progress)
    }
}

} // verus!
