//! Links that anyone can download content with, for a while.
use crate::content::request_error;
use crate::content::storage_error;
use crate::content::ContentStoreError;
use crate::content::ErrorView;
use crate::keys::KeyKind;
use crate::keys::KeyKindView;
use crate::presign::SigningTerms;
use crate::requests::AliasReply;
use crate::requests::AliasReplyView;
use crate::requests::HeadReply;
use crate::requests::HeadReplyView;
use crate::store::S3ContentStore;
use crate::store::StoreView;
use crate::time::Ttl;
use vstd::prelude::*;

verus! {

/// The longest lifetime that SigV4 gives a signed link, in seconds: seven days.
pub const PRESIGNED_URL_MAX_TTL: u64 = 604_800;

/// What is due while a link is being made.
#[derive(Debug)]
pub enum SignStep {
    /// Ask for the alias record, and go on with [`S3ContentStore::signed_url_after_alias`].
    FetchAlias { alias_id: String, key: String },
    /// Ask for the head of the object, and go on with [`S3ContentStore::signed_url_after_head`].
    HeadBlob { hash: String, key: String },
    /// Sign a request for the object on these terms, and go on with
    /// [`S3ContentStore::signed_url_after_presign`].
    Presign { hash: String, key: String, terms: SigningTerms },
    /// Nothing more.
    Done(Result<Option<String>, ContentStoreError>),
}

/// The text and numbers of a [`SignStep`]. Of the terms that a request is signed on it has the
/// lifetime that they give.
#[verifier::ext_equal]
pub enum SignStepView {
    FetchAlias { alias_id: Seq<char>, key: Seq<char> },
    HeadBlob { hash: Seq<char>, key: Seq<char> },
    Presign { hash: Seq<char>, key: Seq<char>, ttl: Ttl },
    Done(Result<Option<Seq<char>>, ErrorView>),
}

impl DeepView for SignStep {
    type V = SignStepView;

    open spec fn deep_view(&self) -> SignStepView {
        match self {
            SignStep::FetchAlias { alias_id, key } => SignStepView::FetchAlias {
                alias_id: alias_id@,
                key: key@,
            },
            SignStep::HeadBlob { hash, key } => SignStepView::HeadBlob {
                hash: hash@,
                key: key@,
            },
            SignStep::Presign { hash, key, terms } => SignStepView::Presign {
                hash: hash@,
                key: key@,
                ttl: terms.lifetime(),
            },
            SignStep::Done(result) => SignStepView::Done(crate::content::outcome(*result)),
        }
    }
}

/// Whether a lifetime is longer than seven days.
pub open spec fn exceeds_ceiling(ttl: Ttl) -> bool {
    ttl.secs > PRESIGNED_URL_MAX_TTL || (ttl.secs == PRESIGNED_URL_MAX_TTL && ttl.nanos > 0)
}

/// The failure for a lifetime that is too long.
pub open spec fn ceiling_failure(ttl: Ttl) -> ErrorView {
    ErrorView::Storage {
        message: "signed URL ttl "@ + crate::time::duration_debug(ttl.secs, ttl.nanos)
            + " exceeds 7-day SigV4 maximum"@,
    }
}

/// The failure for a lifetime that the client does not take.
pub open spec fn config_failure() -> ErrorView {
    ErrorView::Storage {
        message: "presigning config: "@ + crate::presign::refusal(),
    }
}

/// The request for the head of the object that holds the content with this hash.
pub open spec fn head_request(store: StoreView, hash: Seq<char>) -> SignStepView {
    SignStepView::HeadBlob { hash, key: crate::keys::blob_key(store.prefix, hash) }
}

/// What is due first for a link: a lifetime that is too long is refused whatever the id, and
/// otherwise the record of an alias or the head of an object is asked for.
pub open spec fn sign_start(store: StoreView, id: Seq<char>, ttl: Ttl) -> SignStepView {
    if exceeds_ceiling(ttl) {
        SignStepView::Done(Err(ceiling_failure(ttl)))
    } else {
        match crate::keys::resolve(id) {
            Some(KeyKindView::Blob { hash }) => head_request(store, hash),
            Some(KeyKindView::Alias { alias_id }) => SignStepView::FetchAlias {
                alias_id,
                key: crate::keys::alias_key(store.prefix, alias_id),
            },
            None => SignStepView::Done(Ok(None)),
        }
    }
}

/// What is due after the answer to the request for an alias record.
pub open spec fn sign_after_alias(
    store: StoreView,
    alias_id: Seq<char>,
    reply: AliasReplyView,
) -> SignStepView {
    match crate::store::alias_outcome(alias_id, reply) {
        Err(e) => SignStepView::Done(Err(e)),
        Ok(Some(record)) => head_request(store, record.target_hash),
        Ok(None) => SignStepView::Done(Ok(None)),
    }
}

/// What is due after the answer to the request for the head of an object: a link is signed only for
/// an object that is there, and only for a lifetime that the client takes.
pub open spec fn sign_after_head(
    store: StoreView,
    hash: Seq<char>,
    ttl: Ttl,
    reply: HeadReplyView,
) -> SignStepView {
    match crate::store::head_outcome(hash, reply) {
        Err(e) => SignStepView::Done(Err(e)),
        Ok(None) => SignStepView::Done(Ok(None)),
        Ok(Some(_)) => if exceeds_ceiling(ttl) {
            SignStepView::Done(Err(config_failure()))
        } else {
            SignStepView::Presign { hash, key: crate::keys::blob_key(store.prefix, hash), ttl }
        },
    }
}

/// What comes of making a link after it was signed.
pub open spec fn sign_after_presign(
    hash: Seq<char>,
    reply: Result<Seq<char>, Seq<char>>,
) -> Result<Option<Seq<char>>, ErrorView> {
    match reply {
        Ok(url) => Ok(Some(url)),
        Err(why) => Err(crate::content::request_failure("presign "@, hash, why)),
    }
}

impl S3ContentStore {
    /// Begins to make a link to content by its id, good for `ttl`.
    pub fn signed_url(&self, id: &str, ttl: Ttl) -> (r: SignStep)
        requires
            ttl.valid(),
        ensures
            r.deep_view() == sign_start(self@, id@, ttl),
    {
        if ttl.secs > PRESIGNED_URL_MAX_TTL || (ttl.secs == PRESIGNED_URL_MAX_TTL && ttl.nanos
            > 0) {
            let length = crate::time::duration_debug_text(ttl);
            return SignStep::Done(
                Err(
                    ContentStoreError::Storage {
                        message: crate::text::join3(
                            "signed URL ttl ",
                            length.as_str(),
                            " exceeds 7-day SigV4 maximum",
                        ),
                    },
                ),
            );
        }
        match self.resolve_to_hash_blob_key(id) {
            Some(KeyKind::Blob { hash }) => {
                let key = self.blob_key(hash.as_str());
                SignStep::HeadBlob { hash, key }
            },
            Some(KeyKind::Alias { alias_id }) => {
                let key = self.alias_key(alias_id.as_str());
                SignStep::FetchAlias { alias_id, key }
            },
            None => SignStep::Done(Ok(None)),
        }
    }

    /// Goes on after the answer to the request for an alias record.
    pub fn signed_url_after_alias(&self, alias_id: &str, reply: AliasReply) -> (r: SignStep)
        ensures
            r.deep_view() == sign_after_alias(self@, alias_id@, reply.deep_view()),
    {
        match self.read_alias(alias_id, reply) {
            Err(e) => SignStep::Done(Err(e)),
            Ok(Some(record)) => {
                let key = self.blob_key(record.target_hash.as_str());
                SignStep::HeadBlob { hash: record.target_hash, key }
            },
            Ok(None) => SignStep::Done(Ok(None)),
        }
    }

    /// Goes on after the answer to the request for the head of an object.
    pub fn signed_url_after_head(&self, hash: &str, ttl: Ttl, reply: HeadReply) -> (r: SignStep)
        requires
            ttl.valid(),
        ensures
            r.deep_view() == sign_after_head(self@, hash@, ttl, reply.deep_view()),
    {
        match self.head_blob(hash, reply) {
            Err(e) => SignStep::Done(Err(e)),
            Ok(None) => SignStep::Done(Ok(None)),
            Ok(Some(_)) => match crate::presign::signing_terms(ttl) {
                Ok(terms) => SignStep::Presign {
                    hash: hash.to_owned(),
                    key: self.blob_key(hash),
                    terms,
                },
                Err(why) => SignStep::Done(
                    Err(storage_error("presigning config: ", why.as_str())),
                ),
            },
        }
    }

    /// Ends after the request was signed or that failed.
    pub fn signed_url_after_presign(
        &self,
        hash: &str,
        reply: Result<String, String>,
    ) -> (r: Result<Option<String>, ContentStoreError>)
        ensures
            crate::content::outcome(r) == sign_after_presign(
                hash@,
                crate::content::outcome(reply),
            ),
            reply matches Ok(url) ==> r == Ok::<Option<String>, ContentStoreError>(Some(url)),
    {
        match reply {
            Ok(url) => Ok(Some(url)),
            Err(why) => Err(request_error("presign ", hash, why.as_str())),
        }
    }
}

} // verus!
