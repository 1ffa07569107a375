//! Deleting content, and with an alias both its record and the content that it names.
use crate::content::ContentStoreError;
use crate::content::ErrorView;
use crate::keys::KeyKind;
use crate::keys::KeyKindView;
use crate::requests::AliasReply;
use crate::requests::AliasReplyView;
use crate::store::S3ContentStore;
use crate::store::StoreView;
use vstd::prelude::*;

verus! {

/// What is due while content is being deleted.
#[derive(Debug)]
pub enum DeleteStep {
    /// Delete the object, and end with [`S3ContentStore::delete_blob`].
    DeleteBlob { hash: String, key: String },
    /// Ask for the alias record, and go on with [`S3ContentStore::delete_after_alias`].
    FetchAlias { alias_id: String, key: String },
    /// Delete the object that the alias names, and go on with
    /// [`S3ContentStore::delete_after_target`].
    DeleteTarget { alias_id: String, key: String },
    /// Delete the alias record, and end with [`S3ContentStore::delete_alias`].
    DeleteAlias { alias_id: String, key: String },
    /// Nothing more.
    Done(Result<(), ContentStoreError>),
}

/// The text of a [`DeleteStep`].
#[verifier::ext_equal]
pub enum DeleteStepView {
    DeleteBlob { hash: Seq<char>, key: Seq<char> },
    FetchAlias { alias_id: Seq<char>, key: Seq<char> },
    DeleteTarget { alias_id: Seq<char>, key: Seq<char> },
    DeleteAlias { alias_id: Seq<char>, key: Seq<char> },
    Done(Result<(), ErrorView>),
}

impl DeepView for DeleteStep {
    type V = DeleteStepView;

    open spec fn deep_view(&self) -> DeleteStepView {
        match self {
            DeleteStep::DeleteBlob { hash, key } => DeleteStepView::DeleteBlob {
                hash: hash@,
                key: key@,
            },
            DeleteStep::FetchAlias { alias_id, key } => DeleteStepView::FetchAlias {
                alias_id: alias_id@,
                key: key@,
            },
            DeleteStep::DeleteTarget { alias_id, key } => DeleteStepView::DeleteTarget {
                alias_id: alias_id@,
                key: key@,
            },
            DeleteStep::DeleteAlias { alias_id, key } => DeleteStepView::DeleteAlias {
                alias_id: alias_id@,
                key: key@,
            },
            DeleteStep::Done(result) => DeleteStepView::Done(crate::content::outcome(*result)),
        }
    }
}

/// What is due first for an id: the object of content is deleted, the record of an alias is asked
/// for, and an id that stands for neither has nothing to delete.
pub open spec fn delete_start(store: StoreView, id: Seq<char>) -> DeleteStepView {
    match crate::keys::resolve(id) {
        Some(KeyKindView::Blob { hash }) => DeleteStepView::DeleteBlob {
            hash,
            key: crate::keys::blob_key(store.prefix, hash),
        },
        Some(KeyKindView::Alias { alias_id }) => DeleteStepView::FetchAlias {
            alias_id,
            key: crate::keys::alias_key(store.prefix, alias_id),
        },
        None => DeleteStepView::Done(Ok(())),
    }
}

/// The request to delete the record of an alias.
pub open spec fn delete_record(store: StoreView, alias_id: Seq<char>) -> DeleteStepView {
    DeleteStepView::DeleteAlias { alias_id, key: crate::keys::alias_key(store.prefix, alias_id) }
}

/// What is due after the answer to the request for an alias record: first what it names is deleted,
/// and the record itself at once where there is none.
pub open spec fn delete_after_alias(
    store: StoreView,
    alias_id: Seq<char>,
    reply: AliasReplyView,
) -> DeleteStepView {
    match crate::store::alias_outcome(alias_id, reply) {
        Err(e) => DeleteStepView::Done(Err(e)),
        Ok(Some(record)) => DeleteStepView::DeleteTarget {
            alias_id,
            key: crate::keys::blob_key(store.prefix, record.target_hash),
        },
        Ok(None) => delete_record(store, alias_id),
    }
}

impl S3ContentStore {
    /// Begins to delete content by its id.
    pub fn delete(&self, id: &str) -> (r: DeleteStep)
        ensures
            r.deep_view() == delete_start(self@, id@),
    {
        match self.resolve_to_hash_blob_key(id) {
            Some(KeyKind::Blob { hash }) => {
                let key = self.blob_key(hash.as_str());
                DeleteStep::DeleteBlob { hash, key }
            },
            Some(KeyKind::Alias { alias_id }) => {
                let key = self.alias_key(alias_id.as_str());
                DeleteStep::FetchAlias { alias_id, key }
            },
            None => DeleteStep::Done(Ok(())),
        }
    }

    /// Goes on after the answer to the request for an alias record.
    pub fn delete_after_alias(&self, alias_id: &str, reply: AliasReply) -> (r: DeleteStep)
        ensures
            r.deep_view() == delete_after_alias(self@, alias_id@, reply.deep_view()),
    {
        match self.read_alias(alias_id, reply) {
            Err(e) => DeleteStep::Done(Err(e)),
            Ok(Some(record)) => DeleteStep::DeleteTarget {
                alias_id: alias_id.to_owned(),
                key: self.blob_key(record.target_hash.as_str()),
            },
            Ok(None) => DeleteStep::DeleteAlias {
                alias_id: alias_id.to_owned(),
                key: self.alias_key(alias_id),
            },
        }
    }

    /// Goes on after what an alias names was deleted: with its record, whatever the answer was.
    pub fn delete_after_target(&self, alias_id: &str, reply: Result<(), String>) -> (r: DeleteStep)
        ensures
            r.deep_view() == delete_record(self@, alias_id@),
    {
        DeleteStep::DeleteAlias { alias_id: alias_id.to_owned(), key: self.alias_key(alias_id) }
    }
}

} // verus!
