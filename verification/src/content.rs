//! What goes into the store and what comes out of it.
use crate::time::Timestamp;
use crate::time::Ttl;
use vstd::prelude::*;

verus! {

/// Something to be stored.
#[derive(Debug)]
pub struct ContentToStore {
    pub bytes: Vec<u8>,
    pub mime_type: String,
    /// How long the content is kept. Without it the content does not expire.
    pub ttl: Option<Ttl>,
    pub session_id: Option<String>,
    pub tenant_id: Option<String>,
    /// A name for the content within its session.
    pub alias: Option<String>,
}

/// What the store hands back for stored content.
#[derive(Debug)]
pub struct ResourceHandle {
    pub id: String,
    pub uri: String,
    pub size_bytes: usize,
    pub mime_type: String,
    pub expires_at: Option<Timestamp>,
    pub content_hash: String,
}

/// Stored content as it is read back.
#[derive(Debug)]
pub struct ResourceContent {
    pub bytes: Vec<u8>,
    pub mime_type: String,
    pub session_id: Option<String>,
    pub tenant_id: Option<String>,
    pub stored_at: Timestamp,
    pub expires_at: Option<Timestamp>,
}

/// How full a store is. A `max_bytes` of zero stands for a store without a bound.
#[derive(Debug, Clone, Copy, PartialEq, Eq, Structural)]
pub struct ContentStoreStats {
    pub item_count: usize,
    pub byte_count: usize,
    pub max_bytes: usize,
}

/// Why an operation of the store failed.
#[derive(Debug)]
pub enum ContentStoreError {
    SizeLimit { limit_bytes: usize, actual_bytes: usize },
    Storage { message: String },
}

/// The redirection from an alias to the content that it names.
#[derive(Debug, Clone)]
pub struct AliasRecord {
    pub target_hash: String,
    pub expires_at: Option<Timestamp>,
}

/// The text and numbers of a [`ContentToStore`].
pub struct ContentView {
    pub bytes: Seq<u8>,
    pub mime_type: Seq<char>,
    pub ttl: Option<Ttl>,
    pub session_id: Option<Seq<char>>,
    pub tenant_id: Option<Seq<char>>,
    pub alias: Option<Seq<char>>,
}

/// The text and numbers of a [`ResourceHandle`].
#[verifier::ext_equal]
pub struct HandleView {
    pub id: Seq<char>,
    pub uri: Seq<char>,
    pub size_bytes: nat,
    pub mime_type: Seq<char>,
    pub expires_at: Option<Timestamp>,
    pub content_hash: Seq<char>,
}

/// The text and numbers of a [`ResourceContent`].
#[verifier::ext_equal]
pub struct ResourceView {
    pub bytes: Seq<u8>,
    pub mime_type: Seq<char>,
    pub session_id: Option<Seq<char>>,
    pub tenant_id: Option<Seq<char>>,
    pub stored_at: Timestamp,
    pub expires_at: Option<Timestamp>,
}

/// The text and numbers of a [`ContentStoreError`].
#[verifier::ext_equal]
pub enum ErrorView {
    SizeLimit { limit_bytes: nat, actual_bytes: nat },
    Storage { message: Seq<char> },
}

/// The text and numbers of an [`AliasRecord`].
#[verifier::ext_equal]
pub struct AliasView {
    pub target_hash: Seq<char>,
    pub expires_at: Option<Timestamp>,
}

impl DeepView for ContentToStore {
    type V = ContentView;

    open spec fn deep_view(&self) -> ContentView {
        ContentView {
            bytes: self.bytes@,
            mime_type: self.mime_type@,
            ttl: self.ttl,
            session_id: self.session_id.deep_view(),
            tenant_id: self.tenant_id.deep_view(),
            alias: self.alias.deep_view(),
        }
    }
}

impl DeepView for ResourceHandle {
    type V = HandleView;

    open spec fn deep_view(&self) -> HandleView {
        HandleView {
            id: self.id@,
            uri: self.uri@,
            size_bytes: self.size_bytes as nat,
            mime_type: self.mime_type@,
            expires_at: self.expires_at,
            content_hash: self.content_hash@,
        }
    }
}

impl DeepView for ResourceContent {
    type V = ResourceView;

    open spec fn deep_view(&self) -> ResourceView {
        ResourceView {
            bytes: self.bytes@,
            mime_type: self.mime_type@,
            session_id: self.session_id.deep_view(),
            tenant_id: self.tenant_id.deep_view(),
            stored_at: self.stored_at,
            expires_at: self.expires_at,
        }
    }
}

impl DeepView for ContentStoreError {
    type V = ErrorView;

    open spec fn deep_view(&self) -> ErrorView {
        match self {
            ContentStoreError::SizeLimit { limit_bytes, actual_bytes } => ErrorView::SizeLimit {
                limit_bytes: *limit_bytes as nat,
                actual_bytes: *actual_bytes as nat,
            },
            ContentStoreError::Storage { message } => ErrorView::Storage { message: message@ },
        }
    }
}

impl DeepView for AliasRecord {
    type V = AliasView;

    open spec fn deep_view(&self) -> AliasView {
        AliasView { target_hash: self.target_hash@, expires_at: self.expires_at }
    }
}

/// The text and numbers of an outcome.
pub open spec fn outcome<T: DeepView, E: DeepView>(r: Result<T, E>) -> Result<T::V, E::V> {
    match r {
        Ok(t) => Ok(t.deep_view()),
        Err(e) => Err(e.deep_view()),
    }
}

impl Default for ContentStoreStats {
    fn default() -> (r: Self)
        ensures
            r == (ContentStoreStats { item_count: 0, byte_count: 0, max_bytes: 0 }),
    {
        ContentStoreStats { item_count: 0, byte_count: 0, max_bytes: 0 }
    }
}

/// A storage failure with the message `what` followed by `detail`.
pub(crate) fn storage_error(what: &str, detail: &str) -> (r: ContentStoreError)
    ensures
        r.deep_view() == (ErrorView::Storage { message: what@ + detail@ }),
{
    ContentStoreError::Storage { message: crate::text::join2(what, detail) }
}

/// The message of a failed request: what was asked for, of what, and why it failed.
pub open spec fn failure_message(what: Seq<char>, of: Seq<char>, why: Seq<char>) -> Seq<char> {
    what + of + ": "@ + why
}

/// The failure of a request.
pub open spec fn request_failure(what: Seq<char>, of: Seq<char>, why: Seq<char>) -> ErrorView {
    ErrorView::Storage { message: failure_message(what, of, why) }
}

/// The failure of a request: what was asked for, of what, and why it failed.
pub(crate) fn request_error(what: &str, of: &str, why: &str) -> (r: ContentStoreError)
    ensures
        r.deep_view() == request_failure(what@, of@, why@),
{
    ContentStoreError::Storage { message: crate::text::join4(what, of, ": ", why) }
}

} // verus!
