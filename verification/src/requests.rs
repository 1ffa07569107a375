//! What the store asks of a bucket, and what the bucket answers.
//!
//! The store itself sends nothing. Each operation hands out the request that is due, and takes the
//! answer to it, until it is done.
use crate::content::AliasRecord;
use crate::content::AliasView;
use crate::time::Timestamp;
use vstd::prelude::*;

verus! {

/// An object to be written.
#[derive(Debug)]
pub struct PutObject {
    pub key: String,
    pub content_type: String,
    pub body: Vec<u8>,
    pub metadata: Vec<(String, String)>,
}

/// An alias record to be written, as JSON.
#[derive(Debug)]
pub struct PutAlias {
    pub key: String,
    pub content_type: String,
    pub record: AliasRecord,
}

/// Why an alias record was not written.
#[derive(Debug)]
pub enum PutAliasFailure {
    /// The record has no JSON text.
    Encode(String),
    /// The request failed.
    Send(String),
}

/// The answer to a request for an alias record.
#[derive(Debug)]
pub enum AliasReply {
    Found(AliasRecord),
    /// There is no such object.
    Missing,
    /// The request failed.
    Failed(String),
    /// The body of the answer broke off.
    BodyFailed(String),
    /// The body is no alias record.
    DecodeFailed(String),
}

/// The answer to a request for the head of an object.
#[derive(Debug)]
pub enum HeadReply {
    Found { metadata: Vec<(String, String)> },
    /// There is no such object.
    Missing,
    /// The request failed.
    Failed(String),
}

/// The answer to a request for an object, before its body is read.
#[derive(Debug)]
pub enum BlobReply {
    Found { content_type: Option<String>, metadata: Vec<(String, String)> },
    /// There is no such object.
    Missing,
    /// The request failed.
    Failed(String),
}

/// One page of a listing: the keys, as far as the entries have one, and where the next page starts.
#[derive(Debug)]
pub struct ListPage {
    pub keys: Vec<Option<String>>,
    pub next: Option<String>,
}

/// What the head of an object tells.
#[derive(Debug, Clone, Copy, PartialEq, Eq, Structural)]
pub struct HeadResult {
    pub expires_at: Option<Timestamp>,
}

/// The text and bytes of a [`PutObject`].
#[verifier::ext_equal]
pub struct PutObjectView {
    pub key: Seq<char>,
    pub content_type: Seq<char>,
    pub body: Seq<u8>,
    pub metadata: Seq<(Seq<char>, Seq<char>)>,
}

/// The text and record of a [`PutAlias`].
#[verifier::ext_equal]
pub struct PutAliasView {
    pub key: Seq<char>,
    pub content_type: Seq<char>,
    pub record: AliasView,
}

/// The text of a [`PutAliasFailure`].
pub enum PutAliasFailureView {
    Encode(Seq<char>),
    Send(Seq<char>),
}

/// The text and record of an [`AliasReply`].
pub enum AliasReplyView {
    Found(AliasView),
    Missing,
    Failed(Seq<char>),
    BodyFailed(Seq<char>),
    DecodeFailed(Seq<char>),
}

/// The text of a [`HeadReply`].
pub enum HeadReplyView {
    Found { metadata: Seq<(Seq<char>, Seq<char>)> },
    Missing,
    Failed(Seq<char>),
}

/// The text of a [`BlobReply`].
pub enum BlobReplyView {
    Found { content_type: Option<Seq<char>>, metadata: Seq<(Seq<char>, Seq<char>)> },
    Missing,
    Failed(Seq<char>),
}

/// The text of a [`ListPage`].
pub struct ListPageView {
    pub keys: Seq<Option<Seq<char>>>,
    pub next: Option<Seq<char>>,
}

impl DeepView for PutObject {
    type V = PutObjectView;

    open spec fn deep_view(&self) -> PutObjectView {
        PutObjectView {
            key: self.key@,
            content_type: self.content_type@,
            body: self.body@,
            metadata: self.metadata.deep_view(),
        }
    }
}

impl DeepView for PutAlias {
    type V = PutAliasView;

    open spec fn deep_view(&self) -> PutAliasView {
        PutAliasView {
            key: self.key@,
            content_type: self.content_type@,
            record: self.record.deep_view(),
        }
    }
}

impl DeepView for PutAliasFailure {
    type V = PutAliasFailureView;

    open spec fn deep_view(&self) -> PutAliasFailureView {
        match self {
            PutAliasFailure::Encode(why) => PutAliasFailureView::Encode(why@),
            PutAliasFailure::Send(why) => PutAliasFailureView::Send(why@),
        }
    }
}

impl DeepView for AliasReply {
    type V = AliasReplyView;

    open spec fn deep_view(&self) -> AliasReplyView {
        match self {
            AliasReply::Found(record) => AliasReplyView::Found(record.deep_view()),
            AliasReply::Missing => AliasReplyView::Missing,
            AliasReply::Failed(why) => AliasReplyView::Failed(why@),
            AliasReply::BodyFailed(why) => AliasReplyView::BodyFailed(why@),
            AliasReply::DecodeFailed(why) => AliasReplyView::DecodeFailed(why@),
        }
    }
}

impl DeepView for HeadReply {
    type V = HeadReplyView;

    open spec fn deep_view(&self) -> HeadReplyView {
        match self {
            HeadReply::Found { metadata } => HeadReplyView::Found {
                metadata: metadata.deep_view(),
            },
            HeadReply::Missing => HeadReplyView::Missing,
            HeadReply::Failed(why) => HeadReplyView::Failed(why@),
        }
    }
}

impl DeepView for BlobReply {
    type V = BlobReplyView;

    open spec fn deep_view(&self) -> BlobReplyView {
        match self {
            BlobReply::Found { content_type, metadata } => BlobReplyView::Found {
                content_type: content_type.deep_view(),
                metadata: metadata.deep_view(),
            },
            BlobReply::Missing => BlobReplyView::Missing,
            BlobReply::Failed(why) => BlobReplyView::Failed(why@),
        }
    }
}

impl DeepView for ListPage {
    type V = ListPageView;

    open spec fn deep_view(&self) -> ListPageView {
        ListPageView { keys: self.keys.deep_view(), next: self.next.deep_view() }
    }
}

impl DeepView for HeadResult {
    type V = HeadResult;

    open spec fn deep_view(&self) -> HeadResult {
        *self
    }
}

} // verus!
