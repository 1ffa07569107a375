//! The views that contracts speak of hold all the text, bytes and numbers of their values, each in its
//! own place.
use crate::content::AliasRecord;
use crate::content::ContentStoreError;
use crate::content::ContentToStore;
use crate::content::ErrorView;
use crate::content::ResourceContent;
use crate::content::ResourceHandle;
use crate::delete::DeleteStep;
use crate::delete::DeleteStepView;
use crate::get::GetStep;
use crate::get::GetStepView;
use crate::get::PendingContent;
use crate::keys::KeyKind;
use crate::keys::KeyKindView;
use crate::put::PendingAlias;
use crate::put::PendingBlob;
use crate::put::PutStep;
use crate::put::PutStepView;
use crate::requests::AliasReply;
use crate::requests::AliasReplyView;
use crate::requests::BlobReply;
use crate::requests::BlobReplyView;
use crate::requests::HeadReply;
use crate::requests::HeadReplyView;
use crate::requests::ListPage;
use crate::requests::PutAlias;
use crate::requests::PutAliasFailure;
use crate::requests::PutAliasFailureView;
use crate::requests::PutObject;
use crate::sign::SignStep;
use crate::sign::SignStepView;
use crate::sweep::SweepProgress;
use crate::sweep::SweepStep;
use crate::sweep::SweepStepView;
use vstd::prelude::*;

verus! {

/// Whether a view has the text of a value that may be missing.
pub open spec fn tells_text(view: Option<Seq<char>>, text: Option<String>) -> bool {
    match text {
        Some(t) => view == Some(t@),
        None => view is None,
    }
}

/// Whether a view has the texts of a list, one for one.
pub open spec fn tells_texts(view: Seq<Seq<char>>, texts: Vec<String>) -> bool {
    view.len() == texts@.len() && forall|i: int|
        0 <= i < view.len() ==> #[trigger] view[i] == texts@[i]@
}

/// Whether a view has the names and values of metadata, one for one.
pub open spec fn tells_metadata(
    view: Seq<(Seq<char>, Seq<char>)>,
    metadata: Vec<(String, String)>,
) -> bool {
    view.len() == metadata@.len() && forall|i: int|
        0 <= i < view.len() ==> #[trigger] view[i] == (metadata@[i].0@, metadata@[i].1@)
}

/// What is to be stored is viewed as it is.
pub proof fn law_view_of_content(c: ContentToStore)
    ensures
        c.deep_view().bytes == c.bytes@,
        c.deep_view().mime_type == c.mime_type@,
        c.deep_view().ttl == c.ttl,
        tells_text(c.deep_view().session_id, c.session_id),
        tells_text(c.deep_view().tenant_id, c.tenant_id),
        tells_text(c.deep_view().alias, c.alias),
{
}

/// A handle is viewed as it is.
pub proof fn law_view_of_handle(h: ResourceHandle)
    ensures
        h.deep_view().id == h.id@,
        h.deep_view().uri == h.uri@,
        h.deep_view().size_bytes == h.size_bytes,
        h.deep_view().mime_type == h.mime_type@,
        h.deep_view().expires_at == h.expires_at,
        h.deep_view().content_hash == h.content_hash@,
{
}

/// What was read is viewed as it is.
pub proof fn law_view_of_resource(c: ResourceContent)
    ensures
        c.deep_view().bytes == c.bytes@,
        c.deep_view().mime_type == c.mime_type@,
        tells_text(c.deep_view().session_id, c.session_id),
        tells_text(c.deep_view().tenant_id, c.tenant_id),
        c.deep_view().stored_at == c.stored_at,
        c.deep_view().expires_at == c.expires_at,
{
}

/// A failure is viewed as it is, and a result as its success or its failure.
pub proof fn law_view_of_failure(e: ContentStoreError, result: Result<String, ContentStoreError>)
    ensures
        match e {
            ContentStoreError::SizeLimit { limit_bytes, actual_bytes } => e.deep_view() == (
            ErrorView::SizeLimit {
                limit_bytes: limit_bytes as nat,
                actual_bytes: actual_bytes as nat,
            }),
            ContentStoreError::Storage { message } => e.deep_view() == (ErrorView::Storage {
                message: message@,
            }),
        },
        crate::content::outcome(result) == (match result {
            Ok(text) => Ok::<Seq<char>, ErrorView>(text@),
            Err(why) => Err(why.deep_view()),
        }),
{
}

/// What is written is viewed as it is.
pub proof fn law_view_of_writes(object: PutObject, record: PutAlias, failed: PutAliasFailure)
    ensures
        object.deep_view().key == object.key@,
        object.deep_view().content_type == object.content_type@,
        object.deep_view().body == object.body@,
        tells_metadata(object.deep_view().metadata, object.metadata),
        record.deep_view().key == record.key@,
        record.deep_view().content_type == record.content_type@,
        record.deep_view().record.target_hash == record.record.target_hash@,
        record.deep_view().record.expires_at == record.record.expires_at,
        failed.deep_view() == (match failed {
            PutAliasFailure::Encode(why) => PutAliasFailureView::Encode(why@),
            PutAliasFailure::Send(why) => PutAliasFailureView::Send(why@),
        }),
{
}

/// The answers of a bucket are viewed as they are.
pub proof fn law_view_of_answers(
    alias: AliasReply,
    head: HeadReply,
    blob: BlobReply,
    body: Result<Vec<u8>, String>,
    record: AliasRecord,
)
    ensures
        record.deep_view().target_hash == record.target_hash@,
        record.deep_view().expires_at == record.expires_at,
        match alias {
            AliasReply::Found(found) => alias.deep_view() matches AliasReplyView::Found(v)
                && v.target_hash == found.target_hash@ && v.expires_at == found.expires_at,
            AliasReply::Missing => alias.deep_view() is Missing,
            AliasReply::Failed(why) => alias.deep_view() == AliasReplyView::Failed(why@),
            AliasReply::BodyFailed(why) => alias.deep_view() == AliasReplyView::BodyFailed(why@),
            AliasReply::DecodeFailed(why) => alias.deep_view() == AliasReplyView::DecodeFailed(
                why@,
            ),
        },
        match head {
            HeadReply::Found { metadata } => head.deep_view() matches HeadReplyView::Found {
                metadata: v,
            } && tells_metadata(v, metadata),
            HeadReply::Missing => head.deep_view() is Missing,
            HeadReply::Failed(why) => head.deep_view() == HeadReplyView::Failed(why@),
        },
        match blob {
            BlobReply::Found { content_type, metadata } => blob.deep_view()
                matches BlobReplyView::Found { content_type: t, metadata: v } && tells_text(
                t,
                content_type,
            ) && tells_metadata(v, metadata),
            BlobReply::Missing => blob.deep_view() is Missing,
            BlobReply::Failed(why) => blob.deep_view() == BlobReplyView::Failed(why@),
        },
        crate::get::body_outcome(body) == (match body {
            Ok(bytes) => Ok::<Seq<u8>, Seq<char>>(bytes@),
            Err(why) => Err(why@),
        }),
{
}

/// A page of a listing is viewed as it is: every entry, in order, and where the next page starts.
pub proof fn law_view_of_page(page: ListPage)
    ensures
        page.deep_view().keys.len() == page.keys@.len(),
        forall|i: int|
            0 <= i < page.keys@.len() ==> tells_text(
                #[trigger] page.deep_view().keys[i],
                page.keys@[i],
            ),
        tells_text(page.deep_view().next, page.next),
{
}

/// What an id stands for is viewed as it is.
pub proof fn law_view_of_key_kind(kind: KeyKind)
    ensures
        kind.deep_view() == (match kind {
            KeyKind::Blob { hash } => KeyKindView::Blob { hash: hash@ },
            KeyKind::Alias { alias_id } => KeyKindView::Alias { alias_id: alias_id@ },
        }),
{
}

/// What is known of content while it is on its way is viewed as it is.
pub proof fn law_view_of_pending(blob: PendingBlob, alias: PendingAlias, content: PendingContent)
    ensures
        blob.deep_view().hash == blob.hash@,
        blob.deep_view().size_bytes == blob.size_bytes,
        blob.deep_view().mime_type == blob.mime_type@,
        blob.deep_view().expires_at == blob.expires_at,
        tells_text(blob.deep_view().session_id, blob.session_id),
        tells_text(blob.deep_view().alias, blob.alias),
        alias.deep_view().alias_id == alias.alias_id@,
        alias.deep_view().handle == alias.handle.deep_view(),
        content.deep_view().hash == content.hash@,
        content.deep_view().mime_type == content.mime_type@,
        tells_text(content.deep_view().session_id, content.session_id),
        tells_text(content.deep_view().tenant_id, content.tenant_id),
        content.deep_view().stored_at == content.stored_at,
        content.deep_view().expires_at == content.expires_at,
{
}

/// The steps of a put are viewed as they are.
pub proof fn law_view_of_put(step: PutStep)
    ensures
        match step {
            PutStep::WriteBlob { object, pending } => step.deep_view() == (PutStepView::WriteBlob {
                object: object.deep_view(),
                pending: pending.deep_view(),
            }),
            PutStep::WriteAlias { record, pending_alias } => step.deep_view() == (
            PutStepView::WriteAlias {
                record: record.deep_view(),
                pending_alias: pending_alias.deep_view(),
            }),
            PutStep::Done(Ok(handle)) => step.deep_view() == PutStepView::Done(
                Ok(handle.deep_view()),
            ),
            PutStep::Done(Err(e)) => step.deep_view() == PutStepView::Done(Err(e.deep_view())),
        },
{
}

/// The steps of a read are viewed as they are.
pub proof fn law_view_of_get(step: GetStep)
    ensures
        match step {
            GetStep::FetchAlias { alias_id, key } => step.deep_view() == (GetStepView::FetchAlias {
                alias_id: alias_id@,
                key: key@,
            }),
            GetStep::FetchBlob { hash, key } => step.deep_view() == (GetStepView::FetchBlob {
                hash: hash@,
                key: key@,
            }),
            GetStep::ReadBody(pending) => step.deep_view() == GetStepView::ReadBody(
                pending.deep_view(),
            ),
            GetStep::Discard { keys } => step.deep_view() matches GetStepView::Discard { keys: v }
                && tells_texts(v, keys),
            GetStep::Done(Ok(Some(content))) => step.deep_view() == GetStepView::Done(
                Ok(Some(content.deep_view())),
            ),
            GetStep::Done(Ok(None)) => step.deep_view() == GetStepView::Done(Ok(None)),
            GetStep::Done(Err(e)) => step.deep_view() == GetStepView::Done(Err(e.deep_view())),
        },
{
}

/// The steps of a deletion are viewed as they are.
pub proof fn law_view_of_delete(step: DeleteStep)
    ensures
        match step {
            DeleteStep::DeleteBlob { hash, key } => step.deep_view() == (
            DeleteStepView::DeleteBlob { hash: hash@, key: key@ }),
            DeleteStep::FetchAlias { alias_id, key } => step.deep_view() == (
            DeleteStepView::FetchAlias { alias_id: alias_id@, key: key@ }),
            DeleteStep::DeleteTarget { alias_id, key } => step.deep_view() == (
            DeleteStepView::DeleteTarget { alias_id: alias_id@, key: key@ }),
            DeleteStep::DeleteAlias { alias_id, key } => step.deep_view() == (
            DeleteStepView::DeleteAlias { alias_id: alias_id@, key: key@ }),
            DeleteStep::Done(Ok(())) => step.deep_view() == DeleteStepView::Done(Ok(())),
            DeleteStep::Done(Err(e)) => step.deep_view() == DeleteStepView::Done(
                Err(e.deep_view()),
            ),
        },
{
}

/// The steps of a link are viewed as they are, and the terms that it is signed on by the lifetime
/// that they give.
pub proof fn law_view_of_sign(step: SignStep)
    ensures
        match step {
            SignStep::FetchAlias { alias_id, key } => step.deep_view() == (
            SignStepView::FetchAlias { alias_id: alias_id@, key: key@ }),
            SignStep::HeadBlob { hash, key } => step.deep_view() == (SignStepView::HeadBlob {
                hash: hash@,
                key: key@,
            }),
            SignStep::Presign { hash, key, terms } => step.deep_view() == (SignStepView::Presign {
                hash: hash@,
                key: key@,
                ttl: terms.lifetime(),
            }),
            SignStep::Done(Ok(Some(url))) => step.deep_view() == SignStepView::Done(Ok(Some(url@))),
            SignStep::Done(Ok(None)) => step.deep_view() == SignStepView::Done(Ok(None)),
            SignStep::Done(Err(e)) => step.deep_view() == SignStepView::Done(Err(e.deep_view())),
        },
{
}

/// The steps of a sweep, and how far it has come, are viewed as they are.
pub proof fn law_view_of_sweep(step: SweepStep, progress: SweepProgress)
    ensures
        progress.deep_view().removed == progress.removed,
        tells_texts(progress.deep_view().todo, progress.todo),
        tells_text(progress.deep_view().next, progress.next),
        match step {
            SweepStep::List { prefix, continuation, removed } => step.deep_view()
                matches SweepStepView::List { prefix: p, continuation: c, removed: n } && p
                == prefix@ && tells_text(c, continuation) && n == removed,
            SweepStep::Head { hash, key, progress } => step.deep_view() == (SweepStepView::Head {
                hash: hash@,
                key: key@,
                progress: progress.deep_view(),
            }),
            SweepStep::Delete { hash, key, progress } => step.deep_view() == (
            SweepStepView::Delete { hash: hash@, key: key@, progress: progress.deep_view() }),
            SweepStep::Done { removed } => step.deep_view() == (SweepStepView::Done {
                removed: removed as nat,
            }),
        },
{
}

} // verus!
