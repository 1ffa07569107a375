//! What the operations of the store promise, in the very texts and numbers that go in and come out:
//! which id is looked for under which key, what is written, what is read, and what is said of a
//! failure.
use crate::content::AliasView;
use crate::content::ContentView;
use crate::content::ErrorView;
use crate::content::HandleView;
use crate::content::ResourceView;
use crate::delete::DeleteStepView;
use crate::get::GetStepView;
use crate::get::PendingContentView;
use crate::put::PendingAliasView;
use crate::put::PendingBlobView;
use crate::put::PutStepView;
use crate::requests::AliasReplyView;
use crate::requests::BlobReplyView;
use crate::requests::HeadReplyView;
use crate::requests::PutAliasFailureView;
use crate::sign::SignStepView;
use crate::store::StoreView;
use crate::sweep::SweepStepView;
use crate::time::Timestamp;
use crate::time::Ttl;
use vstd::prelude::*;

verus! {

/// Whether an id names the content with this hash: it is `hash:` and the hash, or the hash alone
/// where that is made of hexadecimal digits.
pub open spec fn names_content(id: Seq<char>, hash: Seq<char>) -> bool {
    ||| id == "hash:"@ + hash
    ||| id == hash && hash.len() > 0 && forall|i: int|
        0 <= i < hash.len() ==> {
            ||| '0' <= #[trigger] hash[i] <= '9'
            ||| 'a' <= hash[i] <= 'f'
            ||| 'A' <= hash[i] <= 'F'
        }
}

/// Whether an id names an alias.
pub open spec fn names_alias(id: Seq<char>) -> bool {
    "alias:"@.is_prefix_of(id)
}

/// Whether an instant has come by `now`.
pub open spec fn has_come(t: Option<Timestamp>, now: Timestamp) -> bool {
    t matches Some(t) && (t.secs < now.secs || t.secs == now.secs && t.nanos <= now.nanos)
}

/// The message of a failure.
pub open spec fn failure(message: Seq<char>) -> ErrorView {
    ErrorView::Storage { message }
}

/// An id stands for the content or the alias that it names, whatever is asked of it, and any other
/// id stands for nothing.
pub proof fn law_id_stands_for_what_it_names(id: Seq<char>, hash: Seq<char>)
    ensures
        names_content(id, hash) ==> crate::keys::resolve(id) == Some(
            crate::keys::KeyKindView::Blob { hash },
        ),
        names_alias(id) ==> crate::keys::resolve(id) == Some(
            crate::keys::KeyKindView::Alias { alias_id: id },
        ),
        (forall|h: Seq<char>| !#[trigger] names_content(id, h)) && !names_alias(id)
            ==> crate::keys::resolve(id) is None,
{
    reveal_strlit("hash:");
    reveal_strlit("alias:");
    crate::keys::law_hash_id_resolves(hash);
    if crate::keys::is_bare_hash(hash) {
        crate::keys::law_bare_hash_resolves(hash);
    }
    if names_content(id, hash) && id == hash && id != "hash:"@ + hash {
        assert forall|i: int| 0 <= i < hash.len() implies crate::text::is_hex_digit(
            #[trigger] hash[i],
        ) by {
            assert('0' <= hash[i]);
        }
    }
    if names_alias(id) {
        assert(id.subrange(0, 6)[0] == 'a');
        if "hash:"@.is_prefix_of(id) {
            assert(id.subrange(0, 5)[0] == 'h');
        }
    }
    if (forall|h: Seq<char>| !#[trigger] names_content(id, h)) && !names_alias(id) {
        assert(!names_content(id, id.skip(5)));
        assert(!names_content(id, id));
        if "hash:"@.is_prefix_of(id) {
            assert(id =~= "hash:"@ + id.skip(5));
        }
        if crate::keys::is_bare_hash(id) {
            assert forall|i: int| 0 <= i < id.len() implies {
                ||| '0' <= #[trigger] id[i] <= '9'
                ||| 'a' <= id[i] <= 'f'
                ||| 'A' <= id[i] <= 'F'
            } by {
                assert(crate::text::is_hex_digit(id[i]));
            }
        }
    }
}

/// Content lies under `blobs/` and its hash, and an alias record under `aliases/` and the base64 text
/// of its id, both behind the key prefix of the store.
pub proof fn law_keys_are_spelled(prefix: Seq<char>, name: Seq<char>)
    ensures
        crate::keys::blob_key(prefix, name) == prefix + "blobs/"@ + name,
        crate::keys::blobs_prefix(prefix) == prefix + "blobs/"@,
        crate::keys::alias_key(prefix, name) == prefix + "aliases/"@
            + crate::encoding::base64url_of_text(name),
{
}

/// A read by id asks for the object `blobs/` and the hash that the id names, or for the record of the
/// alias that it names. Under any other id there is nothing, and nothing is asked for.
pub proof fn law_read_asks_for_what_the_id_names(store: StoreView, id: Seq<char>, hash: Seq<char>)
    ensures
        names_content(id, hash) ==> crate::get::get_start(store, id) == (GetStepView::FetchBlob {
            hash,
            key: store.prefix + "blobs/"@ + hash,
        }),
        names_alias(id) ==> crate::get::get_start(store, id) == (GetStepView::FetchAlias {
            alias_id: id,
            key: store.prefix + "aliases/"@ + crate::encoding::base64url_of_text(id),
        }),
        (forall|h: Seq<char>| !#[trigger] names_content(id, h)) && !names_alias(id)
            ==> crate::get::get_start(store, id) == GetStepView::Done(Ok(None)),
{
    law_id_stands_for_what_it_names(id, hash);
}

/// A deletion by id deletes the object `blobs/` and the hash that the id names, or asks for the
/// record of the alias that it names. Under any other id there is nothing to delete.
pub proof fn law_deletion_is_of_what_the_id_names(store: StoreView, id: Seq<char>, hash: Seq<char>)
    ensures
        names_content(id, hash) ==> crate::delete::delete_start(store, id) == (
        DeleteStepView::DeleteBlob { hash, key: store.prefix + "blobs/"@ + hash }),
        names_alias(id) ==> crate::delete::delete_start(store, id) == (DeleteStepView::FetchAlias {
            alias_id: id,
            key: store.prefix + "aliases/"@ + crate::encoding::base64url_of_text(id),
        }),
        (forall|h: Seq<char>| !#[trigger] names_content(id, h)) && !names_alias(id)
            ==> crate::delete::delete_start(store, id) == DeleteStepView::Done(Ok(())),
{
    law_id_stands_for_what_it_names(id, hash);
}

/// A link for longer than seven days, if only by a nanosecond, is refused with its lifetime. For any
/// other the head of the object, or the record of the alias, that the id names is asked for. Under
/// any other id there is nothing to link to.
pub proof fn law_link_is_to_what_the_id_names(
    store: StoreView,
    id: Seq<char>,
    hash: Seq<char>,
    ttl: Ttl,
)
    requires
        ttl.nanos < 1_000_000_000,
    ensures
        ({
            let step = crate::sign::sign_start(store, id, ttl);
            if ttl.secs * 1_000_000_000 + ttl.nanos > 7 * 24 * 60 * 60 * 1_000_000_000 {
                step == SignStepView::Done(
                    Err(
                        failure(
                            "signed URL ttl "@ + crate::time::duration_debug(ttl.secs, ttl.nanos)
                                + " exceeds 7-day SigV4 maximum"@,
                        ),
                    ),
                )
            } else {
                &&& names_content(id, hash) ==> step == (SignStepView::HeadBlob {
                    hash,
                    key: store.prefix + "blobs/"@ + hash,
                })
                &&& names_alias(id) ==> step == (SignStepView::FetchAlias {
                    alias_id: id,
                    key: store.prefix + "aliases/"@ + crate::encoding::base64url_of_text(id),
                })
                &&& (forall|h: Seq<char>| !#[trigger] names_content(id, h)) && !names_alias(id)
                    ==> step == SignStepView::Done(Ok(None))
            }
        }),
{
    law_id_stands_for_what_it_names(id, hash);
}

/// A read through an alias record goes on to the content that the record names, unless the record
/// expires at `now` or before: then the record and that content are to be deleted, in this order.
pub proof fn law_read_through_an_alias(
    store: StoreView,
    alias_id: Seq<char>,
    record: AliasView,
    now: Timestamp,
)
    ensures
        crate::get::get_after_alias(store, alias_id, AliasReplyView::Found(record), now) == (
        if has_come(record.expires_at, now) {
            GetStepView::Discard {
                keys: seq![
                    store.prefix + "aliases/"@ + crate::encoding::base64url_of_text(alias_id),
                    store.prefix + "blobs/"@ + record.target_hash,
                ],
            }
        } else {
            GetStepView::FetchBlob {
                hash: record.target_hash,
                key: store.prefix + "blobs/"@ + record.target_hash,
            }
        }),
{
}

/// An alias without a record leads to nothing: there is nothing to read and nothing to link to, and
/// of a deletion only the record is left to be deleted.
pub proof fn law_missing_alias(store: StoreView, alias_id: Seq<char>, now: Timestamp)
    ensures
        crate::get::get_after_alias(store, alias_id, AliasReplyView::Missing, now)
            == GetStepView::Done(Ok(None)),
        crate::sign::sign_after_alias(store, alias_id, AliasReplyView::Missing)
            == SignStepView::Done(Ok(None)),
        crate::delete::delete_after_alias(store, alias_id, AliasReplyView::Missing) == (
        DeleteStepView::DeleteAlias {
            alias_id,
            key: store.prefix + "aliases/"@ + crate::encoding::base64url_of_text(alias_id),
        }),
{
}

/// Where an alias record cannot be had, a read, a link and a deletion fail with what was tried, the
/// alias and the reason, and nothing is deleted.
pub proof fn law_failed_alias(
    store: StoreView,
    alias_id: Seq<char>,
    why: Seq<char>,
    now: Timestamp,
    reply: AliasReplyView,
    message: Seq<char>,
)
    requires
        ({
            ||| reply == AliasReplyView::Failed(why) && message == "GetObject alias "@ + alias_id
                + ": "@ + why
            ||| reply == AliasReplyView::BodyFailed(why) && message == "read alias body "@ + alias_id
                + ": "@ + why
            ||| reply == AliasReplyView::DecodeFailed(why) && message == "decode alias "@ + alias_id
                + ": "@ + why
        }),
    ensures
        crate::store::alias_outcome(alias_id, reply) == Err::<Option<AliasView>, ErrorView>(
            failure(message),
        ),
        crate::get::get_after_alias(store, alias_id, reply, now) == GetStepView::Done(
            Err(failure(message)),
        ),
        crate::sign::sign_after_alias(store, alias_id, reply) == SignStepView::Done(
            Err(failure(message)),
        ),
        crate::delete::delete_after_alias(store, alias_id, reply) == DeleteStepView::Done(
            Err(failure(message)),
        ),
{
}

/// What an answer with an alias record or without one means is just that.
pub proof fn law_alias_answers(alias_id: Seq<char>, record: AliasView)
    ensures
        crate::store::alias_outcome(alias_id, AliasReplyView::Found(record)) == Ok::<
            Option<AliasView>,
            ErrorView,
        >(Some(record)),
        crate::store::alias_outcome(alias_id, AliasReplyView::Missing) == Ok::<
            Option<AliasView>,
            ErrorView,
        >(None),
{
}

/// The mime type of an object is that of its metadata, else its content type, else that of any
/// bytes.
pub open spec fn is_mime_of(
    mime: Seq<char>,
    content_type: Option<Seq<char>>,
    metadata: Seq<(Seq<char>, Seq<char>)>,
) -> bool {
    match crate::metadata::lookup(metadata, "mcpg-mime"@) {
        Some(told) => mime == told,
        None => mime == content_type.unwrap_or("application/octet-stream"@),
    }
}

/// An object whose expiry has come by `now` is to be deleted, and it alone. The body of any other is
/// read, and what the metadata tells goes with it. Without an instant at which it was stored, it
/// counts as stored at `now`.
pub proof fn law_read_of_an_object(
    store: StoreView,
    hash: Seq<char>,
    content_type: Option<Seq<char>>,
    metadata: Seq<(Seq<char>, Seq<char>)>,
    now: Timestamp,
)
    ensures
        ({
            let step = crate::get::get_after_blob(
                store,
                hash,
                BlobReplyView::Found { content_type, metadata },
                now,
            );
            let expires_at = crate::metadata::lookup_instant(metadata, "mcpg-expires-at"@);
            if has_come(expires_at, now) {
                step == (GetStepView::Discard { keys: seq![store.prefix + "blobs/"@ + hash] })
            } else {
                step matches GetStepView::ReadBody(told) && {
                    &&& told.hash == hash
                    &&& told.expires_at == expires_at
                    &&& told.stored_at == crate::metadata::lookup_instant(
                        metadata,
                        "mcpg-stored-at"@,
                    ).unwrap_or(now)
                    &&& told.session_id == crate::metadata::lookup(metadata, "mcpg-session"@)
                    &&& told.tenant_id == crate::metadata::lookup(metadata, "mcpg-tenant"@)
                    &&& is_mime_of(told.mime_type, content_type, metadata)
                }
            }
        }),
{
}

/// Where there is no object there is nothing to read, and where it cannot be had, or its body cannot
/// be read, the failure tells the hash and the reason.
pub proof fn law_read_without_an_object(
    store: StoreView,
    hash: Seq<char>,
    why: Seq<char>,
    pending: PendingContentView,
    now: Timestamp,
)
    ensures
        crate::get::get_after_blob(store, hash, BlobReplyView::Missing, now) == GetStepView::Done(
            Ok(None),
        ),
        crate::get::get_after_blob(store, hash, BlobReplyView::Failed(why), now)
            == GetStepView::Done(Err(failure("GetObject "@ + hash + ": "@ + why))),
        crate::get::get_after_body(pending, Err(why)) == Err::<Option<ResourceView>, ErrorView>(
            failure("read blob body "@ + pending.hash + ": "@ + why),
        ),
{
}

/// The bytes that were read are what is given back, together with what was told of them.
pub proof fn law_read_bytes_are_given_back(pending: PendingContentView, bytes: Seq<u8>)
    ensures
        crate::get::get_after_body(pending, Ok(bytes)) matches Ok(Some(resource)) && {
            &&& resource.bytes == bytes
            &&& resource.mime_type == pending.mime_type
            &&& resource.session_id == pending.session_id
            &&& resource.tenant_id == pending.tenant_id
            &&& resource.stored_at == pending.stored_at
            &&& resource.expires_at == pending.expires_at
        },
{
}

/// With a record, first the content that it names is deleted, whether or not it has expired, and
/// then the record itself.
pub proof fn law_deletion_through_an_alias(
    store: StoreView,
    alias_id: Seq<char>,
    record: AliasView,
)
    ensures
        crate::delete::delete_after_alias(store, alias_id, AliasReplyView::Found(record)) == (
        DeleteStepView::DeleteTarget {
            alias_id,
            key: store.prefix + "blobs/"@ + record.target_hash,
        }),
        crate::delete::delete_record(store, alias_id) == (DeleteStepView::DeleteAlias {
            alias_id,
            key: store.prefix + "aliases/"@ + crate::encoding::base64url_of_text(alias_id),
        }),
{
}

/// A deletion succeeds just where its request does, and else it tells what was to be deleted and why
/// it was not.
pub proof fn law_deletion_ends_as_its_request(of: Seq<char>, why: Seq<char>)
    ensures
        crate::store::delete_blob_outcome(of, Ok(())) == Ok::<(), ErrorView>(()),
        crate::store::delete_blob_outcome(of, Err(why)) == Err::<(), ErrorView>(
            failure("DeleteObject "@ + of + ": "@ + why),
        ),
        crate::store::delete_alias_outcome(of, Ok(())) == Ok::<(), ErrorView>(()),
        crate::store::delete_alias_outcome(of, Err(why)) == Err::<(), ErrorView>(
            failure("DeleteObject alias "@ + of + ": "@ + why),
        ),
{
}

/// A link through an alias is one to the content that its record names, whether or not the record
/// has expired.
pub proof fn law_link_through_an_alias(store: StoreView, alias_id: Seq<char>, record: AliasView)
    ensures
        crate::sign::sign_after_alias(store, alias_id, AliasReplyView::Found(record)) == (
        SignStepView::HeadBlob {
            hash: record.target_hash,
            key: store.prefix + "blobs/"@ + record.target_hash,
        }),
{
}

/// A link is signed for an object that is there, for its own key and for just the lifetime that was
/// asked for, up to seven days, whatever its metadata. There is none for an object that is missing,
/// and a failure tells the hash and the reason.
pub proof fn law_link_is_signed_for_what_is_there(
    store: StoreView,
    hash: Seq<char>,
    ttl: Ttl,
    metadata: Seq<(Seq<char>, Seq<char>)>,
    why: Seq<char>,
)
    requires
        ttl.nanos < 1_000_000_000,
    ensures
        crate::sign::sign_after_head(store, hash, ttl, HeadReplyView::Found { metadata }) == (
        if ttl.secs * 1_000_000_000 + ttl.nanos <= 7 * 24 * 60 * 60 * 1_000_000_000 {
            SignStepView::Presign { hash, key: store.prefix + "blobs/"@ + hash, ttl }
        } else {
            SignStepView::Done(
                Err(
                    failure(
                        "presigning config: "@ + "`expires_in` must be no longer than one week"@,
                    ),
                ),
            )
        }),
        crate::sign::sign_after_head(store, hash, ttl, HeadReplyView::Missing)
            == SignStepView::Done(Ok(None)),
        crate::sign::sign_after_head(store, hash, ttl, HeadReplyView::Failed(why))
            == SignStepView::Done(Err(failure("HeadObject "@ + hash + ": "@ + why))),
{
}

/// The link that is handed out is the one that was signed, character for character. Where signing
/// fails, the hash and the reason are told.
pub proof fn law_link_is_what_was_signed(hash: Seq<char>, url: Seq<char>, why: Seq<char>)
    ensures
        crate::sign::sign_after_presign(hash, Ok(url)) == Ok::<Option<Seq<char>>, ErrorView>(
            Some(url),
        ),
        crate::sign::sign_after_presign(hash, Err(why)) == Err::<Option<Seq<char>>, ErrorView>(
            failure("presign "@ + hash + ": "@ + why),
        ),
{
}

/// Whether `end` is when something ends that begins at `start` and lasts for `ttl`, to the
/// nanosecond. Without a lifetime, or with one of more milliseconds than an `i64` holds, it has none.
pub open spec fn is_end_of(end: Option<Timestamp>, start: Timestamp, ttl: Option<Ttl>) -> bool {
    match ttl {
        Some(d) if d.secs * 1_000_000_000 + d.nanos <= i64::MAX * 1_000_000 => {
            end matches Some(t) && t.nanos < 1_000_000_000 && t.secs * 1_000_000_000 + t.nanos
                == start.secs * 1_000_000_000 + start.nanos + d.secs * 1_000_000_000 + d.nanos
        },
        _ => end is None,
    }
}

/// A lifetime ends as many nanoseconds after its start as it has. Its end can be told just where it
/// lies before the end of the last second that has a date, or there is none.
pub proof fn law_lifetime_ends_after_its_length(start: Timestamp, ttl: Option<Ttl>)
    requires
        start.is_clock_reading(),
        ttl matches Some(d) ==> d.valid(),
    ensures
        crate::time::expiry_in_range(start, ttl) <==> (ttl matches Some(d) ==> d.secs * 1_000_000_000
            + d.nanos <= i64::MAX * 1_000_000 ==> start.secs * 1_000_000_000 + start.nanos + d.secs
            * 1_000_000_000 + d.nanos < 8_210_266_876_800 * 1_000_000_000),
        crate::time::expiry_in_range(start, ttl) ==> is_end_of(
            crate::time::expiry(start, ttl),
            start,
            ttl,
        ),
{
}

/// Something has expired just where its expiry has come.
pub proof fn law_expired_is_what_has_come(expires_at: Option<Timestamp>, now: Timestamp)
    ensures
        crate::time::is_expired(expires_at, now) <==> has_come(expires_at, now),
        expires_at matches Some(t) ==> t.is_clock_reading() && now.is_clock_reading() ==> (
        crate::time::is_expired(expires_at, now) <==> t.secs * 1_000_000_000 + t.nanos <= now.secs
            * 1_000_000_000 + now.nanos),
{
}

/// Of entries with the same name the first one counts, and under a name that no entry has there is
/// nothing.
pub proof fn law_first_entry_counts(
    metadata: Seq<(Seq<char>, Seq<char>)>,
    name: Seq<char>,
    i: int,
)
    ensures
        0 <= i < metadata.len() && metadata[i].0 == name && (forall|j: int|
            0 <= j < i ==> (#[trigger] metadata[j]).0 != name) ==> crate::metadata::lookup(
            metadata,
            name,
        ) == Some(metadata[i].1),
        (forall|j: int| 0 <= j < metadata.len() ==> (#[trigger] metadata[j]).0 != name)
            ==> crate::metadata::lookup(metadata, name) is None,
    decreases metadata.len(),
{
    if metadata.len() > 0 && metadata[0].0 != name {
        law_first_entry_counts(metadata.drop_first(), name, i - 1);
        if i < metadata.len() && (forall|j: int| 0 <= j < i ==> (#[trigger] metadata[j]).0 != name) {
            assert forall|j: int| 0 <= j < i - 1 implies (
            #[trigger] metadata.drop_first()[j]).0 != name by {
                assert(metadata[j + 1].0 != name);
            }
        }
        if forall|j: int| 0 <= j < metadata.len() ==> (#[trigger] metadata[j]).0 != name {
            assert forall|j: int| 0 <= j < metadata.drop_first().len() implies (
            #[trigger] metadata.drop_first()[j]).0 != name by {
                assert(metadata[j + 1].0 != name);
            }
        }
    }
}

/// The instant under a name is the one that its text stands for in RFC 3339. Under a text that is no
/// instant, and under no text, there is none.
pub proof fn law_instant_is_read_from_its_text(
    metadata: Seq<(Seq<char>, Seq<char>)>,
    name: Seq<char>,
)
    ensures
        crate::metadata::lookup_instant(metadata, name) == (match crate::metadata::lookup(
            metadata,
            name,
        ) {
            Some(text) => match crate::time::rfc3339_instant(text) {
                Some((secs, nanos)) => Some(Timestamp { secs, nanos }),
                None => None,
            },
            None => None,
        }),
{
}

/// The number that a text of decimal digits stands for.
pub open spec fn decimal_value(text: Seq<char>) -> int
    decreases text.len(),
{
    if text.len() == 0 {
        0
    } else {
        decimal_value(text.drop_last()) * 10 + (text.last() as int - '0' as int)
    }
}

/// The decimal writing of a number is made of digits, stands for that number, and begins with a zero
/// only for zero itself.
pub proof fn law_decimal_tells_the_number(n: nat)
    ensures
        decimal_value(crate::text::decimal(n)) == n,
        crate::text::decimal(n).len() > 0,
        forall|i: int|
            0 <= i < crate::text::decimal(n).len() ==> '0' <= #[trigger] crate::text::decimal(n)[i]
                <= '9',
        crate::text::decimal(n)[0] == '0' <==> n == 0,
    decreases n,
{
    reveal_with_fuel(decimal_value, 2);
    if n < 10 {
        assert(crate::text::decimal(n).drop_last() =~= seq![]);
    } else {
        law_decimal_tells_the_number(n / 10);
        let front = crate::text::decimal(n / 10);
        assert(crate::text::decimal(n).drop_last() =~= front);
        assert forall|i: int| 0 <= i < crate::text::decimal(n).len() implies '0'
            <= #[trigger] crate::text::decimal(n)[i] <= '9' by {
            if i < front.len() {
                assert(crate::text::decimal(n)[i] == front[i]);
            }
        }
        assert(crate::text::decimal(n)[0] == front[0]);
    }
}

/// The number that a lower-case hexadecimal digit stands for.
pub open spec fn hex_value(c: char) -> int {
    if '0' <= c <= '9' {
        c as int - '0' as int
    } else {
        c as int - 'a' as int + 10
    }
}

/// The hash of content spells out its BLAKE3 digest, two lower-case hexadecimal digits to a byte.
pub proof fn law_hash_spells_the_digest(bytes: Seq<u8>, i: int)
    ensures
        ({
            let hash = crate::put::content_hash(bytes);
            let digest = crate::encoding::blake3_digest(bytes);
            &&& hash.len() == 2 * digest.len()
            &&& 0 <= i < hash.len() ==> '0' <= hash[i] <= '9' || 'a' <= hash[i] <= 'f'
            &&& 0 <= i < digest.len() ==> hex_value(hash[2 * i]) * 16 + hex_value(hash[2 * i + 1])
                == digest[i]
        }),
{
}

/// Content of more bytes than the bound of the store, where that is not zero, is refused with both
/// numbers, and the bucket stays as it is. Any other content is written.
pub proof fn law_put_is_refused_just_over_the_bound(
    bucket: crate::bucket::BucketView,
    store: StoreView,
    content: ContentView,
    stored_at: Timestamp,
    step: PutStepView,
)
    requires
        crate::put::put_starts_with(store, content, stored_at, step),
    ensures
        if store.max_bytes > 0 && content.bytes.len() > store.max_bytes {
            &&& step == PutStepView::Done(
                Err(
                    ErrorView::SizeLimit {
                        limit_bytes: store.max_bytes as nat,
                        actual_bytes: content.bytes.len(),
                    },
                ),
            )
            &&& bucket.put_from(store, step) == (
                Err::<HandleView, ErrorView>(
                    ErrorView::SizeLimit {
                        limit_bytes: store.max_bytes as nat,
                        actual_bytes: content.bytes.len(),
                    },
                ),
                bucket,
            )
        } else {
            &&& step is WriteBlob
            &&& bucket.put_from(store, step).0 is Ok
        },
{
}

/// Whether this is an entry that the metadata of content has: its mime type, when it was stored and
/// its size, and when it expires, its session and its tenant as far as it has them.
pub open spec fn is_entry_of(
    entry: (Seq<char>, Seq<char>),
    content: ContentView,
    stored_at: Timestamp,
    expires_at: Option<Timestamp>,
) -> bool {
    ||| entry == ("mcpg-mime"@, content.mime_type)
    ||| entry == ("mcpg-stored-at"@, crate::time::rfc3339_text(stored_at.secs, stored_at.nanos))
    ||| entry == ("mcpg-size"@, crate::text::decimal(content.bytes.len()))
    ||| expires_at matches Some(t) && entry == (
        "mcpg-expires-at"@,
        crate::time::rfc3339_text(t.secs, t.nanos),
    )
    ||| content.session_id matches Some(session) && entry == ("mcpg-session"@, session)
    ||| content.tenant_id matches Some(tenant) && entry == ("mcpg-tenant"@, tenant)
}

/// What is written for content that is not refused: its bytes, under `blobs/` and its hash, with its
/// mime type. The metadata has the six entries, as far as content has them, and no others.
pub proof fn law_put_writes_the_content(
    store: StoreView,
    content: ContentView,
    stored_at: Timestamp,
    step: PutStepView,
    entry: (Seq<char>, Seq<char>),
)
    requires
        crate::put::put_starts_with(store, content, stored_at, step),
        store.max_bytes == 0 || content.bytes.len() <= store.max_bytes,
        stored_at.is_clock_reading(),
        content.ttl matches Some(ttl) ==> ttl.valid(),
        crate::time::expiry_in_range(stored_at, content.ttl),
    ensures
        step matches PutStepView::WriteBlob { object, pending } && {
            &&& pending.hash == crate::put::content_hash(content.bytes)
            &&& pending.size_bytes == content.bytes.len()
            &&& pending.mime_type == content.mime_type
            &&& pending.session_id == content.session_id
            &&& pending.alias == content.alias
            &&& is_end_of(pending.expires_at, stored_at, content.ttl)
            &&& object.key == store.prefix + "blobs/"@ + pending.hash
            &&& object.content_type == content.mime_type
            &&& object.body == content.bytes
            &&& object.metadata.contains(entry) <==> is_entry_of(
                entry,
                content,
                stored_at,
                pending.expires_at,
            )
            &&& object.metadata.len() == 3 + (if pending.expires_at is Some {
                1int
            } else {
                0
            }) + (if content.session_id is Some {
                1int
            } else {
                0
            }) + (if content.tenant_id is Some {
                1int
            } else {
                0
            })
        },
{
    law_lifetime_ends_after_its_length(stored_at, content.ttl);
    let tags = crate::put::tags_for(content, stored_at);
    let fixed = seq![
        ("mcpg-mime"@, content.mime_type),
        ("mcpg-stored-at"@, crate::time::rfc3339_text(stored_at.secs, stored_at.nanos)),
        ("mcpg-size"@, crate::text::decimal(content.bytes.len())),
    ];
    let expiry = crate::metadata::entry(
        "mcpg-expires-at"@,
        crate::metadata::optional_stamp(tags.expires_at),
    );
    let session = crate::metadata::entry("mcpg-session"@, content.session_id);
    let tenant = crate::metadata::entry("mcpg-tenant"@, content.tenant_id);
    assert(crate::metadata::metadata_for(tags) =~= fixed + expiry + session + tenant);
    vstd::seq_lib::lemma_seq_concat_contains_all_elements(fixed + expiry + session, tenant, entry);
    vstd::seq_lib::lemma_seq_concat_contains_all_elements(fixed + expiry, session, entry);
    vstd::seq_lib::lemma_seq_concat_contains_all_elements(fixed, expiry, entry);
    assert(fixed.contains(fixed[0]) && fixed.contains(fixed[1]) && fixed.contains(fixed[2]));
    assert(tags.expires_at is Some ==> expiry.contains(expiry[0]));
    assert(content.session_id is Some ==> session.contains(session[0]));
    assert(content.tenant_id is Some ==> tenant.contains(tenant[0]));
}

/// The handle of content tells its id, a URI with that id, its size, its mime type, its expiry and
/// its hash.
pub open spec fn is_handle_of(
    handle: HandleView,
    id: Seq<char>,
    pending: PendingBlobView,
) -> bool {
    &&& handle.id == id
    &&& handle.uri == "mcpg-resource://"@ + id
    &&& handle.size_bytes == pending.size_bytes
    &&& handle.mime_type == pending.mime_type
    &&& handle.expires_at == pending.expires_at
    &&& handle.content_hash == "blake3:"@ + pending.hash
}

/// After the object was written, content without an alias is done under `hash:` and its hash. With
/// an alias, a record in JSON is written first that names the hash and expires with the content,
/// under the id made of its session, or `__no_session__`, and the alias. If the object was not
/// written, nothing more is, and the failure tells the hash and the reason.
pub proof fn law_put_after_its_object(store: StoreView, pending: PendingBlobView, why: Seq<char>)
    ensures
        ({
            let step = crate::put::put_after_blob(store, pending, Ok(()));
            match pending.alias {
                None => step matches PutStepView::Done(Ok(handle)) && is_handle_of(
                    handle,
                    "hash:"@ + pending.hash,
                    pending,
                ),
                Some(alias) => {
                    let id = "alias:"@ + pending.session_id.unwrap_or("__no_session__"@) + ":"@
                        + alias;
                    step matches PutStepView::WriteAlias { record, pending_alias } && {
                        &&& record.key == store.prefix + "aliases/"@
                            + crate::encoding::base64url_of_text(id)
                        &&& record.content_type == "application/json"@
                        &&& record.record.target_hash == pending.hash
                        &&& record.record.expires_at == pending.expires_at
                        &&& pending_alias.alias_id == id
                        &&& is_handle_of(pending_alias.handle, id, pending)
                    }
                },
            }
        }),
        crate::put::put_after_blob(store, pending, Err(why)) == PutStepView::Done(
            Err(failure("PutObject "@ + pending.hash + ": "@ + why)),
        ),
{
}

/// After the record was written, the handle is the one that was promised. If it was not written, the
/// failure tells why.
pub proof fn law_put_after_its_record(pending: PendingAliasView, why: Seq<char>)
    ensures
        crate::put::put_after_alias(pending, Ok(())) == Ok::<HandleView, ErrorView>(pending.handle),
        crate::put::put_after_alias(pending, Err(PutAliasFailureView::Encode(why))) == Err::<
            HandleView,
            ErrorView,
        >(failure("encode alias: "@ + why)),
        crate::put::put_after_alias(pending, Err(PutAliasFailureView::Send(why))) == Err::<
            HandleView,
            ErrorView,
        >(failure("PutObject alias "@ + pending.alias_id + ": "@ + why)),
{
}

/// The listing that a sweep asks for is that of all keys below `blobs/`.
pub proof fn law_sweep_lists_all_content(
    store: StoreView,
    continuation: Option<Seq<char>>,
    removed: nat,
)
    ensures
        crate::sweep::list_request(store, continuation, removed) == (SweepStepView::List {
            prefix: store.prefix + "blobs/"@,
            continuation,
            removed,
        }),
{
}

/// What is to be looked at of a page: of two pieces, what is to be looked at of the one and then of
/// the other; of a single key below the prefix, just what follows the prefix in it; and of an entry
/// with another key or none, nothing.
pub proof fn law_every_listed_key_is_looked_at(
    first: Seq<Option<Seq<char>>>,
    second: Seq<Option<Seq<char>>>,
    prefix: Seq<char>,
    hash: Seq<char>,
    key: Seq<char>,
)
    ensures
        crate::sweep::hashes_of(first + second, prefix) == crate::sweep::hashes_of(first, prefix)
            + crate::sweep::hashes_of(second, prefix),
        crate::sweep::hashes_of(seq![Some(prefix + hash)], prefix) == seq![hash],
        !prefix.is_prefix_of(key) ==> crate::sweep::hashes_of(seq![Some(key)], prefix) == Seq::<
            Seq<char>,
        >::empty(),
        crate::sweep::hashes_of(seq![None], prefix) == Seq::<Seq<char>>::empty(),
    decreases second.len(),
{
    reveal_with_fuel(crate::sweep::hashes_of, 2);
    assert(seq![Some(prefix + hash)].drop_last() =~= seq![]);
    assert(seq![Some(key)].drop_last() =~= seq![]);
    assert(seq![None::<Seq<char>>].drop_last() =~= seq![]);
    assert((prefix + hash).subrange(0, prefix.len() as int) =~= prefix);
    assert((prefix + hash).skip(prefix.len() as int) =~= hash);
    if second.len() == 0 {
        assert(first + second =~= first);
        assert(crate::sweep::hashes_of(first, prefix) + seq![] =~= crate::sweep::hashes_of(
            first,
            prefix,
        ));
    } else {
        law_every_listed_key_is_looked_at(first, second.drop_last(), prefix, hash, key);
        assert((first + second).drop_last() =~= first + second.drop_last());
        assert(crate::sweep::hashes_of(first + second, prefix) =~= crate::sweep::hashes_of(
            first,
            prefix,
        ) + crate::sweep::hashes_of(second, prefix));
    }
}

/// Wherever a key below the prefix stands on a page, what follows the prefix in it is looked at, and
/// nothing is looked at that no key on the page has behind the prefix.
pub proof fn law_what_is_looked_at_was_listed(
    keys: Seq<Option<Seq<char>>>,
    prefix: Seq<char>,
    hash: Seq<char>,
)
    ensures
        crate::sweep::hashes_of(keys, prefix).contains(hash) <==> keys.contains(
            Some(prefix + hash),
        ),
    decreases keys.len(),
{
    let hashes = crate::sweep::hashes_of(keys, prefix);
    if keys.len() > 0 {
        let front = keys.drop_last();
        let last = keys.last();
        law_what_is_looked_at_was_listed(front, prefix, hash);
        law_every_listed_key_is_looked_at(
            front,
            seq![last],
            prefix,
            last.unwrap_or(prefix).skip(prefix.len() as int),
            last.unwrap_or(prefix),
        );
        assert(keys =~= front + seq![last]);
        let tail = crate::sweep::hashes_of(seq![last], prefix);
        vstd::seq_lib::lemma_seq_concat_contains_all_elements(
            crate::sweep::hashes_of(front, prefix),
            tail,
            hash,
        );
        vstd::seq_lib::lemma_seq_concat_contains_all_elements(
            front,
            seq![last],
            Some(prefix + hash),
        );
        assert(seq![last][0] == last);
        assert((prefix + hash).subrange(0, prefix.len() as int) =~= prefix);
        assert((prefix + hash).skip(prefix.len() as int) =~= hash);
        match last {
            Some(key) => {
                if prefix.is_prefix_of(key) {
                    assert(key =~= prefix + key.skip(prefix.len() as int));
                    assert(tail[0] == key.skip(prefix.len() as int));
                }
            },
            None => {},
        }
    }
}

/// A sweep goes through a page in order. After the answer to the request for a page it looks at the
/// first object there, and at the end of a page it goes on where the page says, unless that is
/// nowhere or the page cannot be had.
pub proof fn law_sweep_goes_on(
    store: StoreView,
    removed: nat,
    keys: Seq<Option<Seq<char>>>,
    next: Option<Seq<char>>,
    why: Seq<char>,
)
    ensures
        ({
            let page = crate::requests::ListPageView { keys, next };
            let todo = crate::sweep::hashes_of(keys, store.prefix + "blobs/"@);
            let step = crate::sweep::sweep_after_list(store, removed, Ok(page));
            if todo.len() > 0 {
                step matches SweepStepView::Head { hash, key, progress } && {
                    &&& hash == todo[0]
                    &&& key == store.prefix + "blobs/"@ + hash
                    &&& progress.removed == removed
                    &&& progress.todo == todo.drop_first()
                    &&& progress.next == next
                }
            } else if next matches Some(token) && token.len() > 0 {
                step == (SweepStepView::List {
                    prefix: store.prefix + "blobs/"@,
                    continuation: next,
                    removed,
                })
            } else {
                step == (SweepStepView::Done { removed })
            }
        }),
        crate::sweep::sweep_after_list(store, removed, Err(why)) == (SweepStepView::Done {
            removed,
        }),
{
}

/// An object is deleted just where its expiry has come by `now`. Any other is passed over, one whose
/// head cannot be had too.
pub proof fn law_sweep_deletes_what_has_come(
    store: StoreView,
    hash: Seq<char>,
    progress: crate::sweep::SweepProgressView,
    metadata: Seq<(Seq<char>, Seq<char>)>,
    why: Seq<char>,
    now: Timestamp,
)
    ensures
        crate::sweep::sweep_after_head(
            store,
            hash,
            progress,
            HeadReplyView::Found { metadata },
            now,
        ) == (if has_come(
            crate::metadata::lookup_instant(metadata, "mcpg-expires-at"@),
            now,
        ) {
            SweepStepView::Delete { hash, key: store.prefix + "blobs/"@ + hash, progress }
        } else {
            crate::sweep::advance(store, progress)
        }),
        crate::sweep::sweep_after_head(store, hash, progress, HeadReplyView::Missing, now)
            == crate::sweep::advance(store, progress),
        crate::sweep::sweep_after_head(store, hash, progress, HeadReplyView::Failed(why), now)
            == crate::sweep::advance(store, progress),
{
}

/// An object that was deleted counts one more, and one that was not counts none. Either way the sweep
/// goes on with the next object of the page, or at its end.
pub proof fn law_sweep_counts_deletions(
    store: StoreView,
    progress: crate::sweep::SweepProgressView,
    reply: Result<(), Seq<char>>,
)
    ensures
        ({
            let removed = progress.removed + (if reply is Ok {
                1nat
            } else {
                0
            });
            let step = crate::sweep::sweep_after_delete(store, progress, reply);
            if progress.todo.len() > 0 {
                step matches SweepStepView::Head { hash, key, progress: rest } && {
                    &&& hash == progress.todo[0]
                    &&& key == store.prefix + "blobs/"@ + hash
                    &&& rest.removed == removed
                    &&& rest.todo == progress.todo.drop_first()
                    &&& rest.next == progress.next
                }
            } else if progress.next matches Some(token) && token.len() > 0 {
                step == (SweepStepView::List {
                    prefix: store.prefix + "blobs/"@,
                    continuation: progress.next,
                    removed,
                })
            } else {
                step == (SweepStepView::Done { removed })
            }
        }),
{
}

/// Content that expires is read or discarded by what the clock gives: where its expiry has come by
/// that instant, its object is to be deleted and not read, and otherwise its body is read.
pub proof fn law_expired_content_is_not_served(
    store: StoreView,
    hash: Seq<char>,
    content_type: Option<Seq<char>>,
    metadata: Seq<(Seq<char>, Seq<char>)>,
    step: GetStepView,
)
    requires
        crate::get::follows_blob_now(
            store,
            hash,
            BlobReplyView::Found { content_type, metadata },
            step,
        ),
        crate::metadata::lookup_instant(metadata, "mcpg-expires-at"@) is Some,
    ensures
        exists|now: Timestamp| #[trigger]
            now.was_read_from_the_clock() && if has_come(
                crate::metadata::lookup_instant(metadata, "mcpg-expires-at"@),
                now,
            ) {
                step == (GetStepView::Discard { keys: seq![store.prefix + "blobs/"@ + hash] })
            } else {
                step is ReadBody
            },
{
    let reply = BlobReplyView::Found { content_type, metadata };
    let now = choose|now: Timestamp|
        {
            &&& #[trigger] now.is_clock_reading()
            &&& crate::metadata::lookup_instant(metadata, "mcpg-expires-at"@) is Some
                ==> now.was_read_from_the_clock()
            &&& step == crate::get::get_after_blob(store, hash, reply, now)
        };
    assert(now.was_read_from_the_clock());
    law_read_of_an_object(store, hash, content_type, metadata, now);
}

/// Content that does not tell when it was stored counts as stored at the instant that the clock
/// gives.
pub proof fn law_undated_content_is_dated_by_the_clock(
    store: StoreView,
    hash: Seq<char>,
    content_type: Option<Seq<char>>,
    metadata: Seq<(Seq<char>, Seq<char>)>,
    step: GetStepView,
)
    requires
        crate::get::follows_blob_now(
            store,
            hash,
            BlobReplyView::Found { content_type, metadata },
            step,
        ),
        crate::metadata::lookup_instant(metadata, "mcpg-stored-at"@) is None,
    ensures
        step matches GetStepView::ReadBody(told) ==> told.stored_at.was_read_from_the_clock(),
{
}

/// Content without an expiry is read, whatever the clock gives, and as stored when it says.
pub proof fn law_content_without_an_expiry_is_served(
    store: StoreView,
    hash: Seq<char>,
    content_type: Option<Seq<char>>,
    metadata: Seq<(Seq<char>, Seq<char>)>,
    step: GetStepView,
)
    requires
        crate::get::follows_blob_now(
            store,
            hash,
            BlobReplyView::Found { content_type, metadata },
            step,
        ),
        crate::metadata::lookup_instant(metadata, "mcpg-expires-at"@) is None,
    ensures
        step matches GetStepView::ReadBody(told) && (crate::metadata::lookup_instant(
            metadata,
            "mcpg-stored-at"@,
        ) matches Some(t) ==> told.stored_at == t),
{
}

/// A record that expires leads on or is discarded by what the clock gives: where its expiry has come
/// by that instant, it is to be deleted with the content that it names, and otherwise that content
/// is asked for. A record without an expiry leads on whatever the clock gives.
pub proof fn law_expired_alias_leads_nowhere(
    store: StoreView,
    alias_id: Seq<char>,
    record: AliasView,
    step: GetStepView,
)
    requires
        crate::get::follows_alias_now(store, alias_id, AliasReplyView::Found(record), step),
    ensures
        record.expires_at is Some ==> exists|now: Timestamp| #[trigger]
            now.was_read_from_the_clock() && if has_come(record.expires_at, now) {
                step == (GetStepView::Discard {
                    keys: seq![
                        store.prefix + "aliases/"@ + crate::encoding::base64url_of_text(alias_id),
                        store.prefix + "blobs/"@ + record.target_hash,
                    ],
                })
            } else {
                step == (GetStepView::FetchBlob {
                    hash: record.target_hash,
                    key: store.prefix + "blobs/"@ + record.target_hash,
                })
            },
        record.expires_at is None ==> step == (GetStepView::FetchBlob {
            hash: record.target_hash,
            key: store.prefix + "blobs/"@ + record.target_hash,
        }),
{
    let now = choose|now: Timestamp|
        {
            &&& #[trigger] now.is_clock_reading()
            &&& record.expires_at is Some ==> now.was_read_from_the_clock()
            &&& step == crate::get::get_after_alias(
                store,
                alias_id,
                AliasReplyView::Found(record),
                now,
            )
        };
    law_read_through_an_alias(store, alias_id, record, now);
    if record.expires_at is Some {
        assert(now.was_read_from_the_clock());
    }
}

/// A sweep deletes an object that expires, or passes it over, by what the clock gives: it is deleted
/// just where its expiry has come by that instant. One without an expiry is passed over.
pub proof fn law_sweep_goes_by_the_clock(
    store: StoreView,
    hash: Seq<char>,
    progress: crate::sweep::SweepProgressView,
    metadata: Seq<(Seq<char>, Seq<char>)>,
    step: SweepStepView,
)
    requires
        crate::sweep::follows_head_now(
            store,
            hash,
            progress,
            HeadReplyView::Found { metadata },
            step,
        ),
    ensures
        ({
            let expires_at = crate::metadata::lookup_instant(metadata, "mcpg-expires-at"@);
            &&& expires_at is Some ==> exists|now: Timestamp| #[trigger]
                now.was_read_from_the_clock() && if has_come(expires_at, now) {
                    step == (SweepStepView::Delete {
                        hash,
                        key: store.prefix + "blobs/"@ + hash,
                        progress,
                    })
                } else {
                    step == crate::sweep::advance(store, progress)
                }
            &&& expires_at is None ==> step == crate::sweep::advance(store, progress)
        }),
{
    let expires_at = crate::metadata::lookup_instant(metadata, "mcpg-expires-at"@);
    let now = choose|now: Timestamp|
        {
            &&& #[trigger] now.is_clock_reading()
            &&& expires_at is Some ==> now.was_read_from_the_clock()
            &&& step == crate::sweep::sweep_after_head(
                store,
                hash,
                progress,
                HeadReplyView::Found { metadata },
                now,
            )
        };
    law_sweep_deletes_what_has_come(store, hash, progress, metadata, seq![], now);
    if expires_at is Some {
        assert(now.was_read_from_the_clock());
    }
}

/// Content that is not refused is stored at the instant that the clock gives: its metadata tells that
/// instant, and its lifetime begins there. Only where that lifetime has an end behind the last date
/// is nothing begun.
pub proof fn law_put_is_dated_by_the_clock(
    store: StoreView,
    content: ContentView,
    begun: Option<PutStepView>,
)
    requires
        crate::put::begins_now(store, content, begun),
        store.max_bytes == 0 || content.bytes.len() <= store.max_bytes,
        content.ttl matches Some(ttl) ==> ttl.valid(),
    ensures
        exists|now: Timestamp| #[trigger]
            now.was_read_from_the_clock() && match begun {
                Some(PutStepView::WriteBlob { object, pending }) => {
                    &&& object.metadata.contains(
                        ("mcpg-stored-at"@, crate::time::rfc3339_text(now.secs, now.nanos)),
                    )
                    &&& is_end_of(pending.expires_at, now, content.ttl)
                },
                Some(_) => false,
                None => content.ttl matches Some(d) && now.secs * 1_000_000_000 + now.nanos + d.secs
                    * 1_000_000_000 + d.nanos >= 8_210_266_876_800 * 1_000_000_000,
            },
        content.ttl is None ==> begun is Some,
{
    let now = choose|now: Timestamp|
        {
            &&& #[trigger] now.is_clock_reading()
            &&& store.max_bytes == 0 || content.bytes.len() <= store.max_bytes
                ==> now.was_read_from_the_clock()
            &&& begun is Some <==> crate::put::is_too_large(store, content.bytes)
                || crate::time::expiry_in_range(now, content.ttl)
            &&& begun matches Some(step) ==> crate::put::put_starts_with(store, content, now, step)
        };
    assert(now.was_read_from_the_clock());
    law_lifetime_ends_after_its_length(now, content.ttl);
    if begun is Some {
        let entry = ("mcpg-stored-at"@, crate::time::rfc3339_text(now.secs, now.nanos));
        law_put_writes_the_content(store, content, now, begun->Some_0, entry);
    }
}

/// What the head of an object means: when the object expires by its metadata, that there is none, or
/// a failure with the hash and the reason.
pub proof fn law_head_answers(
    hash: Seq<char>,
    metadata: Seq<(Seq<char>, Seq<char>)>,
    why: Seq<char>,
)
    ensures
        crate::store::head_outcome(hash, HeadReplyView::Found { metadata }) matches Ok(Some(head))
            && head.expires_at == crate::metadata::lookup_instant(metadata, "mcpg-expires-at"@),
        crate::store::head_outcome(hash, HeadReplyView::Missing) == Ok::<
            Option<crate::requests::HeadResult>,
            ErrorView,
        >(None),
        crate::store::head_outcome(hash, HeadReplyView::Failed(why)) == Err::<
            Option<crate::requests::HeadResult>,
            ErrorView,
        >(failure("HeadObject "@ + hash + ": "@ + why)),
{
}

/// A bucket has expired content of a hash just where the object `blobs/` and that hash is there and
/// its expiry has come.
pub proof fn law_expired_objects_of_a_bucket(
    bucket: crate::bucket::BucketView,
    store: StoreView,
    hash: Seq<char>,
    now: Timestamp,
)
    ensures
        ({
            let key = store.prefix + "blobs/"@ + hash;
            bucket.has_expired(store, hash, now) <==> bucket.blobs.contains_key(key) && has_come(
                crate::metadata::lookup_instant(
                    bucket.blobs[key].metadata,
                    "mcpg-expires-at"@,
                ),
                now,
            )
        }),
{
}

/// A store keeps the bucket and the bound of its configuration. Its key prefix is the configured one,
/// with a slash behind it unless it is empty or has one. The client has the region, the endpoint and
/// the addressing style of the configuration, and its keys under the name of this plugin. Only
/// without any does it look for keys in its surroundings.
pub proof fn law_store_follows_its_configuration(cfg: crate::store::S3ContentStoreConfig)
    ensures
        ({
            let store = crate::store::opened(cfg);
            let client = crate::store::settings_of(cfg);
            &&& store.bucket == cfg.bucket@
            &&& store.max_bytes == cfg.max_bytes
            &&& store.prefix == (if cfg.prefix@.len() == 0 || cfg.prefix@.last() == '/' {
                cfg.prefix@
            } else {
                cfg.prefix@ + "/"@
            })
            &&& client.region == cfg.region
            &&& client.endpoint_url == cfg.endpoint_url
            &&& client.force_path_style == cfg.force_path_style
            &&& match cfg.credentials {
                Some(given) => client.credentials matches crate::store::CredentialSource::Static {
                    keys,
                    provider_name,
                } && keys == given && provider_name@ == "mcpg-static"@,
                None => client.credentials is DefaultChain,
            }
        }),
{
}

/// What is built from an operator's settings follows them: the bucket, the bound and the key prefix
/// of the store, and the region, the endpoint, the addressing style and the keys of the client. Half
/// a pair of keys is refused, and so are settings that cannot be read, with the reason.
pub proof fn law_profile_follows_its_settings(
    built: Result<crate::plugin::Profile, crate::content::ContentStoreError>,
    refused: Result<crate::plugin::Profile, crate::content::ContentStoreError>,
    spec: crate::plugin::S3Spec,
    why: String,
)
    requires
        crate::plugin::is_built_from(built, Ok(spec)),
        crate::plugin::is_built_from(refused, Err(why)),
    ensures
        refused matches Err(e) && e.deep_view() == failure("invalid s3 spec: "@ + why@),
        match (spec.access_key_id, spec.secret_access_key) {
            (Some(_), None) | (None, Some(_)) => built matches Err(e) && e.deep_view() == failure(
                "s3 spec: access_key_id and secret_access_key must be set together"@,
            ),
            (access, secret) => built matches Ok(profile) && {
                &&& profile.store@.bucket == spec.bucket@
                &&& profile.store@.max_bytes == spec.max_bytes
                &&& profile.store@.prefix == (if spec.prefix@.len() == 0 || spec.prefix@.last()
                    == '/' {
                    spec.prefix@
                } else {
                    spec.prefix@ + "/"@
                })
                &&& profile.client.region == spec.region
                &&& profile.client.endpoint_url == spec.endpoint_url
                &&& profile.client.force_path_style == spec.force_path_style
                &&& match profile.client.credentials {
                    crate::store::CredentialSource::Static { keys, provider_name } => {
                        &&& access == Some(keys.access_key_id)
                        &&& secret == Some(keys.secret_access_key)
                        &&& keys.session_token == spec.session_token
                        &&& provider_name@ == "mcpg-static"@
                    },
                    crate::store::CredentialSource::DefaultChain => access is None && secret
                        is None,
                }
            },
        },
{
}

} // verus!
