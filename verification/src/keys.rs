//! Where objects lie in the bucket, and what the ids of the store stand for.
use vstd::prelude::*;

verus! {

/// What an id stands for.
#[derive(Debug)]
pub enum KeyKind {
    Blob { hash: String },
    Alias { alias_id: String },
}

/// The text of a [`KeyKind`].
#[verifier::ext_equal]
pub enum KeyKindView {
    Blob { hash: Seq<char> },
    Alias { alias_id: Seq<char> },
}

impl DeepView for KeyKind {
    type V = KeyKindView;

    open spec fn deep_view(&self) -> KeyKindView {
        match self {
            KeyKind::Blob { hash } => KeyKindView::Blob { hash: hash@ },
            KeyKind::Alias { alias_id } => KeyKindView::Alias { alias_id: alias_id@ },
        }
    }
}

/// Whether `id` is a bare hash: hexadecimal digits and nothing else.
pub open spec fn is_bare_hash(id: Seq<char>) -> bool {
    id.len() > 0 && forall|i: int| 0 <= i < id.len() ==> crate::text::is_hex_digit(#[trigger] id[i])
}

/// What `id` stands for: the content with the hash behind `hash:`, the alias of an id with
/// `alias:`, the content with a bare hash, and otherwise nothing.
pub open spec fn resolve(id: Seq<char>) -> Option<KeyKindView> {
    if "hash:"@.is_prefix_of(id) {
        Some(KeyKindView::Blob { hash: id.skip(5) })
    } else if "alias:"@.is_prefix_of(id) {
        Some(KeyKindView::Alias { alias_id: id })
    } else if is_bare_hash(id) {
        Some(KeyKindView::Blob { hash: id })
    } else {
        None
    }
}

/// The id of content by its hash.
pub open spec fn hash_id(hash: Seq<char>) -> Seq<char> {
    "hash:"@ + hash
}

/// The session that stands in the id of an alias without one.
pub open spec fn session_or_none(session: Option<Seq<char>>) -> Seq<char> {
    match session {
        Some(s) => s,
        None => "__no_session__"@,
    }
}

/// The id of an alias within a session.
pub open spec fn alias_id(session: Option<Seq<char>>, alias: Seq<char>) -> Seq<char> {
    "alias:"@ + session_or_none(session) + ":"@ + alias
}

/// The prefix of every object that holds content.
pub open spec fn blobs_prefix(prefix: Seq<char>) -> Seq<char> {
    prefix + "blobs/"@
}

/// The key of the object that holds the content with this hash.
pub open spec fn blob_key(prefix: Seq<char>, hash: Seq<char>) -> Seq<char> {
    prefix + "blobs/"@ + hash
}

/// The key of the object that holds the record of this alias.
pub open spec fn alias_key(prefix: Seq<char>, alias_id: Seq<char>) -> Seq<char> {
    prefix + "aliases/"@ + crate::encoding::base64url_of_text(alias_id)
}

/// Whether a key prefix is empty or ends in a slash.
pub open spec fn is_directory(prefix: Seq<char>) -> bool {
    prefix.len() == 0 || prefix.last() == '/'
}

/// The key prefix for a configured one: with a slash behind it, unless it is empty or has one.
pub open spec fn directory_of(prefix: Seq<char>) -> Seq<char> {
    if is_directory(prefix) {
        prefix
    } else {
        prefix + "/"@
    }
}

/// A key prefix is empty or ends in a slash, and one that is so already stays as it is.
pub proof fn law_directory_of(prefix: Seq<char>)
    ensures
        is_directory(directory_of(prefix)),
        directory_of(directory_of(prefix)) == directory_of(prefix),
        prefix.is_prefix_of(directory_of(prefix)),
{
    reveal_strlit("/");
    assert(prefix =~= directory_of(prefix).subrange(0, prefix.len() as int));
}

/// Content with different hashes lies under different keys.
pub proof fn law_blob_keys_are_distinct(prefix: Seq<char>, a: Seq<char>, b: Seq<char>)
    requires
        blob_key(prefix, a) == blob_key(prefix, b),
    ensures
        a == b,
{
    let n = blobs_prefix(prefix).len() as int;
    assert(blob_key(prefix, a).skip(n) =~= a);
    assert(blob_key(prefix, b).skip(n) =~= b);
}

/// The records of different aliases lie under different keys: the encoding of an alias id can be
/// read back.
pub proof fn law_alias_keys_are_distinct(prefix: Seq<char>, a: Seq<char>, b: Seq<char>)
    requires
        alias_key(prefix, a) == alias_key(prefix, b),
    ensures
        a == b,
{
    let n = (prefix + "aliases/"@).len() as int;
    assert(alias_key(prefix, a).skip(n) =~= crate::encoding::base64url_of_text(a));
    assert(alias_key(prefix, b).skip(n) =~= crate::encoding::base64url_of_text(b));
    crate::encoding::lemma_base64url_of_text_injective(a, b);
}

/// No object is both content and the record of an alias.
pub proof fn law_blobs_and_aliases_are_apart(prefix: Seq<char>, hash: Seq<char>, alias: Seq<char>)
    ensures
        blob_key(prefix, hash) != alias_key(prefix, alias),
{
    reveal_strlit("blobs/");
    reveal_strlit("aliases/");
    assert(blob_key(prefix, hash)[prefix.len() as int] == 'b');
    assert(alias_key(prefix, alias)[prefix.len() as int] == 'a');
}

/// Whatever an alias is called, its key has no further level below `aliases/`.
pub proof fn law_alias_keys_are_flat(prefix: Seq<char>, alias: Seq<char>)
    ensures
        crate::text::strip(alias_key(prefix, alias), prefix + "aliases/"@) matches Some(name)
            && !name.contains('/'),
{
    let dir = prefix + "aliases/"@;
    let name = crate::encoding::base64url_of_text(alias);
    assert(alias_key(prefix, alias).subrange(0, dir.len() as int) =~= dir);
    assert(alias_key(prefix, alias).skip(dir.len() as int) =~= name);
    crate::encoding::lemma_base64url_has_no_slash(vstd::utf8::encode_utf8(alias));
}

/// The hash of content can be told from its key.
pub proof fn law_blob_key_gives_hash_back(prefix: Seq<char>, hash: Seq<char>)
    ensures
        crate::text::strip(blob_key(prefix, hash), blobs_prefix(prefix)) == Some(hash),
{
    let dir = blobs_prefix(prefix);
    assert(blob_key(prefix, hash).subrange(0, dir.len() as int) =~= dir);
    assert(blob_key(prefix, hash).skip(dir.len() as int) =~= hash);
}

/// An id made from a hash stands for the content with that hash.
pub proof fn law_hash_id_resolves(hash: Seq<char>)
    ensures
        resolve(hash_id(hash)) == Some(KeyKindView::Blob { hash }),
{
    reveal_strlit("hash:");
    assert(hash_id(hash).subrange(0, 5) =~= "hash:"@);
    assert(hash_id(hash).skip(5) =~= hash);
}

/// An id made for an alias stands for that alias.
pub proof fn law_alias_id_resolves(session: Option<Seq<char>>, alias: Seq<char>)
    ensures
        resolve(alias_id(session, alias)) == Some(
            KeyKindView::Alias { alias_id: alias_id(session, alias) },
        ),
{
    reveal_strlit("hash:");
    reveal_strlit("alias:");
    let id = alias_id(session, alias);
    assert(id.subrange(0, 6) =~= "alias:"@);
    assert(id[0] == 'a');
    assert("hash:"@[0] == 'h');
    if "hash:"@.is_prefix_of(id) {
        assert(id.subrange(0, 5)[0] == 'h');
    }
}

/// A hash alone stands for the same content as the id made from it.
pub proof fn law_bare_hash_resolves(hash: Seq<char>)
    requires
        is_bare_hash(hash),
    ensures
        resolve(hash) == resolve(hash_id(hash)),
{
    reveal_strlit("hash:");
    reveal_strlit("alias:");
    law_hash_id_resolves(hash);
    if "hash:"@.is_prefix_of(hash) {
        assert(hash.subrange(0, 5)[0] == 'h');
        assert(crate::text::is_hex_digit(hash[0]));
    }
    if "alias:"@.is_prefix_of(hash) {
        assert(hash.subrange(0, 6)[1] == 'l');
        assert(crate::text::is_hex_digit(hash[1]));
    }
}

/// Within a session different names have different ids.
pub proof fn law_aliases_of_a_session_are_distinct(
    session: Option<Seq<char>>,
    a: Seq<char>,
    b: Seq<char>,
)
    requires
        alias_id(session, a) == alias_id(session, b),
    ensures
        a == b,
{
    let n = ("alias:"@ + session_or_none(session) + ":"@).len() as int;
    assert(alias_id(session, a).skip(n) =~= a);
    assert(alias_id(session, b).skip(n) =~= b);
}

/// Aliases of sessions without a colon have the same id just where both the session and the name
/// are the same. No session counts as one that is called `__no_session__`.
pub proof fn law_aliases_of_sessions_are_apart(
    session: Option<Seq<char>>,
    a: Seq<char>,
    other_session: Option<Seq<char>>,
    b: Seq<char>,
)
    requires
        session matches Some(s) ==> !s.contains(':'),
        other_session matches Some(s) ==> !s.contains(':'),
    ensures
        alias_id(session, a) == alias_id(other_session, b) <==> session_or_none(session)
            == session_or_none(other_session) && a == b,
        session != Some("__no_session__"@) && other_session != Some("__no_session__"@) ==> (
        alias_id(session, a) == alias_id(other_session, b) <==> session == other_session && a == b),
{
    reveal_strlit("alias:");
    reveal_strlit(":");
    reveal_strlit("__no_session__");
    let (s, t) = (session_or_none(session), session_or_none(other_session));
    let (m, n): (int, int) = (s.len() as int, t.len() as int);
    let (x, y) = (alias_id(session, a), alias_id(other_session, b));
    if x == y {
        assert(!s.contains(':') && !t.contains(':'));
        assert(x[6 + m] == ':' && y[6 + n] == ':');
        if m < n {
            assert(y[6 + m] == t[m]);
        }
        if n < m {
            assert(x[6 + n] == s[n]);
        }
        assert(x.subrange(6, 6 + m) =~= s);
        assert(y.subrange(6, 6 + n) =~= t);
        assert(x.skip(7 + m) =~= a);
        assert(y.skip(7 + n) =~= b);
    }
}

} // verus!
