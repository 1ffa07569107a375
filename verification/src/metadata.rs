//! The metadata that travels with each object that holds content.
use crate::time::Timestamp;
use vstd::prelude::*;

verus! {

/// The mime type.
pub const META_MIME: &'static str = "mcpg-mime";

/// When the content was stored, in RFC 3339.
pub const META_STORED_AT: &'static str = "mcpg-stored-at";

/// When the content expires, in RFC 3339. Only with content that does.
pub const META_EXPIRES_AT: &'static str = "mcpg-expires-at";

/// The session tag. Only with content that has one.
pub const META_SESSION: &'static str = "mcpg-session";

/// The tenant tag. Only with content that has one.
pub const META_TENANT: &'static str = "mcpg-tenant";

/// The number of bytes, in decimal.
pub const META_SIZE: &'static str = "mcpg-size";

/// The mime type of an object that does not tell its own.
pub const FALLBACK_MIME: &'static str = "application/octet-stream";

/// What the first entry called `name` holds.
pub open spec fn lookup(metadata: Seq<(Seq<char>, Seq<char>)>, name: Seq<char>) -> Option<Seq<char>>
    decreases metadata.len(),
{
    if metadata.len() == 0 {
        None
    } else if metadata[0].0 == name {
        Some(metadata[0].1)
    } else {
        lookup(metadata.drop_first(), name)
    }
}

/// An entry called `name`, where there is something for it to hold.
pub open spec fn entry(name: Seq<char>, value: Option<Seq<char>>) -> Seq<(Seq<char>, Seq<char>)> {
    match value {
        Some(v) => seq![(name, v)],
        None => seq![],
    }
}

/// The RFC 3339 text of an instant.
pub open spec fn stamp(t: Timestamp) -> Seq<char> {
    crate::time::rfc3339_text(t.secs, t.nanos)
}

/// The RFC 3339 text of an instant, where there is one.
pub open spec fn optional_stamp(t: Option<Timestamp>) -> Option<Seq<char>> {
    match t {
        Some(t) => Some(stamp(t)),
        None => None,
    }
}

/// What content says of itself in the metadata of its object.
pub struct TagsView {
    pub mime_type: Seq<char>,
    pub stored_at: Timestamp,
    pub size: nat,
    pub expires_at: Option<Timestamp>,
    pub session_id: Option<Seq<char>>,
    pub tenant_id: Option<Seq<char>>,
}

/// The metadata for content: its mime type, when it was stored and its size, then its expiry, its
/// session and its tenant, as far as it has them.
pub open spec fn metadata_for(tags: TagsView) -> Seq<(Seq<char>, Seq<char>)> {
    seq![
        (META_MIME@, tags.mime_type),
        (META_STORED_AT@, stamp(tags.stored_at)),
        (META_SIZE@, crate::text::decimal(tags.size)),
    ] + entry(META_EXPIRES_AT@, optional_stamp(tags.expires_at)) + entry(
        META_SESSION@,
        tags.session_id,
    ) + entry(META_TENANT@, tags.tenant_id)
}

/// The instant that the entry called `name` holds, if there is one and it can be read.
pub open spec fn lookup_instant(
    metadata: Seq<(Seq<char>, Seq<char>)>,
    name: Seq<char>,
) -> Option<Timestamp> {
    match lookup(metadata, name) {
        Some(text) => crate::time::instant_of(text),
        None => None,
    }
}

/// Whether two lists of metadata hold the same under every name.
pub open spec fn tells_the_same(
    a: Seq<(Seq<char>, Seq<char>)>,
    b: Seq<(Seq<char>, Seq<char>)>,
) -> bool {
    forall|name: Seq<char>| #[trigger] lookup(a, name) == lookup(b, name)
}

/// An entry is found in the first of two lists that has it.
proof fn lemma_lookup_in_sum(
    a: Seq<(Seq<char>, Seq<char>)>,
    b: Seq<(Seq<char>, Seq<char>)>,
    name: Seq<char>,
)
    ensures
        lookup(a + b, name) == match lookup(a, name) {
            Some(v) => Some(v),
            None => lookup(b, name),
        },
    decreases a.len(),
{
    if a.len() == 0 {
        assert(a + b =~= b);
    } else {
        assert((a + b).drop_first() =~= a.drop_first() + b);
        lemma_lookup_in_sum(a.drop_first(), b, name);
    }
}

/// An optional entry is found under its own name and no other.
proof fn lemma_lookup_of_entry(name: Seq<char>, value: Option<Seq<char>>, wanted: Seq<char>)
    ensures
        lookup(entry(name, value), wanted) == if name == wanted {
            value
        } else {
            None
        },
{
    reveal_with_fuel(lookup, 2);
}

/// The six names differ.
proof fn lemma_names_differ()
    ensures
        seq![
            META_MIME@,
            META_STORED_AT@,
            META_SIZE@,
            META_EXPIRES_AT@,
            META_SESSION@,
            META_TENANT@,
        ].no_duplicates(),
{
    reveal_strlit("mcpg-mime");
    reveal_strlit("mcpg-stored-at");
    reveal_strlit("mcpg-size");
    reveal_strlit("mcpg-expires-at");
    reveal_strlit("mcpg-session");
    reveal_strlit("mcpg-tenant");
    let names = seq![
        META_MIME@,
        META_STORED_AT@,
        META_SIZE@,
        META_EXPIRES_AT@,
        META_SESSION@,
        META_TENANT@,
    ];
    assert(names.map_values(|n: Seq<char>| (n.len(), n[5])) =~= seq![
        (9, 'm'),
        (14, 's'),
        (9, 's'),
        (15, 'e'),
        (12, 's'),
        (11, 't'),
    ]);
    assert forall|i: int, j: int|
        0 <= i < names.len() && 0 <= j < names.len() && i != j implies names[i] != names[j] by {
        let marks = names.map_values(|n: Seq<char>| (n.len(), n[5]));
        assert(marks[i] == (names[i].len(), names[i][5]));
        assert(marks[j] == (names[j].len(), names[j][5]));
    }
}

/// Each thing that content says of itself in its metadata is found there again under its name.
pub proof fn law_metadata_is_found_again(tags: TagsView)
    ensures
        lookup(metadata_for(tags), META_MIME@) == Some(tags.mime_type),
        lookup(metadata_for(tags), META_STORED_AT@) == Some(stamp(tags.stored_at)),
        lookup(metadata_for(tags), META_SIZE@) == Some(crate::text::decimal(tags.size)),
        lookup(metadata_for(tags), META_EXPIRES_AT@) == optional_stamp(tags.expires_at),
        lookup(metadata_for(tags), META_SESSION@) == tags.session_id,
        lookup(metadata_for(tags), META_TENANT@) == tags.tenant_id,
{
    let names = seq![
        META_MIME@,
        META_STORED_AT@,
        META_SIZE@,
        META_EXPIRES_AT@,
        META_SESSION@,
        META_TENANT@,
    ];
    lemma_names_differ();
    let fixed = seq![
        (META_MIME@, tags.mime_type),
        (META_STORED_AT@, stamp(tags.stored_at)),
        (META_SIZE@, crate::text::decimal(tags.size)),
    ];
    let expiry = entry(META_EXPIRES_AT@, optional_stamp(tags.expires_at));
    let session = entry(META_SESSION@, tags.session_id);
    let tenant = entry(META_TENANT@, tags.tenant_id);
    assert forall|i: int| 0 <= i < names.len() implies #[trigger] lookup(
        metadata_for(tags),
        names[i],
    ) == (if i == 0 {
        Some(tags.mime_type)
    } else if i == 1 {
        Some(stamp(tags.stored_at))
    } else if i == 2 {
        Some(crate::text::decimal(tags.size))
    } else if i == 3 {
        optional_stamp(tags.expires_at)
    } else if i == 4 {
        tags.session_id
    } else {
        tags.tenant_id
    }) by {
        let name = names[i];
        lemma_lookup_in_sum(fixed + expiry + session, tenant, name);
        lemma_lookup_in_sum(fixed + expiry, session, name);
        lemma_lookup_in_sum(fixed, expiry, name);
        lemma_lookup_of_entry(META_EXPIRES_AT@, optional_stamp(tags.expires_at), name);
        lemma_lookup_of_entry(META_SESSION@, tags.session_id, name);
        lemma_lookup_of_entry(META_TENANT@, tags.tenant_id, name);
        reveal_with_fuel(lookup, 4);
        assert(fixed.drop_first() =~= seq![fixed[1], fixed[2]]);
        assert(fixed.drop_first().drop_first() =~= seq![fixed[2]]);
        assert(names[0] == META_MIME@ && names[1] == META_STORED_AT@ && names[2] == META_SIZE@
            && names[3] == META_EXPIRES_AT@ && names[4] == META_SESSION@ && names[5]
            == META_TENANT@);
    }
    assert(lookup(metadata_for(tags), names[0]) == Some(tags.mime_type));
    assert(lookup(metadata_for(tags), names[1]) == Some(stamp(tags.stored_at)));
    assert(lookup(metadata_for(tags), names[2]) == Some(crate::text::decimal(tags.size)));
    assert(lookup(metadata_for(tags), names[3]) == optional_stamp(tags.expires_at));
    assert(lookup(metadata_for(tags), names[4]) == tags.session_id);
    assert(lookup(metadata_for(tags), names[5]) == tags.tenant_id);
}

/// What the first entry called `name` holds.
pub(crate) fn find(metadata: &Vec<(String, String)>, name: &str) -> (r: Option<String>)
    ensures
        r.deep_view() == lookup(metadata.deep_view(), name@),
{
    let wanted: String = name.to_owned();
    let ghost all = metadata.deep_view();
    let mut i: usize = 0;
    assert(all.skip(0) =~= all);
    while i < metadata.len()
        invariant
            i <= metadata.len(),
            all == metadata.deep_view(),
            wanted@ == name@,
            lookup(all, name@) == lookup(all.skip(i as int), name@),
        decreases metadata.len() - i,
    {
        assert(all.skip(i as int)[0] == metadata@[i as int].deep_view());
        if metadata[i].0 == wanted {
            return Some(metadata[i].1.clone());
        }
        assert(all.skip(i as int).drop_first() =~= all.skip(i + 1));
        i += 1;
    }
    None
}

/// The instant that the entry called `name` holds, if there is one and it can be read.
pub(crate) fn find_instant(metadata: &Vec<(String, String)>, name: &str) -> (r: Option<Timestamp>)
    ensures
        r == lookup_instant(metadata.deep_view(), name@),
{
    match find(metadata, name) {
        Some(text) => crate::time::parse_rfc3339(text.as_str()),
        None => None,
    }
}

/// Adds an entry to the metadata, where there is something for it to hold.
fn add_entry(metadata: &mut Vec<(String, String)>, name: &str, value: Option<String>)
    ensures
        final(metadata).deep_view() == old(metadata).deep_view() + entry(name@, value.deep_view()),
{
    if let Some(v) = value {
        metadata.push((name.to_owned(), v));
    }
    assert(metadata.deep_view() =~= old(metadata).deep_view() + entry(name@, value.deep_view()));
}

/// What content says of itself in the metadata of its object.
pub struct Tags {
    pub mime_type: String,
    pub stored_at: Timestamp,
    pub size: u64,
    pub expires_at: Option<Timestamp>,
    pub session_id: Option<String>,
    pub tenant_id: Option<String>,
}

impl DeepView for Tags {
    type V = TagsView;

    open spec fn deep_view(&self) -> TagsView {
        TagsView {
            mime_type: self.mime_type@,
            stored_at: self.stored_at,
            size: self.size as nat,
            expires_at: self.expires_at,
            session_id: self.session_id.deep_view(),
            tenant_id: self.tenant_id.deep_view(),
        }
    }
}

/// Whether what is read from the text of the instant is known: the instant itself where its year
/// has four digits, and nothing elsewhere.
pub open spec fn reading_is_known(t: Timestamp) -> bool {
    crate::time::instant_of(stamp(t)) == t.as_read()
}

/// The metadata for content.
pub(crate) fn make_metadata(tags: Tags) -> (r: Vec<(String, String)>)
    requires
        tags.stored_at.valid(),
        tags.expires_at matches Some(t) ==> t.valid(),
    ensures
        r.deep_view() == metadata_for(tags.deep_view()),
        reading_is_known(tags.stored_at),
        tags.expires_at matches Some(t) ==> reading_is_known(t),
{
    let mut r: Vec<(String, String)> = Vec::new();
    r.push((META_MIME.to_owned(), tags.mime_type));
    r.push((META_STORED_AT.to_owned(), crate::time::to_rfc3339(tags.stored_at)));
    r.push((META_SIZE.to_owned(), crate::text::decimal_text(tags.size)));
    assert(r.deep_view() =~= seq![
        (META_MIME@, tags.mime_type@),
        (META_STORED_AT@, stamp(tags.stored_at)),
        (META_SIZE@, crate::text::decimal(tags.size as nat)),
    ]);
    let expires: Option<String> = match tags.expires_at {
        Some(t) => Some(crate::time::to_rfc3339(t)),
        None => None,
    };
    add_entry(&mut r, META_EXPIRES_AT, expires);
    add_entry(&mut r, META_SESSION, tags.session_id);
    add_entry(&mut r, META_TENANT, tags.tenant_id);
    r
}

} // verus!
