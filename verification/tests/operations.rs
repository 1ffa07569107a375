use base64::Engine as _;
use mcpg_plugin_storage_s3::content::AliasRecord;
use mcpg_plugin_storage_s3::content::ContentStoreError;
use mcpg_plugin_storage_s3::content::ContentStoreStats;
use mcpg_plugin_storage_s3::content::ContentToStore;
use mcpg_plugin_storage_s3::content::ResourceContent;
use mcpg_plugin_storage_s3::content::ResourceHandle;
use mcpg_plugin_storage_s3::delete::DeleteStep;
use mcpg_plugin_storage_s3::get::GetStep;
use mcpg_plugin_storage_s3::keys::KeyKind;
use mcpg_plugin_storage_s3::put::PutStep;
use mcpg_plugin_storage_s3::requests::AliasReply;
use mcpg_plugin_storage_s3::requests::BlobReply;
use mcpg_plugin_storage_s3::requests::HeadReply;
use mcpg_plugin_storage_s3::requests::ListPage;
use mcpg_plugin_storage_s3::requests::PutAliasFailure;
use mcpg_plugin_storage_s3::requests::PutObject;
use mcpg_plugin_storage_s3::sign::SignStep;
use mcpg_plugin_storage_s3::sign::PRESIGNED_URL_MAX_TTL;
use mcpg_plugin_storage_s3::sweep::SweepProgress;
use mcpg_plugin_storage_s3::sweep::SweepStep;
use mcpg_plugin_storage_s3::time::Timestamp;
use mcpg_plugin_storage_s3::time::Ttl;
use mcpg_plugin_storage_s3::S3ContentStore;
use mcpg_plugin_storage_s3::S3ContentStoreConfig;
use std::collections::BTreeMap;
use std::sync::Arc;
use std::time::Duration;

const EMPTY_HASH: &str = "af1349b9f5f9a1a6a0404dea36dcc9499bcb25c9adc112b7cc9a93cae41f3262";

/// The start of 2024.
const T0: Timestamp = Timestamp { secs: 1_704_067_200, nanos: 0 };

fn config(prefix: &str, max_bytes: u64) -> S3ContentStoreConfig {
    S3ContentStoreConfig {
        bucket: "b".into(),
        prefix: prefix.into(),
        region: "us-east-1".into(),
        endpoint_url: None,
        force_path_style: false,
        credentials: None,
        max_bytes,
    }
}

fn store(prefix: &str) -> Arc<S3ContentStore> {
    S3ContentStore::open(config(prefix, 0)).unwrap()
}

fn content(bytes: &[u8]) -> ContentToStore {
    ContentToStore {
        bytes: bytes.to_vec(),
        mime_type: "text/plain".into(),
        ttl: None,
        session_id: None,
        tenant_id: None,
        alias: None,
    }
}

fn seconds(secs: u64) -> Ttl {
    Ttl { secs, nanos: 0 }
}

fn after(secs: i64) -> Timestamp {
    Timestamp { secs: T0.secs + secs, nanos: 0 }
}

fn hex_hash(bytes: &[u8]) -> String {
    blake3::hash(bytes).to_hex().to_string()
}

fn message(e: ContentStoreError) -> String {
    match e {
        ContentStoreError::Storage { message } => message,
        other => panic!("expected Storage error, got {other:?}"),
    }
}

fn copy(object: &PutObject) -> PutObject {
    PutObject {
        key: object.key.clone(),
        content_type: object.content_type.clone(),
        body: object.body.clone(),
        metadata: object.metadata.clone(),
    }
}

/// A bucket in memory that answers the requests of a store.
struct Bucket {
    blobs: BTreeMap<String, PutObject>,
    aliases: BTreeMap<String, AliasRecord>,
}

impl Bucket {
    fn new() -> Self {
        Bucket { blobs: BTreeMap::new(), aliases: BTreeMap::new() }
    }

    fn alias_reply(&self, key: &str) -> AliasReply {
        match self.aliases.get(key) {
            Some(record) => AliasReply::Found(record.clone()),
            None => AliasReply::Missing,
        }
    }

    fn head_reply(&self, key: &str) -> HeadReply {
        match self.blobs.get(key) {
            Some(o) => HeadReply::Found { metadata: o.metadata.clone() },
            None => HeadReply::Missing,
        }
    }

    fn remove(&mut self, key: &str) {
        self.blobs.remove(key);
        self.aliases.remove(key);
    }

    fn put(
        &mut self,
        s: &S3ContentStore,
        c: ContentToStore,
        at: Timestamp,
    ) -> Result<ResourceHandle, ContentStoreError> {
        let mut step = s.put_at(c, at);
        loop {
            step = match step {
                PutStep::WriteBlob { object, pending } => {
                    self.blobs.insert(object.key.clone(), object);
                    s.put_after_blob(pending, Ok(()))
                }
                PutStep::WriteAlias { record, pending_alias } => {
                    assert_eq!(record.content_type, "application/json");
                    self.aliases.insert(record.key, record.record);
                    PutStep::Done(s.put_after_alias(pending_alias, Ok(())))
                }
                PutStep::Done(r) => return r,
            }
        }
    }

    fn get(
        &mut self,
        s: &S3ContentStore,
        id: &str,
        now: Timestamp,
    ) -> Result<Option<ResourceContent>, ContentStoreError> {
        let mut step = s.get(id);
        loop {
            step = match step {
                GetStep::FetchAlias { alias_id, key } => {
                    s.get_after_alias_at(&alias_id, self.alias_reply(&key), now)
                }
                GetStep::FetchBlob { hash, key } => {
                    let reply = match self.blobs.get(&key) {
                        Some(o) => BlobReply::Found {
                            content_type: Some(o.content_type.clone()),
                            metadata: o.metadata.clone(),
                        },
                        None => BlobReply::Missing,
                    };
                    s.get_after_blob_at(&hash, reply, now)
                }
                GetStep::ReadBody(pending) => {
                    let body = self.blobs[&s.blob_key(&pending.hash)].body.clone();
                    return s.get_after_body(pending, Ok(body));
                }
                GetStep::Discard { keys } => {
                    let mut replies: Vec<Result<(), String>> = Vec::new();
                    for key in keys {
                        self.remove(&key);
                        replies.push(Err("ignored".to_owned()));
                    }
                    return s.get_after_discard(replies);
                }
                GetStep::Done(r) => return r,
            }
        }
    }

    fn delete(&mut self, s: &S3ContentStore, id: &str) -> Result<(), ContentStoreError> {
        let mut step = s.delete(id);
        loop {
            step = match step {
                DeleteStep::DeleteBlob { hash, key } => {
                    self.remove(&key);
                    return s.delete_blob(&hash, Ok(()));
                }
                DeleteStep::FetchAlias { alias_id, key } => {
                    s.delete_after_alias(&alias_id, self.alias_reply(&key))
                }
                DeleteStep::DeleteTarget { alias_id, key } => {
                    self.remove(&key);
                    s.delete_after_target(&alias_id, Err("ignored".to_owned()))
                }
                DeleteStep::DeleteAlias { alias_id, key } => {
                    self.remove(&key);
                    return s.delete_alias(&alias_id, Ok(()));
                }
                DeleteStep::Done(r) => return r,
            }
        }
    }

    fn sign(&self, s: &S3ContentStore, id: &str, ttl: Ttl) -> SignStep {
        let mut step = s.signed_url(id, ttl);
        loop {
            step = match step {
                SignStep::FetchAlias { alias_id, key } => {
                    s.signed_url_after_alias(&alias_id, self.alias_reply(&key))
                }
                SignStep::HeadBlob { hash, key } => {
                    s.signed_url_after_head(&hash, ttl, self.head_reply(&key))
                }
                other => return other,
            }
        }
    }

    /// Sweeps in pages of two keys each. Objects whose key is in `stuck` cannot be deleted.
    fn sweep(&mut self, s: &S3ContentStore, now: Timestamp, stuck: &[String]) -> usize {
        let listing: Vec<String> = self.blobs.keys().cloned().collect();
        let mut step = s.sweep_expired();
        loop {
            step = match step {
                SweepStep::List { prefix, continuation, removed } => {
                    assert_eq!(prefix, format!("{}blobs/", s.prefix()));
                    let start: usize = match continuation {
                        Some(t) => t.parse().unwrap(),
                        None => 0,
                    };
                    let end: usize = (start + 2).min(listing.len());
                    let mut keys: Vec<Option<String>> = vec![None, Some("elsewhere".to_owned())];
                    keys.extend(listing[start..end].iter().cloned().map(Some));
                    let next =
                        if end < listing.len() { end.to_string() } else { String::new() };
                    s.sweep_after_list(removed, Ok(ListPage { keys, next: Some(next) }))
                }
                SweepStep::Head { hash, key, progress } => {
                    s.sweep_after_head_at(&hash, progress, self.head_reply(&key), now)
                }
                SweepStep::Delete { hash, key, progress } => {
                    let reply = if stuck.contains(&key) {
                        Err("denied".to_owned())
                    } else {
                        self.remove(&key);
                        Ok(())
                    };
                    s.sweep_after_delete(&hash, progress, reply)
                }
                SweepStep::Done { removed } => return removed,
            }
        }
    }
}

#[test]
fn alias_key_round_trips_through_base64url() {
    let cfg = config("p/", 0);
    let prefix = cfg.prefix.clone();
    let s = S3ContentStore::open(cfg).unwrap();
    let alias_id = "alias:s1:incident";
    let encoded = base64::engine::general_purpose::URL_SAFE_NO_PAD.encode(alias_id);
    let expected = format!("{}aliases/{encoded}", prefix);
    let decoded = base64::engine::general_purpose::URL_SAFE_NO_PAD.decode(&encoded).unwrap();
    assert_eq!(String::from_utf8(decoded).unwrap(), alias_id);
    assert!(expected.starts_with("p/aliases/"));
    assert_eq!(s.alias_key(alias_id), expected);
    assert_eq!(s.alias_key(alias_id), "p/aliases/YWxpYXM6czE6aW5jaWRlbnQ");
}

#[test]
fn alias_key_of_any_text_has_one_level() {
    let s = store("");
    assert_eq!(s.alias_key("alias:s/1:na\u{ef}ve?>"), "aliases/YWxpYXM6cy8xOm5hw692ZT8-");
    assert_eq!(s.alias_key(""), "aliases/");
}

#[test]
fn blob_key_uses_prefix_directly() {
    let prefix = "mcpg/";
    let hash = "abc123";
    let expected = format!("{prefix}blobs/{hash}");
    assert_eq!(expected, "mcpg/blobs/abc123");
    assert_eq!(store(prefix).blob_key(hash), expected);
}

#[test]
fn presigned_ttl_ceiling_is_seven_days() {
    assert_eq!(Duration::from_secs(PRESIGNED_URL_MAX_TTL), Duration::from_secs(604_800));
    let s = store("");
    assert!(matches!(s.signed_url("hash:ab", seconds(604_800)), SignStep::HeadBlob { .. }));
    assert!(matches!(s.signed_url("hash:ab", seconds(604_801)), SignStep::Done(Err(_))));
}

#[test]
fn ttl_over_the_ceiling_is_refused_whatever_the_id() {
    let s = store("");
    for id in ["hash:ab", "alias:s:a", "nothing!", ""] {
        match s.signed_url(id, Ttl { secs: 604_800, nanos: 1 }) {
            SignStep::Done(Err(e)) => assert_eq!(
                message(e),
                "signed URL ttl 604800.000000001s exceeds 7-day SigV4 maximum"
            ),
            other => panic!("{other:?}"),
        }
    }
    match s.signed_url("", seconds(691_200)) {
        SignStep::Done(Err(e)) => {
            assert_eq!(message(e), "signed URL ttl 691200s exceeds 7-day SigV4 maximum")
        }
        other => panic!("{other:?}"),
    }
}

#[test]
fn prefix_gets_a_slash_unless_it_has_one_or_is_empty() {
    assert_eq!(store("").prefix(), "");
    assert_eq!(store("mcpg").prefix(), "mcpg/");
    assert_eq!(store("mcpg/").prefix(), "mcpg/");
    assert_eq!(store("/").prefix(), "/");
    assert_eq!(store("\u{e9}").prefix(), "\u{e9}/");
}

#[test]
fn ids_resolve() {
    let s = store("");
    for (id, hash) in [
        ("hash:abc", "abc"),
        ("hash:", ""),
        ("hash:not hex", "not hex"),
        ("hash:alias:x", "alias:x"),
        ("00ffAB", "00ffAB"),
    ] {
        match s.resolve_to_hash_blob_key(id) {
            Some(KeyKind::Blob { hash: h }) => assert_eq!(h, hash),
            other => panic!("{id}: {other:?}"),
        }
    }
    for id in ["alias:", "alias:s:a"] {
        match s.resolve_to_hash_blob_key(id) {
            Some(KeyKind::Alias { alias_id }) => assert_eq!(alias_id, id),
            other => panic!("{id}: {other:?}"),
        }
    }
    for id in ["", "xyz", "ab cd", "Hash:ab", "alias", "\u{ff41}", "g"] {
        assert!(s.resolve_to_hash_blob_key(id).is_none(), "{id}");
    }
}

#[test]
fn put_writes_the_object_with_its_metadata() {
    let s = store("p");
    let mut c = content(b"");
    c.ttl = Some(Ttl { secs: 60, nanos: 500_000_000 });
    c.session_id = Some("s1".into());
    c.tenant_id = Some("t1".into());
    let at = Timestamp { secs: T0.secs, nanos: 500_000_000 };
    match s.put_at(c, at) {
        PutStep::WriteBlob { object, pending } => {
            assert_eq!(object.key, format!("p/blobs/{EMPTY_HASH}"));
            assert_eq!(object.content_type, "text/plain");
            assert!(object.body.is_empty());
            let expected = vec![
                ("mcpg-mime", "text/plain"),
                ("mcpg-stored-at", "2024-01-01T00:00:00.500+00:00"),
                ("mcpg-size", "0"),
                ("mcpg-expires-at", "2024-01-01T00:01:01+00:00"),
                ("mcpg-session", "s1"),
                ("mcpg-tenant", "t1"),
            ];
            let got: Vec<(&str, &str)> =
                object.metadata.iter().map(|(a, b)| (a.as_str(), b.as_str())).collect();
            assert_eq!(got, expected);
            assert_eq!(pending.hash, EMPTY_HASH);
        }
        other => panic!("{other:?}"),
    }
}

#[test]
fn metadata_leaves_out_what_is_not_given() {
    let s = store("");
    let c = content(&[7u8; 1234]);
    match s.put_at(c, T0) {
        PutStep::WriteBlob { object, .. } => {
            let names: Vec<&str> = object.metadata.iter().map(|(a, _)| a.as_str()).collect();
            assert_eq!(names, vec!["mcpg-mime", "mcpg-stored-at", "mcpg-size"]);
            assert_eq!(object.metadata[2].1, "1234");
        }
        other => panic!("{other:?}"),
    }
}

#[test]
fn put_and_get_by_hash() {
    let s = store("p/");
    let mut b = Bucket::new();
    let mut c = content(b"hello");
    c.session_id = Some("s1".into());
    let handle = b.put(&s, c, T0).unwrap();
    let hash = hex_hash(b"hello");
    assert_eq!(handle.id, format!("hash:{hash}"));
    assert_eq!(handle.uri, format!("mcpg-resource://hash:{hash}"));
    assert_eq!(handle.content_hash, format!("blake3:{hash}"));
    assert_eq!(handle.size_bytes, 5);
    assert_eq!(handle.mime_type, "text/plain");
    assert_eq!(handle.expires_at, None);
    for id in [handle.id.as_str(), hash.as_str()] {
        let r = b.get(&s, id, after(1_000_000)).unwrap().unwrap();
        assert_eq!(r.bytes, b"hello");
        assert_eq!(r.mime_type, "text/plain");
        assert_eq!(r.session_id.as_deref(), Some("s1"));
        assert_eq!(r.tenant_id, None);
        assert_eq!(r.stored_at, T0);
        assert_eq!(r.expires_at, None);
    }
}

#[test]
fn put_and_get_by_alias() {
    let s = store("p/");
    let mut b = Bucket::new();
    let mut c = content(b"hello");
    c.alias = Some("incident".into());
    c.session_id = Some("s1".into());
    c.ttl = Some(seconds(10));
    let handle = b.put(&s, c, T0).unwrap();
    assert_eq!(handle.id, "alias:s1:incident");
    assert_eq!(handle.uri, "mcpg-resource://alias:s1:incident");
    assert_eq!(handle.expires_at, Some(after(10)));
    assert_eq!(b.get(&s, &handle.id, after(9)).unwrap().unwrap().bytes, b"hello");
    let hash = hex_hash(b"hello");
    for id in [format!("hash:{hash}"), hash] {
        assert_eq!(b.get(&s, &id, after(9)).unwrap().unwrap().bytes, b"hello");
    }
    assert_eq!(b.aliases.len(), 1);
    assert!(b.get(&s, &handle.id, after(10)).unwrap().is_none());
    assert!(b.aliases.is_empty() && b.blobs.is_empty());
}

#[test]
fn alias_without_a_session() {
    let s = store("");
    let mut b = Bucket::new();
    let mut c = content(b"x");
    c.alias = Some("a".into());
    assert_eq!(b.put(&s, c, T0).unwrap().id, "alias:__no_session__:a");
}

#[test]
fn aliases_of_different_sessions_are_apart() {
    let s = store("");
    let mut b = Bucket::new();
    for (session, bytes) in [("s1", b"one"), ("s2", b"two")] {
        let mut c = content(bytes);
        c.alias = Some("a".into());
        c.session_id = Some(session.into());
        b.put(&s, c, T0).unwrap();
    }
    assert_eq!(b.get(&s, "alias:s1:a", T0).unwrap().unwrap().bytes, b"one");
    assert_eq!(b.get(&s, "alias:s2:a", T0).unwrap().unwrap().bytes, b"two");
}

#[test]
fn an_alias_that_expires_first_is_missing() {
    let s = store("");
    let mut b = Bucket::new();
    let mut c = content(b"x");
    c.alias = Some("a".into());
    c.ttl = Some(seconds(10));
    let id = b.put(&s, c, T0).unwrap().id;
    b.put(&s, content(b"x"), T0).unwrap();
    assert!(b.get(&s, &id, after(10)).unwrap().is_none());
}

#[test]
fn an_alias_can_be_moved_to_other_content() {
    let s = store("");
    let mut b = Bucket::new();
    for bytes in [b"one", b"two"] {
        let mut c = content(bytes);
        c.alias = Some("a".into());
        b.put(&s, c, T0).unwrap();
    }
    let r = b.get(&s, "alias:__no_session__:a", T0).unwrap().unwrap();
    assert_eq!(r.bytes, b"two");
    assert_eq!(b.blobs.len(), 2);
}

#[test]
fn expired_content_is_missing_and_deleted() {
    let s = store("");
    let mut b = Bucket::new();
    let mut c = content(b"x");
    c.ttl = Some(seconds(5));
    let id = b.put(&s, c, T0).unwrap().id;
    assert!(b.get(&s, &id, after(4)).unwrap().is_some());
    assert_eq!(b.blobs.len(), 1);
    assert!(b.get(&s, &id, after(5)).unwrap().is_none());
    assert!(b.blobs.is_empty());
}

#[test]
fn a_lifetime_of_zero_is_over_at_once() {
    let s = store("");
    let mut b = Bucket::new();
    let mut c = content(b"x");
    c.ttl = Some(seconds(0));
    let id = b.put(&s, c, T0).unwrap().id;
    assert!(b.get(&s, &id, T0).unwrap().is_none());
}

#[test]
fn a_lifetime_too_long_to_add_is_none() {
    let s = store("");
    let mut c = content(b"x");
    c.ttl = Some(Ttl { secs: 9_223_372_036_854_775, nanos: 807_000_001 });
    match s.put_at(c, T0) {
        PutStep::WriteBlob { pending, .. } => assert_eq!(pending.expires_at, None),
        other => panic!("{other:?}"),
    }
    assert!(chrono::TimeDelta::from_std(Duration::new(9_223_372_036_854_775, 807_000_001)).is_err());
    assert!(chrono::TimeDelta::from_std(Duration::new(9_223_372_036_854_775, 807_000_000)).is_ok());
}

#[test]
fn the_last_expiry_that_has_a_date() {
    let s = store("");
    let last: i64 = 8_210_266_876_799;
    assert_eq!(chrono::DateTime::<chrono::Utc>::MAX_UTC.timestamp(), last);
    assert_eq!(chrono::DateTime::<chrono::Utc>::MIN_UTC.timestamp(), -8_334_601_228_800);
    let mut c = content(b"x");
    c.ttl = Some(Ttl { secs: (last - T0.secs) as u64, nanos: 999_999_999 });
    match s.put_at(c, T0) {
        PutStep::WriteBlob { pending, .. } => {
            assert_eq!(pending.expires_at, Some(Timestamp { secs: last, nanos: 999_999_999 }))
        }
        other => panic!("{other:?}"),
    }
    let mut over = content(b"x");
    over.ttl = Some(seconds(last as u64));
    assert!(s.put(over).is_none());
}

#[test]
fn content_whose_expiry_has_no_date_is_not_begun() {
    let last: i64 = 8_210_266_876_799;
    let s = S3ContentStore::open(config("", 4)).unwrap();
    let with_ttl = |bytes: &[u8], secs: i64| {
        let mut c = content(bytes);
        c.ttl = Some(seconds(secs as u64));
        c
    };
    let just = s.put_checked_at(with_ttl(b"x", last - T0.secs), T0);
    assert!(matches!(just, Some(PutStep::WriteBlob { .. })));
    assert!(s.put_checked_at(with_ttl(b"x", last - T0.secs + 1), T0).is_none());
    match s.put_checked_at(with_ttl(b"fiver", last - T0.secs + 1), T0) {
        Some(PutStep::Done(Err(ContentStoreError::SizeLimit { limit_bytes, actual_bytes }))) => {
            assert_eq!((limit_bytes, actual_bytes), (4, 5))
        }
        other => panic!("{other:?}"),
    }
}

#[test]
fn an_expiry_after_the_year_9999_is_not_read_back() {
    let s = store("");
    let mut b = Bucket::new();
    let mut c = content(b"x");
    c.ttl = Some(seconds(300_000_000_000));
    let id = b.put(&s, c, T0).unwrap().id;
    assert_eq!(b.get(&s, &id, T0).unwrap().unwrap().expires_at, None);
}

#[test]
fn content_of_any_year_is_read_back() {
    let s = store("");
    let now = after(5);
    let stored = [
        (Timestamp { secs: 253_402_300_799, nanos: 0 }, true),
        (Timestamp { secs: 253_402_300_800, nanos: 0 }, false),
        (Timestamp { secs: -62_167_219_200, nanos: 0 }, true),
        (Timestamp { secs: -62_167_219_201, nanos: 0 }, false),
    ];
    for (at, readable) in stored {
        let mut b = Bucket::new();
        let mut c = content(b"hello");
        c.session_id = Some("s1".into());
        c.tenant_id = Some("t1".into());
        c.mime_type = "image/png".into();
        let id = b.put(&s, c, at).unwrap().id;
        let read = b.get(&s, &id, now).unwrap().unwrap();
        assert_eq!(read.bytes, b"hello");
        assert_eq!(read.mime_type, "image/png");
        assert_eq!(read.session_id.as_deref(), Some("s1"));
        assert_eq!(read.tenant_id.as_deref(), Some("t1"));
        assert_eq!(read.stored_at, if readable { at } else { now });
    }
}

#[test]
fn an_alias_tells_an_expiry_that_its_object_does_not() {
    let s = store("");
    let mut b = Bucket::new();
    let mut c = content(b"x");
    c.alias = Some("a".into());
    c.ttl = Some(seconds(300_000_000_000));
    let id = b.put(&s, c, T0).unwrap().id;
    let hash = hex_hash(b"x");
    assert_eq!(b.get(&s, &id, after(299_999_999_999)).unwrap().unwrap().expires_at, None);
    assert!(b.get(&s, &hash, after(300_000_000_000)).unwrap().is_some());
    assert!(b.get(&s, &id, after(300_000_000_000)).unwrap().is_none());
    assert!(b.get(&s, &hash, after(300_000_000_000)).unwrap().is_none());
}

#[test]
fn put_now_and_get_now() {
    let s = store("");
    let before = chrono::Utc::now().timestamp();
    let mut c = content(b"now");
    c.ttl = Some(seconds(3600));
    let (object, pending) = match s.put(c) {
        Some(PutStep::WriteBlob { object, pending }) => (object, pending),
        other => panic!("{other:?}"),
    };
    let expires = pending.expires_at.unwrap();
    assert!(expires.secs >= before + 3600 && expires.secs <= before + 3700);
    let found = |o: &PutObject| BlobReply::Found {
        content_type: None,
        metadata: o.metadata.clone(),
    };
    match s.get_after_blob(&pending.hash, found(&object)) {
        GetStep::ReadBody(p) => assert_eq!(p.expires_at, Some(expires)),
        other => panic!("{other:?}"),
    }
    let mut old = copy(&object);
    old.metadata[3].1 = "2001-02-03T04:05:06+07:00".to_owned();
    match s.get_after_blob(&pending.hash, found(&old)) {
        GetStep::Discard { keys } => assert_eq!(keys, vec![object.key.clone()]),
        other => panic!("{other:?}"),
    }
    let bare = BlobReply::Found { content_type: None, metadata: Vec::new() };
    match s.get_after_blob(&pending.hash, bare) {
        GetStep::ReadBody(p) => {
            assert!(p.stored_at.secs >= before && p.stored_at.secs <= before + 100)
        }
        other => panic!("{other:?}"),
    }
    let looked_at = |o: &PutObject| {
        let progress = SweepProgress { removed: 0, todo: Vec::new(), next: None };
        let reply = HeadReply::Found { metadata: o.metadata.clone() };
        s.sweep_after_head(&pending.hash, progress, reply)
    };
    assert!(matches!(looked_at(&object), SweepStep::Done { removed: 0 }));
    assert!(matches!(looked_at(&old), SweepStep::Delete { .. }));
    let record = |secs: i64| {
        AliasReply::Found(AliasRecord {
            target_hash: "ab".to_owned(),
            expires_at: Some(Timestamp { secs, nanos: 0 }),
        })
    };
    assert!(matches!(s.get_after_alias("alias:s:a", record(0)), GetStep::Discard { .. }));
    assert!(matches!(
        s.get_after_alias("alias:s:a", record(before + 3600)),
        GetStep::FetchBlob { .. }
    ));
}

#[test]
fn sizes_up_to_the_limit_are_stored() {
    let s = S3ContentStore::open(config("", 4)).unwrap();
    let mut b = Bucket::new();
    assert!(b.put(&s, content(b"four"), T0).is_ok());
    match b.put(&s, content(b"fiver"), T0) {
        Err(ContentStoreError::SizeLimit { limit_bytes, actual_bytes }) => {
            assert_eq!((limit_bytes, actual_bytes), (4, 5))
        }
        other => panic!("{other:?}"),
    }
    assert_eq!(b.blobs.len(), 1);
    match s.put(content(b"fiver")) {
        Some(PutStep::Done(Err(ContentStoreError::SizeLimit { .. }))) => {}
        other => panic!("{other:?}"),
    }
    assert!(b.put(&store(""), content(&[0u8; 100_000]), T0).is_ok());
}

#[test]
fn the_same_bytes_are_kept_once() {
    let s = store("");
    let mut b = Bucket::new();
    b.put(&s, content(b"same"), T0).unwrap();
    let mut again = content(b"same");
    again.mime_type = "image/png".into();
    again.session_id = Some("other".into());
    b.put(&s, again, after(1)).unwrap();
    assert_eq!(b.blobs.len(), 1);
    b.put(&s, content(b"different"), T0).unwrap();
    assert_eq!(b.blobs.len(), 2);
}

#[test]
fn deleted_content_is_gone() {
    let s = store("p/");
    let mut b = Bucket::new();
    let keep = b.put(&s, content(b"keep"), T0).unwrap().id;
    let by_hash = b.put(&s, content(b"one"), T0).unwrap().id;
    let mut c = content(b"two");
    c.alias = Some("a".into());
    let by_alias = b.put(&s, c, T0).unwrap().id;
    for id in [by_hash.as_str(), by_alias.as_str(), "alias:no:such", "no such id"] {
        b.delete(&s, id).unwrap();
        assert!(b.get(&s, id, T0).unwrap().is_none());
        assert!(b.get(&s, &keep, T0).unwrap().is_some());
    }
    assert_eq!(b.blobs.len(), 1);
    assert!(b.aliases.is_empty());
}

#[test]
fn links_lead_to_content_that_is_there() {
    let s = store("p/");
    let mut b = Bucket::new();
    let mut c = content(b"two");
    c.alias = Some("a".into());
    let id = b.put(&s, c, T0).unwrap().id;
    let ttl = Ttl { secs: 90, nanos: 7 };
    let hash = hex_hash(b"two");
    for id in [id.as_str(), hash.as_str()] {
        match b.sign(&s, id, ttl) {
            SignStep::Presign { hash: h, key, terms } => {
                assert_eq!(terms.ttl(), ttl);
                assert_eq!(terms.into_config().expires(), Duration::new(90, 7));
                assert_eq!(h, hash);
                assert_eq!(key, format!("p/blobs/{hash}"));
            }
            other => panic!("{other:?}"),
        }
    }
    for id in ["hash:00", "alias:x:y", "no such id"] {
        assert!(matches!(b.sign(&s, id, ttl), SignStep::Done(Ok(None))), "{id}");
    }
    let url = s.signed_url_after_presign(&hash, Ok("https://x".to_owned())).unwrap();
    assert_eq!(url.as_deref(), Some("https://x"));
}

#[test]
fn sweep_deletes_what_has_expired_and_counts_it() {
    let s = store("p");
    let mut b = Bucket::new();
    for i in 0u8..7 {
        let mut c = content(&[i]);
        if i % 2 == 0 {
            c.ttl = Some(seconds(10));
        }
        b.put(&s, c, T0).unwrap();
    }
    assert_eq!(b.sweep(&s, after(9), &[]), 0);
    assert_eq!(b.blobs.len(), 7);
    let stuck = vec![s.blob_key(&hex_hash(&[4]))];
    assert_eq!(b.sweep(&s, after(10), &stuck), 3);
    assert_eq!(b.blobs.len(), 4);
    assert_eq!(b.sweep(&s, after(10), &[]), 1);
    assert_eq!(b.sweep(&s, after(10), &[]), 0);
    assert_eq!(b.blobs.len(), 3);
    for i in [1u8, 3, 5] {
        let hash = hex_hash(&[i]);
        assert!(b.blobs.contains_key(&s.blob_key(&hash)));
        assert_eq!(b.get(&s, &hash, after(10)).unwrap().unwrap().bytes, [i]);
    }
}

#[test]
fn sweep_passes_over_heads_it_cannot_have_and_ends_on_a_failed_listing() {
    let s = store("");
    let page = ListPage {
        keys: vec![Some("blobs/aa".to_owned()), Some("aliases/zz".to_owned()), None],
        next: Some("more".to_owned()),
    };
    let progress = match s.sweep_after_list(3, Ok(page)) {
        SweepStep::Head { hash, key, progress } => {
            assert_eq!((hash.as_str(), key.as_str()), ("aa", "blobs/aa"));
            progress
        }
        other => panic!("{other:?}"),
    };
    match s.sweep_after_head("aa", progress, HeadReply::Failed("x".to_owned())) {
        SweepStep::List { continuation, removed, .. } => {
            assert_eq!(continuation.as_deref(), Some("more"));
            assert_eq!(removed, 3);
        }
        other => panic!("{other:?}"),
    }
    match s.sweep_after_list(3, Err("x".to_owned())) {
        SweepStep::Done { removed } => assert_eq!(removed, 3),
        other => panic!("{other:?}"),
    }
}

#[test]
fn an_object_without_our_metadata_can_be_read() {
    let s = store("");
    let reply = BlobReply::Found { content_type: Some("image/png".to_owned()), metadata: vec![] };
    match s.get_after_blob_at("ab", reply, T0) {
        GetStep::ReadBody(p) => {
            assert_eq!(p.mime_type, "image/png");
            assert_eq!(p.stored_at, T0);
            assert_eq!(p.expires_at, None);
        }
        other => panic!("{other:?}"),
    }
    let metadata = vec![
        ("mcpg-stored-at".to_owned(), "yesterday".to_owned()),
        ("mcpg-expires-at".to_owned(), "tomorrow".to_owned()),
    ];
    match s.get_after_blob_at("ab", BlobReply::Found { content_type: None, metadata }, T0) {
        GetStep::ReadBody(p) => {
            assert_eq!(p.mime_type, "application/octet-stream");
            assert_eq!(p.stored_at, T0);
            assert_eq!(p.expires_at, None);
        }
        other => panic!("{other:?}"),
    }
}

#[test]
fn times_in_other_zones_are_read() {
    let s = store("");
    let metadata = vec![("mcpg-expires-at".to_owned(), "2024-01-01T02:00:00.25+02:00".to_owned())];
    let head = s.head_blob("ab", HeadReply::Found { metadata }).unwrap().unwrap();
    assert_eq!(head.expires_at, Some(Timestamp { secs: T0.secs, nanos: 250_000_000 }));
}

#[test]
fn failures_tell_what_was_asked() {
    let s = store("");
    let why = || "why".to_owned();
    assert_eq!(message(s.head_blob("ab", HeadReply::Failed(why())).unwrap_err()), "HeadObject ab: why");
    assert!(s.head_blob("ab", HeadReply::Missing).unwrap().is_none());
    let id = "alias:s:a";
    assert_eq!(
        message(s.read_alias(id, AliasReply::Failed(why())).unwrap_err()),
        "GetObject alias alias:s:a: why"
    );
    assert_eq!(
        message(s.read_alias(id, AliasReply::BodyFailed(why())).unwrap_err()),
        "read alias body alias:s:a: why"
    );
    assert_eq!(
        message(s.read_alias(id, AliasReply::DecodeFailed(why())).unwrap_err()),
        "decode alias alias:s:a: why"
    );
    assert_eq!(message(s.delete_blob("ab", Err(why())).unwrap_err()), "DeleteObject ab: why");
    assert_eq!(
        message(s.delete_alias(id, Err(why())).unwrap_err()),
        "DeleteObject alias alias:s:a: why"
    );
    match s.get_after_blob_at("ab", BlobReply::Failed(why()), T0) {
        GetStep::Done(Err(e)) => assert_eq!(message(e), "GetObject ab: why"),
        other => panic!("{other:?}"),
    }
    match s.get_after_alias_at(id, AliasReply::Failed(why()), T0) {
        GetStep::Done(Err(e)) => assert_eq!(message(e), "GetObject alias alias:s:a: why"),
        other => panic!("{other:?}"),
    }
    match s.delete_after_alias(id, AliasReply::DecodeFailed(why())) {
        DeleteStep::Done(Err(e)) => assert_eq!(message(e), "decode alias alias:s:a: why"),
        other => panic!("{other:?}"),
    }
    match s.signed_url_after_alias(id, AliasReply::Failed(why())) {
        SignStep::Done(Err(e)) => assert_eq!(message(e), "GetObject alias alias:s:a: why"),
        other => panic!("{other:?}"),
    }
    match s.signed_url_after_head("ab", seconds(1), HeadReply::Failed(why())) {
        SignStep::Done(Err(e)) => assert_eq!(message(e), "HeadObject ab: why"),
        other => panic!("{other:?}"),
    }
    assert_eq!(
        message(s.signed_url_after_presign("ab", Err(why())).unwrap_err()),
        "presign ab: why"
    );
    let found = HeadReply::Found { metadata: vec![] };
    match s.signed_url_after_head("ab", Ttl { secs: 604_800, nanos: 1 }, found) {
        SignStep::Done(Err(e)) => assert_eq!(
            message(e),
            "presigning config: `expires_in` must be no longer than one week"
        ),
        other => panic!("{other:?}"),
    }
    let found = HeadReply::Found { metadata: vec![] };
    assert!(matches!(
        s.signed_url_after_head("ab", seconds(604_800), found),
        SignStep::Presign { .. }
    ));
}

#[test]
fn failures_of_put_tell_what_was_written() {
    let s = store("");
    let pending = || match s.put_at(
        ContentToStore { alias: Some("a".to_owned()), ..content(b"") },
        T0,
    ) {
        PutStep::WriteBlob { pending, .. } => pending,
        other => panic!("{other:?}"),
    };
    match s.put_after_blob(pending(), Err("why".to_owned())) {
        PutStep::Done(Err(e)) => assert_eq!(message(e), format!("PutObject {EMPTY_HASH}: why")),
        other => panic!("{other:?}"),
    }
    let alias = || match s.put_after_blob(pending(), Ok(())) {
        PutStep::WriteAlias { pending_alias, .. } => pending_alias,
        other => panic!("{other:?}"),
    };
    let e = s.put_after_alias(alias(), Err(PutAliasFailure::Encode("why".to_owned())));
    assert_eq!(message(e.unwrap_err()), "encode alias: why");
    let e = s.put_after_alias(alias(), Err(PutAliasFailure::Send("why".to_owned())));
    assert_eq!(message(e.unwrap_err()), "PutObject alias alias:__no_session__:a: why");
    let step = match s.put_at(content(b""), T0) {
        PutStep::WriteBlob { object, pending } => {
            let reply = BlobReply::Found { content_type: None, metadata: object.metadata };
            s.get_after_blob_at(&pending.hash, reply, T0)
        }
        other => panic!("{other:?}"),
    };
    match step {
        GetStep::ReadBody(p) => {
            let e = s.get_after_body(p, Err("why".to_owned())).unwrap_err();
            assert_eq!(message(e), format!("read blob body {EMPTY_HASH}: why"));
        }
        other => panic!("{other:?}"),
    }
}

#[test]
fn stats_are_zero() {
    assert_eq!(
        store("p").stats(),
        ContentStoreStats { item_count: 0, byte_count: 0, max_bytes: 0 }
    );
}

#[test]
fn debug_shows_bucket_prefix_and_limit() {
    let s = S3ContentStore::open(config("p", 9)).unwrap();
    assert_eq!(
        format!("{s:?}"),
        "S3ContentStore { bucket: \"b\", prefix: \"p/\", max_bytes: 9 }"
    );
}
