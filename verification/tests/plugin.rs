use mcpg_plugin_storage_s3::content::ContentStoreError;
use mcpg_plugin_storage_s3::plugin::s3_manifest;
use mcpg_plugin_storage_s3::plugin::PluginClass;
use mcpg_plugin_storage_s3::plugin::S3Spec;
use mcpg_plugin_storage_s3::store::CredentialSource;
use mcpg_plugin_storage_s3::S3StoragePlugin;

fn spec(bucket: &str, region: &str) -> S3Spec {
    S3Spec {
        bucket: bucket.to_owned(),
        prefix: String::new(),
        region: region.to_owned(),
        endpoint_url: None,
        force_path_style: false,
        access_key_id: None,
        secret_access_key: None,
        session_token: None,
        max_bytes: S3Spec::default_max_bytes(),
    }
}

fn message(e: ContentStoreError) -> String {
    match e {
        ContentStoreError::Storage { message } => message,
        other => panic!("expected Storage error, got {other:?}"),
    }
}

#[test]
fn manifest_is_content_store() {
    let m = s3_manifest();
    assert!(matches!(m.plugin_class, PluginClass::ContentStore));
    assert_eq!(m.id, "dev.mcpg.storage.s3");
    assert!(m.tags.contains(&"persistent".to_owned()));
    assert!(m.tags.contains(&"signed_urls".to_owned()));
}

#[test]
fn manifest_in_full() {
    let plugin = S3StoragePlugin::default();
    let m = plugin.manifest();
    assert_eq!(m.version, "0.1.0");
    assert_eq!(m.name, "S3-Compatible Content Store");
    assert_eq!(m.protocol_version, "1.0");
    assert_eq!(m.tags, vec!["persistent", "cross_replica", "signed_urls"]);
    assert_eq!(m.module_path_prefix, "mcpg_plugin_storage_s3");
    assert!(m.license.is_none() && m.backend_profile.is_none());
    assert!(m.required_capabilities.is_empty());
    assert!(m.provides.is_empty() && m.provides_schemes.is_empty());
}

#[test]
fn kind_is_s3() {
    assert_eq!(S3StoragePlugin::new().kind(), "s3");
}

#[test]
fn build_profile_rejects_partial_credentials() {
    let plugin = S3StoragePlugin::new();
    let mut s = spec("x", "us-east-1");
    s.access_key_id = Some("AKIA...".to_owned());
    let err = plugin.build_profile("broken", Ok(s)).unwrap_err();
    assert!(
        matches!(err, ContentStoreError::Storage { .. }),
        "expected Storage error, got {err:?}"
    );
}

#[test]
fn secret_key_without_access_key_is_rejected() {
    let plugin = S3StoragePlugin::new();
    let mut s = spec("x", "us-east-1");
    s.secret_access_key = Some("s".to_owned());
    let err = plugin.build_profile("broken", Ok(s)).unwrap_err();
    assert_eq!(
        message(err),
        "s3 spec: access_key_id and secret_access_key must be set together"
    );
}

#[test]
fn unreadable_spec_is_rejected_with_its_reason() {
    let plugin = S3StoragePlugin::new();
    let reason = serde_json::from_str::<u8>("true").unwrap_err().to_string();
    let err = plugin.build_profile("x", Err(reason.clone())).unwrap_err();
    assert_eq!(message(err), format!("invalid s3 spec: {reason}"));
}

#[test]
fn static_keys_go_to_the_client() {
    let mut s = spec("media", "auto");
    s.prefix = "content".to_owned();
    s.endpoint_url = Some("http://minio.internal:9000".to_owned());
    s.force_path_style = true;
    s.access_key_id = Some("a".to_owned());
    s.secret_access_key = Some("b".to_owned());
    s.session_token = Some("c".to_owned());
    s.max_bytes = 7;
    let profile = S3StoragePlugin::new().build_profile("media", Ok(s)).unwrap();
    assert_eq!(profile.store.bucket(), "media");
    assert_eq!(profile.store.prefix(), "content/");
    assert_eq!(profile.store.max_bytes(), 7);
    assert_eq!(profile.client.region, "auto");
    assert_eq!(profile.client.endpoint_url.as_deref(), Some("http://minio.internal:9000"));
    assert!(profile.client.force_path_style);
    match profile.client.credentials {
        CredentialSource::Static { keys, provider_name } => {
            assert_eq!(keys.access_key_id, "a");
            assert_eq!(keys.secret_access_key, "b");
            assert_eq!(keys.session_token.as_deref(), Some("c"));
            assert_eq!(provider_name, "mcpg-static");
        }
        CredentialSource::DefaultChain => panic!("keys were given"),
    }
}

#[test]
fn two_builds_from_the_same_spec_agree() {
    let plugin = S3StoragePlugin::new();
    let mut s = spec("media", "us-east-1");
    s.prefix = "content".to_owned();
    s.max_bytes = 7;
    let a = plugin.build_profile("one", Ok(s.clone())).unwrap();
    let b = plugin.build_profile("two", Ok(s.clone())).unwrap();
    assert!(!std::sync::Arc::ptr_eq(&a.store, &b.store));
    assert_eq!(a.store.bucket(), b.store.bucket());
    assert_eq!(a.store.prefix(), b.store.prefix());
    assert_eq!(a.store.max_bytes(), b.store.max_bytes());
    assert_eq!(a.client.region, b.client.region);
    s.access_key_id = Some("a".to_owned());
    let first = plugin.build_profile("one", Ok(s.clone())).unwrap_err();
    let second = plugin.build_profile("two", Ok(s)).unwrap_err();
    assert_eq!(message(first), message(second));
    assert_eq!(plugin.manifest().id, "dev.mcpg.storage.s3");
}

#[test]
fn without_keys_the_default_chain_is_used() {
    let mut s = spec("media", "us-east-1");
    s.session_token = Some("c".to_owned());
    let profile = S3StoragePlugin::new().build_profile("media", Ok(s)).unwrap();
    assert!(matches!(profile.client.credentials, CredentialSource::DefaultChain));
    assert_eq!(profile.store.max_bytes(), 268_435_456);
}
