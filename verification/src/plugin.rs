//! The factory: what it tells of itself, and how an operator's settings become a store.
use crate::content::storage_error;
use crate::content::ContentStoreError;
use crate::content::ErrorView;
use crate::store::ClientSettings;
use crate::store::S3ContentStore;
use crate::store::S3ContentStoreConfig;
use crate::store::S3StaticCredentials;
use std::sync::Arc;
use vstd::prelude::*;

verus! {

/// The version of this plugin.
pub const PLUGIN_VERSION: &'static str = "0.1.0";

/// The version of the protocol that it speaks.
pub const PROTOCOL_VERSION: &'static str = "1.0";

/// What a plugin is for.
#[derive(Debug, Clone, Copy, PartialEq, Eq, Structural)]
pub enum PluginClass {
    ContentStore,
}

/// What a plugin tells of itself.
#[derive(Debug)]
pub struct PluginManifest {
    pub id: String,
    pub version: String,
    pub name: String,
    pub plugin_class: PluginClass,
    pub protocol_version: String,
    pub license: Option<String>,
    pub required_capabilities: Vec<String>,
    pub tags: Vec<String>,
    pub provides: Vec<String>,
    pub provides_schemes: Vec<String>,
    pub module_path_prefix: String,
    pub backend_profile: Option<String>,
}

/// The text of a [`PluginManifest`].
#[verifier::ext_equal]
pub struct ManifestView {
    pub id: Seq<char>,
    pub version: Seq<char>,
    pub name: Seq<char>,
    pub plugin_class: PluginClass,
    pub protocol_version: Seq<char>,
    pub license: Option<Seq<char>>,
    pub required_capabilities: Seq<Seq<char>>,
    pub tags: Seq<Seq<char>>,
    pub provides: Seq<Seq<char>>,
    pub provides_schemes: Seq<Seq<char>>,
    pub module_path_prefix: Seq<char>,
    pub backend_profile: Option<Seq<char>>,
}

impl DeepView for PluginManifest {
    type V = ManifestView;

    open spec fn deep_view(&self) -> ManifestView {
        ManifestView {
            id: self.id@,
            version: self.version@,
            name: self.name@,
            plugin_class: self.plugin_class,
            protocol_version: self.protocol_version@,
            license: self.license.deep_view(),
            required_capabilities: self.required_capabilities.deep_view(),
            tags: self.tags.deep_view(),
            provides: self.provides.deep_view(),
            provides_schemes: self.provides_schemes.deep_view(),
            module_path_prefix: self.module_path_prefix@,
            backend_profile: self.backend_profile.deep_view(),
        }
    }
}

/// What the S3 plugin tells of itself.
pub open spec fn manifest_of_s3() -> ManifestView {
    ManifestView {
        id: "dev.mcpg.storage.s3"@,
        version: PLUGIN_VERSION@,
        name: "S3-Compatible Content Store"@,
        plugin_class: PluginClass::ContentStore,
        protocol_version: PROTOCOL_VERSION@,
        license: None,
        required_capabilities: seq![],
        tags: seq!["persistent"@, "cross_replica"@, "signed_urls"@],
        provides: seq![],
        provides_schemes: seq![],
        module_path_prefix: "mcpg_plugin_storage_s3"@,
        backend_profile: None,
    }
}

/// What the S3 plugin tells of itself.
pub fn s3_manifest() -> (r: PluginManifest)
    ensures
        r.deep_view() == manifest_of_s3(),
{
    let mut tags: Vec<String> = Vec::new();
    tags.push("persistent".to_owned());
    tags.push("cross_replica".to_owned());
    tags.push("signed_urls".to_owned());
    let r = PluginManifest {
        id: "dev.mcpg.storage.s3".to_owned(),
        version: PLUGIN_VERSION.to_owned(),
        name: "S3-Compatible Content Store".to_owned(),
        plugin_class: PluginClass::ContentStore,
        protocol_version: PROTOCOL_VERSION.to_owned(),
        license: None,
        required_capabilities: Vec::new(),
        tags,
        provides: Vec::new(),
        provides_schemes: Vec::new(),
        module_path_prefix: "mcpg_plugin_storage_s3".to_owned(),
        backend_profile: None,
    };
    assert(r.deep_view() =~= manifest_of_s3());
    r
}

/// The settings of a store as an operator writes them.
#[derive(Debug, Clone)]
pub struct S3Spec {
    /// The bucket, which must exist and be writable.
    pub bucket: String,
    /// The key prefix of every object. Empty if not given.
    pub prefix: String,
    /// The region.
    pub region: String,
    /// The endpoint of a provider other than AWS.
    pub endpoint_url: Option<String>,
    /// Whether the bucket stands in the path. False if not given.
    pub force_path_style: bool,
    /// The access key. Without it the client looks for keys in its surroundings.
    pub access_key_id: Option<String>,
    /// The secret key, which goes together with the access key.
    pub secret_access_key: Option<String>,
    /// The session token of temporary keys.
    pub session_token: Option<String>,
    /// The largest content that is stored, in bytes; zero stands for no bound. If not given, the
    /// number of [`S3Spec::default_max_bytes`].
    pub max_bytes: u64,
}

/// The keys of the settings, if there are any. Half a pair is refused.
pub open spec fn credentials_of(spec: S3Spec) -> Result<Option<S3StaticCredentials>, ErrorView> {
    match (spec.access_key_id, spec.secret_access_key) {
        (Some(access_key_id), Some(secret_access_key)) => Ok(
            Some(
                S3StaticCredentials {
                    access_key_id,
                    secret_access_key,
                    session_token: spec.session_token,
                },
            ),
        ),
        (None, None) => Ok(None),
        _ => Err(
            ErrorView::Storage {
                message: "s3 spec: access_key_id and secret_access_key must be set together"@,
            },
        ),
    }
}

/// The configuration of a store for the settings, with the given keys.
pub open spec fn config_with(
    spec: S3Spec,
    credentials: Option<S3StaticCredentials>,
) -> S3ContentStoreConfig {
    S3ContentStoreConfig {
        bucket: spec.bucket,
        prefix: spec.prefix,
        region: spec.region,
        endpoint_url: spec.endpoint_url,
        force_path_style: spec.force_path_style,
        credentials,
        max_bytes: spec.max_bytes,
    }
}

/// Half a pair of keys is refused, and nothing else is. A client looks for keys in its surroundings
/// only where the settings have none.
pub proof fn law_half_a_key_pair_is_refused(spec: S3Spec)
    ensures
        credentials_of(spec) is Err <==> spec.access_key_id is Some
            != spec.secret_access_key is Some,
        credentials_of(spec) matches Ok(credentials) ==> {
            (crate::store::settings_of(config_with(spec, credentials)).credentials is DefaultChain)
                <==> spec.access_key_id is None && spec.secret_access_key is None
        },
{
}

impl S3Spec {
    /// The bound on stored content where none is given: 256 MiB.
    pub fn default_max_bytes() -> (r: u64)
        ensures
            r == 256 * 1024 * 1024,
    {
        256 * 1024 * 1024
    }

    /// The configuration of a store for these settings.
    pub fn into_config(self) -> (r: Result<S3ContentStoreConfig, ContentStoreError>)
        ensures
            match credentials_of(self) {
                Ok(credentials) => r == Ok::<S3ContentStoreConfig, ContentStoreError>(
                    config_with(self, credentials),
                ),
                Err(e) => r matches Err(x) && x.deep_view() == e,
            },
    {
        let credentials = match (self.access_key_id, self.secret_access_key) {
            (Some(access_key_id), Some(secret_access_key)) => Some(
                S3StaticCredentials {
                    access_key_id,
                    secret_access_key,
                    session_token: self.session_token,
                },
            ),
            (None, None) => None,
            _ => {
                return Err(
                    ContentStoreError::Storage {
                        message:
                            "s3 spec: access_key_id and secret_access_key must be set together".to_owned(),
                    },
                );
            },
        };
        Ok(
            S3ContentStoreConfig {
                bucket: self.bucket,
                prefix: self.prefix,
                region: self.region,
                endpoint_url: self.endpoint_url,
                force_path_style: self.force_path_style,
                credentials,
                max_bytes: self.max_bytes,
            },
        )
    }
}

/// A store, and what the client for its bucket is to be made with.
#[derive(Debug)]
pub struct Profile {
    pub store: Arc<S3ContentStore>,
    pub client: ClientSettings,
}

/// Whether `built` is what comes of an operator's settings, or of why they could not be read.
pub open spec fn is_built_from(
    built: Result<Profile, ContentStoreError>,
    spec: Result<S3Spec, String>,
) -> bool {
    match spec {
        Err(why) => built matches Err(x) && x.deep_view() == (ErrorView::Storage {
            message: "invalid s3 spec: "@ + why@,
        }),
        Ok(s) => match credentials_of(s) {
            Err(e) => built matches Err(x) && x.deep_view() == e,
            Ok(credentials) => built matches Ok(profile) && profile.store@ == crate::store::opened(
                config_with(s, credentials),
            ) && profile.client == crate::store::settings_of(config_with(s, credentials)),
        },
    }
}

/// Nothing of one build shows in another: two profiles built from the same settings are both refused
/// for the same reason, or both have a store with the same bucket, prefix and bound and a client
/// made the same way. Neither the factory nor the name of a profile plays a part.
pub proof fn law_builds_agree(
    first: Result<Profile, ContentStoreError>,
    second: Result<Profile, ContentStoreError>,
    spec: Result<S3Spec, String>,
)
    requires
        is_built_from(first, spec),
        is_built_from(second, spec),
    ensures
        match (first, second) {
            (Ok(a), Ok(b)) => a.store@ == b.store@ && a.client == b.client,
            (Err(a), Err(b)) => a.deep_view() == b.deep_view(),
            _ => false,
        },
{
}

/// The factory of S3 content stores. It keeps nothing of what it makes.
#[derive(Debug)]
pub struct S3StoragePlugin {
    manifest: PluginManifest,
}

impl Default for S3StoragePlugin {
    fn default() -> (r: Self)
        ensures
            r.manifest_view() == manifest_of_s3(),
    {
        Self::new()
    }
}

impl S3StoragePlugin {
    /// A factory holds the manifest of the S3 plugin.
    #[verifier::type_invariant]
    closed spec fn well_formed(self) -> bool {
        self.manifest.deep_view() == manifest_of_s3()
    }

    /// A factory.
    pub fn new() -> (r: Self)
        ensures
            r.manifest_view() == manifest_of_s3(),
    {
        S3StoragePlugin { manifest: s3_manifest() }
    }

    /// The text of what this plugin tells of itself.
    pub closed spec fn manifest_view(self) -> ManifestView {
        self.manifest.deep_view()
    }

    /// What this plugin tells of itself.
    pub fn manifest(&self) -> (r: &PluginManifest)
        ensures
            r.deep_view() == self.manifest_view(),
            r.deep_view() == manifest_of_s3(),
    {
        proof {
            use_type_invariant(self);
        }
        &self.manifest
    }

    /// The kind of store that operators ask for this factory by.
    pub fn kind(&self) -> (r: &str)
        ensures
            r@ == "s3"@,
    {
        "s3"
    }

    /// The store for an operator's settings, or for why they could not be read. The name of the
    /// profile plays no part.
    pub fn build_profile(&self, profile_name: &str, spec: Result<S3Spec, String>) -> (r: Result<
        Profile,
        ContentStoreError,
    >)
        ensures
            is_built_from(r, spec),
            r matches Ok(profile) ==> spec matches Ok(s) && profile.client.region@ == s.region@
                && profile.client.endpoint_url == s.endpoint_url && profile.client.force_path_style
                == s.force_path_style && profile.store@.bucket == s.bucket@
                && profile.store@.max_bytes == s.max_bytes,
    {
        let spec = match spec {
            Ok(spec) => spec,
            Err(why) => {
                return Err(storage_error("invalid s3 spec: ", why.as_str()));
            },
        };
        let config = match spec.into_config() {
            Ok(config) => config,
            Err(e) => {
                return Err(e);
            },
        };
        let client = config.client_settings();
        match S3ContentStore::open(config) {
            Ok(store) => Ok(Profile { store, client }),
            Err(e) => Err(e),
        }
    }
}

} // verus!
