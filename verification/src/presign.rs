//! How a link is to be signed: the client's own terms, together with the lifetime that they give.
use crate::time::Ttl;
use aws_sdk_s3::presigning::PresigningConfig;
use vstd::prelude::*;

verus! {

/// How a request is to be signed, as the client has it.
#[verifier::external_type_specification]
#[verifier::external_body]
pub struct ExPresigningConfig(aws_sdk_s3::presigning::PresigningConfig);

/// What a link is signed with, and how long that makes it good. Only the client's answer to a
/// lifetime makes one, so the two belong together.
#[derive(Debug)]
pub struct SigningTerms {
    config: PresigningConfig,
    ttl: Ttl,
}

impl SigningTerms {
    /// How long a link that is signed with these terms is good.
    pub closed spec fn lifetime(self) -> Ttl {
        self.ttl
    }

    /// What the client signs with.
    pub closed spec fn config(self) -> PresigningConfig {
        self.config
    }

    /// How long a link that is signed with these terms is good.
    pub fn ttl(&self) -> (r: Ttl)
        ensures
            r == self.lifetime(),
    {
        self.ttl
    }

    /// What the client signs with.
    pub fn into_config(self) -> (r: PresigningConfig)
        ensures
            r == self.config(),
    {
        self.config
    }
}

/// What the client says to a lifetime that it does not take.
pub open spec fn refusal() -> Seq<char> {
    "`expires_in` must be no longer than one week"@
}

/// Calls `PresigningConfig::expires_in` of `aws_sdk_s3`. It takes a lifetime of at most one week
/// and refuses a longer one, with a text that is always the same. The lifetime of the terms is the
/// one that `expires` tells of the client's own value, which is the one that was asked for. The
/// link begins to be good when the call is made; of that instant nothing is said.
#[verifier::external_body]
pub(crate) fn signing_terms(ttl: Ttl) -> (r: Result<SigningTerms, String>)
    requires
        ttl.valid(),
    ensures
        match r {
            Ok(terms) => !crate::sign::exceeds_ceiling(ttl) && terms.lifetime() == ttl,
            Err(why) => crate::sign::exceeds_ceiling(ttl) && why@ == refusal(),
        },
{
    match PresigningConfig::expires_in(std::time::Duration::new(ttl.secs, ttl.nanos)) {
        Ok(config) => {
            let told = config.expires();
            let ttl = Ttl { secs: told.as_secs(), nanos: told.subsec_nanos() };
            Ok(SigningTerms { config, ttl })
        },
        Err(e) => Err(e.to_string()),
    }
}

} // verus!
