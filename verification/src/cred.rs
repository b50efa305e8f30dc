//! Credential resolution: a strict precedence chain over layered lookups.
//!
//! The environment and the on-disk profile configuration are read outside;
//! each layer's outcome arrives as an optional credential and the chain
//! picks the first present one, applies the region override, and demands
//! that a region or an endpoint remain.

use vstd::prelude::*;

use crate::error::Error;
use crate::strutil::{concat3, dashes_to_underscores, spec_dashes_to_underscores};

verus! {

/// The four credential fields an environment layer provides.
pub enum CredKey {
    Id,
    Secret,
    Region,
    Endpoint,
}

impl CredKey {
    /// The trailing part of this field's environment-variable name.
    pub fn env_part(&self) -> (r: &'static str)
        ensures
            self is Id ==> r@ == "KEY_ID"@,
            self is Secret ==> r@ == "KEY_SECRET"@,
            self is Region ==> r@ == "REGION"@,
            self is Endpoint ==> r@ == "ENDPOINT"@,
    {
        match self {
            CredKey::Id => "KEY_ID",
            CredKey::Secret => "KEY_SECRET",
            CredKey::Region => "REGION",
            CredKey::Endpoint => "ENDPOINT",
        }
    }
}

/// Whether a lookup layer is scoped to a profile or to a bucket.
pub enum EnvType {
    Profile,
    Bucket,
}

impl EnvType {
    /// The leading part of this layer's environment-variable names.
    pub fn env_part(&self) -> (r: &'static str)
        ensures
            self is Profile ==> r@ == "SS3_PROFILE"@,
            self is Bucket ==> r@ == "SS3_BUCKET"@,
    {
        match self {
            EnvType::Profile => "SS3_PROFILE",
            EnvType::Bucket => "SS3_BUCKET",
        }
    }
}

/// The leading name part of a lookup layer.
pub open spec fn spec_env_type_part(t: EnvType) -> Seq<char> {
    match t {
        EnvType::Profile => "SS3_PROFILE"@,
        EnvType::Bucket => "SS3_BUCKET"@,
    }
}

/// The trailing name part of a credential field.
pub open spec fn spec_cred_key_part(k: CredKey) -> Seq<char> {
    match k {
        CredKey::Id => "KEY_ID"@,
        CredKey::Secret => "KEY_SECRET"@,
        CredKey::Region => "REGION"@,
        CredKey::Endpoint => "ENDPOINT"@,
    }
}

/// The full environment-variable name of one field in one layer, with the
/// bucket or profile name's dashes turned into underscores.
pub open spec fn spec_env_name(t: EnvType, k: CredKey, name: Seq<char>) -> Seq<char> {
    spec_env_type_part(t) + seq!['_'] + spec_dashes_to_underscores(name) + seq!['_']
        + spec_cred_key_part(k)
}

/// The environment-variable name carrying field `key` of layer `typ` for
/// the bucket or profile called `name`.
pub fn get_env_name(typ: EnvType, key: CredKey, name: &str) -> (r: String)
    ensures
        r@ == spec_env_name(typ, key, name@),
{
    proof {
        reveal_strlit("_");
        assert("_"@ =~= seq!['_']);
    }
    let cleaned = dashes_to_underscores(name);
    let head = concat3(typ.env_part(), "_", cleaned.as_str());
    let r = concat3(head.as_str(), "_", key.env_part());
    proof {
        assert(r@ =~= spec_env_name(typ, key, name@));
    }
    r
}

/// The region and profile arguments of one invocation.
pub struct RegionProfile {
    pub region: Option<String>,
    pub profile: Option<String>,
}

/// One resolved credential. It lives for a single invocation: built here,
/// consumed at once to configure the store client, never stored.
#[derive(Debug, Clone)]
pub struct AwsCred {
    pub key_id: String,
    pub key_secret: String,
    pub region: Option<String>,
    pub endpoint: Option<String>,
}

/// A credential from one environment layer's four lookups: present exactly
/// when both the key id and the secret were found.
pub fn cred_from_env_parts(
    key_id: Option<String>,
    key_secret: Option<String>,
    region: Option<String>,
    endpoint: Option<String>,
) -> (r: Option<AwsCred>)
    ensures
        (r is Some) == (key_id is Some && key_secret is Some),
        r matches Some(c) ==> c.key_id == key_id->0 && c.key_secret == key_secret->0 && c.region
            == region && c.endpoint == endpoint,
{
    match (key_id, key_secret) {
        (Some(id), Some(secret)) => Some(
            AwsCred { key_id: id, key_secret: secret, region, endpoint },
        ),
        _ => None,
    }
}

/// Which credential the precedence chain settles on: the bucket layer
/// first; then, when a profile was supplied, its environment layer and
/// then its configuration-file layer; the generic environment last.
pub open spec fn spec_cred_chain(
    bucket_env: Option<AwsCred>,
    profile_supplied: bool,
    profile_env: Option<AwsCred>,
    profile_file: Option<AwsCred>,
    default_env: Option<AwsCred>,
) -> Option<AwsCred> {
    if bucket_env is Some {
        bucket_env
    } else if profile_supplied && profile_env is Some {
        profile_env
    } else if profile_supplied && profile_file is Some {
        profile_file
    } else {
        default_env
    }
}

/// Resolve the credential for one invocation from the outcomes of the
/// lookup layers, in strict precedence order, and apply the explicit
/// region argument on top of whatever the chain found.
pub fn resolve_cred(
    bucket_env: Option<AwsCred>,
    profile_supplied: bool,
    profile_env: Option<AwsCred>,
    profile_file: Option<AwsCred>,
    default_env: Option<AwsCred>,
    region_arg: Option<String>,
    bucket: Option<String>,
) -> (r: Result<AwsCred, Error>)
    ensures
        match spec_cred_chain(bucket_env, profile_supplied, profile_env, profile_file, default_env) {
            Some(c) => r matches Ok(rc) && rc.key_id == c.key_id && rc.key_secret == c.key_secret
                && rc.endpoint == c.endpoint && rc.region == (if region_arg is Some {
                region_arg
            } else {
                c.region
            }),
            None => r matches Err(e) && e matches Error::NoCredentialsFoundForBucket(b) && b
                == bucket,
        },
{
    let picked = if bucket_env.is_some() {
        bucket_env
    } else if profile_supplied && profile_env.is_some() {
        profile_env
    } else if profile_supplied && profile_file.is_some() {
        profile_file
    } else {
        default_env
    };
    match picked {
        Some(mut c) => {
            if region_arg.is_some() {
                c.region = region_arg;
            }
            Ok(c)
        },
        None => Err(Error::NoCredentialsFoundForBucket(bucket)),
    }
}

/// A store client can only be built with a region or an endpoint; reject a
/// credential that carries neither.
pub fn validate_client_config(cred: &AwsCred) -> (r: Result<(), Error>)
    ensures
        (r is Ok) == (cred.region is Some || cred.endpoint is Some),
        r matches Err(e) ==> e is MissingConfigMustHaveEndpointOrRegion,
{
    match (&cred.region, &cred.endpoint) {
        (None, None) => Err(Error::MissingConfigMustHaveEndpointOrRegion),
        _ => Ok(()),
    }
}

} // verus!
