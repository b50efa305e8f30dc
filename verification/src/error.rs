//! Error taxonomy of the copy/sync core.
//!
//! Every variant carries plain values only; provider failures arrive already
//! reduced to a code and a message by the caller that performed the request.

use vstd::prelude::*;

use crate::strutil::{concat3, concat_str};

verus! {

/// All errors the core can report.
#[derive(Debug, Clone)]
pub enum Error {
    /// The given text is not an `s3://bucket[/key]` URL.
    NotValidS3Url(String),
    /// A path or key has no usable file-name component.
    InvalidPath(String),
    /// The upload source path names neither a file nor a directory.
    FilePathNotFound(String),
    /// The requested combination of source and destination shapes.
    NotSupported(String),
    /// Fail overwrite mode and the destination object already exists.
    ObjectExistsOverFailMode(String),
    /// Fail overwrite mode and the destination file already exists.
    FileExistsOverFailMode(String),
    /// A credential environment variable was looked up and absent.
    NoCredentialEnv(String),
    /// A credential key was absent from the profile configuration.
    NoCredentialConfig(String),
    /// The named profile exists nowhere in the lookup chain.
    NoCredentialsForProfile(String),
    /// The whole credential chain came up empty for this bucket.
    NoCredentialsFoundForBucket(Option<String>),
    /// Neither a region nor an endpoint was resolved.
    MissingConfigMustHaveEndpointOrRegion,
    /// No object was found at the key.
    S3ObjectNotFound { key: String },
    /// A malformed command invocation.
    CmdInvalid(String),
    /// A provider failure, reduced to its code and message.
    AwsSdkErrorWrapper { code: String, message: String },
}

/// The credential search order, spelled out in full: this text is the
/// primary surface a misconfigured user sees, so every fallback location
/// appears in it.
pub open spec fn spec_cred_search_order() -> Seq<char> {
    "'. Provide the following (by order of precedence):\n  - Provide bucket SS3_BUCKET_... environments (will take precedence on profile env/configs)\n    - SS3_BUCKET_bucket_name_KEY_ID\n    - SS3_BUCKET_bucket_name_KEY_SECRET\n    - SS3_BUCKET_bucket_name_REGION\n    - SS3_BUCKET_bucket_name_ENDPOINT (optional)\n  - Provide '--profile profile_name' with the following SS3_PROFILE_... environments:\n    - SS3_PROFILE_profile_name_KEY_ID\n    - SS3_PROFILE_profile_name_KEY_SECRET\n    - SS3_PROFILE_profile_name_REGION\n    - SS3_PROFILE_profile_name_ENDPOINT (optional)\n  - Provide '--profile profile_name' which should be configured in aws default config files\n  - As a last fallback, use the default AWS environment variables:\n    - AWS_ACCESS_KEY_ID\n    - AWS_SECRET_ACCESS_KEY\n    - AWS_DEFAULT_REGION\n    - AWS_ENDPOINT (optional)\n  NOTE: '-' characters in profile and bucket names will be replaced by '_' for environment names above."@
}

/// The text of a missing bucket: the bucket name, or `None` when the
/// invocation had none.
pub open spec fn spec_bucket_text(b: Option<String>) -> Seq<char> {
    match b {
        Some(s) => s@,
        None => "None"@,
    }
}

impl Error {
    /// The message shown for this error.
    pub fn message(&self) -> (r: String)
        ensures
            match self {
                Error::NotValidS3Url(u) => r@ == "Not a valid s3 url '"@ + u@
                    + "'. Should be format 's3://bucket_name[/path/to/object]'"@,
                Error::InvalidPath(p) => r@ == "Cannot perform, invalid key '"@ + p@ + "'"@,
                Error::FilePathNotFound(p) => r@ == "File path '"@ + p@ + "' not found."@,
                Error::NotSupported(f) => r@ == "Not Supported - '"@ + f@
                    + "' feature is not supported."@,
                Error::ObjectExistsOverFailMode(u) => r@ == "Fail mode is on and the object '"@
                    + u@ + "' already exists"@,
                Error::FileExistsOverFailMode(f) => r@ == "Fail mode is on and the file '"@ + f@
                    + "' already exists"@,
                Error::NoCredentialEnv(n) => r@ == "Credential environment variable "@ + n@
                    + " not found"@,
                Error::NoCredentialConfig(k) => r@ == "Credential profile config key "@ + k@
                    + " not found"@,
                Error::NoCredentialsForProfile(p) => r@ == "No credentials found for profile "@
                    + p@ + "."@,
                Error::NoCredentialsFoundForBucket(b) => r@ == "No credential found for bucket '"@
                    + spec_bucket_text(*b) + spec_cred_search_order(),
                Error::MissingConfigMustHaveEndpointOrRegion => r@
                    == "Missing config. The credential environment variables or config must have either a REGION or ENDPOINT. Both absent."@,
                Error::S3ObjectNotFound { key } => r@ == "Cannot find S3 object at key '"@ + key@
                    + "'"@,
                Error::CmdInvalid(c) => r@ == "Invalid command. Cause: "@ + c@,
                Error::AwsSdkErrorWrapper { code, message } => r@ == "AWS SDK ERROR:\n       Code: "@
                    + code@ + "\n    Message: "@ + message@,
            },
    {
        match self {
            Error::NotValidS3Url(u) => concat3(
                "Not a valid s3 url '",
                u.as_str(),
                "'. Should be format 's3://bucket_name[/path/to/object]'",
            ),
            Error::InvalidPath(p) => concat3("Cannot perform, invalid key '", p.as_str(), "'"),
            Error::FilePathNotFound(p) => concat3("File path '", p.as_str(), "' not found."),
            Error::NotSupported(f) => concat3(
                "Not Supported - '",
                f.as_str(),
                "' feature is not supported.",
            ),
            Error::ObjectExistsOverFailMode(u) => concat3(
                "Fail mode is on and the object '",
                u.as_str(),
                "' already exists",
            ),
            Error::FileExistsOverFailMode(f) => concat3(
                "Fail mode is on and the file '",
                f.as_str(),
                "' already exists",
            ),
            Error::NoCredentialEnv(n) => concat3(
                "Credential environment variable ",
                n.as_str(),
                " not found",
            ),
            Error::NoCredentialConfig(k) => concat3(
                "Credential profile config key ",
                k.as_str(),
                " not found",
            ),
            Error::NoCredentialsForProfile(p) => concat3(
                "No credentials found for profile ",
                p.as_str(),
                ".",
            ),
            Error::NoCredentialsFoundForBucket(b) => {
                let bucket_text = match b {
                    Some(s) => s.as_str(),
                    None => "None",
                };
                concat3(
                    "No credential found for bucket '",
                    bucket_text,
                    "'. Provide the following (by order of precedence):\n  - Provide bucket SS3_BUCKET_... environments (will take precedence on profile env/configs)\n    - SS3_BUCKET_bucket_name_KEY_ID\n    - SS3_BUCKET_bucket_name_KEY_SECRET\n    - SS3_BUCKET_bucket_name_REGION\n    - SS3_BUCKET_bucket_name_ENDPOINT (optional)\n  - Provide '--profile profile_name' with the following SS3_PROFILE_... environments:\n    - SS3_PROFILE_profile_name_KEY_ID\n    - SS3_PROFILE_profile_name_KEY_SECRET\n    - SS3_PROFILE_profile_name_REGION\n    - SS3_PROFILE_profile_name_ENDPOINT (optional)\n  - Provide '--profile profile_name' which should be configured in aws default config files\n  - As a last fallback, use the default AWS environment variables:\n    - AWS_ACCESS_KEY_ID\n    - AWS_SECRET_ACCESS_KEY\n    - AWS_DEFAULT_REGION\n    - AWS_ENDPOINT (optional)\n  NOTE: '-' characters in profile and bucket names will be replaced by '_' for environment names above.",
                )
            },
            Error::MissingConfigMustHaveEndpointOrRegion => String::from_str(
                "Missing config. The credential environment variables or config must have either a REGION or ENDPOINT. Both absent.",
            ),
            Error::S3ObjectNotFound { key } => concat3(
                "Cannot find S3 object at key '",
                key.as_str(),
                "'",
            ),
            Error::CmdInvalid(c) => concat_str("Invalid command. Cause: ", c.as_str()),
            Error::AwsSdkErrorWrapper { code, message } => {
                let head = concat3("AWS SDK ERROR:\n       Code: ", code.as_str(), "\n    Message: ");
                concat_str(head.as_str(), message.as_str())
            },
        }
    }
}

} // verus!
