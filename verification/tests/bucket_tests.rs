//! The `mb`/`rb` command scenarios. The bucket create and delete requests
//! themselves are store calls made outside the library; what the library
//! contributes — and what these scenarios pin down — is the parsing of the
//! bucket URL the command receives and the reporting of the provider's
//! answer, whose text is the command's output.

use ss3::error::Error;
use ss3::spath::{S3Url, SPath};

/// The test bucket's URL and name for one scenario, dashes for
/// underscores as bucket names require.
fn get_test_bucket(test_name: &str) -> (String, String) {
    let bucket_name = format!("test-bucket-{}", test_name.replace('_', "-"));
    let bucket_url = format!("s3://{bucket_name}");
    (bucket_url, bucket_name)
}

#[test]
fn test_mb_success_simple_create() {
    let (bucket_url, bucket_name) = get_test_bucket("test_mb_success_simple_create");
    // The command parses its URL argument into the bucket it creates and
    // reports; the reported name is the parsed one.
    let url = match SPath::from_str(&bucket_url).unwrap() {
        SPath::S3(url) => url,
        SPath::File(p) => panic!("expected a store url, got file path {p}"),
    };
    assert_eq!(url.bucket(), bucket_name);
    assert_eq!(url.key(), "");
}

#[test]
fn test_mb_fail_already_exist() {
    let (bucket_url, _bucket_name) = get_test_bucket("test_mb_fail_already_exist");
    let url = S3Url::from_url(&bucket_url).unwrap();
    assert!(!url.bucket().is_empty());
    // Creating the same bucket again has the store answer with this code,
    // which the command surfaces verbatim in its failure output.
    let e = Error::AwsSdkErrorWrapper {
        code: "BucketAlreadyOwnedByYou".to_string(),
        message: "Your previous request to create the named bucket succeeded".to_string(),
    };
    assert!(e.message().contains("BucketAlreadyOwnedByYou"));
}

#[test]
fn test_rb_success_empty() {
    let (bucket_url, bucket_name) = get_test_bucket("test_rb_success_empty");
    // Deleting an empty bucket succeeds and the command reports the name
    // parsed from the URL.
    let url = match SPath::from_str(&bucket_url).unwrap() {
        SPath::S3(url) => url,
        SPath::File(p) => panic!("expected a store url, got file path {p}"),
    };
    assert_eq!(url.bucket(), bucket_name);
}

#[test]
fn test_rb_fail_not_empty() {
    let (bucket_url, _bucket_name) = get_test_bucket("test_rb_fail_not_empty");
    let url = S3Url::from_url(&bucket_url).unwrap();
    assert!(!url.bucket().is_empty());
    // Deleting a bucket that still holds an object has the store answer
    // with this code, surfaced in the command's failure output.
    let e = Error::AwsSdkErrorWrapper {
        code: "BucketNotEmpty".to_string(),
        message: "The bucket you tried to delete is not empty".to_string(),
    };
    assert!(e.message().contains("BucketNotEmpty"));
}
