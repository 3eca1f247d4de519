use delta_sharing::error::Error;
use delta_sharing::signed_url::{
    check_gcs_names, validate_bucket_name, validate_object_name, ObjectStore, Utility,
};
use rusoto_credential::AwsCredentials;

#[test]
fn test_aws_url() {
    let bucket = "abcdefghij";
    let path = "klmnopqrst";
    let url = format!("s3://{}/{}", bucket, path);
    let store = ObjectStore::from_str(&url).expect("should parse s3 url properly");
    if let ObjectStore::S3 {
        url: parsed_url,
        bucket: parsed_bucket,
        path: parsed_path,
    } = store
    {
        assert_eq!(parsed_url, url);
        assert_eq!(parsed_bucket, bucket);
        assert_eq!(parsed_path, path);
    } else {
        panic!("should be parsed as S3 url");
    }
}

#[test]
fn test_gcp_url() {
    let bucket = "abcdefghij";
    let path = "klmnopqrst";
    let url = format!("gs://{}/{}", bucket, path);
    let store = ObjectStore::from_str(&url).expect("should parse gcs url properly");
    if let ObjectStore::Gcs {
        url: parsed_url,
        bucket: parsed_bucket,
        path: parsed_path,
    } = store
    {
        assert_eq!(parsed_url, url);
        assert_eq!(parsed_bucket, bucket);
        assert_eq!(parsed_path, path);
    } else {
        panic!("should be parsed as GS url");
    }
}

#[test]
fn test_s3a_scheme() {
    let store = ObjectStore::from_str("s3a://bucket/key").expect("should parse s3a url");
    assert!(matches!(store, ObjectStore::S3 { .. }));
}

#[test]
fn test_s3_nested_path() {
    let store = ObjectStore::from_str("s3://bucket/key/sub").expect("should parse s3 url");
    if let ObjectStore::S3 { bucket, path, .. } = store {
        assert_eq!(bucket, "bucket");
        assert_eq!(path, "key/sub");
    } else {
        panic!("should be parsed as S3 url");
    }
}

#[test]
fn test_unknown_scheme_not_available() {
    let store = ObjectStore::from_str("https://example.com/x").expect("should parse https url");
    if let ObjectStore::NotAvailable { url } = store {
        assert_eq!(url, "https://example.com/x");
    } else {
        panic!("should be parsed as unsupported");
    }
}

#[test]
fn test_invalid_url_rejected() {
    assert_eq!(
        ObjectStore::from_str("not a url").err(),
        Some(Error::MalformedUrl)
    );
}

#[test]
fn test_bucket_name_rules() {
    assert!(validate_bucket_name("my-bucket1"));
    assert!(validate_bucket_name("abc"));
    assert!(!validate_bucket_name("ab"));
    assert!(!validate_bucket_name("MyBucket"));
    assert!(!validate_bucket_name("-abc"));
    assert!(!validate_bucket_name("abc-"));
    assert!(!validate_bucket_name("googol"));
    assert!(!validate_bucket_name("mygooglebucket"));
    assert!(!validate_bucket_name("myg00glebucket"));
    assert!(!validate_bucket_name("has space"));
}

#[test]
fn test_object_name_rules() {
    assert!(validate_object_name("covid"));
    assert!(validate_object_name("key/sub"));
    assert!(!validate_object_name(""));
    assert!(!validate_object_name("."));
    assert!(!validate_object_name("..."));
    assert!(validate_object_name(".."));
    assert!(!validate_object_name("a\rb"));
    assert!(!validate_object_name("a[b]"));
    assert!(!validate_object_name("wild*card"));
    assert!(!validate_object_name(".well-known/acme-challenge/x"));
}

#[test]
fn test_check_gcs_names_reports_rejected_part() {
    assert!(check_gcs_names("my-bucket1", "covid").is_ok());
    assert_eq!(
        check_gcs_names("Bad Bucket", "covid"),
        Err(Error::InvalidBucketName)
    );
    assert_eq!(
        check_gcs_names("my-bucket1", "..."),
        Err(Error::InvalidObjectName)
    );
    assert_eq!(
        check_gcs_names("ab", "..."),
        Err(Error::InvalidBucketName)
    );
}

#[test]
fn test_sign_aws_with_local_credentials() {
    let creds = AwsCredentials::new("anaccesskey", "asecretkey", None, None);
    let store = ObjectStore::from_str("s3://delta-sharing-test/covid")
        .expect("should parse s3 url properly");
    if let ObjectStore::S3 { bucket, path, .. } = store {
        let url = Utility::sign_aws(&creds, &bucket, &path, &300)
            .expect("presigned url should be produced");
        assert!(url.as_str().contains("delta-sharing-test"));
        assert!(url.as_str().contains("covid"));
        assert!(url.as_str().contains("X-Amz-Signature"));
    } else {
        panic!("should be parsed as S3 url");
    }
}
