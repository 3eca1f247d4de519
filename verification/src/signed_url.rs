//! Object-store locations and presigned URLs.
//!
//! A storage location URL is classified by scheme into an S3-compatible
//! store, a GCS store, or an unsupported location that keeps only the URL;
//! classification is total over parseable URLs.  Presigned URLs are then
//! produced per provider: request signing itself runs in the provider
//! crates, behind trusted wrappers, while name validation and error
//! classification are verified here.

use vstd::prelude::*;
use vstd::string::StrSliceExecFns;
use vstd::string::StringSliceAdditionalSpecFns;

use crate::error::Error;
use crate::text::contains_seq;
use crate::text::has_prefix;
use crate::text::str_contains;
use crate::text::str_eq;
use crate::text::str_has_prefix;
use crate::text::substring;

verus! {

#[verifier::external_type_specification]
#[verifier::external_body]
pub struct ExUrl(url::Url);

#[verifier::external_type_specification]
#[verifier::external_body]
pub struct ExAwsCredentials(rusoto_credential::AwsCredentials);

#[verifier::external_type_specification]
#[verifier::external_body]
pub struct ExServiceAccount(tame_gcs::signing::ServiceAccount);

/// Whether `url::Url::parse` accepts the string.
pub uninterp spec fn url_ok(s: Seq<char>) -> bool;

/// The scheme of the parsed URL (`Url::scheme`).
pub uninterp spec fn url_scheme(s: Seq<char>) -> Seq<char>;

/// The domain of the parsed URL (`Url::domain`), `None` where the host is
/// absent or not a domain name.
pub uninterp spec fn url_domain(s: Seq<char>) -> Option<Seq<char>>;

/// The path of the parsed URL (`Url::path`).
pub uninterp spec fn url_path(s: Seq<char>) -> Seq<char>;

/// The normalized text of the parsed URL (`Url::as_str`).
pub uninterp spec fn url_full(s: Seq<char>) -> Seq<char>;

/// The plain parts of a parsed URL.
pub struct UrlParts {
    pub scheme: String,
    pub domain: Option<String>,
    pub path: String,
    pub full: String,
}

/// The view of an optional string.
pub open spec fn opt_str_view(o: Option<String>) -> Option<Seq<char>> {
    match o {
        Some(s) => Some(s@),
        None => None,
    }
}

/// Relies on `url::Url::parse` and its accessors `scheme`, `domain`,
/// `path` and `as_str`: parsing is a function of the input string alone,
/// and the parts are read off the parsed value.
#[verifier::external_body]
pub(crate) fn parse_url_parts(input: &str) -> (r: Option<(url::Url, UrlParts)>)
    ensures
        r is Some <==> url_ok(input@),
        r matches Some(p) ==> {
            &&& p.1.scheme@ == url_scheme(input@)
            &&& opt_str_view(p.1.domain) == url_domain(input@)
            &&& p.1.path@ == url_path(input@)
            &&& p.1.full@ == url_full(input@)
        },
{
    match url::Url::parse(input) {
        Ok(u) => {
            let parts = UrlParts {
                scheme: u.scheme().to_string(),
                domain: u.domain().map(|d| d.to_string()),
                path: u.path().to_string(),
                full: u.as_str().to_string(),
            };
            Some((u, parts))
        },
        Err(_) => None,
    }
}

/// A typed storage location: an S3-compatible store, a GCS store, or an
/// unsupported location carrying only its URL.
#[derive(Debug, PartialEq, Eq)]
pub enum ObjectStore {
    S3 { url: String, bucket: String, path: String },
    Gcs { url: String, bucket: String, path: String },
    NotAvailable { url: String },
}

/// The domain, or the empty string where there is none.
pub open spec fn domain_or_empty(d: Option<Seq<char>>) -> Seq<char> {
    match d {
        Some(s) => s,
        None => Seq::empty(),
    }
}

/// The object path of a URL path: what follows a leading separator, and
/// the empty sequence where the path does not start with one.
pub open spec fn strip_slash(p: Seq<char>) -> Seq<char> {
    if p.len() > 0 && p[0] == '/' {
        p.subrange(1, p.len() as int)
    } else {
        Seq::empty()
    }
}

/// How a store value relates to the parts of its location URL: the
/// schemes `s3` and `s3a` map to the S3-compatible variant, `gs` to the
/// GCS variant — each carrying the normalized URL, the domain as bucket
/// and the stripped path — and every other scheme to the unsupported
/// variant carrying the URL alone.
pub open spec fn store_matches(
    store: ObjectStore,
    scheme: Seq<char>,
    domain: Option<Seq<char>>,
    path: Seq<char>,
    full: Seq<char>,
) -> bool {
    if scheme == "s3"@ || scheme == "s3a"@ {
        store matches ObjectStore::S3 { url, bucket, path: p } && url@ == full && bucket@
            == domain_or_empty(domain) && p@ == strip_slash(path)
    } else if scheme == "gs"@ {
        store matches ObjectStore::Gcs { url, bucket, path: p } && url@ == full && bucket@
            == domain_or_empty(domain) && p@ == strip_slash(path)
    } else {
        store matches ObjectStore::NotAvailable { url } && url@ == full
    }
}

/// Strips one leading separator from a URL path; anything else becomes
/// the empty string.
fn strip_leading_slash(p: &str) -> (r: String)
    ensures
        r@ == strip_slash(p@),
{
    let n = p.unicode_len();
    if n > 0 && p.get_char(0) == '/' {
        substring(p, 1, n)
    } else {
        String::new()
    }
}

impl ObjectStore {
    /// Classifies a location from the parts of its parsed URL.  Dispatch
    /// is total: every parsed URL maps to exactly one variant.
    pub fn from_parts(parts: UrlParts) -> (r: ObjectStore)
        ensures
            store_matches(r, parts.scheme@, opt_str_view(parts.domain), parts.path@, parts.full@),
    {
        let bucket = match parts.domain {
            Some(d) => d,
            None => String::new(),
        };
        let path = strip_leading_slash(parts.path.as_str());
        if str_eq(parts.scheme.as_str(), "s3") || str_eq(parts.scheme.as_str(), "s3a") {
            ObjectStore::S3 { url: parts.full, bucket, path }
        } else if str_eq(parts.scheme.as_str(), "gs") {
            ObjectStore::Gcs { url: parts.full, bucket, path }
        } else {
            ObjectStore::NotAvailable { url: parts.full }
        }
    }

    /// Parses a location string and classifies it.  Only an unparseable
    /// URL is an error; an unknown scheme is the unsupported variant.
    pub fn from_str(input: &str) -> (r: Result<ObjectStore, Error>)
        ensures
            r is Ok <==> url_ok(input@),
            r matches Ok(s) ==> store_matches(
                s,
                url_scheme(input@),
                url_domain(input@),
                url_path(input@),
                url_full(input@),
            ),
            r matches Err(e) ==> e == Error::MalformedUrl,
    {
        match parse_url_parts(input) {
            None => Err(Error::MalformedUrl),
            Some(pair) => {
                let (_u, parts) = pair;
                Ok(Self::from_parts(parts))
            },
        }
    }
}

/// Whether a character may appear in a GCS bucket name: a lowercase ASCII
/// letter, a digit, a hyphen or an underscore.
pub open spec fn gcs_bucket_char_ok(c: char) -> bool {
    (97 <= c as u32 <= 122) || (48 <= c as u32 <= 57) || c as u32 == 45 || c as u32 == 95
}

/// Whether a character may open or close a GCS bucket name: a lowercase
/// ASCII letter or a digit.
pub open spec fn gcs_bucket_edge_ok(c: char) -> bool {
    (97 <= c as u32 <= 122) || (48 <= c as u32 <= 57)
}

/// The GCS bucket naming rule, as the signing crate checks it: 3 to 63
/// characters, every one a lowercase letter, digit, hyphen or underscore,
/// letters or digits at both ends, no `goog` prefix, and neither `google`
/// nor `g00gle` anywhere.
pub open spec fn gcs_bucket_wf(s: Seq<char>) -> bool {
    &&& 3 <= s.len() <= 63
    &&& forall|i: int|
        0 <= i < s.len() ==> gcs_bucket_char_ok(#[trigger] s[i]) && ((i == 0 || i == s.len() - 1)
            ==> gcs_bucket_edge_ok(s[i]))
    &&& !has_prefix(s, "goog"@)
    &&& !contains_seq(s, "google"@)
    &&& !contains_seq(s, "g00gle"@)
}

/// Whether a character may appear in a GCS object name: anything but
/// carriage return, line feed, `#`, `[`, `]`, `*`, `?`, and the XML-illegal
/// control ranges `U+007F..U+0084` and `U+0086..U+009F`.
pub open spec fn gcs_object_char_ok(c: char) -> bool {
    !(c as u32 == 13 || c as u32 == 10 || c as u32 == 35 || c as u32 == 91 || c as u32 == 93
        || c as u32 == 42 || c as u32 == 63 || (127 <= c as u32 <= 132) || (134 <= c as u32
        <= 159))
}

/// The GCS object naming rule, as the signing crate checks it: 1 to 1024
/// UTF-8 bytes, not `.` or `...`, no forbidden character, and no
/// `.well-known/acme-challenge` prefix.
pub open spec fn gcs_object_wf(s: Seq<char>) -> bool {
    &&& 1 <= vstd::utf8::encode_utf8(s).len() <= 1024
    &&& s != "."@
    &&& s != "..."@
    &&& forall|i: int| 0 <= i < s.len() ==> gcs_object_char_ok(#[trigger] s[i])
    &&& !has_prefix(s, ".well-known/acme-challenge"@)
}

/// Checks a bucket name against the GCS naming rule.
pub fn validate_bucket_name(name: &str) -> (r: bool)
    ensures
        r == gcs_bucket_wf(name@),
{
    let n = name.unicode_len();
    if n < 3 || n > 63 {
        return false;
    }
    for i in 0..n
        invariant
            n == name@.len(),
            3 <= n <= 63,
            forall|j: int|
                0 <= j < i ==> gcs_bucket_char_ok(#[trigger] name@[j]) && ((j == 0 || j == n - 1)
                    ==> gcs_bucket_edge_ok(name@[j])),
    {
        let u = name.get_char(i) as u32;
        let char_ok = (97 <= u && u <= 122) || (48 <= u && u <= 57) || u == 45 || u == 95;
        if !char_ok {
            return false;
        }
        if (i == 0 || i == n - 1) && !((97 <= u && u <= 122) || (48 <= u && u <= 57)) {
            return false;
        }
    }
    if str_has_prefix(name, "goog") {
        return false;
    }
    if str_contains(name, "google") {
        return false;
    }
    if str_contains(name, "g00gle") {
        return false;
    }
    true
}

/// Checks an object name against the GCS naming rule.
pub fn validate_object_name(name: &str) -> (r: bool)
    ensures
        r == gcs_object_wf(name@),
{
    let byte_len = name.as_bytes_vec().len();
    proof {
        assert(name.spec_bytes() == vstd::utf8::encode_utf8(name@));
    }
    if byte_len == 0 || byte_len > 1024 {
        return false;
    }
    if str_eq(name, ".") {
        return false;
    }
    if str_eq(name, "...") {
        return false;
    }
    let n = name.unicode_len();
    for i in 0..n
        invariant
            n == name@.len(),
            forall|j: int| 0 <= j < i ==> gcs_object_char_ok(#[trigger] name@[j]),
    {
        let u = name.get_char(i) as u32;
        if u == 13 || u == 10 || u == 35 || u == 91 || u == 93 || u == 42 || u == 63 || (127 <= u
            && u <= 132) || (134 <= u && u <= 159) {
            return false;
        }
    }
    if str_has_prefix(name, ".well-known/acme-challenge") {
        return false;
    }
    true
}

/// Checks a bucket and an object name together, reporting which of the
/// two was rejected: the error a signing request earns before any
/// signing is attempted.
pub fn check_gcs_names(bucket: &str, path: &str) -> (r: Result<(), Error>)
    ensures
        r is Ok <==> gcs_bucket_wf(bucket@) && gcs_object_wf(path@),
        !gcs_bucket_wf(bucket@) ==> r == Err::<(), Error>(Error::InvalidBucketName),
        gcs_bucket_wf(bucket@) && !gcs_object_wf(path@) ==> r == Err::<(), Error>(
            Error::InvalidObjectName,
        ),
{
    if !validate_bucket_name(bucket) {
        return Err(Error::InvalidBucketName);
    }
    if !validate_object_name(path) {
        return Err(Error::InvalidObjectName);
    }
    Ok(())
}

/// Relies on `rusoto_s3::GetObjectRequest::get_presigned_url` (with
/// `rusoto_core::Region::default`): a query-string-authenticated GET URL.
/// The result depends on the region environment and the current time, so
/// nothing is promised of it.
#[verifier::external_body]
fn presign_s3(
    creds: &rusoto_credential::AwsCredentials,
    bucket: &str,
    path: &str,
    expires_secs: u64,
) -> (r: String)
{
    let region = rusoto_core::Region::default();
    let options = rusoto_s3::util::PreSignedRequestOption {
        expires_in: std::time::Duration::from_secs(expires_secs),
    };
    let request = rusoto_s3::GetObjectRequest {
        bucket: bucket.to_string(),
        key: path.to_string(),
        ..Default::default()
    };
    rusoto_s3::util::PreSignedRequest::get_presigned_url(&request, &region, creds, &options)
}

/// Relies on `tame_gcs::signed_url::UrlSigner::generate` (with
/// `BucketName::try_from` and `ObjectName::try_from`): a service-account
/// signed GET URL.  The result depends on the current time; `None` covers
/// every failure of name validation or signing.
#[verifier::external_body]
fn presign_gcs(
    account: &tame_gcs::signing::ServiceAccount,
    bucket: &str,
    path: &str,
    expires_secs: u64,
) -> (r: Option<url::Url>)
{
    let bucket = tame_gcs::BucketName::try_from(bucket).ok()?;
    let object = tame_gcs::ObjectName::try_from(path).ok()?;
    let options = tame_gcs::signed_url::SignedUrlOptional {
        duration: std::time::Duration::from_secs(expires_secs),
        ..Default::default()
    };
    let signer = tame_gcs::signed_url::UrlSigner::with_ring();
    signer.generate(account, &(&bucket, &object), options).ok()
}

/// The presigned-URL builder.
pub struct Utility;

impl Utility {
    /// Produces a presigned GET URL for an S3-compatible object, valid for
    /// the given number of seconds.  An unparseable result is an error,
    /// never a panic.
    pub fn sign_aws(
        creds: &rusoto_credential::AwsCredentials,
        bucket: &str,
        path: &str,
        duration: &u64,
    ) -> (r: Result<url::Url, Error>)
        ensures
            r matches Err(e) ==> e == Error::SigningFailure,
    {
        let presigned = presign_s3(creds, bucket, path, *duration);
        match parse_url_parts(presigned.as_str()) {
            Some(pair) => {
                let (u, _parts) = pair;
                Ok(u)
            },
            None => Err(Error::SigningFailure),
        }
    }

    /// Produces a presigned GET URL for a GCS object, valid for the given
    /// number of seconds.  Bucket and object names that break the naming
    /// rules are rejected before signing, each under an error that names
    /// the rejected part; any signing failure is an error, never a panic.
    pub fn sign_gcp(
        account: &tame_gcs::signing::ServiceAccount,
        bucket: &str,
        path: &str,
        duration: &u64,
    ) -> (r: Result<url::Url, Error>)
        ensures
            !gcs_bucket_wf(bucket@) ==> r == Err::<url::Url, Error>(Error::InvalidBucketName),
            gcs_bucket_wf(bucket@) && !gcs_object_wf(path@) ==> r == Err::<url::Url, Error>(
                Error::InvalidObjectName,
            ),
            gcs_bucket_wf(bucket@) && gcs_object_wf(path@) && r is Err ==> r == Err::<
                url::Url,
                Error,
            >(Error::SigningFailure),
    {
        if let Err(e) = check_gcs_names(bucket, path) {
            return Err(e);
        }
        match presign_gcs(account, bucket, path, *duration) {
            Some(u) => Ok(u),
            None => Err(Error::SigningFailure),
        }
    }
}

} // verus!
