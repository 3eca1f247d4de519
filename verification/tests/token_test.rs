use delta_sharing::error::Error;
use delta_sharing::hex::{hex_decode, hex_encode, u64_to_hex};
use delta_sharing::token::{exp_at, new_exp, Hasher, Utility};

const SECRET: &[u8] = b"secret";
const TID: &str = "550e8400-e29b-41d4-a716-446655440000";

fn all_hashers() -> Vec<Hasher> {
    vec![Hasher::Sha224, Hasher::Sha256, Hasher::Sha384, Hasher::Sha512]
}

fn tamper(token: String) -> String {
    let (_, rest) = token.split_once('.').expect("token should have segments");
    let fresh = hex_encode("b2345678-aaaa-41d4-a716-446655440999".as_bytes());
    format!("{}.{}", String::from_utf8(fresh).unwrap(), rest)
}

#[test]
fn test_hasher_enum() {
    let hashers = vec!["sha224", "sha256", "sha384", "sha512"];
    for name in hashers {
        let hasher = Hasher::from_str(name);
        assert!(hasher.is_ok());
    }
    let hashers = vec!["", "apple", "orange"];
    for name in hashers {
        let hasher = Hasher::from_str(name);
        assert!(hasher.is_err());
    }
}

#[test]
fn test_sign_and_verify() {
    for hasher in all_hashers() {
        let tid = String::from(TID);
        let ttl = 3600;
        let token = Utility::sign(tid, ttl, &hasher, SECRET).expect("token should be signed properly");
        let verification = Utility::verify(&token, &hasher, SECRET);
        assert!(verification.is_ok());
    }
}

#[test]
fn test_sign_and_detect_tampering() {
    for hasher in all_hashers() {
        let tid = String::from(TID);
        let ttl = 3600;
        let token = Utility::sign(tid, ttl, &hasher, SECRET).expect("token should be signed properly");
        let token = tamper(token);
        let verification = Utility::verify(&token, &hasher, SECRET);
        assert!(verification.is_err());
    }
}

#[test]
fn test_select_named_algorithms() {
    assert_eq!(Hasher::select("sha224"), Hasher::Sha224);
    assert_eq!(Hasher::select("SHA256"), Hasher::Sha256);
    assert_eq!(Hasher::select("Sha384"), Hasher::Sha384);
    assert_eq!(Hasher::select("sha512"), Hasher::Sha512);
}

#[test]
fn test_select_defaults_to_sha256() {
    assert_eq!(Hasher::select("apple"), Hasher::Sha256);
    assert_eq!(Hasher::select(""), Hasher::Sha256);
    assert_eq!(Hasher::select("sha1024"), Hasher::Sha256);
}

#[test]
fn test_sign_with_exp_known_vectors() {
    let cases = vec![
        (
            Hasher::Sha224,
            "7431.258.66d124124a8fdc025db119d41ceb2682aac54e52f3373b8d502ac648",
        ),
        (
            Hasher::Sha256,
            "7431.258.37ce8ebaf25bc717ee2022a7e10785d3553d455b940ed0e37a4cff6fb2629e81",
        ),
        (
            Hasher::Sha384,
            "7431.258.767675a49a46055a847bf24b1ca15ea23f13e9e18ada40f51f60a956fd65d617a60ffb36ea01578c84af9bcac2dba39e",
        ),
        (
            Hasher::Sha512,
            "7431.258.6e9b40857554737b4f33217cda0a97a7e8ab53f89845393efd0cc38fcb187dfd945e6209d2dd1c2ec867f237ffe98b97f18159854a46266c13c8adb08ef80baa",
        ),
    ];
    for (hasher, expected) in cases {
        let token = Utility::sign_with_exp("t1", 600, &hasher, SECRET);
        assert_eq!(token, expected);
    }
}

#[test]
fn test_signature_segment_widths() {
    let widths = vec![
        (Hasher::Sha224, 56),
        (Hasher::Sha256, 64),
        (Hasher::Sha384, 96),
        (Hasher::Sha512, 128),
    ];
    for (hasher, width) in widths {
        let token = Utility::sign_with_exp(TID, 600, &hasher, SECRET);
        let segments: Vec<&str> = token.split('.').collect();
        assert_eq!(segments.len(), 3);
        assert_eq!(segments[0].len(), 2 * TID.len());
        assert_eq!(segments[2].len(), width);
    }
}

#[test]
fn test_round_trip_with_exp() {
    for hasher in all_hashers() {
        let token = Utility::sign_with_exp(TID, 1234567890, &hasher, SECRET);
        assert!(Utility::verify(&token, &hasher, SECRET).is_ok());
    }
}

#[test]
fn test_cross_algorithm_rejected() {
    let token = Utility::sign_with_exp(TID, 600, &Hasher::Sha256, SECRET);
    assert!(Utility::verify(&token, &Hasher::Sha384, SECRET).is_err());
    assert!(Utility::verify(&token, &Hasher::Sha224, SECRET).is_err());
    assert!(Utility::verify(&token, &Hasher::Sha512, SECRET).is_err());
}

#[test]
fn test_wrong_secret_rejected() {
    let token = Utility::sign_with_exp(TID, 600, &Hasher::Sha256, SECRET);
    assert_eq!(
        Utility::verify(&token, &Hasher::Sha256, b"other secret"),
        Err(Error::TamperedSignature)
    );
}

#[test]
fn test_malformed_no_dots() {
    assert_eq!(
        Utility::verify("deadbeef", &Hasher::Sha256, SECRET),
        Err(Error::MalformedToken)
    );
}

#[test]
fn test_malformed_one_dot() {
    assert_eq!(
        Utility::verify("7431.258", &Hasher::Sha256, SECRET),
        Err(Error::MalformedToken)
    );
}

#[test]
fn test_malformed_three_dots() {
    assert_eq!(
        Utility::verify("7431.258.aa.bb", &Hasher::Sha256, SECRET),
        Err(Error::MalformedToken)
    );
}

#[test]
fn test_malformed_non_hex_signature() {
    assert_eq!(
        Utility::verify("7431.258.zz", &Hasher::Sha256, SECRET),
        Err(Error::MalformedToken)
    );
    assert_eq!(
        Utility::verify("7431.258.abc", &Hasher::Sha256, SECRET),
        Err(Error::MalformedToken)
    );
}

#[test]
fn test_wrong_mac_is_tampered() {
    assert_eq!(
        Utility::verify("7431.258.deadbeef", &Hasher::Sha256, SECRET),
        Err(Error::TamperedSignature)
    );
}

#[test]
fn test_new_exp_negative_ttl() {
    assert_eq!(new_exp(-1), Err(Error::ClockOrRange));
}

#[test]
fn test_exp_at_exact() {
    assert_eq!(exp_at(100, 50), Ok(150));
    assert_eq!(exp_at(0, 0), Ok(0));
}

#[test]
fn test_exp_at_out_of_range() {
    assert_eq!(exp_at(i64::MAX as u64, 1), Err(Error::ClockOrRange));
    assert_eq!(exp_at(0, -5), Err(Error::ClockOrRange));
}

#[test]
fn test_hex_encode_decode() {
    let enc = hex_encode(&[0xbe, 0xef, 0x00, 0x7f]);
    assert_eq!(enc, b"beef007f".to_vec());
    let dec = hex_decode(b"beef007f").expect("hex should decode");
    assert_eq!(dec, vec![0xbe, 0xef, 0x00, 0x7f]);
    assert_eq!(hex_decode(b"BEEF"), Some(vec![0xbe, 0xef]));
    assert_eq!(hex_decode(b"abc"), None);
    assert_eq!(hex_decode(b"zz"), None);
    assert_eq!(hex_decode(b""), Some(vec![]));
}

#[test]
fn test_u64_hex_matches_formatting() {
    assert_eq!(u64_to_hex(0), b"0".to_vec());
    assert_eq!(u64_to_hex(600), b"258".to_vec());
    assert_eq!(u64_to_hex(255), b"ff".to_vec());
    assert_eq!(u64_to_hex(u64::MAX), b"ffffffffffffffff".to_vec());
    for v in [0u64, 1, 15, 16, 600, 4096, 123456789] {
        assert_eq!(String::from_utf8(u64_to_hex(v)).unwrap(), format!("{:x}", v));
    }
}

#[test]
fn test_error_messages_nonempty() {
    let errors = vec![
        Error::MalformedToken,
        Error::TamperedSignature,
        Error::ClockOrRange,
        Error::Unauthorized,
        Error::MalformedUrl,
        Error::InvalidBucketName,
        Error::InvalidObjectName,
        Error::SigningFailure,
        Error::ValidationFailed,
    ];
    for e in errors {
        assert!(!e.message().is_empty());
    }
}
