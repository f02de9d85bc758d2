use hmac::Mac;
use webhook_cd::signature::{check_signature, constant_time_eq, digest_matches};

const SECRET: &str = "It's a Secret to Everybody";
const BODY: &[u8] = b"Hello, World!";
const SIGNATURE: &[u8] = b"sha256=757107ea0eb2509fc211221cce984b8a37570b6d7586c22c46f4379c8b043e17";

fn sign(secret: &str, body: &[u8]) -> Vec<u8> {
    let mut mac = hmac::Hmac::<sha2::Sha256>::new_from_slice(secret.as_bytes()).unwrap();
    mac.update(body);
    let mut header = b"sha256=".to_vec();
    header.extend_from_slice(hex::encode(mac.finalize().into_bytes()).as_bytes());
    header
}

#[test]
fn known_signature_is_accepted() {
    assert!(check_signature(SECRET, SIGNATURE, BODY));
}

#[test]
fn signature_in_upper_case_is_accepted() {
    let upper = b"sha256=757107EA0EB2509FC211221CCE984B8A37570B6D7586C22C46F4379C8B043E17";
    assert!(check_signature(SECRET, upper, BODY));
}

#[test]
fn own_signature_verifies() {
    let cases: [(&str, &[u8]); 4] = [
        ("", b""),
        ("key", b"The quick brown fox jumps over the lazy dog"),
        ("s3cr3t", b"{\"repository\":{\"full_name\":\"acme/app\"}}"),
        ("\u{e9}t\u{e9}", &[0u8, 255, 10, 13]),
    ];
    for (secret, body) in cases {
        assert!(check_signature(secret, &sign(secret, body), body));
    }
}

#[test]
fn sign_matches_known_vector() {
    assert_eq!(sign(SECRET, BODY), SIGNATURE.to_vec());
    assert_eq!(
        sign("key", b"The quick brown fox jumps over the lazy dog"),
        b"sha256=f7bc83f430538424b13298e6aa6fb143ef4d59a14946175997479dbc2d1a3cd8".to_vec()
    );
}

#[test]
fn altered_body_is_rejected() {
    for index in 0..BODY.len() {
        for bit in 0..8 {
            let mut body = BODY.to_vec();
            body[index] ^= 1 << bit;
            assert!(!check_signature(SECRET, SIGNATURE, &body));
        }
    }
}

#[test]
fn altered_signature_is_rejected() {
    for index in 0..SIGNATURE.len() {
        for bit in 0..8u8 {
            let letter = index >= 7 && (b'a'..=b'f').contains(&SIGNATURE[index]);
            if letter && bit == 5 {
                continue;
            }
            let mut signature = SIGNATURE.to_vec();
            signature[index] ^= 1 << bit;
            assert!(!check_signature(SECRET, &signature, BODY), "byte {} bit {}", index, bit);
        }
    }
}

#[test]
fn letter_case_does_not_alter_the_digest() {
    let index = 7 + SIGNATURE[7..].iter().position(|c| (b'a'..=b'f').contains(c)).unwrap();
    let mut signature = SIGNATURE.to_vec();
    signature[index] ^= 1 << 5;
    assert!(check_signature(SECRET, &signature, BODY));
}

#[test]
fn wrong_secret_is_rejected() {
    assert!(!check_signature("another secret", SIGNATURE, BODY));
}

#[test]
fn missing_prefix_is_rejected() {
    let bare = &SIGNATURE[7..];
    assert!(!check_signature(SECRET, bare, BODY));
    let sha1 = b"sha1=757107ea0eb2509fc211221cce984b8a37570b6d7586c22c46f4379c8b043e17";
    assert!(!check_signature(SECRET, sha1, BODY));
}

#[test]
fn prefix_elsewhere_is_rejected() {
    let mut signature = SIGNATURE[7..].to_vec();
    signature.extend_from_slice(b"sha256=");
    assert!(!check_signature(SECRET, &signature, BODY));
    let mut doubled = b"sha256=".to_vec();
    doubled.extend_from_slice(SIGNATURE);
    assert!(!check_signature(SECRET, &doubled, BODY));
}

#[test]
fn malformed_hex_is_rejected() {
    assert!(!check_signature(SECRET, b"sha256=zz", BODY));
    assert!(!check_signature(SECRET, b"sha256=757", BODY));
    assert!(!check_signature(SECRET, b"sha256=", BODY));
    assert!(!check_signature(SECRET, b"", BODY));
    assert!(!check_signature(SECRET, b"sha25", BODY));
    assert!(!check_signature(SECRET, &[0xff, 0xfe, 0x00], BODY));
    let mut short = SIGNATURE.to_vec();
    short.truncate(SIGNATURE.len() - 2);
    assert!(!check_signature(SECRET, &short, BODY));
    let mut long = SIGNATURE.to_vec();
    long.extend_from_slice(b"00");
    assert!(!check_signature(SECRET, &long, BODY));
}

#[test]
fn digest_matches_decodes_the_header() {
    assert!(digest_matches(b"sha256=00ff10aB", &[0x00, 0xff, 0x10, 0xab]));
    assert!(digest_matches(b"sha256=", &[]));
    assert!(!digest_matches(b"sha256=00ff10ab", &[0x00, 0xff, 0x10]));
    assert!(!digest_matches(b"sha256=00ff10ab", &[0x00, 0xff, 0x10, 0xac]));
    assert!(!digest_matches(b"sha256=00ff10ab", b"00ff10ab"));
    assert!(!digest_matches(b"sha256=3030", b"3030"));
    assert!(digest_matches(b"sha256=3030", b"00"));
    assert!(!digest_matches(b"00ff10ab", &[0x00, 0xff, 0x10, 0xab]));
    assert!(!digest_matches(b"sha256=0g", &[0x00]));
    assert!(!digest_matches(b"sha256=0", &[0x00]));
}

#[test]
fn constant_time_eq_compares_bytes() {
    assert!(constant_time_eq(b"", b""));
    assert!(constant_time_eq(b"abc", b"abc"));
    assert!(!constant_time_eq(b"abc", b"abd"));
    assert!(!constant_time_eq(b"abc", b"bbc"));
    assert!(!constant_time_eq(b"abc", b"ab"));
    assert!(!constant_time_eq(b"", b"a"));
    assert!(!constant_time_eq(&[0x01, 0x02], &[0x02, 0x01]));
    assert!(!constant_time_eq(&[0x80], &[0x00]));
}
