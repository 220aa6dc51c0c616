//! The signing pipeline against fixed vectors and a generated RSA key:
//! duration boundaries, the canonical formats, determinism, and an
//! end-to-end signature check with the matching public key.

use cloud_storage::signing::{
    assemble_signed_url, get_canonical_query_string, get_canonical_request, get_credential_scope,
    path_to_resource, sign, sign_str, string_to_sign, ServiceAccount,
};
use cloud_storage::timestamp::Timestamp;
use cloud_storage::Error;

const EMAIL: &[u8] = b"henk@example.com";

fn fixed_timestamp() -> Timestamp {
    // 2021-03-04T10:00:00Z
    Timestamp::new(2021, 3, 4, 10, 0, 0).unwrap()
}

fn rsa_account() -> (ServiceAccount, Vec<u8>) {
    let rsa = openssl::rsa::Rsa::generate(2048).unwrap();
    let pem = rsa.private_key_to_pem().unwrap();
    let account = ServiceAccount { client_email: EMAIL.to_vec(), private_key: pem.clone() };
    (account, pem)
}

fn hex_to_bytes(hex: &str) -> Vec<u8> {
    assert!(hex.len() % 2 == 0);
    (0..hex.len() / 2).map(|i| u8::from_str_radix(&hex[2 * i..2 * i + 2], 16).unwrap()).collect()
}

#[test]
fn credential_scope_for_fixed_timestamp() {
    let ts = fixed_timestamp();
    let scope = get_credential_scope(&ts);
    assert_eq!(String::from_utf8(scope).unwrap(), "20210304/henk/storage/goog4_request");
}

#[test]
fn canonical_request_is_the_seven_line_template() {
    let cr = get_canonical_request(b"GET", b"/my-bucket/my-file", b"ANY-QUERY-STRING");
    assert_eq!(
        String::from_utf8(cr).unwrap(),
        "GET\n/my-bucket/my-file\nANY-QUERY-STRING\nhost:storage.googleapis.com\n\nhost\nUNSIGNED-PAYLOAD"
    );
}

#[test]
fn canonical_query_string_fields_in_order() {
    let ts = fixed_timestamp();
    let query = get_canonical_query_string(EMAIL, &ts, 100);
    assert_eq!(
        String::from_utf8(query).unwrap(),
        "X-Goog-Algorithm=GOOG4-RSA-SHA256\
         &X-Goog-Credential=henk%40example.com%2F20210304%2Fhenk%2Fstorage%2Fgoog4_request\
         &X-Goog-Date=20210304T100000Z\
         &X-Goog-Expires=100\
         &X-Goog-SignedHeaders=host"
    );
}

#[test]
fn path_to_resource_keeps_bucket_raw_and_object_slashes() {
    let path = path_to_resource(b"my_bucket", b"path/to/file.png");
    assert_eq!(String::from_utf8(path).unwrap(), "/my_bucket/path/to/file.png");
    let path = path_to_resource(b"my_bucket", b"a b/c");
    assert_eq!(String::from_utf8(path).unwrap(), "/my_bucket/a%20b/c");
}

#[test]
fn duration_boundary_is_inclusive() {
    let (account, _) = rsa_account();
    let ts = fixed_timestamp();
    let at_limit = sign(&account, b"my_bucket", b"file", 604800, b"GET", &ts);
    assert!(at_limit.is_ok());
    let over_limit = sign(&account, b"my_bucket", b"file", 604801, b"GET", &ts);
    assert_eq!(over_limit.unwrap_err(), Error::Validation);
    let zero = sign(&account, b"my_bucket", b"file", 0, b"GET", &ts);
    assert_eq!(zero.unwrap_err(), Error::Validation);
}

#[test]
fn expires_field_carries_the_duration() {
    let (account, _) = rsa_account();
    let ts = fixed_timestamp();
    for duration in [1u32, 100, 3600, 604800] {
        let url = sign(&account, b"my_bucket", b"file", duration, b"GET", &ts).unwrap();
        let url = String::from_utf8(url).unwrap();
        let field = format!("&X-Goog-Expires={}&", duration);
        assert!(url.contains(&field), "{} lacks {}", url, field);
    }
}

#[test]
fn repeated_calls_are_byte_identical() {
    let (account, _) = rsa_account();
    let ts = fixed_timestamp();
    let first = sign(&account, b"my_bucket", b"path/to/file.png", 100, b"GET", &ts).unwrap();
    let second = sign(&account, b"my_bucket", b"path/to/file.png", 100, b"GET", &ts).unwrap();
    assert_eq!(first, second);
    let cr1 = get_canonical_request(b"GET", b"/b/o", b"q");
    let cr2 = get_canonical_request(b"GET", b"/b/o", b"q");
    assert_eq!(cr1, cr2);
    let sts1 = string_to_sign(&ts, &cr1);
    let sts2 = string_to_sign(&ts, &cr2);
    assert_eq!(sts1, sts2);
}

#[test]
fn malformed_key_is_a_key_parse_error() {
    let account = ServiceAccount {
        client_email: EMAIL.to_vec(),
        private_key: b"not a pem at all".to_vec(),
    };
    let ts = fixed_timestamp();
    let r = sign(&account, b"my_bucket", b"file", 100, b"GET", &ts);
    assert_eq!(r.unwrap_err(), Error::KeyParse);
}

#[test]
fn encrypted_pem_is_rejected_deterministically() {
    let rsa = openssl::rsa::Rsa::generate(2048).unwrap();
    let pem = rsa
        .private_key_to_pem_passphrase(openssl::symm::Cipher::aes_256_cbc(), b"secret")
        .unwrap();
    let first = sign_str(&pem, b"message");
    let second = sign_str(&pem, b"message");
    assert_eq!(first.unwrap_err(), Error::KeyParse);
    assert_eq!(second.unwrap_err(), Error::KeyParse);
}

#[test]
fn signature_length_is_the_modulus_size() {
    let (_, pem) = rsa_account();
    let signature = sign_str(&pem, b"message").unwrap();
    // a 2048-bit modulus gives a 256-byte PKCS#1 v1.5 signature
    assert_eq!(signature.len(), 256);
}

#[test]
fn non_rsa_key_is_a_key_parse_error() {
    let key = openssl::pkey::PKey::generate_ed25519().unwrap();
    let pem = key.private_key_to_pem_pkcs8().unwrap();
    let r = sign_str(&pem, b"message");
    assert_eq!(r.unwrap_err(), Error::KeyParse);
}

#[test]
fn end_to_end_signature_verifies_with_public_key() {
    let (account, pem) = rsa_account();
    let ts = fixed_timestamp();
    let url = sign(&account, b"my_bucket", b"path/to/file.png", 100, b"GET", &ts).unwrap();
    let url = String::from_utf8(url).unwrap();

    // the path segment keeps the object's slashes
    assert!(url.starts_with("https://storage.googleapis.com/my_bucket/path/to/file.png?"));
    assert!(url.contains("&X-Goog-Expires=100&"));

    // rebuild the string-to-sign from the pipeline's stages
    let path = path_to_resource(b"my_bucket", b"path/to/file.png");
    let query = get_canonical_query_string(EMAIL, &ts, 100);
    let canonical_request = get_canonical_request(b"GET", &path, &query);
    let to_sign = string_to_sign(&ts, &canonical_request);

    // the URL ends in the hex signature over exactly that string
    let marker = "&X-Goog-Signature=";
    let at = url.find(marker).unwrap();
    let signature = hex_to_bytes(&url[at + marker.len()..]);

    let key = openssl::pkey::PKey::private_key_from_pem(&pem).unwrap();
    let mut verifier =
        openssl::sign::Verifier::new(openssl::hash::MessageDigest::sha256(), &key).unwrap();
    verifier.update(&to_sign).unwrap();
    assert!(verifier.verify(&signature).unwrap());
}

#[test]
fn signature_is_rsa_pkcs1_sha256() {
    // sign_str alone, against openssl's own one-shot signer
    let (_, pem) = rsa_account();
    let message = b"GOOG4-RSA-SHA256\n20210304T100000Z\nscope\nabcdef";
    let signature = sign_str(&pem, message).unwrap();

    let key = openssl::pkey::PKey::private_key_from_pem(&pem).unwrap();
    let mut signer =
        openssl::sign::Signer::new(openssl::hash::MessageDigest::sha256(), &key).unwrap();
    signer.update(message).unwrap();
    let expected = signer.sign_to_vec().unwrap();
    assert_eq!(signature, expected);
}

#[test]
fn string_to_sign_embeds_the_sha256_digest() {
    // last line is hex(SHA-256(canonical request)); pinned by known vectors
    let ts = fixed_timestamp();
    let for_empty = String::from_utf8(string_to_sign(&ts, b"")).unwrap();
    assert!(
        for_empty.ends_with("\ne3b0c44298fc1c149afbf4c8996fb92427ae41e4649b934ca495991b7852b855")
    );
    let for_abc = String::from_utf8(string_to_sign(&ts, b"abc")).unwrap();
    assert!(
        for_abc.ends_with("\nba7816bf8f01cfea414140de5dae2223b00361a396177a9cb410ff61f20015ad")
    );
    assert_eq!(
        &for_abc[..for_abc.len() - 65],
        "GOOG4-RSA-SHA256\n20210304T100000Z\n20210304/henk/storage/goog4_request"
    );
}

#[test]
fn assembled_url_shape() {
    let url = assemble_signed_url(b"/b/o", b"q=1", &[0xab, 0xcd]);
    assert_eq!(
        String::from_utf8(url).unwrap(),
        "https://storage.googleapis.com/b/o?q=1&X-Goog-Signature=abcd"
    );
}

#[test]
fn download_url_signs_with_the_current_clock() {
    let (account, _) = rsa_account();
    let url = cloud_storage::signing::download_url(&account, "my_bucket", "file.png", 50).unwrap();
    assert!(url.starts_with("https://storage.googleapis.com/my_bucket/file.png?"));
    assert!(url.contains("&X-Goog-Expires=50&"));
    let bad = cloud_storage::signing::download_url(&account, "my_bucket", "file.png", 604801);
    assert_eq!(bad.unwrap_err(), Error::Validation);
}
