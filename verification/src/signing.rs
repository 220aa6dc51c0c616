//! The V4 signed-URL core: canonical request, credential scope, canonical
//! query string, string-to-sign, RSA-SHA256 signature and final URL.
//!
//! Every stage is a pure function of its inputs plus one captured timestamp
//! and the service-account credential; each is specified by a spec function
//! of the same shape, and the exec code is proved to produce exactly it.

use vstd::prelude::*;

use crate::encoding::{
    hex_encode, hex_encoded, lemma_hex_encoded_ascii, lemma_percent_encoded_ascii, path_encoded,
    percent_encode, percent_encode_noslash, strict_encoded,
};
use crate::timestamp::{date_compact, datetime_compact, dec_digit, format_date, format_datetime,
    lemma_datetime_compact_ascii, Timestamp};
use crate::{valid_duration, Error, MAX_DURATION};
use vstd::arithmetic::div_mod::lemma_fundamental_div_mod;
use vstd::string::StringSliceAdditionalSpecFns;
use vstd::utf8::{
    encode_utf8, encode_utf8_valid_utf8, is_leading_byte_width_1, partial_valid_utf8,
    partial_valid_utf8_extend_ascii_block, valid_utf8, valid_utf8_concat,
};

verus! {

/// A service-account identity: the principal's e-mail and its PEM-encoded
/// private key. Borrowed read-only by every signing call, never mutated.
pub struct ServiceAccount {
    /// Principal identifier, as UTF-8 bytes of the e-mail address.
    pub client_email: Vec<u8>,
    /// PEM-encoded RSA private key material.
    pub private_key: Vec<u8>,
}

/// The UTF-8 bytes of a string slice; fixed protocol tokens are written as
/// literals under this function in the specifications below.
pub open spec fn str_bytes(s: &str) -> Seq<u8> {
    s.spec_bytes()
}

/// A single newline byte, the separator of the canonical formats.
pub open spec fn nl() -> Seq<u8> {
    seq![0x0au8]
}

/// The SHA-256 digest of a byte string, as the linked crypto library
/// computes it: a function of the input alone, 32 bytes long.
pub uninterp spec fn sha256_of(message: Seq<u8>) -> Seq<u8>;

/// The RSA PKCS#1 v1.5 signature with SHA-256 digest over a message, under
/// the RSA private key that the given PEM text holds: a function of key
/// material and message alone.
pub uninterp spec fn rsa_sha256_signature(key_pem: Seq<u8>, message: Seq<u8>) -> Seq<u8>;

/// Whether the given PEM text parses as an RSA private key, as the linked
/// crypto library decides it under a fixed empty passphrase: parsing then
/// reads the bytes alone, so this too is a function of the key material.
pub uninterp spec fn rsa_key_parses(key_pem: Seq<u8>) -> bool;

/// The byte length of the modulus of the RSA key that the given PEM text
/// holds: fixed by the key material alone, and the length of every
/// PKCS#1 v1.5 signature made with that key.
pub uninterp spec fn rsa_modulus_len(key_pem: Seq<u8>) -> nat;

/// How a signing attempt can fail, each variant carrying the reporting
/// library's error value where there is one.
pub enum SignFailure {
    /// The PEM text did not parse as a private key.
    KeyParse(openssl::error::ErrorStack),
    /// The PEM text parsed, but not as an RSA key.
    NotRsa,
    /// The signing primitive itself failed.
    Signing(openssl::error::ErrorStack),
}

/// Declares `openssl::error::ErrorStack`, the error type of the key-parsing
/// and signing calls; it is carried through opaquely and never inspected.
#[verifier::external_type_specification]
#[verifier::external_body]
pub struct ExErrorStack(openssl::error::ErrorStack);

/// Relies on `openssl::sha::sha256`: the digest depends on the input bytes
/// alone and is exactly 32 bytes long.
#[verifier::external_body]
fn sha256_digest(message: &[u8]) -> (r: Vec<u8>)
    ensures
        r@ == sha256_of(message@),
        r@.len() == 32,
{
    openssl::sha::sha256(message).to_vec()
}

/// Relies on `openssl::pkey::PKey::private_key_from_pem_passphrase` and
/// `openssl::sign::Signer` with `MessageDigest::sha256`, which produce an
/// RSA PKCS#1 v1.5 signature: for an RSA key that signature is a
/// deterministic function of the key material and the message, and its
/// length is the modulus size of the key. The passphrase is fixed to the
/// empty string, so an encrypted PEM is rejected as a function of its bytes
/// — the parse never consults a terminal or the environment. A key of any
/// kind but RSA is reported as a key failure and never signed with, since
/// other schemes need not be deterministic; the key-failure variants come
/// exactly when the PEM does not parse as an RSA key.
#[verifier::external_body]
fn rsa_sha256_sign(key_pem: &[u8], message: &[u8]) -> (r: Result<Vec<u8>, SignFailure>)
    ensures
        r matches Ok(sig) ==> sig@ == rsa_sha256_signature(key_pem@, message@),
        r matches Ok(sig) ==> sig@.len() == rsa_modulus_len(key_pem@),
        (r matches Err(f) && !(f matches SignFailure::Signing(_))) <==> !rsa_key_parses(key_pem@),
{
    let key = openssl::pkey::PKey::private_key_from_pem_passphrase(key_pem, b"").map_err(
        SignFailure::KeyParse,
    )?;
    if key.id() != openssl::pkey::Id::RSA {
        return Err(SignFailure::NotRsa);
    }
    let digest = openssl::hash::MessageDigest::sha256();
    let mut signer = openssl::sign::Signer::new(digest, &key).map_err(SignFailure::Signing)?;
    signer.update(message).map_err(SignFailure::Signing)?;
    signer.sign_to_vec().map_err(SignFailure::Signing)
}

/// Appends a byte slice to a vector.
pub(crate) fn push_all(out: &mut Vec<u8>, bytes: &[u8])
    ensures
        final(out)@ == old(out)@ + bytes@,
{
    let mut i: usize = 0;
    while i < bytes.len()
        invariant
            i <= bytes@.len(),
            out@ == old(out)@ + bytes@.take(i as int),
        decreases bytes@.len() - i,
    {
        out.push(bytes[i]);
        proof {
            assert(old(out)@ + bytes@.take(i as int + 1) =~= (old(out)@ + bytes@.take(
                i as int,
            )).push(bytes@[i as int]));
        }
        i += 1;
    }
    proof {
        assert(bytes@.take(bytes@.len() as int) =~= bytes@);
    }
}

/// A positive integer in decimal, most significant digit first; zero is the
/// single digit `0`. No padding, no sign.
pub open spec fn decimal(n: nat) -> Seq<u8>
    decreases n,
{
    if n < 10 {
        seq![dec_digit(n)]
    } else {
        decimal(n / 10) + seq![dec_digit(n % 10)]
    }
}

/// Appends the decimal rendering of `n`.
fn push_decimal(out: &mut Vec<u8>, n: u32)
    ensures
        final(out)@ == old(out)@ + decimal(n as nat),
    decreases n,
{
    if n >= 10 {
        push_decimal(out, n / 10);
    }
    out.push(0x30 + (n % 10) as u8);
    proof {
        assert(out@ =~= old(out)@ + decimal(n as nat));
    }
}

/// The credential scope a signature is bound to:
/// `{YYYYMMDD}/henk/storage/goog4_request`, with the three tokens after the
/// date fixed by the protocol.
pub open spec fn spec_credential_scope(ts: Timestamp) -> Seq<u8>
    recommends
        ts.wf(),
{
    date_compact(ts) + str_bytes("/henk/storage/goog4_request")
}

/// Renders the credential scope for the given issue timestamp.
pub fn get_credential_scope(ts: &Timestamp) -> (r: Vec<u8>)
    requires
        ts.wf(),
    ensures
        r@ == spec_credential_scope(*ts),
{
    let mut out = format_date(ts);
    push_all(&mut out, "/henk/storage/goog4_request".as_bytes());
    out
}

/// The canonical query string: five fields in fixed order, `&`-joined, the
/// credential strict-encoded, the expiry in plain decimal seconds.
pub open spec fn spec_canonical_query_string(email: Seq<u8>, ts: Timestamp, expires: u32) -> Seq<
    u8,
>
    recommends
        ts.wf(),
{
    str_bytes("X-Goog-Algorithm=GOOG4-RSA-SHA256&X-Goog-Credential=") + strict_encoded(
        email + seq![0x2fu8] + spec_credential_scope(ts),
    ) + str_bytes("&X-Goog-Date=") + datetime_compact(ts) + str_bytes("&X-Goog-Expires=") + decimal(
        expires as nat,
    ) + str_bytes("&X-Goog-SignedHeaders=host")
}

/// Builds the canonical query string for a principal, an issue timestamp and
/// an expiry in seconds.
pub fn get_canonical_query_string(email: &[u8], ts: &Timestamp, expires: u32) -> (r: Vec<u8>)
    requires
        ts.wf(),
    ensures
        r@ == spec_canonical_query_string(email@, *ts, expires),
{
    let mut credential: Vec<u8> = Vec::new();
    push_all(&mut credential, email);
    credential.push(0x2f);
    let scope = get_credential_scope(ts);
    push_all(&mut credential, scope.as_slice());
    proof {
        assert(credential@ =~= email@ + seq![0x2fu8] + spec_credential_scope(*ts));
    }
    let encoded_credential = percent_encode(credential.as_slice());
    let datetime = format_datetime(ts);
    let mut out: Vec<u8> = Vec::new();
    push_all(&mut out, "X-Goog-Algorithm=GOOG4-RSA-SHA256&X-Goog-Credential=".as_bytes());
    push_all(&mut out, encoded_credential.as_slice());
    push_all(&mut out, "&X-Goog-Date=".as_bytes());
    push_all(&mut out, datetime.as_slice());
    push_all(&mut out, "&X-Goog-Expires=".as_bytes());
    push_decimal(&mut out, expires);
    push_all(&mut out, "&X-Goog-SignedHeaders=host".as_bytes());
    proof {
        assert(out@ =~= spec_canonical_query_string(email@, *ts, expires));
    }
    out
}

/// The resource path of a signed URL: a slash, the bucket as given, a slash,
/// and the path-encoded object name.
pub open spec fn spec_path_to_resource(bucket: Seq<u8>, object: Seq<u8>) -> Seq<u8> {
    seq![0x2fu8] + bucket + seq![0x2fu8] + path_encoded(object)
}

/// Builds the resource path for a bucket and an object name.
pub fn path_to_resource(bucket: &[u8], object: &[u8]) -> (r: Vec<u8>)
    ensures
        r@ == spec_path_to_resource(bucket@, object@),
{
    let mut out: Vec<u8> = Vec::new();
    out.push(0x2f);
    push_all(&mut out, bucket);
    out.push(0x2f);
    let encoded = percent_encode_noslash(object);
    push_all(&mut out, encoded.as_slice());
    proof {
        assert(out@ =~= spec_path_to_resource(bucket@, object@));
    }
    out
}

/// The canonical request: verb, resource path, query string, the fixed
/// canonical-headers line, a blank line, the fixed signed-headers value and
/// the fixed payload marker, newline-joined.
pub open spec fn spec_canonical_request(verb: Seq<u8>, path: Seq<u8>, query: Seq<u8>) -> Seq<u8> {
    verb + nl() + path + nl() + query + nl() + str_bytes("host:storage.googleapis.com") + nl()
        + nl() + str_bytes("host") + nl() + str_bytes("UNSIGNED-PAYLOAD")
}

/// Builds the canonical request for a verb, an encoded resource path and a
/// canonical query string.
pub fn get_canonical_request(verb: &[u8], path: &[u8], query: &[u8]) -> (r: Vec<u8>)
    ensures
        r@ == spec_canonical_request(verb@, path@, query@),
{
    let mut out: Vec<u8> = Vec::new();
    push_all(&mut out, verb);
    out.push(0x0a);
    push_all(&mut out, path);
    out.push(0x0a);
    push_all(&mut out, query);
    out.push(0x0a);
    push_all(&mut out, "host:storage.googleapis.com".as_bytes());
    out.push(0x0a);
    out.push(0x0a);
    push_all(&mut out, "host".as_bytes());
    out.push(0x0a);
    push_all(&mut out, "UNSIGNED-PAYLOAD".as_bytes());
    proof {
        assert(out@ =~= spec_canonical_request(verb@, path@, query@));
    }
    out
}

/// The string that is signed: algorithm tag, compact timestamp, credential
/// scope and the lower-case hex SHA-256 digest of the canonical request,
/// newline-joined.
pub open spec fn spec_string_to_sign(ts: Timestamp, canonical_request: Seq<u8>) -> Seq<u8>
    recommends
        ts.wf(),
{
    str_bytes("GOOG4-RSA-SHA256") + nl() + datetime_compact(ts) + nl() + spec_credential_scope(ts)
        + nl() + hex_encoded(sha256_of(canonical_request))
}

/// Hashes a canonical request and assembles the string-to-sign around it.
pub fn string_to_sign(ts: &Timestamp, canonical_request: &[u8]) -> (r: Vec<u8>)
    requires
        ts.wf(),
    ensures
        r@ == spec_string_to_sign(*ts, canonical_request@),
{
    let hash = sha256_digest(canonical_request);
    let hex_hash = hex_encode(hash.as_slice());
    let datetime = format_datetime(ts);
    let scope = get_credential_scope(ts);
    let mut out: Vec<u8> = Vec::new();
    push_all(&mut out, "GOOG4-RSA-SHA256".as_bytes());
    out.push(0x0a);
    push_all(&mut out, datetime.as_slice());
    out.push(0x0a);
    push_all(&mut out, scope.as_slice());
    out.push(0x0a);
    push_all(&mut out, hex_hash.as_slice());
    proof {
        assert(out@ =~= spec_string_to_sign(*ts, canonical_request@));
    }
    out
}

/// Signs a message with the given PEM private key: RSA PKCS#1 v1.5 with a
/// SHA-256 digest. Malformed, passphrase-encrypted or non-RSA key material
/// is a `KeyParse` error; a failure of the primitive itself is a `Signing`
/// error.
pub fn sign_str(key_pem: &[u8], message: &[u8]) -> (r: Result<Vec<u8>, Error>)
    ensures
        r matches Ok(sig) ==> sig@ == rsa_sha256_signature(key_pem@, message@),
        r matches Ok(sig) ==> sig@.len() == rsa_modulus_len(key_pem@),
        r == Err::<Vec<u8>, Error>(Error::KeyParse) <==> !rsa_key_parses(key_pem@),
        r is Err ==> r == Err::<Vec<u8>, Error>(Error::KeyParse) || r == Err::<Vec<u8>, Error>(
            Error::Signing,
        ),
{
    match rsa_sha256_sign(key_pem, message) {
        Ok(sig) => Ok(sig),
        Err(SignFailure::KeyParse(_)) => Err(Error::KeyParse),
        Err(SignFailure::NotRsa) => Err(Error::KeyParse),
        Err(SignFailure::Signing(_)) => Err(Error::Signing),
    }
}

/// The final signed URL: fixed host, resource path, canonical query string
/// and the hex-encoded signature in a trailing `X-Goog-Signature` field.
pub open spec fn spec_signed_url(path: Seq<u8>, query: Seq<u8>, signature: Seq<u8>) -> Seq<u8> {
    str_bytes("https://storage.googleapis.com") + path + seq![0x3fu8] + query + str_bytes(
        "&X-Goog-Signature=",
    ) + hex_encoded(signature)
}

/// Assembles the final URL from the resource path, the canonical query
/// string and the raw signature bytes, whatever those bytes are.
pub fn assemble_signed_url(path: &[u8], query: &[u8], signature: &[u8]) -> (r: Vec<u8>)
    ensures
        r@ == spec_signed_url(path@, query@, signature@),
{
    let hex_signature = hex_encode(signature);
    let mut out: Vec<u8> = Vec::new();
    push_all(&mut out, "https://storage.googleapis.com".as_bytes());
    push_all(&mut out, path);
    out.push(0x3f);
    push_all(&mut out, query);
    push_all(&mut out, "&X-Goog-Signature=".as_bytes());
    push_all(&mut out, hex_signature.as_slice());
    proof {
        assert(out@ =~= spec_signed_url(path@, query@, signature@));
    }
    out
}

/// The whole pipeline as one function of the inputs: resource path and
/// query string are derived, the canonical request is hashed into the
/// string-to-sign, and its signature is embedded in the final URL.
pub open spec fn spec_signed_url_for(
    email: Seq<u8>,
    key_pem: Seq<u8>,
    bucket: Seq<u8>,
    object: Seq<u8>,
    verb: Seq<u8>,
    duration: u32,
    ts: Timestamp,
) -> Seq<u8>
    recommends
        ts.wf(),
{
    let path = spec_path_to_resource(bucket, object);
    let query = spec_canonical_query_string(email, ts, duration);
    let canonical_request = spec_canonical_request(verb, path, query);
    let to_sign = spec_string_to_sign(ts, canonical_request);
    spec_signed_url(path, query, rsa_sha256_signature(key_pem, to_sign))
}

/// Produces the signed URL granting `verb` access to `object` in `bucket`
/// for `duration` seconds from the issue timestamp `ts`.
///
/// A duration of zero or of more than seven days is rejected as a
/// `Validation` error before anything else runs; any other failure comes
/// from the key material. On success the URL is exactly the pipeline's
/// value on these inputs — byte-identical across repeated calls.
pub fn sign(
    account: &ServiceAccount,
    bucket: &[u8],
    object: &[u8],
    duration: u32,
    verb: &[u8],
    ts: &Timestamp,
) -> (r: Result<Vec<u8>, Error>)
    requires
        ts.wf(),
    ensures
        r == Err::<Vec<u8>, Error>(Error::Validation) <==> !valid_duration(duration),
        r == Err::<Vec<u8>, Error>(Error::KeyParse) <==> valid_duration(duration)
            && !rsa_key_parses(account.private_key@),
        r matches Ok(url) ==> url@ == spec_signed_url_for(
            account.client_email@,
            account.private_key@,
            bucket@,
            object@,
            verb@,
            duration,
            *ts,
        ),
        r is Err ==> r == Err::<Vec<u8>, Error>(Error::Validation) || r == Err::<Vec<u8>, Error>(
            Error::KeyParse,
        ) || r == Err::<Vec<u8>, Error>(Error::Signing),
{
    if duration == 0 || duration > MAX_DURATION {
        return Err(Error::Validation);
    }
    let path = path_to_resource(bucket, object);
    let query = get_canonical_query_string(account.client_email.as_slice(), ts, duration);
    let canonical_request = get_canonical_request(verb, path.as_slice(), query.as_slice());
    let to_sign = string_to_sign(ts, canonical_request.as_slice());
    match sign_str(account.private_key.as_slice(), to_sign.as_slice()) {
        Ok(signature) => Ok(
            assemble_signed_url(path.as_slice(), query.as_slice(), signature.as_slice()),
        ),
        Err(e) => Err(e),
    }
}

/// Determinism of the pipeline: with the timestamp fixed, the canonical
/// request, the string-to-sign and the signature are functions of the
/// credential and the request alone, so two signed URLs produced for equal
/// inputs agree byte for byte — there is no hidden nondeterminism.
pub proof fn lemma_sign_deterministic(
    url1: Seq<u8>,
    url2: Seq<u8>,
    email: Seq<u8>,
    key_pem: Seq<u8>,
    bucket: Seq<u8>,
    object: Seq<u8>,
    verb: Seq<u8>,
    duration: u32,
    ts: Timestamp,
)
    requires
        url1 == spec_signed_url_for(email, key_pem, bucket, object, verb, duration, ts),
        url2 == spec_signed_url_for(email, key_pem, bucket, object, verb, duration, ts),
    ensures
        url1 == url2,
{
}

/// Numeric value of a string of ASCII digits, most significant first.
pub open spec fn decimal_value(s: Seq<u8>) -> nat
    decreases s.len(),
{
    if s.len() == 0 {
        0nat
    } else {
        (decimal_value(s.drop_last()) * 10 + (s.last() - 0x30)) as nat
    }
}

/// The decimal rendering embedded after `X-Goog-Expires=` carries the expiry
/// exactly: reading its digits back yields the number that was rendered.
pub proof fn lemma_decimal_round_trip(n: nat)
    ensures
        decimal_value(decimal(n)) == n,
    decreases n,
{
    reveal_with_fuel(decimal_value, 3);
    if n < 10 {
        assert(seq![dec_digit(n)].drop_last() =~= Seq::<u8>::empty());
        assert(decimal_value(Seq::<u8>::empty()) == 0nat);
    } else {
        lemma_decimal_round_trip(n / 10);
        assert((decimal(n / 10) + seq![dec_digit(n % 10)]).drop_last() =~= decimal(n / 10));
        assert((decimal(n / 10) + seq![dec_digit(n % 10)]).last() == dec_digit(n % 10));
        assert(dec_digit(n % 10) == 0x30 + n % 10);
        assert(decimal_value(decimal(n)) == (n / 10) * 10 + n % 10);
        lemma_fundamental_div_mod(n as int, 10);
    }
}

/// The produced URL carries the requested expiry exactly: the canonical
/// query string embeds `X-Goog-Expires=` followed by the decimal rendering
/// of the duration, between the date field and the signed-headers field, and
/// that rendering reads back as the duration itself.
pub proof fn lemma_url_expires_exact(email: Seq<u8>, ts: Timestamp, duration: u32)
    requires
        ts.wf(),
    ensures
        spec_canonical_query_string(email, ts, duration) == str_bytes(
            "X-Goog-Algorithm=GOOG4-RSA-SHA256&X-Goog-Credential=",
        ) + strict_encoded(email + seq![0x2fu8] + spec_credential_scope(ts)) + str_bytes(
            "&X-Goog-Date=",
        ) + datetime_compact(ts) + (str_bytes("&X-Goog-Expires=") + decimal(duration as nat))
            + str_bytes("&X-Goog-SignedHeaders=host"),
        decimal_value(decimal(duration as nat)) == duration,
{
    lemma_decimal_round_trip(duration as nat);
    assert(spec_canonical_query_string(email, ts, duration) =~= str_bytes(
        "X-Goog-Algorithm=GOOG4-RSA-SHA256&X-Goog-Credential=",
    ) + strict_encoded(email + seq![0x2fu8] + spec_credential_scope(ts)) + str_bytes(
        "&X-Goog-Date=",
    ) + datetime_compact(ts) + (str_bytes("&X-Goog-Expires=") + decimal(duration as nat))
        + str_bytes("&X-Goog-SignedHeaders=host"));
}

/// The lines of a canonical request, joined with single newlines.
pub open spec fn join_lines(lines: Seq<Seq<u8>>) -> Seq<u8>
    decreases lines.len(),
{
    if lines.len() == 0 {
        Seq::empty()
    } else if lines.len() == 1 {
        lines[0]
    } else {
        join_lines(lines.drop_last()) + nl() + lines.last()
    }
}

/// The canonical request is exactly seven newline-separated lines: the verb,
/// the resource path, the query string, the canonical-headers line, a blank
/// fifth line, the signed-headers value and the payload marker.
pub proof fn lemma_canonical_request_seven_lines(verb: Seq<u8>, path: Seq<u8>, query: Seq<u8>)
    ensures
        spec_canonical_request(verb, path, query) == join_lines(
            seq![
                verb,
                path,
                query,
                str_bytes("host:storage.googleapis.com"),
                Seq::<u8>::empty(),
                str_bytes("host"),
                str_bytes("UNSIGNED-PAYLOAD"),
            ],
        ),
{
    reveal_with_fuel(join_lines, 8);
    let headers = str_bytes("host:storage.googleapis.com");
    let blank = Seq::<u8>::empty();
    let signed = str_bytes("host");
    let payload = str_bytes("UNSIGNED-PAYLOAD");
    let l7 = seq![verb, path, query, headers, blank, signed, payload];
    let l6 = seq![verb, path, query, headers, blank, signed];
    let l5 = seq![verb, path, query, headers, blank];
    let l4 = seq![verb, path, query, headers];
    let l3 = seq![verb, path, query];
    let l2 = seq![verb, path];
    let l1 = seq![verb];
    assert(l7.drop_last() =~= l6);
    assert(l6.drop_last() =~= l5);
    assert(l5.drop_last() =~= l4);
    assert(l4.drop_last() =~= l3);
    assert(l3.drop_last() =~= l2);
    assert(l2.drop_last() =~= l1);
    assert(join_lines(l1) == verb);
    assert(spec_canonical_request(verb, path, query) =~= join_lines(l7));
}

/// A byte string of plain ASCII is valid UTF-8.
pub proof fn lemma_ascii_valid_utf8(s: Seq<u8>)
    requires
        forall|i: int| 0 <= i < s.len() ==> s[i] < 0x80,
    ensures
        valid_utf8(s),
{
    assert(s.subrange(0, 0) =~= Seq::<u8>::empty());
    assert(valid_utf8(s.subrange(0, 0)));
    assert(partial_valid_utf8(s, 0));
    assert forall|i: int| 0 <= 0 <= i < s.len() as int <= s.len() implies is_leading_byte_width_1(
        s[i],
    ) by {}
    partial_valid_utf8_extend_ascii_block(s, 0, s.len() as int);
    assert(s.subrange(0, s.len() as int) =~= s);
}

/// Decimal renderings are ASCII digits.
pub proof fn lemma_decimal_ascii(n: nat)
    ensures
        forall|i: int| 0 <= i < decimal(n).len() ==> #[trigger] decimal(n)[i] < 0x80,
    decreases n,
{
    if n < 10 {
    } else {
        lemma_decimal_ascii(n / 10);
        assert forall|i: int| 0 <= i < decimal(n).len() implies #[trigger] decimal(n)[i]
            < 0x80 by {
            if i < decimal(n / 10).len() {
                assert(decimal(n)[i] == decimal(n / 10)[i]);
            }
        }
    }
}

/// A signed URL whose bucket and verb are valid UTF-8 is valid UTF-8 as a
/// whole: every other piece of it is either a fixed token or ASCII output of
/// an encoder.
proof fn lemma_signed_url_for_valid_utf8(
    email: Seq<u8>,
    key_pem: Seq<u8>,
    bucket: Seq<u8>,
    object: Seq<u8>,
    verb: Seq<u8>,
    duration: u32,
    ts: Timestamp,
)
    requires
        valid_utf8(bucket),
        valid_utf8(verb),
        ts.wf(),
    ensures
        valid_utf8(spec_signed_url_for(email, key_pem, bucket, object, verb, duration, ts)),
{
    broadcast use encode_utf8_valid_utf8;
    broadcast use valid_utf8_concat;

    let slash = seq![0x2fu8];
    lemma_ascii_valid_utf8(slash);
    lemma_percent_encoded_ascii(object, true);
    lemma_ascii_valid_utf8(path_encoded(object));
    let path = spec_path_to_resource(bucket, object);
    assert(valid_utf8(slash + bucket));
    assert(valid_utf8(slash + bucket + slash));
    assert(valid_utf8(path));

    let credential = email + slash + spec_credential_scope(ts);
    lemma_percent_encoded_ascii(credential, false);
    lemma_ascii_valid_utf8(strict_encoded(credential));
    lemma_datetime_compact_ascii(ts);
    lemma_ascii_valid_utf8(datetime_compact(ts));
    lemma_decimal_ascii(duration as nat);
    lemma_ascii_valid_utf8(decimal(duration as nat));
    let query = spec_canonical_query_string(email, ts, duration);
    let q1 = str_bytes("X-Goog-Algorithm=GOOG4-RSA-SHA256&X-Goog-Credential=") + strict_encoded(
        credential,
    );
    assert(valid_utf8(q1));
    let q2 = q1 + str_bytes("&X-Goog-Date=");
    assert(valid_utf8(q2));
    let q3 = q2 + datetime_compact(ts);
    assert(valid_utf8(q3));
    let q4 = q3 + str_bytes("&X-Goog-Expires=");
    assert(valid_utf8(q4));
    let q5 = q4 + decimal(duration as nat);
    assert(valid_utf8(q5));
    assert(valid_utf8(query));

    let canonical_request = spec_canonical_request(verb, path, query);
    let to_sign = spec_string_to_sign(ts, canonical_request);
    let signature = rsa_sha256_signature(key_pem, to_sign);
    lemma_hex_encoded_ascii(signature);
    lemma_ascii_valid_utf8(hex_encoded(signature));
    let question = seq![0x3fu8];
    lemma_ascii_valid_utf8(question);
    let u1 = str_bytes("https://storage.googleapis.com") + path;
    assert(valid_utf8(u1));
    let u2 = u1 + question;
    assert(valid_utf8(u2));
    let u3 = u2 + query;
    assert(valid_utf8(u3));
    let u4 = u3 + str_bytes("&X-Goog-Signature=");
    assert(valid_utf8(u4));
    assert(valid_utf8(spec_signed_url_for(email, key_pem, bucket, object, verb, duration, ts)));
}

/// Relies on `String::from_utf8`: a vector of valid UTF-8 bytes converts to
/// the string whose UTF-8 encoding is exactly those bytes.
#[verifier::external_body]
fn bytes_to_string(v: Vec<u8>) -> (r: String)
    requires
        valid_utf8(v@),
    ensures
        encode_utf8(r@) == v@,
{
    String::from_utf8(v).unwrap()
}

/// Creates a signed URL which is valid for `duration` seconds from now and
/// lets its possessor download the object's contents without any further
/// authentication.
///
/// The issue timestamp is captured from the clock once and bound into the
/// scope, the query string and the string-to-sign alike. A duration of zero
/// or of more than seven days is a `Validation` error; a clock reading that
/// no four-digit year can render is reported as a `Signing` failure.
pub fn download_url(account: &ServiceAccount, bucket: &str, object: &str, duration: u32) -> (r:
    Result<String, Error>)
    ensures
        r == Err::<String, Error>(Error::Validation) <==> !valid_duration(duration),
        r == Err::<String, Error>(Error::KeyParse) ==> !rsa_key_parses(account.private_key@),
        r matches Ok(url) ==> exists|ts: Timestamp|
            ts.wf() && encode_utf8(url@) == spec_signed_url_for(
                account.client_email@,
                account.private_key@,
                str_bytes(bucket),
                str_bytes(object),
                str_bytes("GET"),
                duration,
                ts,
            ),
        r is Err ==> r == Err::<String, Error>(Error::Validation) || r == Err::<String, Error>(
            Error::KeyParse,
        ) || r == Err::<String, Error>(Error::Signing),
{
    if duration == 0 || duration > MAX_DURATION {
        return Err(Error::Validation);
    }
    let ts = match Timestamp::now() {
        Some(ts) => ts,
        None => {
            return Err(Error::Signing);
        },
    };
    match sign(account, bucket.as_bytes(), object.as_bytes(), duration, "GET".as_bytes(), &ts) {
        Ok(url_bytes) => {
            proof {
                broadcast use encode_utf8_valid_utf8;

                lemma_signed_url_for_valid_utf8(
                    account.client_email@,
                    account.private_key@,
                    str_bytes(bucket),
                    str_bytes(object),
                    str_bytes("GET"),
                    duration,
                    ts,
                );
            }
            let url = bytes_to_string(url_bytes);
            proof {
                assert(ts.wf() && encode_utf8(url@) == spec_signed_url_for(
                    account.client_email@,
                    account.private_key@,
                    str_bytes(bucket),
                    str_bytes(object),
                    str_bytes("GET"),
                    duration,
                    ts,
                ));
            }
            Ok(url)
        },
        Err(e) => Err(e),
    }
}

} // verus!
