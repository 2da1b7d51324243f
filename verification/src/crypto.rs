//! Hashing and Base64 for the OAuth PKCE flow and OBS authentication.
use vstd::prelude::*;
use vstd::utf8::encode_utf8;
use base64::Engine;
use rand::RngCore;
use sha2::Digest;

verus! {

// ---------------------------------------------------------------------------
// Base64 (RFC 4648)
// ---------------------------------------------------------------------------

/// The character for the six-bit value `v` in the standard alphabet
/// (`A-Z a-z 0-9 + /`) or the URL-safe one (`- _` in place of `+ /`).
pub open spec fn b64_char(v: nat, url_safe: bool) -> char {
    if v < 26 {
        (65 + v) as char
    } else if v < 52 {
        (97 + (v - 26)) as char
    } else if v < 62 {
        (48 + (v - 52)) as char
    } else if v == 62 {
        if url_safe {
            '-'
        } else {
            '+'
        }
    } else {
        if url_safe {
            '_'
        } else {
            '/'
        }
    }
}

/// The Base64 encoding of `data`: each group of three bytes becomes four
/// characters; a final group of one or two bytes becomes two or three
/// characters, followed by `=` to a multiple of four when `pad` is set.
pub open spec fn b64_encode(data: Seq<u8>, url_safe: bool, pad: bool) -> Seq<char>
    decreases data.len(),
{
    if data.len() == 0 {
        Seq::empty()
    } else if data.len() == 1 {
        let a = data[0] as nat;
        seq![b64_char(a / 4, url_safe), b64_char((a % 4) * 16, url_safe)] + if pad {
            seq!['=', '=']
        } else {
            Seq::empty()
        }
    } else if data.len() == 2 {
        let a = data[0] as nat;
        let b = data[1] as nat;
        seq![
            b64_char(a / 4, url_safe),
            b64_char((a % 4) * 16 + b / 16, url_safe),
            b64_char((b % 16) * 4, url_safe),
        ] + if pad {
            seq!['=']
        } else {
            Seq::empty()
        }
    } else {
        let a = data[0] as nat;
        let b = data[1] as nat;
        let c = data[2] as nat;
        seq![
            b64_char(a / 4, url_safe),
            b64_char((a % 4) * 16 + b / 16, url_safe),
            b64_char((b % 16) * 4 + c / 64, url_safe),
            b64_char(c % 64, url_safe),
        ] + b64_encode(data.skip(3), url_safe, pad)
    }
}

/// `base64::engine::general_purpose::URL_SAFE_NO_PAD.encode`: Base64 with the
/// URL-safe alphabet and no padding (RFC 4648, section 5).
#[verifier::external_body]
fn base64_url_no_pad(data: &[u8]) -> (s: String)
    requires
        data@.len() <= usize::MAX / 2,
    ensures
        s@ == b64_encode(data@, true, false),
{
    base64::engine::general_purpose::URL_SAFE_NO_PAD.encode(data)
}

/// `base64::engine::general_purpose::STANDARD.encode`: Base64 with the
/// standard alphabet and `=` padding (RFC 4648, section 4).
#[verifier::external_body]
fn base64_standard(data: &[u8]) -> (s: String)
    requires
        data@.len() <= usize::MAX / 2,
    ensures
        s@ == b64_encode(data@, false, true),
{
    base64::engine::general_purpose::STANDARD.encode(data)
}

// ---------------------------------------------------------------------------
// SHA-256
// ---------------------------------------------------------------------------

/// The SHA-256 digest of `data` (FIPS 180-4).
pub uninterp spec fn sha256(data: Seq<u8>) -> Seq<u8>;

/// `sha2::Sha256` fed `data` and finalised: the 32-byte digest.
#[verifier::external_body]
fn sha256_digest(data: &[u8]) -> (d: Vec<u8>)
    ensures
        d@ == sha256(data@),
        d@.len() == 32,
{
    let mut hasher = sha2::Sha256::new();
    hasher.update(data);
    hasher.finalize().to_vec()
}

// ---------------------------------------------------------------------------
// Randomness
// ---------------------------------------------------------------------------

/// 32 bytes from `rand::thread_rng().fill_bytes`. Nothing is stated of
/// their values: they are random.
#[verifier::external_body]
fn random_bytes_32() -> (b: Vec<u8>)
    ensures
        b@.len() == 32,
{
    let mut bytes = [0u8; 32];
    rand::thread_rng().fill_bytes(&mut bytes);
    bytes.to_vec()
}

/// A random `u16` from `rand::random`. Nothing is stated of its value.
#[verifier::external_body]
pub(crate) fn random_u16() -> u16 {
    rand::random::<u16>()
}

// ---------------------------------------------------------------------------
// PKCE and OBS authentication
// ---------------------------------------------------------------------------

fn concat_bytes(a: &[u8], b: &[u8]) -> (r: Vec<u8>)
    ensures
        r@ == a@ + b@,
{
    let mut r: Vec<u8> = Vec::new();
    let mut i: usize = 0;
    while i < a.len()
        invariant
            i <= a@.len(),
            r@ == a@.take(i as int),
        decreases a@.len() - i,
    {
        r.push(a[i]);
        proof {
            assert(a@.take(i as int).push(a@[i as int]) =~= a@.take(i + 1));
        }
        i = i + 1;
    }
    let mut j: usize = 0;
    while j < b.len()
        invariant
            j <= b@.len(),
            i == a@.len(),
            r@ == a@ + b@.take(j as int),
        decreases b@.len() - j,
    {
        r.push(b[j]);
        proof {
            assert(a@ + b@.take(j as int).push(b@[j as int]) =~= a@ + b@.take(j + 1));
        }
        j = j + 1;
    }
    proof {
        assert(a@.take(a@.len() as int) =~= a@);
        assert(b@.take(b@.len() as int) =~= b@);
    }
    r
}

/// The PKCE challenge for a verifier: the URL-safe unpadded Base64 of the
/// SHA-256 digest of its UTF-8 bytes (RFC 7636, S256).
pub open spec fn challenge_text(verifier: Seq<char>) -> Seq<char> {
    b64_encode(sha256(encode_utf8(verifier)), true, false)
}

/// A fresh PKCE code verifier: 32 random bytes in URL-safe unpadded Base64
/// (43 characters of the unreserved set).
pub fn generate_verifier() -> (v: String)
    ensures
        exists|bytes: Seq<u8>| bytes.len() == 32 && v@ == b64_encode(bytes, true, false),
        v@.len() == 43,
        forall|i: int| 0 <= i < v@.len() ==> unreserved(#[trigger] v@[i]),
{
    let bytes = random_bytes_32();
    let v = base64_url_no_pad(bytes.as_slice());
    proof {
        lemma_b64_len_no_pad(bytes@, true);
        lemma_b64_url_unreserved(bytes@);
    }
    v
}

/// The PKCE S256 challenge for `verifier`.
pub fn generate_challenge(verifier: &str) -> (c: String)
    ensures
        c@ == challenge_text(verifier@),
{
    let digest = sha256_digest(verifier.as_bytes());
    base64_url_no_pad(digest.as_slice())
}

/// The OBS WebSocket authentication string: Base64 of SHA-256 of (Base64 of
/// SHA-256 of password then salt) then challenge, with the standard padded
/// alphabet.
pub open spec fn obs_auth_text(password: Seq<char>, salt: Seq<char>, challenge: Seq<char>) -> Seq<
    char,
> {
    let secret = b64_encode(sha256(encode_utf8(password) + encode_utf8(salt)), false, true);
    b64_encode(sha256(encode_utf8(secret) + encode_utf8(challenge)), false, true)
}

/// Computes the OBS WebSocket v5 authentication string.
pub fn compute_auth(password: &str, salt: &str, challenge: &str) -> (a: String)
    ensures
        a@ == obs_auth_text(password@, salt@, challenge@),
{
    let first = concat_bytes(password.as_bytes(), salt.as_bytes());
    let h1 = sha256_digest(first.as_slice());
    let secret = base64_standard(h1.as_slice());
    let second = concat_bytes(secret.as_str().as_bytes(), challenge.as_bytes());
    let h2 = sha256_digest(second.as_slice());
    base64_standard(h2.as_slice())
}

// ---------------------------------------------------------------------------
// Facts about the encoding
// ---------------------------------------------------------------------------

/// A character of the URL-safe set that RFC 3986 leaves unreserved.
pub open spec fn unreserved(c: char) -> bool {
    ('A' <= c && c <= 'Z') || ('a' <= c && c <= 'z') || ('0' <= c && c <= '9') || c == '-' || c
        == '.' || c == '_' || c == '~'
}

/// Unpadded Base64 of `n` bytes has `4n/3` characters rounded up.
pub proof fn lemma_b64_len_no_pad(data: Seq<u8>, url_safe: bool)
    ensures
        b64_encode(data, url_safe, false).len() == (4 * data.len() + 2) / 3,
    decreases data.len(),
{
    if data.len() >= 3 {
        lemma_b64_len_no_pad(data.skip(3), url_safe);
    }
}

proof fn lemma_b64_char_unreserved(v: nat)
    requires
        v < 64,
    ensures
        unreserved(b64_char(v, true)),
{
    if v < 26 {
        assert(65 <= 65 + v <= 90);
    } else if v < 52 {
        assert(97 <= 97 + (v - 26) <= 122);
    } else if v < 62 {
        assert(48 <= 48 + (v - 52) <= 57);
    }
}

/// Every character of URL-safe unpadded Base64 is unreserved.
pub proof fn lemma_b64_url_unreserved(data: Seq<u8>)
    ensures
        forall|i: int|
            0 <= i < b64_encode(data, true, false).len() ==> unreserved(
                #[trigger] b64_encode(data, true, false)[i],
            ),
    decreases data.len(),
{
    if data.len() == 0 {
    } else if data.len() == 1 {
        let a = data[0] as nat;
        lemma_b64_char_unreserved(a / 4);
        lemma_b64_char_unreserved((a % 4) * 16);
    } else if data.len() == 2 {
        let a = data[0] as nat;
        let b = data[1] as nat;
        lemma_b64_char_unreserved(a / 4);
        lemma_b64_char_unreserved((a % 4) * 16 + b / 16);
        lemma_b64_char_unreserved((b % 16) * 4);
    } else {
        let a = data[0] as nat;
        let b = data[1] as nat;
        let c = data[2] as nat;
        lemma_b64_char_unreserved(a / 4);
        lemma_b64_char_unreserved((a % 4) * 16 + b / 16);
        lemma_b64_char_unreserved((b % 16) * 4 + c / 64);
        lemma_b64_char_unreserved(c % 64);
        lemma_b64_url_unreserved(data.skip(3));
        let head = seq![
            b64_char(a / 4, true),
            b64_char((a % 4) * 16 + b / 16, true),
            b64_char((b % 16) * 4 + c / 64, true),
            b64_char(c % 64, true),
        ];
        let rest = b64_encode(data.skip(3), true, false);
        assert forall|i: int| 0 <= i < (head + rest).len() implies unreserved(
            #[trigger] (head + rest)[i],
        ) by {
            if i >= 4 {
                assert((head + rest)[i] == rest[i - 4]);
            }
        }
    }
}

} // verus!
