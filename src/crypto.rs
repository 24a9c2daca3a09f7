//! Digests of file contents, and their lowercase hex form.
//!
//! The digest functions themselves come from the `sha2`, `sha3` and `blake3`
//! crates; each is named here by what it returns, and the library relies on
//! the output length that each crate fixes.
use crate::HashAlgorithms;
use vstd::prelude::*;
use vstd::string::*;

verus! {

/// Why a hashing task produced no digest.
#[derive(Debug)]
pub enum HashError {
    /// The algorithm, or fetching a remote file, is not supported.
    NotImplemented,
    /// The file could not be opened or read.
    Io(std::io::Error),
}

#[verifier::external_type_specification]
#[verifier::external_body]
pub struct ExIoError(std::io::Error);

/// The algorithms for which this library computes a digest.
pub open spec fn is_supported(a: HashAlgorithms) -> bool {
    !(a is SHAKE128 || a is SHAKE256 || a is UNIMPLEMENTED)
}

/// Length in bytes of each supported algorithm's digest.
pub open spec fn digest_len(a: HashAlgorithms) -> nat {
    match a {
        HashAlgorithms::SHA224 => 28,
        HashAlgorithms::SHA256 => 32,
        HashAlgorithms::SHA384 => 48,
        HashAlgorithms::SHA512 => 64,
        HashAlgorithms::SHA512_224 => 28,
        HashAlgorithms::SHA512_256 => 32,
        HashAlgorithms::SHA3_224 => 28,
        HashAlgorithms::SHA3_256 => 32,
        HashAlgorithms::SHA3_384 => 48,
        HashAlgorithms::SHA3_512 => 64,
        HashAlgorithms::BLAKE3 => 32,
        _ => 0,
    }
}

pub uninterp spec fn sha224_of(data: Seq<u8>) -> Seq<u8>;

pub uninterp spec fn sha256_of(data: Seq<u8>) -> Seq<u8>;

pub uninterp spec fn sha384_of(data: Seq<u8>) -> Seq<u8>;

pub uninterp spec fn sha512_of(data: Seq<u8>) -> Seq<u8>;

pub uninterp spec fn sha512_224_of(data: Seq<u8>) -> Seq<u8>;

pub uninterp spec fn sha512_256_of(data: Seq<u8>) -> Seq<u8>;

pub uninterp spec fn sha3_224_of(data: Seq<u8>) -> Seq<u8>;

pub uninterp spec fn sha3_256_of(data: Seq<u8>) -> Seq<u8>;

pub uninterp spec fn sha3_384_of(data: Seq<u8>) -> Seq<u8>;

pub uninterp spec fn sha3_512_of(data: Seq<u8>) -> Seq<u8>;

pub uninterp spec fn blake3_of(data: Seq<u8>) -> Seq<u8>;

/// The digest of `data` under a supported algorithm.
pub open spec fn digest_of(a: HashAlgorithms, data: Seq<u8>) -> Seq<u8> {
    match a {
        HashAlgorithms::SHA224 => sha224_of(data),
        HashAlgorithms::SHA256 => sha256_of(data),
        HashAlgorithms::SHA384 => sha384_of(data),
        HashAlgorithms::SHA512 => sha512_of(data),
        HashAlgorithms::SHA512_224 => sha512_224_of(data),
        HashAlgorithms::SHA512_256 => sha512_256_of(data),
        HashAlgorithms::SHA3_224 => sha3_224_of(data),
        HashAlgorithms::SHA3_256 => sha3_256_of(data),
        HashAlgorithms::SHA3_384 => sha3_384_of(data),
        HashAlgorithms::SHA3_512 => sha3_512_of(data),
        HashAlgorithms::BLAKE3 => blake3_of(data),
        _ => Seq::empty(),
    }
}

/// Relies on `sha2::Sha224` through `digest::Digest::digest`: the SHA-224
/// digest, 28 bytes long.
#[verifier::external_body]
fn sha224_digest(data: &[u8]) -> (r: Vec<u8>)
    ensures
        r@ == sha224_of(data@),
        r@.len() == 28,
{
    <sha2::Sha224 as digest::Digest>::digest(data).to_vec()
}

/// Relies on `sha2::Sha256` through `digest::Digest::digest`: the SHA-256
/// digest, 32 bytes long.
#[verifier::external_body]
fn sha256_digest(data: &[u8]) -> (r: Vec<u8>)
    ensures
        r@ == sha256_of(data@),
        r@.len() == 32,
{
    <sha2::Sha256 as digest::Digest>::digest(data).to_vec()
}

/// Relies on `sha2::Sha384` through `digest::Digest::digest`: the SHA-384
/// digest, 48 bytes long.
#[verifier::external_body]
fn sha384_digest(data: &[u8]) -> (r: Vec<u8>)
    ensures
        r@ == sha384_of(data@),
        r@.len() == 48,
{
    <sha2::Sha384 as digest::Digest>::digest(data).to_vec()
}

/// Relies on `sha2::Sha512` through `digest::Digest::digest`: the SHA-512
/// digest, 64 bytes long.
#[verifier::external_body]
fn sha512_digest(data: &[u8]) -> (r: Vec<u8>)
    ensures
        r@ == sha512_of(data@),
        r@.len() == 64,
{
    <sha2::Sha512 as digest::Digest>::digest(data).to_vec()
}

/// Relies on `sha2::Sha512_224` through `digest::Digest::digest`: the
/// SHA-512/224 digest, 28 bytes long.
#[verifier::external_body]
fn sha512_224_digest(data: &[u8]) -> (r: Vec<u8>)
    ensures
        r@ == sha512_224_of(data@),
        r@.len() == 28,
{
    <sha2::Sha512_224 as digest::Digest>::digest(data).to_vec()
}

/// Relies on `sha2::Sha512_256` through `digest::Digest::digest`: the
/// SHA-512/256 digest, 32 bytes long.
#[verifier::external_body]
fn sha512_256_digest(data: &[u8]) -> (r: Vec<u8>)
    ensures
        r@ == sha512_256_of(data@),
        r@.len() == 32,
{
    <sha2::Sha512_256 as digest::Digest>::digest(data).to_vec()
}

/// Relies on `sha3::Sha3_224` through `digest::Digest::digest`: the SHA3-224
/// digest, 28 bytes long.
#[verifier::external_body]
fn sha3_224_digest(data: &[u8]) -> (r: Vec<u8>)
    ensures
        r@ == sha3_224_of(data@),
        r@.len() == 28,
{
    <sha3::Sha3_224 as digest::Digest>::digest(data).to_vec()
}

/// Relies on `sha3::Sha3_256` through `digest::Digest::digest`: the SHA3-256
/// digest, 32 bytes long.
#[verifier::external_body]
fn sha3_256_digest(data: &[u8]) -> (r: Vec<u8>)
    ensures
        r@ == sha3_256_of(data@),
        r@.len() == 32,
{
    <sha3::Sha3_256 as digest::Digest>::digest(data).to_vec()
}

/// Relies on `sha3::Sha3_384` through `digest::Digest::digest`: the SHA3-384
/// digest, 48 bytes long.
#[verifier::external_body]
fn sha3_384_digest(data: &[u8]) -> (r: Vec<u8>)
    ensures
        r@ == sha3_384_of(data@),
        r@.len() == 48,
{
    <sha3::Sha3_384 as digest::Digest>::digest(data).to_vec()
}

/// Relies on `sha3::Sha3_512` through `digest::Digest::digest`: the SHA3-512
/// digest, 64 bytes long.
#[verifier::external_body]
fn sha3_512_digest(data: &[u8]) -> (r: Vec<u8>)
    ensures
        r@ == sha3_512_of(data@),
        r@.len() == 64,
{
    <sha3::Sha3_512 as digest::Digest>::digest(data).to_vec()
}

/// Relies on `blake3::hash`: the BLAKE3 digest, `blake3::OUT_LEN` (32) bytes
/// long.
#[verifier::external_body]
fn blake3_digest(data: &[u8]) -> (r: Vec<u8>)
    ensures
        r@ == blake3_of(data@),
        r@.len() == 32,
{
    blake3::hash(data).as_bytes().to_vec()
}

/// The digest of `data` under `alg`, or `None` when `alg` is not supported.
pub fn digest_bytes(alg: HashAlgorithms, data: &[u8]) -> (r: Option<Vec<u8>>)
    ensures
        r is Some <==> is_supported(alg),
        r matches Some(d) ==> d@ == digest_of(alg, data@) && d@.len() == digest_len(alg),
{
    match alg {
        HashAlgorithms::SHA224 => Some(sha224_digest(data)),
        HashAlgorithms::SHA256 => Some(sha256_digest(data)),
        HashAlgorithms::SHA384 => Some(sha384_digest(data)),
        HashAlgorithms::SHA512 => Some(sha512_digest(data)),
        HashAlgorithms::SHA512_224 => Some(sha512_224_digest(data)),
        HashAlgorithms::SHA512_256 => Some(sha512_256_digest(data)),
        HashAlgorithms::SHA3_224 => Some(sha3_224_digest(data)),
        HashAlgorithms::SHA3_256 => Some(sha3_256_digest(data)),
        HashAlgorithms::SHA3_384 => Some(sha3_384_digest(data)),
        HashAlgorithms::SHA3_512 => Some(sha3_512_digest(data)),
        HashAlgorithms::BLAKE3 => Some(blake3_digest(data)),
        HashAlgorithms::SHAKE128 | HashAlgorithms::SHAKE256 | HashAlgorithms::UNIMPLEMENTED => None,
    }
}

/// The sixteen lowercase hex digits, in order.
pub open spec fn hex_digits() -> Seq<char> {
    seq!['0', '1', '2', '3', '4', '5', '6', '7', '8', '9', 'a', 'b', 'c', 'd', 'e', 'f']
}

/// Each byte as two lowercase hex digits, high nibble first.
pub open spec fn hex_of(b: Seq<u8>) -> Seq<char>
    decreases b.len(),
{
    if b.len() == 0 {
        Seq::empty()
    } else {
        hex_of(b.drop_last()) + seq![
            hex_digits()[b.last() as int / 16],
            hex_digits()[b.last() as int % 16],
        ]
    }
}

pub proof fn lemma_hex_len(b: Seq<u8>)
    ensures
        hex_of(b).len() == 2 * b.len(),
    decreases b.len(),
{
    if b.len() > 0 {
        lemma_hex_len(b.drop_last());
    }
}

/// Writes bytes as lowercase hex, two digits per byte.
pub fn to_hex(b: &[u8]) -> (r: String)
    ensures
        r@ == hex_of(b@),
        r@.len() == 2 * b@.len(),
{
    let digits = "0123456789abcdef";
    proof {
        reveal_strlit("0123456789abcdef");
        assert(digits@ =~= hex_digits());
    }
    let mut out = String::new();
    let mut i: usize = 0;
    while i < b.len()
        invariant
            i <= b@.len(),
            digits@ == hex_digits(),
            out@ == hex_of(b@.subrange(0, i as int)),
        decreases b@.len() - i,
    {
        let hi = (b[i] / 16) as usize;
        let lo = (b[i] % 16) as usize;
        let ghost before = out@;
        out.append(digits.substring_char(hi, hi + 1));
        out.append(digits.substring_char(lo, lo + 1));
        proof {
            let s = b@.subrange(0, i + 1);
            assert(s.drop_last() =~= b@.subrange(0, i as int));
            assert(out@ =~= hex_of(s));
        }
        i = i + 1;
    }
    proof {
        assert(b@.subrange(0, b@.len() as int) =~= b@);
        lemma_hex_len(b@);
    }
    out
}

/// The lowercase hex digest of `data` under `alg`, or `NotImplemented` when
/// `alg` is not supported.
pub fn hash_contents(alg: HashAlgorithms, data: &[u8]) -> (r: Result<String, HashError>)
    ensures
        is_supported(alg) ==> (r matches Ok(h) && h@ == hex_of(digest_of(alg, data@))
            && h@.len() == 2 * digest_len(alg)),
        !is_supported(alg) ==> r matches Err(HashError::NotImplemented),
{
    match digest_bytes(alg, data) {
        Some(d) => Ok(to_hex(d.as_slice())),
        None => Err(HashError::NotImplemented),
    }
}

} // verus!
