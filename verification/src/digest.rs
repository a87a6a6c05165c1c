//! Key derivation and the challenge-response computation, both built on
//! SHA-256.

use rand::RngCore;
use sha2::Digest;
use vstd::prelude::*;

verus! {

/// Length in bytes of a digest, of a symmetric key, of a challenge and of a
/// response.
pub const DIGEST_LEN: usize = 32;

/// The SHA-256 digest of `data`.
pub uninterp spec fn sha256(data: Seq<u8>) -> Seq<u8>;

/// The symmetric key that belongs to a password.
pub open spec fn key_of(password: Seq<u8>) -> Seq<u8> {
    sha256(password)
}

/// The response that proves knowledge of `password` for `challenge`.
pub open spec fn response_of(password: Seq<u8>, challenge: Seq<u8>) -> Seq<u8> {
    sha256(password + challenge)
}

/// Whether `response` authenticates a peer for `password` and `challenge`.
pub open spec fn accepts(password: Seq<u8>, challenge: Seq<u8>, response: Seq<u8>) -> bool {
    response == response_of(password, challenge)
}

/// `bytes` with bit number `bit` of the byte at `index` inverted.
pub open spec fn flip_bit(bytes: Seq<u8>, index: int, bit: u8) -> Seq<u8> {
    bytes.update(index, bytes[index] ^ (1u8 << bit))
}

/// Calls `sha2::Sha256::digest`, which hashes the whole input in one go.
/// Trusted: the 32 bytes returned are the SHA-256 digest of `data`.
#[verifier::external_body]
fn sha256_digest(data: &[u8]) -> (out: [u8; 32])
    ensures
        out@ == sha256(data@),
{
    sha2::Sha256::digest(data).into()
}

/// Draws 32 bytes from `rand::rng()`, the thread-local generator, with
/// `fill_bytes`. Nothing is promised about the bytes: every call may return
/// something else.
#[verifier::external_body]
pub fn challenge() -> (data: [u8; 32]) {
    let mut data = [0u8; 32];
    rand::rng().fill_bytes(&mut data);
    data
}

/// `a` followed by `b`.
pub fn join(a: &[u8], b: &[u8]) -> (out: Vec<u8>)
    ensures
        out@ == a@ + b@,
{
    let mut out: Vec<u8> = Vec::new();
    let mut i: usize = 0;
    while i < a.len()
        invariant
            i <= a.len(),
            out@ == a@.take(i as int),
        decreases a.len() - i,
    {
        out.push(a[i]);
        i += 1;
        assert(out@ =~= a@.take(i as int));
    }
    assert(a@.take(a.len() as int) =~= a@);
    let mut j: usize = 0;
    while j < b.len()
        invariant
            j <= b.len(),
            out@ == a@ + b@.take(j as int),
        decreases b.len() - j,
    {
        out.push(b[j]);
        j += 1;
        assert(out@ =~= a@ + b@.take(j as int));
    }
    assert(b@.take(b.len() as int) =~= b@);
    out
}

/// Whether two byte strings are equal, byte for byte.
pub fn bytes_equal(a: &[u8], b: &[u8]) -> (same: bool)
    ensures
        same == (a@ == b@),
{
    if a.len() != b.len() {
        return false;
    }
    let mut i: usize = 0;
    while i < a.len()
        invariant
            a.len() == b.len(),
            i <= a.len(),
            a@.take(i as int) == b@.take(i as int),
        decreases a.len() - i,
    {
        if a[i] != b[i] {
            return false;
        }
        i += 1;
        assert(a@.take(i as int) =~= a@.take(i - 1).push(a@[i - 1]));
        assert(b@.take(i as int) =~= b@.take(i - 1).push(b@[i - 1]));
    }
    assert(a@.take(a.len() as int) =~= a@);
    assert(b@.take(b.len() as int) =~= b@);
    true
}

/// Derives the symmetric key from the shared password. Both peers compute it
/// on their own; it never travels.
pub fn derive_key(password: &[u8]) -> (key: [u8; 32])
    ensures
        key@ == key_of(password@),
{
    sha256_digest(password)
}

/// The response an initiator owes for `challenge`.
pub fn respond(password: &[u8], challenge: &[u8]) -> (response: [u8; 32])
    ensures
        response@ == response_of(password@, challenge@),
{
    let message = join(password, challenge);
    sha256_digest(message.as_slice())
}

/// Decides whether `response` authenticates the peer: it does exactly when it
/// equals the digest of the password followed by the challenge.
pub fn verify(password: &[u8], challenge: &[u8], response: &[u8]) -> (ok: bool)
    ensures
        ok == accepts(password@, challenge@, response@),
{
    let expected = respond(password, challenge);
    bytes_equal(response, expected.as_slice())
}

/// Inverting one bit of a byte string gives a different byte string.
pub proof fn lemma_flip_bit_differs(bytes: Seq<u8>, index: int, bit: u8)
    requires
        0 <= index < bytes.len(),
        bit < 8,
    ensures
        flip_bit(bytes, index, bit) != bytes,
{
    let b = bytes[index];
    assert((b ^ (1u8 << bit)) != b) by (bit_vector)
        requires
            bit < 8,
    ;
    assert(flip_bit(bytes, index, bit)[index] != bytes[index]);
}

/// At most one response is accepted for a password and a challenge, so a
/// response that differs from an accepted one in a single bit is rejected.
pub proof fn lemma_mutated_response_rejected(
    password: Seq<u8>,
    challenge: Seq<u8>,
    response: Seq<u8>,
    index: int,
    bit: u8,
)
    requires
        accepts(password, challenge, response),
        0 <= index < response.len(),
        bit < 8,
    ensures
        !accepts(password, challenge, flip_bit(response, index, bit)),
{
    lemma_flip_bit_differs(response, index, bit);
}

} // verus!
