//! The libsodium primitives the responses are built from: key and nonce
//! sizes, key generation, SHA-256 and secret-key authenticated encryption.
//!
//! Keys, nonces and digests are held as plain byte arrays; each function
//! here hands its arguments to `sodiumoxide` and returns the bytes it got back.

use sodiumoxide::crypto::box_;
use sodiumoxide::crypto::hash::sha256;
use sodiumoxide::crypto::secretbox;
use sodiumoxide::crypto::sign;
use vstd::prelude::*;

verus! {

/// Number of bytes in a signing public key.
pub const SIGN_PUBLIC_KEY_BYTES: usize = 32;

/// Number of bytes in a signing secret key.
pub const SIGN_SECRET_KEY_BYTES: usize = 64;

/// Number of bytes in an encryption (box) public key.
pub const BOX_PUBLIC_KEY_BYTES: usize = 32;

/// Number of bytes in an encryption (box) secret key.
pub const BOX_SECRET_KEY_BYTES: usize = 32;

/// Number of bytes in a symmetric (secretbox) key.
pub const KEYBYTES: usize = 32;

/// Number of bytes in a symmetric (secretbox) nonce.
pub const NONCEBYTES: usize = 24;

/// Number of bytes by which a sealed message is longer than the message.
pub const MACBYTES: usize = 16;

/// Number of bytes in a SHA-256 digest.
pub const DIGESTBYTES: usize = 32;

/// The SHA-256 digest of a message.
pub uninterp spec fn spec_sha256(m: Seq<u8>) -> Seq<u8>;

/// The ciphertext that XSalsa20-Poly1305 gives for message `m`, nonce `n`
/// and key `k`.
pub uninterp spec fn spec_secretbox_seal(m: Seq<u8>, n: Seq<u8>, k: Seq<u8>) -> Seq<u8>;

/// The Curve25519 public key of secret key `sk`: `sk` times the base point.
pub uninterp spec fn spec_curve25519_base(sk: Seq<u8>) -> Seq<u8>;

/// The Ed25519 public key of a 32-byte seed: the clamped SHA-512 of the seed
/// times the base point.
pub uninterp spec fn spec_ed25519_public_key(seed: Seq<u8>) -> Seq<u8>;

/// `sodiumoxide::crypto::hash::sha256::hash`: claimed to return the bytes of
/// the digest of `m`, a function of `m` alone.
#[verifier::external_body]
pub(crate) fn sha256_hash(m: &[u8]) -> (d: [u8; DIGESTBYTES])
    ensures
        d@ == spec_sha256(m@),
{
    sha256::hash(m).0
}

/// `sodiumoxide::crypto::secretbox::seal`: claimed to return the ciphertext
/// of `m` under nonce `n` and key `k`, a function of the three alone, whose
/// length is that of `m` plus `MACBYTES` (the source allocates exactly that).
#[verifier::external_body]
pub(crate) fn secretbox_seal(m: &[u8], n: &[u8; NONCEBYTES], k: &[u8; KEYBYTES]) -> (c: Vec<u8>)
    requires
        m@.len() + MACBYTES <= usize::MAX,
    ensures
        c@ == spec_secretbox_seal(m@, n@, k@),
        c@.len() == m@.len() + MACBYTES,
{
    secretbox::seal(m, &secretbox::Nonce(*n), &secretbox::Key(*k))
}

/// `sodiumoxide::crypto::secretbox::Nonce::from_slice`: claimed to return a
/// nonce holding exactly the bytes of `bs` when `bs` has `NONCEBYTES` bytes,
/// and `None` otherwise (the source checks the length and copies).
#[verifier::external_body]
pub(crate) fn nonce_from_slice(bs: &[u8]) -> (r: Option<[u8; NONCEBYTES]>)
    ensures
        r is Some <==> bs@.len() == NONCEBYTES,
        r matches Some(n) ==> n@ == bs@,
{
    secretbox::Nonce::from_slice(bs).map(|n| n.0)
}

/// `sodiumoxide::crypto::sign::gen_keypair`: a random signing key pair,
/// public key first. Claimed: the first half of the secret key is a seed
/// whose Ed25519 public key is the public key, and the second half is the
/// public key (libsodium's `crypto_sign_ed25519_seed_keypair` derives the
/// public key from the seed and copies both into the secret key). The random
/// seed itself is left unsaid.
#[verifier::external_body]
pub(crate) fn sign_gen_keypair() -> (kp: ([u8; SIGN_PUBLIC_KEY_BYTES], [u8; SIGN_SECRET_KEY_BYTES]))
    ensures
        kp.0@ == spec_ed25519_public_key(kp.1@.subrange(0, 32)),
        kp.1@.subrange(32, 64) == kp.0@,
{
    let (pk, sk) = sign::gen_keypair();
    (pk.0, sk.0)
}

/// `sodiumoxide::crypto::box_::gen_keypair`: a random encryption key pair,
/// public key first. Claimed: the public key is the Curve25519 base-point
/// multiple of the secret key (libsodium's
/// `crypto_box_curve25519xsalsa20poly1305_keypair` computes it so). The random
/// secret key itself is left unsaid.
#[verifier::external_body]
pub(crate) fn box_gen_keypair() -> (kp: ([u8; BOX_PUBLIC_KEY_BYTES], [u8; BOX_SECRET_KEY_BYTES]))
    ensures
        kp.0@ == spec_curve25519_base(kp.1@),
{
    let (pk, sk) = box_::gen_keypair();
    (pk.0, sk.0)
}

/// `sodiumoxide::crypto::secretbox::gen_key`: a random symmetric key.
/// Nothing is claimed of the bytes: they are random.
#[verifier::external_body]
pub(crate) fn secretbox_gen_key() -> (k: [u8; KEYBYTES]) {
    secretbox::gen_key().0
}

} // verus!
