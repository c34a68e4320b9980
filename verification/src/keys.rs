//! Accounts, the keys that own them, and signatures.

use vstd::prelude::*;

verus! {

/// The x-coordinate of a public key, which names an account.
#[derive(Debug, Clone, Copy, PartialEq, Eq, Hash)]
pub struct XOnlyPublicKey {
    pub bytes: [u8; 32],
}

/// The x-coordinate of the public key of a secret key, as `secp256k1_zkp` computes it, or
/// `None` for bytes that are no secret key.
pub uninterp spec fn x_only_public_key(secret: Seq<u8>) -> Option<Seq<u8>>;

/// The SHA-256 digest of `data`.
pub uninterp spec fn sha256(data: Seq<u8>) -> Seq<u8>;

/// The Schnorr signature of a 32-byte message under a secret key, as
/// `sign_schnorr_with_aux_rand` of `secp256k1_zkp` makes it with 32 bytes of auxiliary
/// randomness.
pub uninterp spec fn schnorr_signature(
    message: Seq<u8>,
    secret: Seq<u8>,
    aux_rand: Seq<u8>,
) -> Seq<u8>;

/// `signature` is one that signing `message` with `secret` can give.
pub open spec fn is_schnorr_signature(
    signature: Seq<u8>,
    message: Seq<u8>,
    secret: Seq<u8>,
) -> bool {
    exists|aux_rand: [u8; 32]|
        signature == #[trigger] schnorr_signature(message, secret, aux_rand@)
}

/// Trusted: `secp256k1_zkp::KeyPair::from_seckey_slice`, and `x_only_public_key` of what it
/// gives, serialised. The claim is that the outcome depends on the secret alone.
#[verifier::external_body]
fn derive_x_only_public_key(secret: &[u8; 32]) -> (public: Option<[u8; 32]>)
    ensures
        public is Some <==> x_only_public_key(secret@) is Some,
        public matches Some(p) ==> x_only_public_key(secret@) == Some(p@),
{
    let secp = secp256k1_zkp::Secp256k1::signing_only();
    let pair = secp256k1_zkp::KeyPair::from_seckey_slice(&secp, secret).ok()?;
    Some(pair.x_only_public_key().0.serialize())
}

/// Trusted: `bitcoin::hashes::sha256::Hash::hash`. The claim is that the digest depends on
/// the data alone.
#[verifier::external_body]
pub(crate) fn sha256_digest(data: &[u8]) -> (digest: [u8; 32])
    ensures
        digest@ == sha256(data@),
{
    let hash: bitcoin::hashes::sha256::Hash = bitcoin::hashes::Hash::hash(data);
    bitcoin::hashes::Hash::into_inner(hash)
}

/// Trusted: `sign_schnorr` of a `secp256k1_zkp::Secp256k1` context. It draws 32 bytes of
/// auxiliary randomness and signs with them; the claim is that the signature is the one
/// that belongs to the message, the secret and some such bytes. The secret has to be one
/// that `from_seckey_slice` takes.
#[verifier::external_body]
fn sign_schnorr(message: &[u8; 32], secret: &[u8; 32]) -> (signature: [u8; 64])
    requires
        x_only_public_key(secret@) is Some,
    ensures
        exists|aux_rand: [u8; 32]|
            signature@ == #[trigger] schnorr_signature(message@, secret@, aux_rand@),
{
    let secp = secp256k1_zkp::Secp256k1::signing_only();
    let pair = secp256k1_zkp::KeyPair::from_seckey_slice(&secp, secret).unwrap();
    let message = secp256k1_zkp::Message::from_slice(message).unwrap();
    *secp.sign_schnorr(&message, &pair).as_ref()
}

/// A secret key, with its public key.
pub struct KeyPair {
    secret: [u8; 32],
    public: [u8; 32],
}

impl KeyPair {
    #[verifier::type_invariant]
    spec fn wf(self) -> bool {
        x_only_public_key(self.secret@) == Some(self.public@)
    }

    /// The secret key.
    pub closed spec fn secret(self) -> Seq<u8> {
        self.secret@
    }

    /// The key pair of a secret key, or `None` for bytes that are no secret key.
    pub fn from_secret(secret: [u8; 32]) -> (pair: Option<KeyPair>)
        ensures
            pair is Some <==> x_only_public_key(secret@) is Some,
            pair matches Some(p) ==> p.secret() == secret@,
    {
        match derive_x_only_public_key(&secret) {
            Some(public) => Some(KeyPair { secret, public }),
            None => None,
        }
    }

    /// The account that the key owns.
    pub fn x_only_public_key(&self) -> (account: XOnlyPublicKey)
        ensures
            x_only_public_key(self.secret()) == Some(account.bytes@),
    {
        proof {
            use_type_invariant(self);
        }
        XOnlyPublicKey { bytes: self.public }
    }

    /// Signs a digest.
    pub fn sign_schnorr(&self, digest: &[u8; 32]) -> (signature: [u8; 64])
        ensures
            is_schnorr_signature(signature@, digest@, self.secret()),
    {
        proof {
            use_type_invariant(self);
        }
        sign_schnorr(digest, &self.secret)
    }
}

/// A signature is one of a message under a secret key exactly if signing that message with
/// that key gives it, for some auxiliary randomness.
pub proof fn law_signatures_belong_to_message_and_key(
    signature: Seq<u8>,
    message: Seq<u8>,
    secret: Seq<u8>,
)
    ensures
        is_schnorr_signature(signature, message, secret) <==> exists|aux_rand: [u8; 32]|
            signature == #[trigger] schnorr_signature(message, secret, aux_rand@),
{
}

} // verus!
