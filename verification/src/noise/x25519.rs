//! Public keys of Curve25519.

use vstd::prelude::*;
use x25519_dalek::{PublicKey, StaticSecret};

verus! {

/// The public key that belongs to a private key, as the crate `x25519_dalek` computes it.
pub uninterp spec fn x25519_public_key(static_private: Seq<u8>) -> Seq<u8>;

/// `PublicKey::from`, of a `StaticSecret`: the public key of a private key. It depends on the 32
/// bytes of the private key alone; the contract names it and says nothing else of it.
#[verifier::external_body]
pub(crate) fn public_key(static_private: [u8; 32]) -> (static_public: [u8; 32])
    ensures
        static_public@ == x25519_public_key(static_private@),
{
    PublicKey::from(&StaticSecret::from(static_private)).to_bytes()
}

} // verus!
