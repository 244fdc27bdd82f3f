//! Elliptic curve Diffie-Hellman over secp256k1, as a session uses it.
//!
//! A secret is held as its 32 big endian bytes, a public key as the compressed
//! SEC1 encoding of its point, a shared secret as the 32 bytes of an
//! x-coordinate. The curve arithmetic itself is `k256`'s.
use k256::elliptic_curve::sec1::ToEncodedPoint;
use vstd::prelude::*;

verus! {

/// The number that `bytes` spell, most significant byte first.
pub open spec fn be_value(bytes: Seq<u8>) -> nat
    decreases bytes.len(),
{
    if bytes.len() == 0 {
        0
    } else {
        be_value(bytes.drop_last()) * 256 + bytes.last() as nat
    }
}

/// The order of the secp256k1 group.
pub open spec fn group_order() -> nat {
    0xFFFF_FFFF_FFFF_FFFF_FFFF_FFFF_FFFF_FFFE_BAAE_DCE6_AF48_A03B_BFD2_5E8C_D036_4141nat
}

/// The 32 bytes of a scalar that can serve as a secret: neither zero nor beyond
/// the group order.
pub open spec fn is_secret_scalar(bytes: Seq<u8>) -> bool {
    bytes.len() == 32 && 0 < be_value(bytes) < group_order()
}

/// The compressed SEC1 encoding of the public key that belongs to a secret.
pub uninterp spec fn public_key_of(secret: Seq<u8>) -> Seq<u8>;

/// The compressed SEC1 encoding of the point that `bytes` encode, or `None`
/// where they encode no point, or the identity, which is no key.
pub uninterp spec fn sec1_point(bytes: Seq<u8>) -> Option<Seq<u8>>;

/// The Diffie-Hellman secret that a secret and the public key of a peer give.
pub uninterp spec fn shared_secret_of(secret: Seq<u8>, peer: Seq<u8>) -> Seq<u8>;

/// Calls `k256::SecretKey::random` with `rand::thread_rng`. Whichever scalar is
/// drawn is at least one and below the group order; how likely each is, is left
/// unsaid.
#[verifier::external_body]
fn k256_random() -> (secret: [u8; 32])
    ensures
        is_secret_scalar(secret@),
{
    k256::SecretKey::random(rand::thread_rng()).to_be_bytes().into()
}

/// Calls `k256::SecretKey::public_key`. The result is a function of the secret,
/// and is the compressed encoding of a point, so that decoding it and encoding
/// it again changes nothing.
#[verifier::external_body]
fn k256_public_key(secret: &[u8; 32]) -> (point: Vec<u8>)
    requires
        is_secret_scalar(secret@),
    ensures
        point@ == public_key_of(secret@),
        sec1_point(point@) == Some(point@),
{
    let key = k256::SecretKey::from_be_bytes(secret).unwrap();
    key.public_key().to_encoded_point(true).as_bytes().to_vec()
}

/// Calls `k256::PublicKey::from_sec1_bytes` and compresses the point. The result
/// is a function of the bytes; a compressed point decodes to itself.
#[verifier::external_body]
fn k256_from_sec1_bytes(bytes: &[u8]) -> (point: Option<Vec<u8>>)
    ensures
        point is Some <==> sec1_point(bytes@) is Some,
        point matches Some(p) ==> sec1_point(bytes@) == Some(p@) && sec1_point(p@) == Some(p@),
{
    match k256::PublicKey::from_sec1_bytes(bytes) {
        Ok(key) => Some(key.to_encoded_point(true).as_bytes().to_vec()),
        Err(_) => None,
    }
}

/// Calls `k256::ecdh::diffie_hellman`. The result is a function of the secret
/// and the peer's point, and the two sides of an exchange get the same one: the
/// owner of the peer's key computes it from this side's public key.
#[verifier::external_body]
fn k256_diffie_hellman(secret: &[u8; 32], peer: &Vec<u8>) -> (shared: [u8; 32])
    requires
        is_secret_scalar(secret@),
        sec1_point(peer@) == Some(peer@),
    ensures
        shared@ == shared_secret_of(secret@, peer@),
        forall|other: Seq<u8>|
            is_secret_scalar(other) && #[trigger] public_key_of(other) == peer@ ==> shared@
                == shared_secret_of(other, public_key_of(secret@)),
{
    let key = k256::SecretKey::from_be_bytes(secret).unwrap();
    let point = k256::PublicKey::from_sec1_bytes(peer).unwrap();
    let shared = k256::ecdh::diffie_hellman(key.to_nonzero_scalar(), point.as_affine());
    (*shared.raw_secret_bytes()).into()
}

/// A public key of the curve. Its view is the compressed SEC1 encoding.
#[derive(Debug, PartialEq, Eq)]
pub struct PublicKey {
    point: Vec<u8>,
}

impl View for PublicKey {
    type V = Seq<u8>;

    closed spec fn view(&self) -> Seq<u8> {
        self.point@
    }
}

impl PublicKey {
    #[verifier::type_invariant]
    spec fn well_formed(self) -> bool {
        sec1_point(self.point@) == Some(self.point@)
    }

    /// Decodes a public key from its SEC1 encoding, compressed or not.
    pub fn from_sec1_bytes(bytes: &[u8]) -> (key: Option<PublicKey>)
        ensures
            key is Some <==> sec1_point(bytes@) is Some,
            key matches Some(k) ==> sec1_point(bytes@) == Some(k@),
    {
        match k256_from_sec1_bytes(bytes) {
            Some(point) => Some(PublicKey { point }),
            None => None,
        }
    }

    /// The compressed SEC1 encoding, which decodes to this very key.
    pub fn as_bytes(&self) -> (bytes: &[u8])
        ensures
            bytes@ == self@,
            sec1_point(bytes@) == Some(self@),
    {
        proof {
            use_type_invariant(self);
        }
        self.point.as_slice()
    }
}

/// What a Diffie-Hellman exchange gives both of its sides.
#[derive(Clone, Copy, Debug, PartialEq, Eq)]
pub struct SharedSecret {
    bytes: [u8; 32],
}

impl View for SharedSecret {
    type V = Seq<u8>;

    closed spec fn view(&self) -> Seq<u8> {
        self.bytes@
    }
}

impl SharedSecret {
    /// The x-coordinate of the point that the exchange computed.
    pub fn raw_secret_bytes(&self) -> (bytes: &[u8; 32])
        ensures
            bytes@ == self@,
    {
        &self.bytes
    }
}

/// The secret of one side of one exchange. It never leaves this type.
pub struct EphemeralSecret {
    scalar: [u8; 32],
}

impl View for EphemeralSecret {
    type V = Seq<u8>;

    closed spec fn view(&self) -> Seq<u8> {
        self.scalar@
    }
}

impl EphemeralSecret {
    #[verifier::type_invariant]
    spec fn well_formed(self) -> bool {
        is_secret_scalar(self.scalar@)
    }

    /// Draws a secret at random.
    pub fn random() -> (secret: EphemeralSecret)
        ensures
            is_secret_scalar(secret@),
    {
        EphemeralSecret { scalar: k256_random() }
    }

    /// The public key that belongs to this secret.
    pub fn public_key(&self) -> (key: PublicKey)
        ensures
            key@ == public_key_of(self@),
    {
        proof {
            use_type_invariant(self);
        }
        PublicKey { point: k256_public_key(&self.scalar) }
    }

    /// The secret shared with the owner of `peer`, who computes the same one from
    /// their secret and this side's public key.
    pub fn diffie_hellman(&self, peer: &PublicKey) -> (shared: SharedSecret)
        ensures
            shared@ == shared_secret_of(self@, peer@),
            forall|other: Seq<u8>|
                is_secret_scalar(other) && #[trigger] public_key_of(other) == peer@ ==> shared@
                    == shared_secret_of(other, public_key_of(self@)),
    {
        proof {
            use_type_invariant(self);
            use_type_invariant(peer);
        }
        SharedSecret { bytes: k256_diffie_hellman(&self.scalar, &peer.point) }
    }
}

} // verus!
