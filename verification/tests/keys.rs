use judge_slave::keys::{EphemeralSecret, PublicKey};
use k256::elliptic_curve::sec1::ToEncodedPoint;

fn bytes(hex: &str) -> Vec<u8> {
    let mut out = Vec::new();
    let mut i = 0;
    while i < hex.len() {
        out.push(u8::from_str_radix(&hex[i..i + 2], 16).unwrap());
        i += 2;
    }
    out
}

const COMPRESSED_BASE: &str = "0279be667ef9dcbbac55a06295ce870b07029bfcdb2dce28d959f2815b16f81798";
const BASE: &str = "0479be667ef9dcbbac55a06295ce870b07029bfcdb2dce28d959f2815b16f81798\
483ada7726a3c4655da4fbfc0e1108a8fd17b448a68554199c47d08ffb10d4b8";

#[test]
fn both_encodings_of_a_point_are_one_key() {
    let compressed = PublicKey::from_sec1_bytes(&bytes(COMPRESSED_BASE)).unwrap();
    let uncompressed = PublicKey::from_sec1_bytes(&bytes(BASE)).unwrap();
    assert_eq!(compressed, uncompressed);
    assert_eq!(compressed.as_bytes(), &bytes(COMPRESSED_BASE)[..]);
    assert_eq!(uncompressed.as_bytes(), &bytes(COMPRESSED_BASE)[..]);
}

#[test]
fn bytes_that_encode_no_point_are_no_key() {
    assert!(PublicKey::from_sec1_bytes(&[]).is_none());
    assert!(PublicKey::from_sec1_bytes(&[0]).is_none());
    let mut truncated = bytes(COMPRESSED_BASE);
    truncated.pop();
    assert!(PublicKey::from_sec1_bytes(&truncated).is_none());
    let mut off_the_curve = bytes(BASE);
    off_the_curve[64] ^= 1;
    assert!(PublicKey::from_sec1_bytes(&off_the_curve).is_none());
}

#[test]
fn key_bytes_decode_to_the_key() {
    let key = EphemeralSecret::random().public_key();
    assert_eq!(key.as_bytes().len(), 33);
    assert_eq!(PublicKey::from_sec1_bytes(key.as_bytes()).unwrap(), key);
}

#[test]
fn secrets_are_drawn_anew() {
    let a = EphemeralSecret::random();
    let b = EphemeralSecret::random();
    assert_ne!(a.public_key(), b.public_key());
    assert_eq!(a.public_key(), a.public_key());
}

#[test]
fn exchange_with_the_base_point_gives_the_own_coordinate() {
    let secret = EphemeralSecret::random();
    let base = PublicKey::from_sec1_bytes(&bytes(BASE)).unwrap();
    let shared = secret.diffie_hellman(&base);
    assert_eq!(&shared.raw_secret_bytes()[..], &secret.public_key().as_bytes()[1..]);
}

#[test]
fn both_sides_share_one_secret() {
    let secret = EphemeralSecret::random();
    let master = k256::ecdh::EphemeralSecret::random(rand::thread_rng());
    let master_key =
        PublicKey::from_sec1_bytes(master.public_key().to_encoded_point(false).as_bytes()).unwrap();
    let own_key = k256::PublicKey::from_sec1_bytes(secret.public_key().as_bytes()).unwrap();
    let ours = secret.diffie_hellman(&master_key);
    let theirs = master.diffie_hellman(&own_key);
    assert_eq!(&ours.raw_secret_bytes()[..], &theirs.raw_secret_bytes()[..]);
    let other = EphemeralSecret::random();
    assert_ne!(other.diffie_hellman(&master_key), ours);
}
