//! The cryptographic primitives the stack calls: AES-CMAC, AES-CCM, P-256
//! key agreement and the operating system's random numbers.

use vstd::prelude::*;
use cmac::Mac;
use ccm::aead::{AeadInPlace, KeyInit};
use p256::elliptic_curve::sec1::{FromEncodedPoint, ToEncodedPoint};

verus! {

/// The AES-128 CMAC of `msg` under `key`.
pub uninterp spec fn cmac_aes128(key: Seq<u8>, msg: Seq<u8>) -> Seq<u8>;

/// Calls the `cmac` crate's `Cmac<Aes128>`: keyed with the 16-byte `key`,
/// updated with `msg`, finalized. The contract only names the 16-byte tag as
/// `cmac_aes128` of the key and message bytes; AES-CMAC itself is not stated.
#[verifier::external_body]
pub(crate) fn aes_cmac(key: &[u8; 16], msg: &[u8]) -> (r: [u8; 16])
    ensures
        r@ == cmac_aes128(key@, msg@),
{
    let mut mac = <cmac::Cmac<aes::Aes128> as cmac::Mac>::new_from_slice(key).unwrap();
    mac.update(msg);
    mac.finalize().into_bytes().into()
}

/// AES-128-CCM encryption with a 13-byte nonce and a 4-byte tag: the
/// ciphertext and the tag.
pub uninterp spec fn ccm_seal32(key: Seq<u8>, nonce: Seq<u8>, aad: Seq<u8>, msg: Seq<u8>) -> (Seq<u8>, Seq<u8>);

/// AES-128-CCM decryption with a 13-byte nonce and a 4-byte tag: the
/// plaintext, or nothing where the tag does not match.
pub uninterp spec fn ccm_open32(key: Seq<u8>, nonce: Seq<u8>, aad: Seq<u8>, ct: Seq<u8>, tag: Seq<u8>) -> Option<Seq<u8>>;

/// AES-128-CCM decryption with a 13-byte nonce and an 8-byte tag.
pub uninterp spec fn ccm_open64(key: Seq<u8>, nonce: Seq<u8>, aad: Seq<u8>, ct: Seq<u8>, tag: Seq<u8>) -> Option<Seq<u8>>;

/// Calls `encrypt_in_place_detached` of the `ccm` crate's
/// `Ccm<Aes128, U4, U13>` on a copy of `msg`. The crate fails only where the
/// message is longer than the 13-byte nonce allows (65535 bytes); otherwise the
/// ciphertext, as long as the message, and the 4-byte tag are named by
/// `ccm_seal32`, and decrypting them under the same key, nonce and associated
/// data gives the message back (the crate applies the same keystream and
/// recomputes the same MAC). The cipher itself is not stated.
#[verifier::external_body]
pub(crate) fn ccm_encrypt32(key: &[u8; 16], nonce: &[u8; 13], aad: &[u8], msg: &[u8]) -> (r: Option<(Vec<u8>, [u8; 4])>)
    ensures
        msg@.len() <= 65535 <==> r is Some,
        r matches Some((c, t)) ==> (c@, t@) == ccm_seal32(key@, nonce@, aad@, msg@) && c@.len() == msg@.len(),
        r matches Some((c, t)) ==> ccm_open32(key@, nonce@, aad@, c@, t@) == Some(msg@),
{
    let cipher = ccm::Ccm::<aes::Aes128, ccm::consts::U4, ccm::consts::U13>::new(key.into());
    let mut buf = msg.to_vec();
    match cipher.encrypt_in_place_detached(nonce.into(), aad, &mut buf) {
        Ok(tag) => Some((buf, tag.into())),
        Err(_) => None,
    }
}

/// Calls `decrypt_in_place_detached` of the `ccm` crate's
/// `Ccm<Aes128, U4, U13>` on a copy of `ct`: the plaintext, as long as `ct`,
/// where the tag matches, named by `ccm_open32`. The cipher itself is not
/// stated.
#[verifier::external_body]
pub(crate) fn ccm_decrypt32(key: &[u8; 16], nonce: &[u8; 13], aad: &[u8], ct: &[u8], tag: &[u8; 4]) -> (r: Option<Vec<u8>>)
    ensures
        match r {
            Some(p) => ccm_open32(key@, nonce@, aad@, ct@, tag@) == Some(p@) && p@.len() == ct@.len(),
            None => ccm_open32(key@, nonce@, aad@, ct@, tag@) is None,
        },
{
    let cipher = ccm::Ccm::<aes::Aes128, ccm::consts::U4, ccm::consts::U13>::new(key.into());
    let mut buf = ct.to_vec();
    match cipher.decrypt_in_place_detached(nonce.into(), aad, &mut buf, tag.into()) {
        Ok(()) => Some(buf),
        Err(_) => None,
    }
}

/// AES-128-CCM encryption with a 13-byte nonce and an 8-byte tag: the
/// ciphertext and the tag.
pub uninterp spec fn ccm_seal64(key: Seq<u8>, nonce: Seq<u8>, aad: Seq<u8>, msg: Seq<u8>) -> (Seq<u8>, Seq<u8>);

/// Calls `encrypt_in_place_detached` of the `ccm` crate's
/// `Ccm<Aes128, U8, U13>` on a copy of `msg`. The crate fails only where the
/// message is longer than the 13-byte nonce allows (65535 bytes); otherwise the
/// ciphertext, as long as the message, and the 8-byte tag are named by
/// `ccm_seal64`, and decrypting them under the same key, nonce and associated
/// data gives the message back (the crate applies the same keystream and
/// recomputes the same MAC). The cipher itself is not stated.
#[verifier::external_body]
pub(crate) fn ccm_encrypt64(key: &[u8; 16], nonce: &[u8; 13], aad: &[u8], msg: &[u8]) -> (r: Option<(Vec<u8>, [u8; 8])>)
    ensures
        msg@.len() <= 65535 <==> r is Some,
        r matches Some((c, t)) ==> (c@, t@) == ccm_seal64(key@, nonce@, aad@, msg@) && c@.len() == msg@.len(),
        r matches Some((c, t)) ==> ccm_open64(key@, nonce@, aad@, c@, t@) == Some(msg@),
{
    let cipher = ccm::Ccm::<aes::Aes128, ccm::consts::U8, ccm::consts::U13>::new(key.into());
    let mut buf = msg.to_vec();
    match cipher.encrypt_in_place_detached(nonce.into(), aad, &mut buf) {
        Ok(tag) => Some((buf, tag.into())),
        Err(_) => None,
    }
}

/// Calls `decrypt_in_place_detached` of the `ccm` crate's
/// `Ccm<Aes128, U8, U13>` on a copy of `ct`: the plaintext, as long as `ct`,
/// where the tag matches, named by `ccm_open64`. The cipher itself is not
/// stated.
#[verifier::external_body]
pub(crate) fn ccm_decrypt64(key: &[u8; 16], nonce: &[u8; 13], aad: &[u8], ct: &[u8], tag: &[u8; 8]) -> (r: Option<Vec<u8>>)
    ensures
        match r {
            Some(p) => ccm_open64(key@, nonce@, aad@, ct@, tag@) == Some(p@) && p@.len() == ct@.len(),
            None => ccm_open64(key@, nonce@, aad@, ct@, tag@) is None,
        },
{
    let cipher = ccm::Ccm::<aes::Aes128, ccm::consts::U8, ccm::consts::U13>::new(key.into());
    let mut buf = ct.to_vec();
    match cipher.decrypt_in_place_detached(nonce.into(), aad, &mut buf, tag.into()) {
        Ok(()) => Some(buf),
        Err(_) => None,
    }
}

/// Whether `p256` accepts the coordinates `(x, y)` as a public key: a point
/// of the curve.
pub uninterp spec fn p256_accepts(x: Seq<u8>, y: Seq<u8>) -> bool;

/// Whether `p256::SecretKey::from_bytes` accepts the 32 bytes as a private
/// key: a nonzero scalar below the order of the curve.
pub uninterp spec fn p256_secret_accepts(secret: Seq<u8>) -> bool;

/// The secret that `p256::ecdh::diffie_hellman` agrees between the private
/// key `secret` and the public key `(x, y)`.
pub uninterp spec fn p256_shared(secret: Seq<u8>, x: Seq<u8>, y: Seq<u8>) -> Seq<u8>;

/// The X and Y coordinates of the public key of the private key `secret`.
pub uninterp spec fn p256_public(secret: Seq<u8>) -> (Seq<u8>, Seq<u8>);

/// Draws a fresh `p256::SecretKey` with `SecretKey::random` from the operating
/// system's generator: its bytes (`to_bytes`), and the X and Y coordinates of
/// its public key (`public_key().to_encoded_point(false)`), named by
/// `p256_public`. The bytes of a key are accepted back by
/// `SecretKey::from_bytes`; which key is drawn rests on chance.
#[verifier::external_body]
pub(crate) fn p256_key_pair() -> (r: ([u8; 32], [u8; 32], [u8; 32]))
    ensures
        p256_secret_accepts(r.0@),
        (r.1@, r.2@) == p256_public(r.0@),
{
    let private = p256::SecretKey::random(&mut rand_core::OsRng);
    let ours = private.public_key().to_encoded_point(false);
    let mut x = [0u8; 32];
    x.copy_from_slice(&ours.as_bytes()[1..33]);
    let mut y = [0u8; 32];
    y.copy_from_slice(&ours.as_bytes()[33..65]);
    (private.to_bytes().into(), x, y)
}

/// Reads the private key with `p256::SecretKey::from_bytes` and the peer's
/// public key with `p256::PublicKey::from_encoded_point`, and runs
/// `p256::ecdh::diffie_hellman`: the shared secret, named by `p256_shared`.
/// It fails exactly where `p256` refuses one of the two keys. The secret is
/// the X coordinate of the peer's point times our scalar; where the peer's
/// point is the public key (the generator times the scalar) of a private key
/// `k`, that is the secret `k` agrees with our public key, so both ends of
/// an exchange agree the same secret.
#[verifier::external_body]
pub(crate) fn p256_agree(secret: &[u8; 32], peer_x: &[u8; 32], peer_y: &[u8; 32]) -> (r: Option<[u8; 32]>)
    ensures
        r is Some <==> (p256_secret_accepts(secret@) && p256_accepts(peer_x@, peer_y@)),
        r matches Some(s) ==> s@ == p256_shared(secret@, peer_x@, peer_y@),
        r matches Some(s) ==> forall|k: Seq<u8>| p256_secret_accepts(k) && (peer_x@, peer_y@) == p256_public(k)
            ==> #[trigger] p256_shared(k, p256_public(secret@).0, p256_public(secret@).1) == s@,
{
    let private = p256::SecretKey::from_bytes(secret.into()).ok()?;
    let point = p256::EncodedPoint::from_affine_coordinates(peer_x.into(), peer_y.into(), false);
    let public: p256::PublicKey = Option::from(p256::PublicKey::from_encoded_point(&point))?;
    let shared = p256::ecdh::diffie_hellman(private.to_nonzero_scalar(), public.as_affine());
    Some((*shared.raw_secret_bytes()).into())
}

/// Sixteen bytes from `rand_core::OsRng::fill_bytes`; nothing is stated of
/// them.
#[verifier::external_body]
pub(crate) fn random_bytes16() -> (r: [u8; 16]) {
    let mut r = [0u8; 16];
    rand_core::RngCore::fill_bytes(&mut rand_core::OsRng, &mut r);
    r
}

} // verus!
