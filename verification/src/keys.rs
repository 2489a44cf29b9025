//! Mesh keys and the identifiers derived from them.

use vstd::prelude::*;
use crate::crypto::{aes_cmac, cmac_aes128};

verus! {

/// Sixteen zero bytes, the key of the `s1` salt function.
pub open spec fn zero_key() -> Seq<u8> {
    Seq::new(16, |i: int| 0u8)
}

/// The salt function `s1(M) = AES-CMAC_ZERO(M)`.
pub open spec fn s1(m: Seq<u8>) -> Seq<u8> {
    cmac_aes128(zero_key(), m)
}

/// The key derivation function `k1(N, SALT, P) = AES-CMAC_T(P)` with
/// `T = AES-CMAC_SALT(N)`.
pub open spec fn k1(n: Seq<u8>, salt: Seq<u8>, p: Seq<u8>) -> Seq<u8> {
    cmac_aes128(cmac_aes128(salt, n), p)
}

/// Computes `s1(M)`.
pub fn s1_of(m: &[u8]) -> (r: [u8; 16])
    ensures
        r@ == s1(m@),
{
    let zero = [0u8; 16];
    assert(zero@ =~= zero_key());
    aes_cmac(&zero, m)
}

/// Computes `k1(N, SALT, P)`.
pub fn k1_of(n: &[u8], salt: &[u8; 16], p: &[u8]) -> (r: [u8; 16])
    ensures
        r@ == k1(n@, salt@, p@),
{
    let t = aes_cmac(salt, n);
    aes_cmac(&t, p)
}

/// "smk4", the salt tag of `k4`.
pub open spec fn smk4() -> Seq<u8> {
    seq![0x73u8, 0x6du8, 0x6bu8, 0x34u8]
}

/// "id6" followed by 0x01, the message of the last step of `k4`.
pub open spec fn id6_01() -> Seq<u8> {
    seq![0x69u8, 0x64u8, 0x36u8, 0x01u8]
}

/// The application key identifier `k4(N)`: the low six bits of
/// `AES-CMAC_T("id6" || 0x01)` with `T = AES-CMAC_{s1("smk4")}(N)`.
pub open spec fn aid_of(key: Seq<u8>) -> u8 {
    let t = cmac_aes128(s1(smk4()), key);
    (cmac_aes128(t, id6_01())[15] % 64) as u8
}

/// "smk2", the salt tag of `k2`.
pub open spec fn smk2() -> Seq<u8> {
    seq![0x73u8, 0x6du8, 0x6bu8, 0x32u8]
}

/// The three blocks `T1, T2, T3` of `k2(N, 0x00)`.
pub open spec fn k2_blocks(key: Seq<u8>) -> (Seq<u8>, Seq<u8>, Seq<u8>) {
    let t = cmac_aes128(s1(smk2()), key);
    let t1 = cmac_aes128(t, seq![0x00u8, 0x01u8]);
    let t2 = cmac_aes128(t, t1 + seq![0x00u8, 0x02u8]);
    let t3 = cmac_aes128(t, t2 + seq![0x00u8, 0x03u8]);
    (t1, t2, t3)
}

/// The network identifier of a network key: the low seven bits of `T1`.
pub open spec fn nid_of(key: Seq<u8>) -> u8 {
    (k2_blocks(key).0[15] % 128) as u8
}

/// An application key and its identifier.
#[derive(Copy, Clone, Debug)]
pub struct ApplicationKey {
    key: [u8; 16],
    aid: u8,
}

impl ApplicationKey {
    /// The key bytes.
    pub closed spec fn bytes(&self) -> Seq<u8> {
        self.key@
    }

    /// The stored identifier.
    pub closed spec fn spec_aid(&self) -> u8 {
        self.aid
    }

    /// The identifier is the one derived from the key.
    pub closed spec fn wf(&self) -> bool {
        self.aid == aid_of(self.key@)
    }

    /// The application key with the given sixteen bytes and the identifier
    /// derived from them.
    pub closed spec fn spec_from_key(bytes: Seq<u8>) -> ApplicationKey {
        ApplicationKey { key: choose|a: [u8; 16]| a@ == bytes, aid: aid_of(bytes) }
    }

    /// The key built from sixteen bytes has those bytes and is well formed.
    pub proof fn lemma_spec_from_key(bytes: Seq<u8>)
        requires
            bytes.len() == 16,
        ensures
            ApplicationKey::spec_from_key(bytes).bytes() == bytes,
            ApplicationKey::spec_from_key(bytes).spec_aid() == aid_of(bytes),
            ApplicationKey::spec_from_key(bytes).wf(),
    {
        let a = crate::common::array16_of(bytes);
        assert(a@ == bytes);
    }

    /// An application key for `key`, with its identifier derived by `k4`.
    pub fn new(key: [u8; 16]) -> (r: ApplicationKey)
        ensures
            r == ApplicationKey::spec_from_key(key@),
            r.bytes() == key@,
            r.spec_aid() == aid_of(key@),
            r.wf(),
    {
        let zero = [0u8; 16];
        let tag: [u8; 4] = [0x73, 0x6d, 0x6b, 0x34];
        let msg: [u8; 4] = [0x69, 0x64, 0x36, 0x01];
        assert(zero@ =~= zero_key());
        assert(tag@ =~= smk4());
        assert(msg@ =~= id6_01());
        let salt = aes_cmac(&zero, &tag);
        let t = aes_cmac(&salt, &key);
        let out = aes_cmac(&t, &msg);
        proof {
            let c = choose|a: [u8; 16]| a@ == key@;
            assert(c@ =~= key@);
            assert(c == key);
        }
        ApplicationKey { key, aid: out[15] % 64 }
    }

    /// The application key identifier.
    pub fn aid(&self) -> (r: u8)
        ensures
            r == self.spec_aid(),
    {
        self.aid
    }

    /// The key bytes.
    pub fn key(&self) -> (r: [u8; 16])
        ensures
            r@ == self.bytes(),
    {
        self.key
    }
}

/// A network key together with the keys derived from it by `k2`.
#[derive(Copy, Clone, Debug)]
pub struct NetworkKey {
    key: [u8; 16],
    nid: u8,
    encryption_key: [u8; 16],
    privacy_key: [u8; 16],
}

impl NetworkKey {
    pub closed spec fn bytes(&self) -> Seq<u8> {
        self.key@
    }

    pub closed spec fn spec_nid(&self) -> u8 {
        self.nid
    }

    pub closed spec fn spec_encryption_key(&self) -> Seq<u8> {
        self.encryption_key@
    }

    pub closed spec fn spec_privacy_key(&self) -> Seq<u8> {
        self.privacy_key@
    }

    /// A network key with its identifier and derived keys computed by `k2(N, 0x00)`.
    pub fn new(key: [u8; 16]) -> (r: NetworkKey)
        ensures
            r.bytes() == key@,
            r.spec_nid() == nid_of(key@),
            r.spec_encryption_key() == k2_blocks(key@).1,
            r.spec_privacy_key() == k2_blocks(key@).2,
    {
        let zero = [0u8; 16];
        let tag: [u8; 4] = [0x73, 0x6d, 0x6b, 0x32];
        assert(zero@ =~= zero_key());
        assert(tag@ =~= smk2());
        let salt = aes_cmac(&zero, &tag);
        let t = aes_cmac(&salt, &key);
        let m1: [u8; 2] = [0x00, 0x01];
        assert(m1@ =~= seq![0x00u8, 0x01u8]);
        let t1 = aes_cmac(&t, &m1);
        let mut m2 = [0u8; 18];
        let mut m3 = [0u8; 18];
        let mut i: usize = 0;
        while i < 16
            invariant
                0 <= i <= 16,
                forall|j: int| 0 <= j < i ==> m2@[j] == t1@[j],
            decreases 16 - i,
        {
            m2[i] = t1[i];
            i = i + 1;
        }
        m2[16] = 0x00;
        m2[17] = 0x02;
        assert(m2@ =~= t1@ + seq![0x00u8, 0x02u8]);
        let t2 = aes_cmac(&t, &m2);
        let mut i: usize = 0;
        while i < 16
            invariant
                0 <= i <= 16,
                forall|j: int| 0 <= j < i ==> m3@[j] == t2@[j],
            decreases 16 - i,
        {
            m3[i] = t2[i];
            i = i + 1;
        }
        m3[16] = 0x00;
        m3[17] = 0x03;
        assert(m3@ =~= t2@ + seq![0x00u8, 0x03u8]);
        let t3 = aes_cmac(&t, &m3);
        NetworkKey { key, nid: t1[15] % 128, encryption_key: t2, privacy_key: t3 }
    }

    /// The network identifier.
    pub fn nid(&self) -> (r: u8)
        ensures
            r == self.spec_nid(),
    {
        self.nid
    }

    /// The encryption key.
    pub fn encryption_key(&self) -> (r: [u8; 16])
        ensures
            r@ == self.spec_encryption_key(),
    {
        self.encryption_key
    }

    /// The privacy key.
    pub fn privacy_key(&self) -> (r: [u8; 16])
        ensures
            r@ == self.spec_privacy_key(),
    {
        self.privacy_key
    }
}

/// A device key.
#[derive(Copy, Clone, Debug)]
pub struct DeviceKey(pub [u8; 16]);

} // verus!
