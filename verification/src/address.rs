//! Mesh addresses: unicast, group and virtual addresses and label UUIDs.

use vstd::prelude::*;
use crate::error::ParseError;
use crate::crypto::{aes_cmac, cmac_aes128};

verus! {

/// The big-endian reading of two bytes.
pub open spec fn be16(hi: u8, lo: u8) -> u16 {
    (hi as nat * 256 + lo as nat) as u16
}

/// The high byte of a 16-bit value.
pub open spec fn hi8(v: u16) -> u8 {
    (v / 256) as u8
}

/// The low byte of a 16-bit value.
pub open spec fn lo8(v: u16) -> u8 {
    (v % 256) as u8
}

/// A 16-bit value is its two big-endian bytes put back together.
pub proof fn lemma_be16_split(v: u16)
    ensures
        be16(hi8(v), lo8(v)) == v,
{
}

/// Two bytes put together as a big-endian value split back into themselves.
pub proof fn lemma_be16_bytes(hi: u8, lo: u8)
    ensures
        hi8(be16(hi, lo)) == hi,
        lo8(be16(hi, lo)) == lo,
{
}

/// Splits a 16-bit value into its big-endian bytes.
pub fn u16_be_bytes(v: u16) -> (r: [u8; 2])
    ensures
        r@ == seq![hi8(v), lo8(v)],
{
    [(v / 256) as u8, (v % 256) as u8]
}

/// Reads two bytes as a big-endian 16-bit value.
pub fn u16_from_be(hi: u8, lo: u8) -> (r: u16)
    ensures
        r == be16(hi, lo),
{
    (hi as u16) * 256 + (lo as u16)
}

/// Unicast addresses are the non-zero 16-bit values whose top bit is clear.
pub open spec fn is_unicast(v: u16) -> bool {
    v != 0 && v < 0x8000
}

/// Virtual addresses have their top two bits set to `10`.
pub open spec fn is_virtual(v: u16) -> bool {
    0x8000 <= v < 0xC000
}

/// The address of a single element.
#[derive(Copy, Clone, Debug, PartialEq, Eq, Structural, Hash)]
pub struct UnicastAddress(u16);

impl View for UnicastAddress {
    type V = u16;

    closed spec fn view(&self) -> u16 {
        self.0
    }
}

impl UnicastAddress {
    /// Two unicast addresses are equal exactly when their values are.
    pub proof fn lemma_view_eq(a: UnicastAddress, b: UnicastAddress)
        ensures
            a == b <==> a@ == b@,
    {
    }

    /// A unicast address, when `addr` is one.
    pub fn new(addr: u16) -> (r: Result<UnicastAddress, ParseError>)
        ensures
            is_unicast(addr) ==> r == Ok::<UnicastAddress, ParseError>(UnicastAddress::spec_new(addr)),
            !is_unicast(addr) ==> r == Err::<UnicastAddress, ParseError>(ParseError::InvalidValue),
    {
        if addr != 0 && addr < 0x8000 {
            Ok(UnicastAddress(addr))
        } else {
            Err(ParseError::InvalidValue)
        }
    }

    /// The unicast address holding `addr`.
    pub closed spec fn spec_new(addr: u16) -> UnicastAddress {
        UnicastAddress(addr)
    }

    pub proof fn lemma_spec_new(addr: u16)
        ensures
            UnicastAddress::spec_new(addr)@ == addr,
    {
    }

    /// A unicast address is determined by its value.
    pub proof fn lemma_view_determines(a: UnicastAddress)
        ensures
            UnicastAddress::spec_new(a@) == a,
    {
    }

    /// Reads a unicast address from two big-endian bytes.
    pub fn parse(data: [u8; 2]) -> (r: Result<UnicastAddress, ParseError>)
        ensures
            r == spec_parse_unicast(data@[0], data@[1]),
    {
        let v = u16_from_be(data[0], data[1]);
        UnicastAddress::new(v)
    }

    /// The numeric value of the address.
    pub fn value(&self) -> (v: u16)
        ensures
            v == self@,
    {
        self.0
    }

    /// The address as two big-endian bytes.
    pub fn as_bytes(&self) -> (r: [u8; 2])
        ensures
            r@ == seq![hi8(self@), lo8(self@)],
    {
        u16_be_bytes(self.0)
    }
}

/// Decoding a unicast address from its two big-endian bytes.
pub open spec fn spec_parse_unicast(hi: u8, lo: u8) -> Result<UnicastAddress, ParseError> {
    if is_unicast(be16(hi, lo)) {
        Ok(UnicastAddress::spec_new(be16(hi, lo)))
    } else {
        Err(ParseError::InvalidValue)
    }
}

/// A group address.
#[derive(Copy, Clone, Debug, PartialEq, Eq, Structural, Hash)]
pub struct GroupAddress(pub u16);

impl GroupAddress {
    pub fn as_bytes(&self) -> (r: [u8; 2])
        ensures
            r@ == seq![hi8(self.0), lo8(self.0)],
    {
        u16_be_bytes(self.0)
    }
}

/// A virtual address, the hash of a label UUID.
#[derive(Copy, Clone, Debug, PartialEq, Eq, Structural, Hash)]
pub struct VirtualAddress(pub u16);

impl VirtualAddress {
    pub fn as_bytes(&self) -> (r: [u8; 2])
        ensures
            r@ == seq![hi8(self.0), lo8(self.0)],
    {
        u16_be_bytes(self.0)
    }
}

/// The ASCII bytes of "vtad", the salt tag of virtual address derivation.
pub open spec fn vtad() -> Seq<u8> {
    seq![0x76u8, 0x74u8, 0x61u8, 0x64u8]
}

/// The virtual address of a label UUID: the low 14 bits of the last two bytes of
/// AES-CMAC keyed with `s1("vtad")`, tagged with the virtual address prefix.
pub open spec fn virtual_address_of(label: Seq<u8>) -> u16 {
    let salt = cmac_aes128(Seq::new(16, |i: int| 0u8), vtad());
    let hash = cmac_aes128(salt, label);
    (0x8000 + be16(hash[14], hash[15]) % 0x4000) as u16
}

/// A 128-bit label UUID together with its virtual address.
#[derive(Copy, Clone, Debug, Hash)]
pub struct LabelUuid {
    uuid: [u8; 16],
    address: VirtualAddress,
}

impl LabelUuid {
    /// The 16 bytes of the label.
    pub closed spec fn label(&self) -> Seq<u8> {
        self.uuid@
    }

    /// The virtual address the label maps to.
    pub closed spec fn spec_virtual_address(&self) -> VirtualAddress {
        self.address
    }

    /// Every label carries the virtual address derived from its bytes.
    pub closed spec fn wf(&self) -> bool {
        self.address.0 == virtual_address_of(self.uuid@)
    }

    /// The label with the given sixteen bytes and the virtual address derived
    /// from them.
    pub closed spec fn spec_from_label(bytes: Seq<u8>) -> LabelUuid {
        LabelUuid {
            uuid: choose|a: [u8; 16]| a@ == bytes,
            address: VirtualAddress(virtual_address_of(bytes)),
        }
    }

    /// The label built from sixteen bytes has those bytes and is well formed.
    pub proof fn lemma_spec_from_label(bytes: Seq<u8>)
        requires
            bytes.len() == 16,
        ensures
            LabelUuid::spec_from_label(bytes).label() == bytes,
            LabelUuid::spec_from_label(bytes).wf(),
            LabelUuid::spec_from_label(bytes).spec_virtual_address().0 == virtual_address_of(bytes),
    {
        let a = crate::common::array16_of(bytes);
        assert(a@ == bytes);
    }

    /// A label UUID for the given bytes.
    pub fn new(uuid: [u8; 16]) -> (r: Result<LabelUuid, ParseError>)
        ensures
            r == Ok::<LabelUuid, ParseError>(LabelUuid::spec_from_label(uuid@)),
            r matches Ok(l) && l.label() == uuid@ && l.wf(),
    {
        let zero = [0u8; 16];
        let tag: [u8; 4] = [0x76, 0x74, 0x61, 0x64];
        assert(zero@ == Seq::new(16, |i: int| 0u8));
        assert(tag@ == vtad());
        let salt = aes_cmac(&zero, &tag);
        let hash = aes_cmac(&salt, &uuid);
        let v = u16_from_be(hash[14], hash[15]);
        let address = VirtualAddress(0x8000 + v % 0x4000);
        proof {
            let c = choose|a: [u8; 16]| a@ == uuid@;
            assert(c@ =~= uuid@);
            assert(c == uuid);
        }
        Ok(LabelUuid { uuid, address })
    }

    /// Reads a label UUID from exactly 16 bytes.
    pub fn parse(data: &[u8]) -> (r: Result<LabelUuid, ParseError>)
        ensures
            data@.len() == 16 ==> r == Ok::<LabelUuid, ParseError>(LabelUuid::spec_from_label(data@)),
            data@.len() == 16 ==> (r matches Ok(l) && l.label() == data@ && l.wf()),
            data@.len() != 16 ==> r == Err::<LabelUuid, ParseError>(ParseError::InvalidLength),
    {
        if data.len() != 16 {
            return Err(ParseError::InvalidLength);
        }
        let mut uuid = [0u8; 16];
        let mut i: usize = 0;
        while i < 16
            invariant
                data@.len() == 16,
                0 <= i <= 16,
                forall|j: int| 0 <= j < i ==> uuid@[j] == data@[j],
            decreases 16 - i,
        {
            uuid[i] = data[i];
            i = i + 1;
        }
        assert(uuid@ == data@);
        LabelUuid::new(uuid)
    }

    /// The label bytes.
    pub fn label_uuid(&self) -> (r: &[u8; 16])
        ensures
            r@ == self.label(),
    {
        &self.uuid
    }

    /// The virtual address of the label.
    pub fn virtual_address(&self) -> (r: VirtualAddress)
        ensures
            r == self.spec_virtual_address(),
            self.wf() ==> r.0 == virtual_address_of(self.label()),
    {
        self.address
    }
}

impl PartialEq for LabelUuid {
    fn eq(&self, other: &LabelUuid) -> (r: bool) {
        if self.address.0 != other.address.0 {
            return false;
        }
        let mut i: usize = 0;
        while i < 16
            invariant
                0 <= i <= 16,
                forall|j: int| 0 <= j < i ==> self.uuid@[j] == other.uuid@[j],
            decreases 16 - i,
        {
            if self.uuid[i] != other.uuid[i] {
                return false;
            }
            i = i + 1;
        }
        assert(self.uuid@ == other.uuid@);
        true
    }
}

impl vstd::std_specs::cmp::PartialEqSpecImpl for LabelUuid {
    open spec fn obeys_eq_spec() -> bool {
        true
    }

    open spec fn eq_spec(&self, other: &LabelUuid) -> bool {
        self.label() == other.label() && self.spec_virtual_address() == other.spec_virtual_address()
    }
}

impl Eq for LabelUuid {
}

impl LabelUuid {
    /// A label has sixteen bytes.
    pub proof fn lemma_label_len(l: LabelUuid)
        ensures
            l.label().len() == 16,
    {
    }

    /// Two well-formed labels with the same bytes are the same label.
    pub proof fn lemma_wf_label_unique(a: LabelUuid, b: LabelUuid)
        requires
            a.wf(),
            b.wf(),
            a.label() == b.label(),
        ensures
            a == b,
    {
        assert(a.uuid@ =~= b.uuid@);
        assert(a.uuid == b.uuid);
    }

    /// Labels are equal exactly when their bytes and virtual addresses are.
    pub proof fn lemma_eq(a: LabelUuid, b: LabelUuid)
        ensures
            a == b <==> (a.label() == b.label() && a.spec_virtual_address() == b.spec_virtual_address()),
    {
        if a.label() == b.label() && a.spec_virtual_address() == b.spec_virtual_address() {
            assert(a.uuid@ =~= b.uuid@);
            assert(a.uuid == b.uuid);
        }
    }
}

/// Any mesh address.
#[derive(Copy, Clone, Debug, PartialEq, Eq, Structural, Hash)]
pub enum Address {
    Unassigned,
    Unicast(UnicastAddress),
    Virtual(VirtualAddress),
    Group(GroupAddress),
}

/// Classifying a 16-bit value as a mesh address.
pub open spec fn spec_address_of(v: u16) -> Address {
    if v == 0 {
        Address::Unassigned
    } else if is_unicast(v) {
        Address::Unicast(UnicastAddress::spec_new(v))
    } else if is_virtual(v) {
        Address::Virtual(VirtualAddress(v))
    } else {
        Address::Group(GroupAddress(v))
    }
}

impl Address {
    /// Reads an address from two big-endian bytes.
    pub fn parse(data: [u8; 2]) -> (r: Address)
        ensures
            r == spec_address_of(be16(data@[0], data@[1])),
    {
        let v = u16_from_be(data[0], data[1]);
        if v == 0 {
            Address::Unassigned
        } else if v < 0x8000 {
            Address::Unicast(UnicastAddress(v))
        } else if v < 0xC000 {
            Address::Virtual(VirtualAddress(v))
        } else {
            Address::Group(GroupAddress(v))
        }
    }

    /// Is this a unicast address?
    pub fn is_unicast(&self) -> (r: bool)
        ensures
            r == (*self is Unicast),
    {
        matches!(self, Address::Unicast(_))
    }
}

} // verus!
