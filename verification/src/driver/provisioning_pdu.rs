//! The PDUs of the provisioning protocol, their parameter bytes as they enter
//! the confirmation inputs, and the provisioning data a device receives.

use vstd::prelude::*;
use crate::error::ParseError;

verus! {

/// The provisioner invites the device, asking it to draw attention to itself
/// for `attention_duration` seconds.
#[derive(Copy, Clone, Debug, Default, PartialEq, Eq, Structural)]
pub struct Invite {
    pub attention_duration: u8,
}

/// What the device supports.
#[derive(Copy, Clone, Debug, Default, PartialEq, Eq, Structural)]
pub struct Capabilities {
    pub number_of_elements: u8,
    pub algorithms: u16,
    pub public_key_type: u8,
    pub static_oob_type: u8,
    pub output_oob_size: u8,
    pub output_oob_action: u16,
    pub input_oob_size: u8,
    pub input_oob_action: u16,
}

/// The actions by which a device can output an authentication value.
#[derive(Copy, Clone, Debug, PartialEq, Eq, Structural)]
pub enum OutputOOBAction {
    Blink,
    Beep,
    Vibrate,
    OutputNumeric,
    OutputAlphanumeric,
}

/// The actions by which an authentication value can be input on a device.
#[derive(Copy, Clone, Debug, PartialEq, Eq, Structural)]
pub enum InputOOBAction {
    Push,
    Twist,
    InputNumeric,
    InputAlphanumeric,
}

/// The out-of-band authentication action chosen by the provisioner.
#[derive(Copy, Clone, Debug, Default, PartialEq, Eq, Structural)]
pub enum OOBAction {
    #[default]
    NoAction,
    Output(OutputOOBAction),
    Input(InputOOBAction),
}

/// The size of the out-of-band authentication value.
#[derive(Copy, Clone, Debug, Default, PartialEq, Eq, Structural)]
pub enum OOBSize {
    #[default]
    NotSupported,
    MaximumSize(u8),
}

/// The provisioner's choice of algorithm, public key and authentication.
#[derive(Copy, Clone, Debug, Default, PartialEq, Eq, Structural)]
pub struct Start {
    pub algorithm: u8,
    pub public_key: u8,
    pub authentication_method: u8,
    pub authentication_action: OOBAction,
    pub authentication_size: OOBSize,
}

/// A P-256 public key by its coordinates.
#[derive(Copy, Clone, Debug)]
pub struct PublicKey {
    pub x: [u8; 32],
    pub y: [u8; 32],
}

/// A confirmation value.
#[derive(Copy, Clone, Debug)]
pub struct Confirmation {
    pub confirmation: [u8; 16],
}

/// A random value.
#[derive(Copy, Clone, Debug)]
pub struct Random {
    pub random: [u8; 16],
}

/// The encrypted provisioning data and its message integrity check.
#[derive(Copy, Clone, Debug)]
pub struct Data {
    pub encrypted: [u8; 25],
    pub mic: [u8; 8],
}

/// Why provisioning failed.
#[derive(Copy, Clone, Debug, PartialEq, Eq, Structural)]
pub enum ErrorCode {
    Prohibited,
    InvalidPDU,
    InvalidFormat,
    UnexpectedPDU,
    ConfirmationFailed,
    OutOfResources,
    DecryptionFailed,
    UnexpectedError,
    CannotAssignAddresses,
}

/// The failure reported to the provisioner.
#[derive(Copy, Clone, Debug, PartialEq, Eq, Structural)]
pub struct Failed {
    pub error_code: ErrorCode,
}

/// A PDU of the provisioning protocol.
#[derive(Copy, Clone, Debug)]
pub enum ProvisioningPDU {
    Invite(Invite),
    Capabilities(Capabilities),
    Start(Start),
    PublicKey(PublicKey),
    InputComplete,
    Confirmation(Confirmation),
    Random(Random),
    Data(Data),
    Complete,
    Failed(Failed),
}

/// What the provisioner gives the device: its network key and key index,
/// the key refresh and IV update flags, the IV index and its unicast address.
#[derive(Copy, Clone, Debug, Default, PartialEq, Eq)]
pub struct ProvisioningData {
    pub network_key: [u8; 16],
    pub key_index: u16,
    pub key_refresh_flag: bool,
    pub iv_update_flag: bool,
    pub iv_index: u32,
    pub unicast_address: u16,
}

/// A 16-bit value, big-endian.
pub open spec fn be_u16(v: u16) -> Seq<u8> {
    seq![(v >> 8u16) as u8, v as u8]
}

/// A 32-bit value, big-endian.
pub open spec fn be_u32(v: u32) -> Seq<u8> {
    seq![(v >> 24u32) as u8, (v >> 16u32) as u8, (v >> 8u32) as u8, v as u8]
}

/// The parameter bytes of an invitation.
pub open spec fn invite_bytes(i: Invite) -> Seq<u8> {
    seq![i.attention_duration]
}

/// The parameter bytes of the capabilities.
pub open spec fn capabilities_bytes(c: Capabilities) -> Seq<u8> {
    seq![c.number_of_elements] + be_u16(c.algorithms) + seq![
        c.public_key_type,
        c.static_oob_type,
        c.output_oob_size,
    ] + be_u16(c.output_oob_action) + seq![c.input_oob_size] + be_u16(c.input_oob_action)
}

/// The code of an authentication action.
pub open spec fn oob_action_code(a: OOBAction) -> u8 {
    match a {
        OOBAction::NoAction => 0,
        OOBAction::Output(o) => match o {
            OutputOOBAction::Blink => 0,
            OutputOOBAction::Beep => 1,
            OutputOOBAction::Vibrate => 2,
            OutputOOBAction::OutputNumeric => 3,
            OutputOOBAction::OutputAlphanumeric => 4,
        },
        OOBAction::Input(i) => match i {
            InputOOBAction::Push => 0,
            InputOOBAction::Twist => 1,
            InputOOBAction::InputNumeric => 2,
            InputOOBAction::InputAlphanumeric => 3,
        },
    }
}

/// The code of an authentication size.
pub open spec fn oob_size_code(s: OOBSize) -> u8 {
    match s {
        OOBSize::NotSupported => 0,
        OOBSize::MaximumSize(n) => n,
    }
}

/// The parameter bytes of the start.
pub open spec fn start_bytes(s: Start) -> Seq<u8> {
    seq![
        s.algorithm,
        s.public_key,
        s.authentication_method,
        oob_action_code(s.authentication_action),
        oob_size_code(s.authentication_size),
    ]
}

/// The parameter bytes of a public key: its X then its Y coordinate.
pub open spec fn public_key_bytes(k: PublicKey) -> Seq<u8> {
    k.x@ + k.y@
}

/// Appends the bytes of `src` to `dst`.
pub fn append(dst: &mut Vec<u8>, src: &[u8])
    ensures
        final(dst)@ == old(dst)@ + src@,
{
    let mut i: usize = 0;
    while i < src.len()
        invariant
            i <= src@.len(),
            dst@ == old(dst)@ + src@.take(i as int),
        decreases src@.len() - i,
    {
        dst.push(src[i]);
        i = i + 1;
        assert(dst@ =~= old(dst)@ + src@.take(i as int));
    }
    assert(src@.take(src@.len() as int) =~= src@);
}

impl Invite {
    /// The parameter bytes.
    pub fn emit(&self, dst: &mut Vec<u8>)
        ensures
            final(dst)@ == old(dst)@ + invite_bytes(*self),
    {
        dst.push(self.attention_duration);
        assert(dst@ =~= old(dst)@ + invite_bytes(*self));
    }
}

impl Capabilities {
    /// The parameter bytes.
    pub fn emit(&self, dst: &mut Vec<u8>)
        ensures
            final(dst)@ == old(dst)@ + capabilities_bytes(*self),
    {
        let bytes: [u8; 11] = [
            self.number_of_elements,
            (self.algorithms >> 8u16) as u8,
            self.algorithms as u8,
            self.public_key_type,
            self.static_oob_type,
            self.output_oob_size,
            (self.output_oob_action >> 8u16) as u8,
            self.output_oob_action as u8,
            self.input_oob_size,
            (self.input_oob_action >> 8u16) as u8,
            self.input_oob_action as u8,
        ];
        assert(bytes@ =~= capabilities_bytes(*self));
        append(dst, &bytes);
    }
}

/// The code of an authentication action.
pub fn oob_action_code_of(a: OOBAction) -> (r: u8)
    ensures
        r == oob_action_code(a),
{
    match a {
        OOBAction::NoAction => 0,
        OOBAction::Output(o) => match o {
            OutputOOBAction::Blink => 0,
            OutputOOBAction::Beep => 1,
            OutputOOBAction::Vibrate => 2,
            OutputOOBAction::OutputNumeric => 3,
            OutputOOBAction::OutputAlphanumeric => 4,
        },
        OOBAction::Input(i) => match i {
            InputOOBAction::Push => 0,
            InputOOBAction::Twist => 1,
            InputOOBAction::InputNumeric => 2,
            InputOOBAction::InputAlphanumeric => 3,
        },
    }
}

impl Start {
    /// The parameter bytes.
    pub fn emit(&self, dst: &mut Vec<u8>)
        ensures
            final(dst)@ == old(dst)@ + start_bytes(*self),
    {
        let size = match self.authentication_size {
            OOBSize::NotSupported => 0,
            OOBSize::MaximumSize(n) => n,
        };
        let bytes: [u8; 5] = [
            self.algorithm,
            self.public_key,
            self.authentication_method,
            oob_action_code_of(self.authentication_action),
            size,
        ];
        assert(bytes@ =~= start_bytes(*self));
        append(dst, &bytes);
    }
}

impl PublicKey {
    /// The parameter bytes.
    pub fn emit(&self, dst: &mut Vec<u8>)
        ensures
            final(dst)@ == old(dst)@ + public_key_bytes(*self),
    {
        append(dst, &self.x);
        append(dst, &self.y);
        assert(dst@ =~= old(dst)@ + public_key_bytes(*self));
    }
}

/// The key, key index, flags, IV index and address carried by 25 bytes.
pub open spec fn provisioning_data_fields(d: ProvisioningData, b: Seq<u8>) -> bool {
    &&& d.network_key@ == b.take(16)
    &&& d.key_index == (b[16] as u16) * 256 + b[17] as u16
    &&& d.key_refresh_flag == (b[18] & 1 != 0)
    &&& d.iv_update_flag == (b[18] & 2 != 0)
    &&& d.iv_index == (b[19] as u32) * 0x1000000 + (b[20] as u32) * 0x10000 + (b[21] as u32) * 0x100 + b[22] as u32
    &&& d.unicast_address == (b[23] as u16) * 256 + b[24] as u16
}

/// The flags byte: bit 0 the key refresh flag, bit 1 the IV update flag.
pub open spec fn provisioning_flags(d: ProvisioningData) -> u8 {
    ((if d.key_refresh_flag { 1u8 } else { 0u8 }) + (if d.iv_update_flag { 2u8 } else { 0u8 })) as u8
}

/// The 25 bytes of provisioning data: the network key, the key index, the
/// flags, the IV index and the unicast address, numbers big-endian.
pub open spec fn provisioning_data_bytes(d: ProvisioningData) -> Seq<u8> {
    d.network_key@ + be_u16(d.key_index) + seq![provisioning_flags(d)] + be_u32(d.iv_index) + be_u16(d.unicast_address)
}

/// Reading back the bytes written for provisioning data gives the same key,
/// key index, flags, IV index and address.
pub proof fn lemma_provisioning_data_roundtrip(d: ProvisioningData)
    ensures
        provisioning_data_bytes(d).len() == 25,
        provisioning_data_fields(d, provisioning_data_bytes(d)),
{
    let b = provisioning_data_bytes(d);
    assert(b.take(16) =~= d.network_key@);
    let k = d.key_index;
    assert(((k >> 8u16) as u8) as u16 * 256 + (k as u8) as u16 == k) by (bit_vector);
    let a = d.unicast_address;
    assert(((a >> 8u16) as u8) as u16 * 256 + (a as u8) as u16 == a) by (bit_vector);
    let v = d.iv_index;
    assert(((v >> 24u32) as u8) as u32 * 0x1000000 + ((v >> 16u32) as u8) as u32 * 0x10000 + ((v >> 8u32) as u8) as u32
        * 0x100 + (v as u8) as u32 == v) by (bit_vector);
    let f = provisioning_flags(d);
    assert(f == 0 || f == 1 || f == 2 || f == 3);
    assert(f == 0 ==> (f & 1 == 0 && f & 2 == 0)) by (bit_vector);
    assert(f == 1 ==> (f & 1 != 0 && f & 2 == 0)) by (bit_vector);
    assert(f == 2 ==> (f & 1 == 0 && f & 2 != 0)) by (bit_vector);
    assert(f == 3 ==> (f & 1 != 0 && f & 2 != 0)) by (bit_vector);
}

impl ProvisioningData {
    /// The 25 bytes of the provisioning data.
    pub fn emit(&self, dst: &mut Vec<u8>)
        ensures
            final(dst)@ == old(dst)@ + provisioning_data_bytes(*self),
    {
        let flags: u8 = (if self.key_refresh_flag { 1u8 } else { 0u8 }) + (if self.iv_update_flag { 2u8 } else { 0u8 });
        append(dst, &self.network_key);
        let rest: [u8; 9] = [
            (self.key_index >> 8u16) as u8,
            self.key_index as u8,
            flags,
            (self.iv_index >> 24u32) as u8,
            (self.iv_index >> 16u32) as u8,
            (self.iv_index >> 8u32) as u8,
            self.iv_index as u8,
            (self.unicast_address >> 8u16) as u8,
            self.unicast_address as u8,
        ];
        append(dst, &rest);
        assert(dst@ =~= old(dst)@ + provisioning_data_bytes(*self));
    }

    /// Reads the provisioning data from exactly 25 bytes.
    pub fn parse(data: &[u8]) -> (r: Result<ProvisioningData, ParseError>)
        ensures
            data@.len() == 25 ==> (r matches Ok(d) && provisioning_data_fields(d, data@)),
            data@.len() != 25 ==> r == Err::<ProvisioningData, ParseError>(ParseError::InvalidLength),
    {
        if data.len() != 25 {
            return Err(ParseError::InvalidLength);
        }
        let mut network_key = [0u8; 16];
        let mut i: usize = 0;
        while i < 16
            invariant
                data@.len() == 25,
                i <= 16,
                forall|j: int| 0 <= j < i ==> network_key@[j] == data@[j],
            decreases 16 - i,
        {
            network_key[i] = data[i];
            i = i + 1;
        }
        assert(network_key@ =~= data@.take(16));
        let key_index = (data[16] as u16) * 256 + data[17] as u16;
        let iv_index = (data[19] as u32) * 0x1000000 + (data[20] as u32) * 0x10000 + (data[21] as u32) * 0x100
            + data[22] as u32;
        let unicast_address = (data[23] as u16) * 256 + data[24] as u16;
        Ok(ProvisioningData {
            network_key,
            key_index,
            key_refresh_flag: data[18] & 1 != 0,
            iv_update_flag: data[18] & 2 != 0,
            iv_index,
            unicast_address,
        })
    }
}

/// The code of a failure.
pub open spec fn error_code_value(e: ErrorCode) -> u8 {
    match e {
        ErrorCode::Prohibited => 0x00,
        ErrorCode::InvalidPDU => 0x01,
        ErrorCode::InvalidFormat => 0x02,
        ErrorCode::UnexpectedPDU => 0x03,
        ErrorCode::ConfirmationFailed => 0x04,
        ErrorCode::OutOfResources => 0x05,
        ErrorCode::DecryptionFailed => 0x06,
        ErrorCode::UnexpectedError => 0x07,
        ErrorCode::CannotAssignAddresses => 0x08,
    }
}

/// The bytes of a provisioning PDU: its type, then its parameters.
pub open spec fn pdu_bytes(p: ProvisioningPDU) -> Seq<u8> {
    match p {
        ProvisioningPDU::Invite(i) => seq![0x00u8] + invite_bytes(i),
        ProvisioningPDU::Capabilities(c) => seq![0x01u8] + capabilities_bytes(c),
        ProvisioningPDU::Start(s) => seq![0x02u8] + start_bytes(s),
        ProvisioningPDU::PublicKey(k) => seq![0x03u8] + public_key_bytes(k),
        ProvisioningPDU::InputComplete => seq![0x04u8],
        ProvisioningPDU::Confirmation(c) => seq![0x05u8] + c.confirmation@,
        ProvisioningPDU::Random(r) => seq![0x06u8] + r.random@,
        ProvisioningPDU::Data(d) => seq![0x07u8] + d.encrypted@ + d.mic@,
        ProvisioningPDU::Complete => seq![0x08u8],
        ProvisioningPDU::Failed(f) => seq![0x09u8, error_code_value(f.error_code)],
    }
}

/// The code of a failure.
fn error_code_of(e: ErrorCode) -> (r: u8)
    ensures
        r == error_code_value(e),
{
    match e {
        ErrorCode::Prohibited => 0x00,
        ErrorCode::InvalidPDU => 0x01,
        ErrorCode::InvalidFormat => 0x02,
        ErrorCode::UnexpectedPDU => 0x03,
        ErrorCode::ConfirmationFailed => 0x04,
        ErrorCode::OutOfResources => 0x05,
        ErrorCode::DecryptionFailed => 0x06,
        ErrorCode::UnexpectedError => 0x07,
        ErrorCode::CannotAssignAddresses => 0x08,
    }
}

impl ProvisioningPDU {
    /// The bytes of the PDU: its type, then its parameters.
    pub fn emit(&self) -> (r: Vec<u8>)
        ensures
            r@ == pdu_bytes(*self),
    {
        let mut r: Vec<u8> = Vec::new();
        match self {
            ProvisioningPDU::Invite(i) => {
                r.push(0x00);
                i.emit(&mut r);
            },
            ProvisioningPDU::Capabilities(c) => {
                r.push(0x01);
                c.emit(&mut r);
            },
            ProvisioningPDU::Start(s) => {
                r.push(0x02);
                s.emit(&mut r);
            },
            ProvisioningPDU::PublicKey(k) => {
                r.push(0x03);
                k.emit(&mut r);
            },
            ProvisioningPDU::InputComplete => {
                r.push(0x04);
            },
            ProvisioningPDU::Confirmation(c) => {
                r.push(0x05);
                append(&mut r, &c.confirmation);
            },
            ProvisioningPDU::Random(v) => {
                r.push(0x06);
                append(&mut r, &v.random);
            },
            ProvisioningPDU::Data(d) => {
                r.push(0x07);
                append(&mut r, &d.encrypted);
                append(&mut r, &d.mic);
            },
            ProvisioningPDU::Complete => {
                r.push(0x08);
            },
            ProvisioningPDU::Failed(f) => {
                r.push(0x09);
                r.push(error_code_of(f.error_code));
            },
        }
        assert(r@ =~= pdu_bytes(*self));
        r
    }
}

} // verus!
