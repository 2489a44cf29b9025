//! The device's side of provisioning: the authentication value, the phases of
//! the protocol, and the state machine that answers each provisioning PDU.

use vstd::prelude::*;
use crate::crypto::{aes_cmac, ccm_decrypt64, ccm_open64, cmac_aes128, p256_accepts, p256_agree, p256_key_pair, p256_public, p256_secret_accepts, p256_shared, random_bytes16};
use crate::driver::provisioning_pdu::{
    append, be_u32, capabilities_bytes, invite_bytes, provisioning_data_fields, public_key_bytes, start_bytes,
    Capabilities, Confirmation, Data, ErrorCode, Failed, InputOOBAction, OOBAction, OOBSize, OutputOOBAction,
    ProvisioningData, ProvisioningPDU, PublicKey, Random, Start,
};
use crate::error::{DriverError, ParseError};
use crate::keys::{k1, k1_of, s1, s1_of, DeviceKey};
use crate::driver::hash::{fnv, hash_of};
use crate::driver::provisioning_pdu::pdu_bytes;
use crate::driver::deadline::Deadline;

verus! {

/// The out-of-band authentication value of a provisioning.
#[derive(Clone, Debug)]
pub enum AuthValue {
    NoOOB,
    InputEvents(u32),
    OutputEvents(u32),
    InputNumeric(u32),
    OutputNumeric(u32),
    InputAlphanumeric(Vec<u8>),
    OutputAlphanumeric(Vec<u8>),
}

/// `n` zero bytes.
pub open spec fn zeros(n: nat) -> Seq<u8> {
    Seq::new(n, |i: int| 0u8)
}

/// The sixteen bytes of an authentication value: zeros; a number big-endian in
/// the last four bytes; or characters in the first bytes.
pub open spec fn auth_value_bytes(a: AuthValue) -> Seq<u8> {
    match a {
        AuthValue::NoOOB => zeros(16),
        AuthValue::InputEvents(n) => zeros(12) + be_u32(n),
        AuthValue::OutputEvents(n) => zeros(12) + be_u32(n),
        AuthValue::InputNumeric(n) => zeros(12) + be_u32(n),
        AuthValue::OutputNumeric(n) => zeros(12) + be_u32(n),
        AuthValue::InputAlphanumeric(c) => c@ + zeros((16 - c@.len()) as nat),
        AuthValue::OutputAlphanumeric(c) => c@ + zeros((16 - c@.len()) as nat),
    }
}

/// An authentication value holds at most eight characters.
pub open spec fn auth_value_wf(a: AuthValue) -> bool {
    match a {
        AuthValue::InputAlphanumeric(c) => c@.len() <= 8,
        AuthValue::OutputAlphanumeric(c) => c@.len() <= 8,
        _ => true,
    }
}

/// Sixteen bytes with a number big-endian in the last four.
fn number_bytes(n: u32) -> (r: [u8; 16])
    ensures
        r@ == zeros(12) + be_u32(n),
{
    let r: [u8; 16] = [0, 0, 0, 0, 0, 0, 0, 0, 0, 0, 0, 0, (n >> 24u32) as u8, (n >> 16u32) as u8, (n >> 8u32) as u8, n as u8];
    assert(r@ =~= zeros(12) + be_u32(n));
    r
}

/// Sixteen bytes beginning with the characters.
fn char_bytes(chars: &Vec<u8>) -> (r: [u8; 16])
    requires
        chars@.len() <= 16,
    ensures
        r@ == chars@ + zeros((16 - chars@.len()) as nat),
{
    let mut r = [0u8; 16];
    let mut i: usize = 0;
    while i < chars.len()
        invariant
            chars@.len() <= 16,
            i <= chars@.len(),
            forall|j: int| 0 <= j < i ==> r@[j] == chars@[j],
            forall|j: int| i <= j < 16 ==> r@[j] == 0,
        decreases chars@.len() - i,
    {
        r[i] = chars[i];
        i = i + 1;
    }
    assert(r@ =~= chars@ + zeros((16 - chars@.len()) as nat));
    r
}

impl AuthValue {
    /// The sixteen bytes that enter the confirmation.
    pub fn get_bytes(&self) -> (r: [u8; 16])
        requires
            auth_value_wf(*self),
        ensures
            r@ == auth_value_bytes(*self),
    {
        match self {
            AuthValue::NoOOB => {
                let r = [0u8; 16];
                assert(r@ =~= zeros(16));
                r
            },
            AuthValue::InputEvents(n) => number_bytes(*n),
            AuthValue::OutputEvents(n) => number_bytes(*n),
            AuthValue::InputNumeric(n) => number_bytes(*n),
            AuthValue::OutputNumeric(n) => number_bytes(*n),
            AuthValue::InputAlphanumeric(c) => char_bytes(c),
            AuthValue::OutputAlphanumeric(c) => char_bytes(c),
        }
    }
}

/// What kind of authentication value a start asks for, and its size.
#[derive(Copy, Clone, Debug, PartialEq, Eq, Structural)]
pub enum AuthRequest {
    NoOOB,
    OutputEvents(u8),
    InputEvents(u8),
    OutputNumeric(u8),
    InputNumeric(u8),
    OutputAlphanumeric(u8),
    InputAlphanumeric(u8),
}

/// The authentication value a start asks for: blinking, beeping or vibrating
/// outputs events, pushing or twisting inputs them, and numeric or
/// alphanumeric actions output or input a value, each of the maximum size
/// given; anything else asks for none.
pub open spec fn spec_auth_request(start: Start) -> AuthRequest {
    match (start.authentication_action, start.authentication_size) {
        (OOBAction::Output(OutputOOBAction::Blink), OOBSize::MaximumSize(s)) => AuthRequest::OutputEvents(s),
        (OOBAction::Output(OutputOOBAction::Beep), OOBSize::MaximumSize(s)) => AuthRequest::OutputEvents(s),
        (OOBAction::Output(OutputOOBAction::Vibrate), OOBSize::MaximumSize(s)) => AuthRequest::OutputEvents(s),
        (OOBAction::Input(InputOOBAction::Push), OOBSize::MaximumSize(s)) => AuthRequest::InputEvents(s),
        (OOBAction::Input(InputOOBAction::Twist), OOBSize::MaximumSize(s)) => AuthRequest::InputEvents(s),
        (OOBAction::Output(OutputOOBAction::OutputNumeric), OOBSize::MaximumSize(s)) => AuthRequest::OutputNumeric(s),
        (OOBAction::Input(InputOOBAction::InputNumeric), OOBSize::MaximumSize(s)) => AuthRequest::InputNumeric(s),
        (OOBAction::Output(OutputOOBAction::OutputAlphanumeric), OOBSize::MaximumSize(s)) => AuthRequest::OutputAlphanumeric(s),
        (OOBAction::Input(InputOOBAction::InputAlphanumeric), OOBSize::MaximumSize(s)) => AuthRequest::InputAlphanumeric(s),
        _ => AuthRequest::NoOOB,
    }
}

/// How a start's action decides its authentication value. Without a maximum
/// size, or without an action, none is asked for. With a maximum size `s`:
/// an output action asks for an output value and an input action for an
/// input value, each of size `s`; blinking, beeping and vibrating output
/// events, pushing and twisting input events, and the numeric and
/// alphanumeric actions a number or a string. The value chosen for events is
/// the draw itself.
pub proof fn lemma_auth_request_by_action(start: Start, draw: u32, v: AuthValue)
    ensures
        !(start.authentication_size is MaximumSize) ==> spec_auth_request(start) == AuthRequest::NoOOB,
        start.authentication_action is NoAction ==> spec_auth_request(start) == AuthRequest::NoOOB,
        start.authentication_size matches OOBSize::MaximumSize(s) ==> match start.authentication_action {
            OOBAction::Output(a) => match a {
                OutputOOBAction::Blink | OutputOOBAction::Beep | OutputOOBAction::Vibrate =>
                    spec_auth_request(start) == AuthRequest::OutputEvents(s),
                OutputOOBAction::OutputNumeric => spec_auth_request(start) == AuthRequest::OutputNumeric(s),
                OutputOOBAction::OutputAlphanumeric => spec_auth_request(start) == AuthRequest::OutputAlphanumeric(s),
            },
            OOBAction::Input(a) => match a {
                InputOOBAction::Push | InputOOBAction::Twist => spec_auth_request(start) == AuthRequest::InputEvents(s),
                InputOOBAction::InputNumeric => spec_auth_request(start) == AuthRequest::InputNumeric(s),
                InputOOBAction::InputAlphanumeric => spec_auth_request(start) == AuthRequest::InputAlphanumeric(s),
            },
            OOBAction::NoAction => spec_auth_request(start) == AuthRequest::NoOOB,
        },
        (start.authentication_size is MaximumSize && (start.authentication_action matches OOBAction::Output(a)
            && (a is Blink || a is Beep || a is Vibrate)) && spec_auth_value_for(start, draw, Ok(v)))
            ==> v == AuthValue::OutputEvents(draw),
        (start.authentication_size is MaximumSize && (start.authentication_action matches OOBAction::Input(a)
            && (a is Push || a is Twist)) && spec_auth_value_for(start, draw, Ok(v)))
            ==> v == AuthValue::InputEvents(draw),
{
}

/// The kind and size of authentication value a start asks for.
pub fn auth_request(start: &Start) -> (r: AuthRequest)
    ensures
        r == spec_auth_request(*start),
{
    match (start.authentication_action, start.authentication_size) {
        (OOBAction::Output(OutputOOBAction::Blink), OOBSize::MaximumSize(s)) => AuthRequest::OutputEvents(s),
        (OOBAction::Output(OutputOOBAction::Beep), OOBSize::MaximumSize(s)) => AuthRequest::OutputEvents(s),
        (OOBAction::Output(OutputOOBAction::Vibrate), OOBSize::MaximumSize(s)) => AuthRequest::OutputEvents(s),
        (OOBAction::Input(InputOOBAction::Push), OOBSize::MaximumSize(s)) => AuthRequest::InputEvents(s),
        (OOBAction::Input(InputOOBAction::Twist), OOBSize::MaximumSize(s)) => AuthRequest::InputEvents(s),
        (OOBAction::Output(OutputOOBAction::OutputNumeric), OOBSize::MaximumSize(s)) => AuthRequest::OutputNumeric(s),
        (OOBAction::Input(InputOOBAction::InputNumeric), OOBSize::MaximumSize(s)) => AuthRequest::InputNumeric(s),
        (OOBAction::Output(OutputOOBAction::OutputAlphanumeric), OOBSize::MaximumSize(s)) => AuthRequest::OutputAlphanumeric(s),
        (OOBAction::Input(InputOOBAction::InputAlphanumeric), OOBSize::MaximumSize(s)) => AuthRequest::InputAlphanumeric(s),
        _ => AuthRequest::NoOOB,
    }
}

/// Ten to the power `n`.
pub open spec fn pow10(n: nat) -> nat
    decreases n,
{
    if n == 0 {
        1
    } else {
        10 * pow10((n - 1) as nat)
    }
}

/// Whether a random draw is one the request takes: events are a number from
/// one up to, but not including, ten to the power of the size (of at most
/// nine digits); a numeric value of one to eight digits is a number below
/// ten to the power of the size. Other requests take no draw.
pub open spec fn spec_draw_accepted(request: AuthRequest, candidate: u32) -> bool {
    match request {
        AuthRequest::OutputEvents(s) => s <= 9 && 0 < candidate < pow10(s as nat),
        AuthRequest::InputEvents(s) => s <= 9 && 0 < candidate < pow10(s as nat),
        AuthRequest::OutputNumeric(s) => 1 <= s <= 8 ==> candidate < pow10(s as nat),
        AuthRequest::InputNumeric(s) => 1 <= s <= 8 ==> candidate < pow10(s as nat),
        _ => true,
    }
}

/// Whether the request draws random numbers until one is accepted.
pub open spec fn spec_needs_draw(request: AuthRequest) -> bool {
    match request {
        AuthRequest::OutputEvents(_) | AuthRequest::InputEvents(_) => true,
        AuthRequest::OutputNumeric(s) | AuthRequest::InputNumeric(s) => 1 <= s <= 8,
        _ => false,
    }
}

/// Ten to the power `n`, for at most nine digits.
fn pow10_of(n: u8) -> (r: u32)
    requires
        n <= 9,
    ensures
        r == pow10(n as nat),
{
    let mut max: u32 = 1;
    let mut i: u8 = 0;
    while i < n
        invariant
            n <= 9,
            i <= n,
            max == pow10(i as nat),
            max <= 100_000_000 || i == 9,
        decreases n - i,
    {
        proof {
            reveal_with_fuel(pow10, 10);
        }
        assert(max <= 100_000_000) by {
            reveal_with_fuel(pow10, 10);
            assert(i < 9);
        }
        max = max * 10;
        i = i + 1;
    }
    max
}

/// Whether a random draw is one the request takes.
pub fn draw_accepted(request: AuthRequest, candidate: u32) -> (r: bool)
    ensures
        r == spec_draw_accepted(request, candidate),
{
    match request {
        AuthRequest::OutputEvents(s) | AuthRequest::InputEvents(s) => {
            if s > 9 {
                false
            } else {
                0 < candidate && candidate < pow10_of(s)
            }
        },
        AuthRequest::OutputNumeric(s) | AuthRequest::InputNumeric(s) => {
            if 1 <= s && s <= 8 {
                candidate < pow10_of(s)
            } else {
                true
            }
        },
        _ => true,
    }
}

/// Whether the request needs a random draw.
pub fn needs_draw(request: AuthRequest) -> (r: bool)
    ensures
        r == spec_needs_draw(request),
{
    match request {
        AuthRequest::OutputEvents(_) | AuthRequest::InputEvents(_) => true,
        AuthRequest::OutputNumeric(s) | AuthRequest::InputNumeric(s) => 1 <= s && s <= 8,
        _ => false,
    }
}

/// The authentication value chosen for a start, given the accepted random
/// draw: events and numbers take the draw (a numeric size beyond eight digits
/// takes zero); an empty alphanumeric value is empty, and a longer one
/// overruns its buffer of eight characters; no action takes none.
pub open spec fn spec_auth_value_for(start: Start, draw: u32, r: Result<AuthValue, ParseError>) -> bool {
    match spec_auth_request(start) {
        AuthRequest::NoOOB => r matches Ok(AuthValue::NoOOB),
        AuthRequest::OutputEvents(_) => r matches Ok(AuthValue::OutputEvents(n)) && n == draw,
        AuthRequest::InputEvents(_) => r matches Ok(AuthValue::InputEvents(n)) && n == draw,
        AuthRequest::OutputNumeric(s) => r matches Ok(AuthValue::OutputNumeric(n)) && n == (if 1 <= s <= 8 { draw } else { 0 }),
        AuthRequest::InputNumeric(s) => r matches Ok(AuthValue::InputNumeric(n)) && n == (if 1 <= s <= 8 { draw } else { 0 }),
        AuthRequest::OutputAlphanumeric(s) => if s == 0 {
            r matches Ok(AuthValue::OutputAlphanumeric(c)) && c@.len() == 0
        } else {
            r == Err::<AuthValue, ParseError>(ParseError::InsufficientBuffer)
        },
        AuthRequest::InputAlphanumeric(s) => if s == 0 {
            r matches Ok(AuthValue::InputAlphanumeric(c)) && c@.len() == 0
        } else {
            r == Err::<AuthValue, ParseError>(ParseError::InsufficientBuffer)
        },
    }
}

/// Chooses the authentication value that a start asks for, from a random
/// draw that the request accepts.
pub fn determine_auth_value(start: &Start, draw: u32) -> (r: Result<AuthValue, ParseError>)
    requires
        spec_draw_accepted(spec_auth_request(*start), draw),
    ensures
        spec_auth_value_for(*start, draw, r),
        r matches Ok(a) ==> auth_value_wf(a),
{
    match auth_request(start) {
        AuthRequest::NoOOB => Ok(AuthValue::NoOOB),
        AuthRequest::OutputEvents(_) => Ok(AuthValue::OutputEvents(draw)),
        AuthRequest::InputEvents(_) => Ok(AuthValue::InputEvents(draw)),
        AuthRequest::OutputNumeric(s) => Ok(AuthValue::OutputNumeric(if 1 <= s && s <= 8 { draw } else { 0 })),
        AuthRequest::InputNumeric(s) => Ok(AuthValue::InputNumeric(if 1 <= s && s <= 8 { draw } else { 0 })),
        AuthRequest::OutputAlphanumeric(s) => if s == 0 {
            Ok(AuthValue::OutputAlphanumeric(Vec::new()))
        } else {
            Err(ParseError::InsufficientBuffer)
        },
        AuthRequest::InputAlphanumeric(s) => if s == 0 {
            Ok(AuthValue::InputAlphanumeric(Vec::new()))
        } else {
            Err(ParseError::InsufficientBuffer)
        },
    }
}

/// "prck", the tag of the confirmation key.
pub open spec fn prck() -> Seq<u8> {
    seq![0x70u8, 0x72u8, 0x63u8, 0x6bu8]
}

/// "prsk", the tag of the session key.
pub open spec fn prsk() -> Seq<u8> {
    seq![0x70u8, 0x72u8, 0x73u8, 0x6bu8]
}

/// "prsn", the tag of the session nonce.
pub open spec fn prsn() -> Seq<u8> {
    seq![0x70u8, 0x72u8, 0x73u8, 0x6eu8]
}

/// "prdk", the tag of the device key.
pub open spec fn prdk() -> Seq<u8> {
    seq![0x70u8, 0x72u8, 0x64u8, 0x6bu8]
}

/// The confirmation of `random`: AES-CMAC under the confirmation key
/// `k1(ECDH secret, s1(confirmation inputs), "prck")` of the random value
/// followed by the authentication value.
pub open spec fn spec_confirmation(transcript: Seq<u8>, secret: Seq<u8>, auth: AuthValue, random: Seq<u8>) -> Seq<u8> {
    cmac_aes128(k1(secret, s1(transcript), prck()), random + auth_value_bytes(auth))
}

/// The provisioning salt: `s1` of the confirmation salt and both random
/// values.
pub open spec fn spec_provisioning_salt(transcript: Seq<u8>, random_provisioner: Seq<u8>, random_device: Seq<u8>) -> Seq<u8> {
    s1(s1(transcript) + random_provisioner + random_device)
}

/// The device key that provisioning derives.
pub open spec fn spec_device_key(transcript: Seq<u8>, secret: Seq<u8>, random_provisioner: Seq<u8>, random_device: Seq<u8>) -> Seq<u8> {
    k1(secret, spec_provisioning_salt(transcript, random_provisioner, random_device), prdk())
}

/// The provisioning data decrypted under the session key and nonce, if its
/// integrity check holds.
pub open spec fn spec_data_plaintext(
    transcript: Seq<u8>,
    secret: Seq<u8>,
    random_provisioner: Seq<u8>,
    random_device: Seq<u8>,
    data: Data,
) -> Option<Seq<u8>> {
    let salt = spec_provisioning_salt(transcript, random_provisioner, random_device);
    ccm_open64(k1(secret, salt, prsk()), k1(secret, salt, prsn()).skip(3), Seq::empty(), data.encrypted@, data.mic@)
}

/// The state a phase of provisioning carries.
#[derive(Clone, Debug)]
pub struct Phase {
    pub transcript: Vec<u8>,
    pub capabilities: Capabilities,
    pub auth_value: AuthValue,
    pub shared_secret: [u8; 32],
    pub random_provisioner: [u8; 16],
    pub random_device: [u8; 16],
    pub public_key: PublicKey,
    pub confirmation_provider: [u8; 16],
    pub confirmation_device: [u8; 16],
}

/// A phase that carries nothing but its transcript and capabilities.
pub open spec fn is_fresh(p: Phase, transcript: Seq<u8>, capabilities: Capabilities) -> bool {
    &&& p.transcript@ == transcript
    &&& p.capabilities == capabilities
    &&& p.auth_value is NoOOB
    &&& p.shared_secret@ == zeros(32)
    &&& p.random_provisioner@ == zeros(16)
    &&& p.random_device@ == zeros(16)
    &&& p.public_key.x@ == zeros(32)
    &&& p.public_key.y@ == zeros(32)
    &&& p.confirmation_provider@ == zeros(16)
    &&& p.confirmation_device@ == zeros(16)
}

/// A phase with nothing but a transcript and capabilities.
fn fresh_phase(transcript: Vec<u8>, capabilities: Capabilities) -> (r: Phase)
    ensures
        is_fresh(r, transcript@, capabilities),
{
    let r = Phase {
        transcript,
        capabilities,
        auth_value: AuthValue::NoOOB,
        shared_secret: [0u8; 32],
        random_provisioner: [0u8; 16],
        random_device: [0u8; 16],
        public_key: PublicKey { x: [0u8; 32], y: [0u8; 32] },
        confirmation_provider: [0u8; 16],
        confirmation_device: [0u8; 16],
    };
    assert(r.shared_secret@ =~= zeros(32));
    assert(r.random_provisioner@ =~= zeros(16));
    assert(r.public_key.x@ =~= zeros(32));
    r
}

/// The capabilities of a fresh phase: all zero.
fn no_capabilities() -> (r: Capabilities)
    ensures
        r == (Capabilities {
            number_of_elements: 0,
            algorithms: 0,
            public_key_type: 0,
            static_oob_type: 0,
            output_oob_size: 0,
            output_oob_action: 0,
            input_oob_size: 0,
            input_oob_action: 0,
        }),
{
    Capabilities {
        number_of_elements: 0,
        algorithms: 0,
        public_key_type: 0,
        static_oob_type: 0,
        output_oob_size: 0,
        output_oob_action: 0,
        input_oob_size: 0,
        input_oob_action: 0,
    }
}

/// The confirmation of `random` in a phase.
pub(crate) fn confirmation_of(transcript: &Vec<u8>, shared_secret: &[u8; 32], auth_value: &AuthValue, random: &[u8; 16]) -> (r: [u8; 16])
    requires
        auth_value_wf(*auth_value),
    ensures
        r@ == spec_confirmation(transcript@, shared_secret@, *auth_value, random@),
{
    let salt = s1_of(transcript.as_slice());
    let tag: [u8; 4] = [0x70, 0x72, 0x63, 0x6b];
    assert(tag@ =~= prck());
    let key = k1_of(shared_secret, &salt, &tag);
    let mut bytes: Vec<u8> = Vec::new();
    append(&mut bytes, random);
    append(&mut bytes, &auth_value.get_bytes());
    aes_cmac(&key, bytes.as_slice())
}

/// The provisioning salt, the session key and the session nonce of a
/// provisioning.
pub(crate) fn session_of(transcript: &Vec<u8>, secret: &[u8; 32], random_provisioner: &[u8; 16], random_device: &[u8; 16]) -> (r: (
    [u8; 16],
    [u8; 16],
    [u8; 13],
))
    ensures
        r.0@ == spec_provisioning_salt(transcript@, random_provisioner@, random_device@),
        r.1@ == k1(secret@, r.0@, prsk()),
        r.2@ == k1(secret@, r.0@, prsn()).skip(3),
{
    let confirmation_salt = s1_of(transcript.as_slice());
    let mut salt_input: Vec<u8> = Vec::new();
    append(&mut salt_input, &confirmation_salt);
    append(&mut salt_input, random_provisioner);
    append(&mut salt_input, random_device);
    let salt = s1_of(salt_input.as_slice());
    let prsk_tag: [u8; 4] = [0x70, 0x72, 0x73, 0x6b];
    let prsn_tag: [u8; 4] = [0x70, 0x72, 0x73, 0x6e];
    assert(prsk_tag@ =~= prsk());
    assert(prsn_tag@ =~= prsn());
    let session_key = k1_of(secret, &salt, &prsk_tag);
    let n = k1_of(secret, &salt, &prsn_tag);
    let nonce: [u8; 13] = [n[3], n[4], n[5], n[6], n[7], n[8], n[9], n[10], n[11], n[12], n[13], n[14], n[15]];
    assert(nonce@ =~= n@.skip(3));
    (salt, session_key, nonce)
}

impl Phase {
    /// The confirmation of `random` under this phase's secret, transcript and
    /// authentication value.
    pub fn confirmation(&self, random: &[u8; 16]) -> (r: [u8; 16])
        requires
            auth_value_wf(self.auth_value),
        ensures
            r@ == spec_confirmation(self.transcript@, self.shared_secret@, self.auth_value, random@),
    {
        confirmation_of(&self.transcript, &self.shared_secret, &self.auth_value, random)
    }

    /// Decrypts the provisioning data: the device key and the 25 data bytes.
    pub fn decrypt(&self, data: &Data) -> (r: Result<(DeviceKey, Vec<u8>), DriverError>)
        ensures
            match spec_data_plaintext(self.transcript@, self.shared_secret@, self.random_provisioner@, self.random_device@, *data) {
                Some(p) => r matches Ok((k, d)) && d@ == p && d@.len() == 25 && k.0@ == spec_device_key(
                    self.transcript@,
                    self.shared_secret@,
                    self.random_provisioner@,
                    self.random_device@,
                ),
                None => r == Err::<(DeviceKey, Vec<u8>), DriverError>(DriverError::CryptoError),
            },
    {
        let (salt, session_key, nonce) = session_of(&self.transcript, &self.shared_secret, &self.random_provisioner, &self.random_device);
        let prdk_tag: [u8; 4] = [0x70, 0x72, 0x64, 0x6b];
        assert(prdk_tag@ =~= prdk());
        let empty: [u8; 0] = [];
        assert(empty@ =~= Seq::<u8>::empty());
        match ccm_decrypt64(&session_key, &nonce, &empty, &data.encrypted, &data.mic) {
            Some(plain) => {
                let device_key = k1_of(&self.shared_secret, &salt, &prdk_tag);
                Ok((DeviceKey(device_key), plain))
            },
            None => Err(DriverError::CryptoError),
        }
    }
}

/// The device's state in the provisioning protocol.
#[derive(Clone, Debug)]
pub enum Provisionee {
    Beaconing(Phase),
    Invitation(Phase),
    KeyExchange(Phase),
    Authentication(Phase),
    Confirming(Phase),
    DataDistribution(Phase),
    Complete(DeviceKey, ProvisioningData),
    Failure(ErrorCode),
}

/// The PDU the device answers with in each state: its capabilities once
/// invited, its public key once it has one, its confirmation, its random
/// value, the completion, or the failure; nothing while beaconing or
/// exchanging keys.
pub open spec fn spec_response(p: Provisionee) -> Option<ProvisioningPDU> {
    match p {
        Provisionee::Beaconing(_) => None,
        Provisionee::Invitation(ph) => Some(ProvisioningPDU::Capabilities(ph.capabilities)),
        Provisionee::KeyExchange(_) => None,
        Provisionee::Authentication(ph) => Some(ProvisioningPDU::PublicKey(ph.public_key)),
        Provisionee::Confirming(ph) => Some(ProvisioningPDU::Confirmation(Confirmation { confirmation: ph.confirmation_device })),
        Provisionee::DataDistribution(ph) => Some(ProvisioningPDU::Random(Random { random: ph.random_device })),
        Provisionee::Failure(ec) => Some(ProvisioningPDU::Failed(Failed { error_code: ec })),
        Provisionee::Complete(..) => Some(ProvisioningPDU::Complete),
    }
}

/// Whether provisioning has begun and not ended.
pub open spec fn spec_in_progress(p: Provisionee) -> bool {
    !(p is Beaconing || p is Complete || p is Failure)
}

/// The authentication values of a provisionee's phases hold at most eight
/// characters.
pub open spec fn provisionee_wf(p: Provisionee) -> bool {
    match p {
        Provisionee::Beaconing(ph) => auth_value_wf(ph.auth_value),
        Provisionee::Invitation(ph) => auth_value_wf(ph.auth_value),
        Provisionee::KeyExchange(ph) => auth_value_wf(ph.auth_value),
        Provisionee::Authentication(ph) => auth_value_wf(ph.auth_value),
        Provisionee::Confirming(ph) => auth_value_wf(ph.auth_value),
        Provisionee::DataDistribution(ph) => auth_value_wf(ph.auth_value),
        _ => true,
    }
}

/// Whether `p` carries the transcript, authentication value, secret and
/// provisioner's random value of `q`.
pub open spec fn keeps_secrets(p: Phase, q: Phase) -> bool {
    &&& p.transcript@ == q.transcript@
    &&& p.auth_value == q.auth_value
    &&& p.shared_secret == q.shared_secret
    &&& p.random_provisioner == q.random_provisioner
}

/// What the state machine does with a PDU in each state, given the random
/// draw that the start's authentication request accepted:
/// - an invitation to a beaconing device records the invitation and the
///   device's capabilities;
/// - a start records the start and chooses the authentication value;
/// - the provisioner's public key, where `p256` accepts it, records both
///   public keys and the secret shared with a fresh key pair; otherwise the
///   device fails with an invalid format;
/// - the provisioner's confirmation is kept, and the device draws its random
///   value and confirms it;
/// - the provisioner's random value is checked against its confirmation, and
///   the device fails where they differ;
/// - the provisioning data is decrypted and read, giving the device key;
/// - any other PDU leaves the state as it is.
pub open spec fn spec_next(p: Provisionee, pdu: ProvisioningPDU, draw: u32, r: Result<Provisionee, DriverError>) -> bool {
    match (p, pdu) {
        (Provisionee::Beaconing(ph), ProvisioningPDU::Invite(invite)) => r matches Ok(Provisionee::Invitation(n)) && is_fresh(
            n,
            ph.transcript@ + invite_bytes(invite) + capabilities_bytes(ph.capabilities),
            ph.capabilities,
        ),
        (Provisionee::Invitation(ph), ProvisioningPDU::Start(start)) => match r {
            Ok(Provisionee::KeyExchange(n)) => spec_auth_value_for(start, draw, Ok(n.auth_value)) && n.transcript@ == ph.transcript@
                + start_bytes(start) && n.capabilities == no_capabilities_spec() && n.shared_secret@ == zeros(32)
                && n.random_provisioner@ == zeros(16),
            Err(DriverError::Parse(e)) => spec_auth_value_for(start, draw, Err(e)),
            _ => false,
        },
        (Provisionee::KeyExchange(ph), ProvisioningPDU::PublicKey(peer)) => if p256_accepts(peer.x@, peer.y@) {
            r matches Ok(Provisionee::Authentication(n)) && n.transcript@ == ph.transcript@ + public_key_bytes(peer)
                + public_key_bytes(n.public_key) && n.auth_value == ph.auth_value && n.random_provisioner == ph.random_provisioner
                && agreed_under_some_key(n.shared_secret@, n.public_key.x@, n.public_key.y@, peer.x@, peer.y@)
        } else {
            r matches Ok(Provisionee::Failure(ErrorCode::InvalidFormat))
        },
        (Provisionee::Authentication(ph), ProvisioningPDU::Confirmation(c)) => r matches Ok(Provisionee::Confirming(n))
            && keeps_secrets(n, ph) && n.confirmation_provider == c.confirmation && n.confirmation_device@ == spec_confirmation(
            ph.transcript@,
            ph.shared_secret@,
            ph.auth_value,
            n.random_device@,
        ),
        (Provisionee::Confirming(ph), ProvisioningPDU::Random(rv)) => if ph.confirmation_provider@ == spec_confirmation(
            ph.transcript@,
            ph.shared_secret@,
            ph.auth_value,
            rv.random@,
        ) {
            r matches Ok(Provisionee::DataDistribution(n)) && n.transcript@ == ph.transcript@ && n.shared_secret == ph.shared_secret
                && n.random_provisioner == rv.random && n.random_device == ph.random_device
        } else {
            r matches Ok(Provisionee::Failure(ErrorCode::ConfirmationFailed))
        },
        (Provisionee::DataDistribution(ph), ProvisioningPDU::Data(data)) => match spec_data_plaintext(
            ph.transcript@,
            ph.shared_secret@,
            ph.random_provisioner@,
            ph.random_device@,
            data,
        ) {
            Some(plain) => r matches Ok(Provisionee::Complete(k, d)) && k.0@ == spec_device_key(
                ph.transcript@,
                ph.shared_secret@,
                ph.random_provisioner@,
                ph.random_device@,
            ) && provisioning_data_fields(d, plain),
            None => r == Err::<Provisionee, DriverError>(DriverError::CryptoError),
        },
        _ => r matches Ok(q) && q == p,
    }
}

/// The capabilities of a phase after the start: all zero.
pub open spec fn no_capabilities_spec() -> Capabilities {
    Capabilities {
        number_of_elements: 0,
        algorithms: 0,
        public_key_type: 0,
        static_oob_type: 0,
        output_oob_size: 0,
        output_oob_action: 0,
        input_oob_size: 0,
        input_oob_action: 0,
    }
}

impl Provisionee {
    /// A beaconing device with these capabilities.
    pub fn new(capabilities: Capabilities) -> (r: Provisionee)
        ensures
            r matches Provisionee::Beaconing(ph) && is_fresh(ph, Seq::empty(), capabilities),
            provisionee_wf(r),
    {
        let t: Vec<u8> = Vec::new();
        Provisionee::Beaconing(fresh_phase(t, capabilities))
    }

    /// Whether provisioning has begun and not ended.
    pub fn in_progress(&self) -> (r: bool)
        ensures
            r == spec_in_progress(*self),
    {
        match self {
            Provisionee::Beaconing(..) | Provisionee::Complete(..) | Provisionee::Failure(..) => false,
            _ => true,
        }
    }

    /// The PDU the device answers with in its state.
    pub fn response(&self) -> (r: Option<ProvisioningPDU>)
        ensures
            r == spec_response(*self),
    {
        match self {
            Provisionee::Beaconing(_) => None,
            Provisionee::Invitation(ph) => Some(ProvisioningPDU::Capabilities(ph.capabilities)),
            Provisionee::KeyExchange(_) => None,
            Provisionee::Authentication(ph) => Some(ProvisioningPDU::PublicKey(ph.public_key)),
            Provisionee::Confirming(ph) => Some(ProvisioningPDU::Confirmation(Confirmation { confirmation: ph.confirmation_device })),
            Provisionee::DataDistribution(ph) => Some(ProvisioningPDU::Random(Random { random: ph.random_device })),
            Provisionee::Failure(ec) => Some(ProvisioningPDU::Failed(Failed { error_code: *ec })),
            Provisionee::Complete(..) => Some(ProvisioningPDU::Complete),
        }
    }

    /// Moves the state machine on with a PDU from the provisioner; `draw` is
    /// a random number that the authentication request of a start accepts.
    pub fn next(self, pdu: &ProvisioningPDU, draw: u32) -> (r: Result<Provisionee, DriverError>)
        requires
            provisionee_wf(self),
            (self is Invitation && pdu is Start) ==> spec_draw_accepted(spec_auth_request(pdu->Start_0), draw),
        ensures
            spec_next(self, *pdu, draw, r),
            r matches Ok(q) ==> provisionee_wf(q),
    {
        match self {
            Provisionee::Beaconing(phase) => match pdu {
                ProvisioningPDU::Invite(invite) => {
                    let mut transcript = phase.transcript;
                    invite.emit(&mut transcript);
                    phase.capabilities.emit(&mut transcript);
                    Ok(Provisionee::Invitation(fresh_phase(transcript, phase.capabilities)))
                },
                _ => Ok(Provisionee::Beaconing(phase)),
            },
            Provisionee::Invitation(phase) => match pdu {
                ProvisioningPDU::Start(start) => {
                    let mut transcript = phase.transcript;
                    start.emit(&mut transcript);
                    match determine_auth_value(start, draw) {
                        Ok(auth_value) => {
                            let mut next = fresh_phase(transcript, no_capabilities());
                            next.auth_value = auth_value;
                            Ok(Provisionee::KeyExchange(next))
                        },
                        Err(e) => Err(DriverError::Parse(e)),
                    }
                },
                _ => Ok(Provisionee::Invitation(phase)),
            },
            Provisionee::KeyExchange(phase) => match pdu {
                ProvisioningPDU::PublicKey(peer) => match agree_fresh(&peer.x, &peer.y) {
                    Some((secret, x, y)) => {
                        let ours = PublicKey { x, y };
                        let mut transcript = phase.transcript;
                        peer.emit(&mut transcript);
                        ours.emit(&mut transcript);
                        let mut next = fresh_phase(transcript, no_capabilities());
                        next.auth_value = phase.auth_value;
                        next.shared_secret = secret;
                        next.random_provisioner = phase.random_provisioner;
                        next.public_key = ours;
                        Ok(Provisionee::Authentication(next))
                    },
                    None => Ok(Provisionee::Failure(ErrorCode::InvalidFormat)),
                },
                _ => Ok(Provisionee::KeyExchange(phase)),
            },
            Provisionee::Authentication(phase) => match pdu {
                ProvisioningPDU::Confirmation(value) => {
                    let random_device = random_bytes16();
                    let confirmation_device = phase.confirmation(&random_device);
                    let mut next = fresh_phase(phase.transcript, no_capabilities());
                    next.auth_value = phase.auth_value;
                    next.shared_secret = phase.shared_secret;
                    next.random_provisioner = phase.random_provisioner;
                    next.confirmation_provider = value.confirmation;
                    next.random_device = random_device;
                    next.confirmation_device = confirmation_device;
                    Ok(Provisionee::Confirming(next))
                },
                _ => Ok(Provisionee::Authentication(phase)),
            },
            Provisionee::Confirming(phase) => match pdu {
                ProvisioningPDU::Random(value) => {
                    let confirmation = phase.confirmation(&value.random);
                    if same16(&confirmation, &phase.confirmation_provider) {
                        let mut next = fresh_phase(phase.transcript, no_capabilities());
                        next.shared_secret = phase.shared_secret;
                        next.random_provisioner = value.random;
                        next.random_device = phase.random_device;
                        Ok(Provisionee::DataDistribution(next))
                    } else {
                        Ok(Provisionee::Failure(ErrorCode::ConfirmationFailed))
                    }
                },
                _ => Ok(Provisionee::Confirming(phase)),
            },
            Provisionee::DataDistribution(phase) => match pdu {
                ProvisioningPDU::Data(data) => match phase.decrypt(data) {
                    Ok((device_key, plain)) => match ProvisioningData::parse(plain.as_slice()) {
                        Ok(d) => Ok(Provisionee::Complete(device_key, d)),
                        Err(e) => Err(DriverError::Parse(e)),
                    },
                    Err(e) => Err(e),
                },
                _ => Ok(Provisionee::DataDistribution(phase)),
            },
            Provisionee::Complete(k, d) => Ok(Provisionee::Complete(k, d)),
            Provisionee::Failure(ec) => Ok(Provisionee::Failure(ec)),
        }
    }
}

/// Agrees a secret with the peer's public key under a fresh key pair: the
/// secret and the fresh public key's coordinates, where `p256` accepts the
/// peer's key.
fn agree_fresh(peer_x: &[u8; 32], peer_y: &[u8; 32]) -> (r: Option<([u8; 32], [u8; 32], [u8; 32])>)
    ensures
        r is Some <==> p256_accepts(peer_x@, peer_y@),
        r matches Some((s, x, y)) ==> agreed_under_some_key(s@, x@, y@, peer_x@, peer_y@),
{
    let (private, x, y) = p256_key_pair();
    match p256_agree(&private, peer_x, peer_y) {
        Some(secret) => {
            assert(agreed_with(private@, secret@, x@, y@, peer_x@, peer_y@));
            Some((secret, x, y))
        },
        None => None,
    }
}

/// Whether `secret` is the secret that the private key `k` agrees with the
/// peer's key, and `(x, y)` the public key of `k`.
pub open spec fn agreed_with(k: Seq<u8>, secret: Seq<u8>, x: Seq<u8>, y: Seq<u8>, peer_x: Seq<u8>, peer_y: Seq<u8>) -> bool {
    &&& p256_secret_accepts(k)
    &&& secret == p256_shared(k, peer_x, peer_y)
    &&& (x, y) == p256_public(k)
}

/// Whether some private key that `p256` accepts agrees `secret` with the
/// peer's key and has the public key `(x, y)`.
pub open spec fn agreed_under_some_key(secret: Seq<u8>, x: Seq<u8>, y: Seq<u8>, peer_x: Seq<u8>, peer_y: Seq<u8>) -> bool {
    exists|k: Seq<u8>| #[trigger] agreed_with(k, secret, x, y, peer_x, peer_y)
}

/// Whether two 16-byte values are the same.
pub(crate) fn same16(a: &[u8; 16], b: &[u8; 16]) -> (r: bool)
    ensures
        r == (a@ == b@),
{
    let mut i: usize = 0;
    while i < 16
        invariant
            i <= 16,
            forall|j: int| 0 <= j < i ==> a@[j] == b@[j],
        decreases 16 - i,
    {
        if a[i] != b[i] {
            return false;
        }
        i = i + 1;
    }
    assert(a@ =~= b@);
    true
}

/// What processing a provisioning PDU gives the caller: a PDU to answer with,
/// the outcome of a completed provisioning with the completion to answer
/// with, or a failure.
#[derive(Clone, Debug)]
pub enum ProvisioningState {
    Response(ProvisioningPDU),
    Data(DeviceKey, ProvisioningData, ProvisioningPDU),
    Failed,
}

/// The state of a device that is not yet provisioned: its provisioning state
/// machine, the hash of the last PDU it answered, and the deadline of its
/// next beacon.
pub struct UnprovisionedStack {
    pub provisionee: Option<Provisionee>,
    pub last_transmit_hash: Option<u64>,
    pub beacon: Deadline,
}

/// The period of the beacons, in milliseconds.
pub const BEACON_PERIOD: u64 = 3000;

/// How long an unprovisioned device waits before sending its answer again,
/// in milliseconds.
pub const PROVISIONING_RETRANSMIT_DELAY: u64 = 1000;

impl UnprovisionedStack {
    pub open spec fn wf(&self) -> bool {
        self.provisionee matches Some(p) ==> provisionee_wf(p)
    }

    /// A beaconing device with these capabilities.
    pub fn new(capabilities: Capabilities) -> (r: UnprovisionedStack)
        ensures
            r.wf(),
            r.provisionee matches Some(Provisionee::Beaconing(ph)) && is_fresh(ph, Seq::empty(), capabilities),
            r.last_transmit_hash is None,
            r.beacon == (Deadline { every: BEACON_PERIOD, at: 0 }),
    {
        UnprovisionedStack {
            provisionee: Some(Provisionee::new(capabilities)),
            last_transmit_hash: None,
            beacon: Deadline { every: BEACON_PERIOD, at: 0 },
        }
    }

    /// When to send the next beacon: none while provisioning is under way,
    /// else when the beacon deadline fires.
    pub fn next_beacon_deadline(&self, now: u64) -> (r: Option<u64>)
        ensures
            r == (if self.provisionee matches Some(p) && spec_in_progress(p) {
                None
            } else {
                Some(if self.beacon.at <= now { now } else { self.beacon.at })
            }),
    {
        if self.in_progress() {
            None
        } else {
            Some(self.beacon.next(now))
        }
    }

    /// How long to wait before sending the answer again: a second while
    /// provisioning is under way, else nothing is sent again.
    pub fn next_retransmit(&self) -> (r: Option<u64>)
        ensures
            r == (if self.provisionee matches Some(p) && spec_in_progress(p) {
                Some(PROVISIONING_RETRANSMIT_DELAY)
            } else {
                None
            }),
    {
        if self.in_progress() {
            Some(PROVISIONING_RETRANSMIT_DELAY)
        } else {
            None
        }
    }

    /// Whether provisioning has begun and not ended.
    pub fn in_progress(&self) -> (r: bool)
        ensures
            r == (self.provisionee matches Some(p) && spec_in_progress(p)),
    {
        match &self.provisionee {
            Some(p) => p.in_progress(),
            None => false,
        }
    }

    /// The PDU to send again.
    pub fn retransmit(&self) -> (r: Option<ProvisioningPDU>)
        ensures
            r == (match self.provisionee {
                Some(p) => spec_response(p),
                None => None,
            }),
    {
        match &self.provisionee {
            Some(p) => p.response(),
            None => None,
        }
    }

    /// Processes a provisioning PDU. A PDU with the hash of the last one
    /// answered is answered again without moving the state machine; else the
    /// state machine moves on (and is lost where it fails), and the caller
    /// gets the outcome of a completed or failed provisioning, or the answer
    /// of the new state, whose PDU's hash is then remembered.
    pub fn process(&mut self, pdu: &ProvisioningPDU, draw: u32) -> (r: Result<Option<ProvisioningState>, DriverError>)
        requires
            old(self).wf(),
            (old(self).provisionee matches Some(p) && p is Invitation && pdu is Start
                && old(self).last_transmit_hash != Some(fnv(pdu_bytes(*pdu)))) ==> spec_draw_accepted(
                spec_auth_request(pdu->Start_0),
                draw,
            ),
        ensures
            final(self).wf(),
            final(self).beacon == old(self).beacon,
            ({
                let hash = fnv(pdu_bytes(*pdu));
                match (old(self).last_transmit_hash, old(self).provisionee) {
                    (Some(last), Some(p)) if last == hash => final(self).provisionee == old(self).provisionee
                        && final(self).last_transmit_hash == old(self).last_transmit_hash && match spec_response(p) {
                        Some(resp) => r matches Ok(Some(ProvisioningState::Response(q))) && q == resp,
                        None => r == Err::<Option<ProvisioningState>, DriverError>(DriverError::InvalidState),
                    },
                    (_, None) => r == Err::<Option<ProvisioningState>, DriverError>(DriverError::InvalidState)
                        && final(self).provisionee is None && final(self).last_transmit_hash == old(self).last_transmit_hash,
                    (_, Some(p)) => match final(self).provisionee {
                        None => (r matches Err(e) && spec_next(p, *pdu, draw, Err(e)))
                            && final(self).last_transmit_hash == old(self).last_transmit_hash,
                        Some(q) => spec_next(p, *pdu, draw, Ok(q)) && match q {
                            Provisionee::Complete(k, d) => r matches Ok(Some(ProvisioningState::Data(k2, d2, resp)))
                                && k2 == k && d2 == d && resp == ProvisioningPDU::Complete
                                && final(self).last_transmit_hash == old(self).last_transmit_hash,
                            Provisionee::Failure(_) => r matches Ok(Some(ProvisioningState::Failed))
                                && final(self).last_transmit_hash == old(self).last_transmit_hash,
                            _ => match spec_response(q) {
                                Some(resp) => r matches Ok(Some(ProvisioningState::Response(x))) && x == resp
                                    && final(self).last_transmit_hash == Some(hash),
                                None => r matches Ok(None) && final(self).last_transmit_hash is None,
                            },
                        },
                    },
                }
            }),
    {
        let bytes = pdu.emit();
        let hash = hash_of(bytes.as_slice());
        if let (Some(last_hash), Some(fsm)) = (self.last_transmit_hash, &self.provisionee) {
            if last_hash == hash {
                return match fsm.response() {
                    Some(resp) => Ok(Some(ProvisioningState::Response(resp))),
                    None => Err(DriverError::InvalidState),
                };
            }
        }
        let current = match self.provisionee.take() {
            Some(p) => p,
            None => return Err(DriverError::InvalidState),
        };
        let next = match current.next(pdu, draw) {
            Ok(n) => n,
            Err(e) => return Err(e),
        };
        let outcome = match &next {
            Provisionee::Complete(device_key, data) => Some(ProvisioningState::Data(*device_key, *data, ProvisioningPDU::Complete)),
            Provisionee::Failure(..) => Some(ProvisioningState::Failed),
            _ => None,
        };
        let response = next.response();
        self.provisionee = Some(next);
        match outcome {
            Some(o) => Ok(Some(o)),
            None => match response {
                Some(resp) => {
                    self.last_transmit_hash = Some(hash);
                    Ok(Some(ProvisioningState::Response(resp)))
                },
                None => {
                    self.last_transmit_hash = None;
                    Ok(None)
                },
            },
        }
    }
}

} // verus!
