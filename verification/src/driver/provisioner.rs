//! The provisioner's side of provisioning: it invites a device, exchanges
//! public keys, checks the device's confirmation and hands it the
//! provisioning data, encrypted.

use vstd::prelude::*;
use crate::crypto::{ccm_encrypt64, ccm_seal64, p256_accepts, p256_agree, p256_key_pair, p256_public, p256_secret_accepts, p256_shared, random_bytes16};
use crate::driver::provisionee::{
    agreed_under_some_key, agreed_with, auth_value_wf, confirmation_of, determine_auth_value, is_fresh, keeps_secrets, prsk, prsn, same16, session_of, spec_auth_request,
    spec_confirmation, spec_data_plaintext, spec_next, spec_provisioning_salt, spec_response, AuthValue, Provisionee,
};
use crate::driver::provisioning_pdu::{
    capabilities_bytes, invite_bytes, lemma_provisioning_data_roundtrip, provisioning_data_bytes, provisioning_data_fields, public_key_bytes,
    start_bytes, Capabilities, Confirmation, Data, ErrorCode, Failed, Invite, OOBAction, OOBSize, ProvisioningData,
    ProvisioningPDU, PublicKey, Random, Start,
};
use crate::error::DriverError;
use crate::keys::k1;

verus! {

/// What the provisioner sends in answer: two PDUs, one, or none.
#[derive(Copy, Clone, Debug)]
pub enum ResponsePDU {
    Two([ProvisioningPDU; 2]),
    One(ProvisioningPDU),
    Empty,
}

/// The PDUs of a response, in the order they are sent.
pub open spec fn response_pdus(r: ResponsePDU) -> Seq<ProvisioningPDU> {
    match r {
        ResponsePDU::Two(a) => a@,
        ResponsePDU::One(p) => seq![p],
        ResponsePDU::Empty => Seq::empty(),
    }
}

impl ResponsePDU {
    /// The PDUs of the response, in the order they are sent.
    pub fn pdus(&self) -> (r: Vec<ProvisioningPDU>)
        ensures
            r@ == response_pdus(*self),
    {
        let mut r: Vec<ProvisioningPDU> = Vec::new();
        match self {
            ResponsePDU::Two(a) => {
                r.push(a[0]);
                r.push(a[1]);
                assert(r@ =~= a@);
            },
            ResponsePDU::One(p) => {
                r.push(*p);
                assert(r@ =~= seq![*p]);
            },
            ResponsePDU::Empty => {
                assert(r@ =~= Seq::<ProvisioningPDU>::empty());
            },
        }
        r
    }
}

/// The start the provisioner sends: every field at its default, so no
/// out-of-band authentication.
pub open spec fn default_start() -> Start {
    Start {
        algorithm: 0,
        public_key: 0,
        authentication_method: 0,
        authentication_action: OOBAction::NoAction,
        authentication_size: OOBSize::NotSupported,
    }
}

fn default_start_of() -> (r: Start)
    ensures
        r == default_start(),
{
    Start {
        algorithm: 0,
        public_key: 0,
        authentication_method: 0,
        authentication_action: OOBAction::NoAction,
        authentication_size: OOBSize::NotSupported,
    }
}

/// The encrypted provisioning data and its integrity check: AES-CCM under
/// the session key and nonce of the provisioning.
pub open spec fn spec_data_sealed(
    transcript: Seq<u8>,
    secret: Seq<u8>,
    random_provisioner: Seq<u8>,
    random_device: Seq<u8>,
    data: ProvisioningData,
) -> (Seq<u8>, Seq<u8>) {
    let salt = spec_provisioning_salt(transcript, random_provisioner, random_device);
    ccm_seal64(k1(secret, salt, prsk()), k1(secret, salt, prsn()).skip(3), Seq::empty(), provisioning_data_bytes(data))
}

/// The state a phase of provisioning carries on the provisioner's side: the
/// PDUs it answers with, the transcript of the confirmation inputs, the data
/// to hand out, the authentication value, its private key (as bytes) and
/// public key, the shared secret, both random values, and the device's
/// confirmation once it came.
#[derive(Clone, Debug)]
pub struct Phase {
    pub response: ResponsePDU,
    pub transcript: Vec<u8>,
    pub data: ProvisioningData,
    pub auth_value: AuthValue,
    pub private: [u8; 32],
    pub public_key: PublicKey,
    pub shared_secret: [u8; 32],
    pub random_provisioner: [u8; 16],
    pub random_device: [u8; 16],
    pub confirmation: Option<[u8; 16]>,
}

impl Phase {
    /// The confirmation of `random` under this phase's secret, transcript and
    /// authentication value.
    pub fn confirm(&self, random: &[u8; 16]) -> (r: [u8; 16])
        requires
            auth_value_wf(self.auth_value),
        ensures
            r@ == spec_confirmation(self.transcript@, self.shared_secret@, self.auth_value, random@),
    {
        confirmation_of(&self.transcript, &self.shared_secret, &self.auth_value, random)
    }

    /// Encrypts the provisioning data under the session key and nonce; the
    /// session decrypts it back to the data's bytes.
    pub fn encrypt(&self) -> (r: Result<Data, DriverError>)
        ensures
            r matches Ok(d) && (d.encrypted@, d.mic@) == spec_data_sealed(
                self.transcript@,
                self.shared_secret@,
                self.random_provisioner@,
                self.random_device@,
                self.data,
            ) && spec_data_plaintext(self.transcript@, self.shared_secret@, self.random_provisioner@, self.random_device@, d)
                == Some(provisioning_data_bytes(self.data)),
    {
        let (_salt, session_key, nonce) = session_of(&self.transcript, &self.shared_secret, &self.random_provisioner, &self.random_device);
        let mut plain: Vec<u8> = Vec::new();
        self.data.emit(&mut plain);
        proof {
            lemma_provisioning_data_roundtrip(self.data);
            assert(plain@ =~= provisioning_data_bytes(self.data));
        }
        let empty: [u8; 0] = [];
        assert(empty@ =~= Seq::<u8>::empty());
        match ccm_encrypt64(&session_key, &nonce, &empty, plain.as_slice()) {
            Some((c, mic)) => {
                let mut encrypted = [0u8; 25];
                let mut i: usize = 0;
                while i < 25
                    invariant
                        c@.len() == 25,
                        i <= 25,
                        forall|j: int| 0 <= j < i ==> encrypted@[j] == c@[j],
                    decreases 25 - i,
                {
                    encrypted[i] = c[i];
                    i = i + 1;
                }
                assert(encrypted@ =~= c@);
                Ok(Data { encrypted, mic })
            },
            None => Err(DriverError::CryptoError),
        }
    }
}

/// The provisioner's state in the provisioning protocol.
#[derive(Clone, Debug)]
pub enum Provisioner {
    Invitation(Phase),
    KeyExchange(Phase),
    Authentication(Phase),
    DataDistribution(Phase),
    Success,
    Failure(ResponsePDU),
}

/// The authentication value of each phase holds at most eight characters,
/// and a provisioner exchanging keys holds a private key that `p256`
/// accepts.
pub open spec fn provisioner_wf(p: Provisioner) -> bool {
    match p {
        Provisioner::Invitation(ph) => auth_value_wf(ph.auth_value),
        Provisioner::KeyExchange(ph) => auth_value_wf(ph.auth_value) && p256_secret_accepts(ph.private@),
        Provisioner::Authentication(ph) => auth_value_wf(ph.auth_value),
        Provisioner::DataDistribution(ph) => auth_value_wf(ph.auth_value),
        _ => true,
    }
}

/// The PDUs the provisioner answers with in each state.
pub open spec fn spec_provisioner_response(p: Provisioner) -> ResponsePDU {
    match p {
        Provisioner::Invitation(ph) => ph.response,
        Provisioner::KeyExchange(ph) => ph.response,
        Provisioner::Authentication(ph) => ph.response,
        Provisioner::DataDistribution(ph) => ph.response,
        Provisioner::Failure(r) => r,
        Provisioner::Success => ResponsePDU::Empty,
    }
}

/// The failure that the provisioner answers with.
pub open spec fn failure(e: ErrorCode) -> Provisioner {
    Provisioner::Failure(ResponsePDU::One(ProvisioningPDU::Failed(Failed { error_code: e })))
}

/// What the provisioner does with a PDU from the device in each state:
/// - the device's capabilities are recorded with the default start, which
///   asks for no authentication value; a fresh key pair is drawn, and the
///   start and the public key are sent;
/// - the device's public key, where `p256` accepts it, gives the shared
///   secret, the one the device agrees under the private key of that public
///   key; both public keys are recorded (the provisioner's first), a random
///   value is drawn and its confirmation is sent; a refused key is answered
///   with an invalid-format failure;
/// - the device's confirmation is kept, and the provisioner's random value is
///   sent;
/// - the device's random value is checked against its confirmation: where
///   they agree, the provisioning data is sent, encrypted; otherwise the
///   provisioner answers with a confirmation failure;
/// - the completion ends provisioning;
/// - any other PDU leaves the state as it is.
pub open spec fn spec_provisioner_next(p: Provisioner, pdu: ProvisioningPDU, r: Result<Provisioner, DriverError>) -> bool {
    match (p, pdu) {
        (Provisioner::Invitation(ph), ProvisioningPDU::Capabilities(caps)) => r matches Ok(Provisioner::KeyExchange(n))
            && n.transcript@ == ph.transcript@ + capabilities_bytes(caps) + start_bytes(default_start())
            && n.auth_value is NoOOB && p256_secret_accepts(n.private@) && n.data == ph.data
            && (n.public_key.x@, n.public_key.y@) == p256_public(n.private@)
            && n.response is Two && response_pdus(n.response) == seq![
            ProvisioningPDU::Start(default_start()),
            ProvisioningPDU::PublicKey(n.public_key),
        ],
        (Provisioner::KeyExchange(ph), ProvisioningPDU::PublicKey(peer)) => if p256_accepts(peer.x@, peer.y@) {
            r matches Ok(Provisioner::Authentication(n)) && n.shared_secret@ == p256_shared(ph.private@, peer.x@, peer.y@)
                && (forall|k: Seq<u8>| p256_secret_accepts(k) && (peer.x@, peer.y@) == p256_public(k)
                ==> #[trigger] p256_shared(k, p256_public(ph.private@).0, p256_public(ph.private@).1) == n.shared_secret@)
                && n.transcript@ == ph.transcript@ + public_key_bytes(ph.public_key) + public_key_bytes(peer)
                && n.auth_value == ph.auth_value && n.data == ph.data && n.confirmation is None
                && (n.response matches ResponsePDU::One(ProvisioningPDU::Confirmation(c)) && c.confirmation@
                == spec_confirmation(n.transcript@, n.shared_secret@, n.auth_value, n.random_provisioner@))
        } else {
            r == Ok::<Provisioner, DriverError>(failure(ErrorCode::InvalidFormat))
        },
        (Provisioner::Authentication(ph), ProvisioningPDU::Confirmation(c)) => r == Ok::<Provisioner, DriverError>(
            Provisioner::Authentication(
                Phase {
                    confirmation: Some(c.confirmation),
                    response: ResponsePDU::One(ProvisioningPDU::Random(Random { random: ph.random_provisioner })),
                    ..ph
                },
            ),
        ),
        (Provisioner::Authentication(ph), ProvisioningPDU::Random(v)) => if ph.confirmation matches Some(c) && c@
            == spec_confirmation(ph.transcript@, ph.shared_secret@, ph.auth_value, v.random@) {
            r matches Ok(Provisioner::DataDistribution(n)) && n.transcript@ == ph.transcript@
                && n.shared_secret == ph.shared_secret && n.random_provisioner == ph.random_provisioner
                && n.random_device == v.random && n.data == ph.data && n.auth_value == ph.auth_value
                && (n.response matches ResponsePDU::One(ProvisioningPDU::Data(d)) && (d.encrypted@, d.mic@)
                == spec_data_sealed(ph.transcript@, ph.shared_secret@, ph.random_provisioner@, v.random@, ph.data)
                && spec_data_plaintext(ph.transcript@, ph.shared_secret@, ph.random_provisioner@, v.random@, d)
                == Some(provisioning_data_bytes(ph.data)))
        } else {
            r == Ok::<Provisioner, DriverError>(failure(ErrorCode::ConfirmationFailed))
        },
        (Provisioner::DataDistribution(_), ProvisioningPDU::Complete) => r == Ok::<Provisioner, DriverError>(
            Provisioner::Success,
        ),
        _ => r == Ok::<Provisioner, DriverError>(p),
    }
}

impl Provisioner {
    /// A provisioner about to invite a device to take `data`, asking it to
    /// draw attention for `attention_duration` seconds.
    pub fn new(data: ProvisioningData, attention_duration: u8) -> (r: Result<Provisioner, DriverError>)
        ensures
            r matches Ok(Provisioner::Invitation(ph)) && ph.transcript@ == invite_bytes(Invite { attention_duration })
                && ph.data == data && ph.auth_value is NoOOB && ph.confirmation is None && ph.response
                == ResponsePDU::One(ProvisioningPDU::Invite(Invite { attention_duration })),
            r matches Ok(p) ==> provisioner_wf(p),
    {
        let invitation = Invite { attention_duration };
        let mut transcript: Vec<u8> = Vec::new();
        invitation.emit(&mut transcript);
        Ok(Provisioner::Invitation(Phase {
            response: ResponsePDU::One(ProvisioningPDU::Invite(invitation)),
            transcript,
            data,
            auth_value: AuthValue::NoOOB,
            private: [0u8; 32],
            public_key: PublicKey { x: [0u8; 32], y: [0u8; 32] },
            shared_secret: [0u8; 32],
            random_provisioner: [0u8; 16],
            random_device: [0u8; 16],
            confirmation: None,
        }))
    }

    /// The PDUs the provisioner answers with in its state.
    pub fn response(&self) -> (r: ResponsePDU)
        ensures
            r == spec_provisioner_response(*self),
    {
        match self {
            Provisioner::Invitation(ph) => ph.response,
            Provisioner::KeyExchange(ph) => ph.response,
            Provisioner::Authentication(ph) => ph.response,
            Provisioner::DataDistribution(ph) => ph.response,
            Provisioner::Failure(r) => *r,
            Provisioner::Success => ResponsePDU::Empty,
        }
    }

    fn fail(error_code: ErrorCode) -> (r: Result<Provisioner, DriverError>)
        ensures
            r == Ok::<Provisioner, DriverError>(failure(error_code)),
    {
        Ok(Provisioner::Failure(ResponsePDU::One(ProvisioningPDU::Failed(Failed { error_code }))))
    }

    /// Moves the state machine on with a PDU from the device.
    pub fn next(self, pdu: &ProvisioningPDU) -> (r: Result<Provisioner, DriverError>)
        requires
            provisioner_wf(self),
        ensures
            spec_provisioner_next(self, *pdu, r),
            r matches Ok(q) ==> provisioner_wf(q),
    {
        match self {
            Provisioner::Invitation(phase) => match pdu {
                ProvisioningPDU::Capabilities(caps) => {
                    let mut phase = phase;
                    caps.emit(&mut phase.transcript);
                    let start = default_start_of();
                    start.emit(&mut phase.transcript);
                    assert(spec_auth_request(start) is NoOOB);
                    let auth_value = match determine_auth_value(&start, 0) {
                        Ok(a) => a,
                        Err(e) => return Err(DriverError::Parse(e)),
                    };
                    let (private, x, y) = p256_key_pair();
                    let public_key = PublicKey { x, y };
                    phase.auth_value = auth_value;
                    phase.private = private;
                    phase.public_key = public_key;
                    let pair = [ProvisioningPDU::Start(start), ProvisioningPDU::PublicKey(public_key)];
                    assert(pair@ =~= seq![ProvisioningPDU::Start(start), ProvisioningPDU::PublicKey(public_key)]);
                    phase.response = ResponsePDU::Two(pair);
                    Ok(Provisioner::KeyExchange(phase))
                },
                _ => Ok(Provisioner::Invitation(phase)),
            },
            Provisioner::KeyExchange(phase) => match pdu {
                ProvisioningPDU::PublicKey(peer) => match p256_agree(&phase.private, &peer.x, &peer.y) {
                    Some(secret) => {
                        let mut phase = phase;
                        phase.shared_secret = secret;
                        phase.confirmation = None;
                        phase.public_key.emit(&mut phase.transcript);
                        peer.emit(&mut phase.transcript);
                        phase.random_provisioner = random_bytes16();
                        let confirmation = phase.confirm(&phase.random_provisioner);
                        phase.response = ResponsePDU::One(ProvisioningPDU::Confirmation(Confirmation { confirmation }));
                        Ok(Provisioner::Authentication(phase))
                    },
                    None => Provisioner::fail(ErrorCode::InvalidFormat),
                },
                _ => Ok(Provisioner::KeyExchange(phase)),
            },
            Provisioner::Authentication(phase) => match pdu {
                ProvisioningPDU::Confirmation(value) => {
                    let mut phase = phase;
                    phase.confirmation = Some(value.confirmation);
                    phase.response = ResponsePDU::One(ProvisioningPDU::Random(Random { random: phase.random_provisioner }));
                    Ok(Provisioner::Authentication(phase))
                },
                ProvisioningPDU::Random(value) => {
                    let confirmation = phase.confirm(&value.random);
                    let agrees = match &phase.confirmation {
                        Some(c) => same16(c, &confirmation),
                        None => false,
                    };
                    if agrees {
                        let mut phase = phase;
                        phase.random_device = value.random;
                        match phase.encrypt() {
                            Ok(data) => {
                                phase.response = ResponsePDU::One(ProvisioningPDU::Data(data));
                                Ok(Provisioner::DataDistribution(phase))
                            },
                            Err(e) => Err(e),
                        }
                    } else {
                        Provisioner::fail(ErrorCode::ConfirmationFailed)
                    }
                },
                _ => Ok(Provisioner::Authentication(phase)),
            },
            Provisioner::DataDistribution(phase) => match pdu {
                ProvisioningPDU::Complete => Ok(Provisioner::Success),
                _ => Ok(Provisioner::DataDistribution(phase)),
            },
            Provisioner::Success => Ok(Provisioner::Success),
            Provisioner::Failure(r) => Ok(Provisioner::Failure(r)),
        }
    }
}

/// A provisioner and a device that exchange the invitation, the
/// capabilities, the start and both public keys, each taking the other's
/// PDUs, build the same confirmation inputs, choose the same (empty)
/// authentication value and agree the same secret; they thus compute the
/// same confirmations.
pub proof fn lemma_transcripts_agree(
    attention_duration: u8,
    data: ProvisioningData,
    capabilities: Capabilities,
    draw: u32,
    p0: Provisioner,
    p1: Provisioner,
    p2: Provisioner,
    d0: Provisionee,
    d1: Provisionee,
    d2: Provisionee,
    d3: Provisionee,
)
    requires
        p0 matches Provisioner::Invitation(ph) && ph.transcript@ == invite_bytes(Invite { attention_duration })
            && ph.response == ResponsePDU::One(ProvisioningPDU::Invite(Invite { attention_duration })),
        d0 matches Provisionee::Beaconing(dph) && is_fresh(dph, Seq::empty(), capabilities),
        spec_next(d0, ProvisioningPDU::Invite(Invite { attention_duration }), draw, Ok(d1)),
        spec_provisioner_next(p0, ProvisioningPDU::Capabilities(capabilities), Ok(p1)),
        p1 matches Provisioner::KeyExchange(ph1) && spec_next(d1, ProvisioningPDU::Start(default_start()), draw, Ok(d2))
            && spec_next(d2, ProvisioningPDU::PublicKey(ph1.public_key), draw, Ok(d3)),
        d3 matches Provisionee::Authentication(dph3) && spec_provisioner_next(
            p1,
            ProvisioningPDU::PublicKey(dph3.public_key),
            Ok(p2),
        ),
        p2 is Authentication,
    ensures
        p2->Authentication_0.transcript@ == d3->Authentication_0.transcript@,
        p2->Authentication_0.auth_value == d3->Authentication_0.auth_value,
        p2->Authentication_0.shared_secret == d3->Authentication_0.shared_secret,
        forall|random: Seq<u8>|
            spec_confirmation(p2->Authentication_0.transcript@, p2->Authentication_0.shared_secret@, p2->Authentication_0.auth_value, random)
                == #[trigger] spec_confirmation(
                d3->Authentication_0.transcript@,
                d3->Authentication_0.shared_secret@,
                d3->Authentication_0.auth_value,
                random,
            ),
{
    let ph1 = p1->KeyExchange_0;
    let dph3 = d3->Authentication_0;
    let ph2 = p2->Authentication_0;
    assert(spec_response(d1) == Some(ProvisioningPDU::Capabilities(capabilities)));
    assert(ph2.transcript@ =~= invite_bytes(Invite { attention_duration }) + capabilities_bytes(capabilities)
        + start_bytes(default_start()) + public_key_bytes(ph1.public_key) + public_key_bytes(dph3.public_key));
    assert(dph3.transcript@ =~= invite_bytes(Invite { attention_duration }) + capabilities_bytes(capabilities)
        + start_bytes(default_start()) + public_key_bytes(ph1.public_key) + public_key_bytes(dph3.public_key));
    let pk = dph3.public_key;
    let ppk = ph1.public_key;
    assert(agreed_under_some_key(dph3.shared_secret@, pk.x@, pk.y@, ppk.x@, ppk.y@));
    let k = choose|k: Seq<u8>| #[trigger] agreed_with(k, dph3.shared_secret@, pk.x@, pk.y@, ppk.x@, ppk.y@);
    assert(agreed_with(k, dph3.shared_secret@, pk.x@, pk.y@, ppk.x@, ppk.y@));
    assert(p256_shared(k, p256_public(ph1.private@).0, p256_public(ph1.private@).1) == ph2.shared_secret@);
    assert(ph2.shared_secret@ =~= dph3.shared_secret@);
    assert(ph2.shared_secret == dph3.shared_secret);
}

/// A full provisioning run, in which a provisioner and a device each take
/// the PDUs the other answers with (the invitation, the capabilities, the
/// start and both public keys, both confirmations, both random values and
/// the provisioning data), ends with the device holding exactly the data the
/// provisioner was made with: every check on the way passes.
pub proof fn lemma_full_provisioning_run(
    attention_duration: u8,
    capabilities: Capabilities,
    draw: u32,
    p0: Provisioner,
    p1: Provisioner,
    p2: Provisioner,
    p3: Provisioner,
    p4: Provisioner,
    d0: Provisionee,
    d1: Provisionee,
    d2: Provisionee,
    d3: Provisionee,
    d4: Provisionee,
    d5: Provisionee,
    d6: Provisionee,
)
    requires
        p0 matches Provisioner::Invitation(ph) && ph.transcript@ == invite_bytes(Invite { attention_duration })
            && ph.response == ResponsePDU::One(ProvisioningPDU::Invite(Invite { attention_duration })),
        d0 matches Provisionee::Beaconing(dph) && is_fresh(dph, Seq::empty(), capabilities),
        spec_next(d0, ProvisioningPDU::Invite(Invite { attention_duration }), draw, Ok(d1)),
        spec_provisioner_next(p0, ProvisioningPDU::Capabilities(capabilities), Ok(p1)),
        p1 matches Provisioner::KeyExchange(ph1) && spec_next(d1, ProvisioningPDU::Start(default_start()), draw, Ok(d2))
            && spec_next(d2, ProvisioningPDU::PublicKey(ph1.public_key), draw, Ok(d3)),
        d3 matches Provisionee::Authentication(dph3) && spec_provisioner_next(
            p1,
            ProvisioningPDU::PublicKey(dph3.public_key),
            Ok(p2),
        ),
        p2 matches Provisioner::Authentication(ph2) && ph2.response matches ResponsePDU::One(c2) && spec_next(d3, c2, draw, Ok(d4)),
        spec_response(d4) matches Some(c4) && spec_provisioner_next(p2, c4, Ok(p3)),
        p3 matches Provisioner::Authentication(ph3) && ph3.response matches ResponsePDU::One(c3) && spec_next(d4, c3, draw, Ok(d5)),
        spec_response(d5) matches Some(c5) && spec_provisioner_next(p3, c5, Ok(p4)),
        p4 matches Provisioner::DataDistribution(ph4) && ph4.response matches ResponsePDU::One(c6) && spec_next(d5, c6, draw, Ok(d6)),
    ensures
        d6 matches Provisionee::Complete(_, received) && received == p0->Invitation_0.data,
{
    let ph1 = p1->KeyExchange_0;
    let dph3 = d3->Authentication_0;
    lemma_transcripts_agree(attention_duration, ph1.data, capabilities, draw, p0, p1, p2, d0, d1, d2, d3);
    let ph2 = p2->Authentication_0;
    let cp = ph2.response->One_0->Confirmation_0;
    let n4 = d4->Confirming_0;
    assert(keeps_secrets(n4, dph3));
    let cd = n4.confirmation_device;
    let ph3 = p3->Authentication_0;
    assert(ph3.confirmation == Some(cd));
    let rp = ph2.random_provisioner;
    assert(n4.confirmation_provider@ == spec_confirmation(n4.transcript@, n4.shared_secret@, n4.auth_value, rp@));
    let n5 = d5->DataDistribution_0;
    let rd = n4.random_device;
    assert(cd@ == spec_confirmation(ph3.transcript@, ph3.shared_secret@, ph3.auth_value, rd@));
    let ph4 = p4->DataDistribution_0;
    let data = ph4.response->One_0->Data_0;
    lemma_provisioning_data_delivered(ph3, Random { random: rd }, ph4, data, n5, draw, Ok(d6));
}

/// A device that shares the provisioner's transcript, secret and both random
/// values completes provisioning with exactly the data the provisioner sent.
pub proof fn lemma_provisioning_data_delivered(
    ph: Phase,
    v: Random,
    n: Phase,
    data: Data,
    dph: crate::driver::provisionee::Phase,
    draw: u32,
    r: Result<Provisionee, DriverError>,
)
    requires
        spec_provisioner_next(Provisioner::Authentication(ph), ProvisioningPDU::Random(v), Ok(Provisioner::DataDistribution(n))),
        n.response == ResponsePDU::One(ProvisioningPDU::Data(data)),
        dph.transcript@ == ph.transcript@,
        dph.shared_secret == ph.shared_secret,
        dph.random_provisioner == ph.random_provisioner,
        dph.random_device == v.random,
        spec_next(Provisionee::DataDistribution(dph), ProvisioningPDU::Data(data), draw, r),
    ensures
        r matches Ok(Provisionee::Complete(_, received)) && received == ph.data,
{
    let bytes = provisioning_data_bytes(ph.data);
    assert(spec_data_plaintext(dph.transcript@, dph.shared_secret@, dph.random_provisioner@, dph.random_device@, data) == Some(bytes));
    lemma_provisioning_data_roundtrip(ph.data);
    let received = r->Ok_0->Complete_1;
    assert(provisioning_data_fields(received, bytes));
    assert(received.network_key@ =~= ph.data.network_key@);
    assert(received.network_key == ph.data.network_key);
}

} // verus!
