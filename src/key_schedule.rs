use vstd::prelude::*;

use crate::codec::spec_le16;
use crate::crypto::SpdmCryptoBackend;
use crate::protocol::SpdmBaseHashAlgo;
use crate::transcript::append_bytes;

verus! {

/// The labels of the key schedule's HKDF expansions.
#[derive(Clone, Copy, Debug, PartialEq, Eq, Structural)]
pub enum SpdmKeyScheduleLabel {
    Derived,
    ReqHsData,
    RspHsData,
    ReqAppData,
    RspAppData,
    Finished,
}

impl SpdmKeyScheduleLabel {
    pub open spec fn spec_bytes(self) -> Seq<u8> {
        match self {
            SpdmKeyScheduleLabel::Derived => seq![0x64, 0x65, 0x72, 0x69, 0x76, 0x65, 0x64],
            SpdmKeyScheduleLabel::ReqHsData => seq![0x72, 0x65, 0x71, 0x20, 0x68, 0x73, 0x20, 0x64, 0x61, 0x74, 0x61],
            SpdmKeyScheduleLabel::RspHsData => seq![0x72, 0x73, 0x70, 0x20, 0x68, 0x73, 0x20, 0x64, 0x61, 0x74, 0x61],
            SpdmKeyScheduleLabel::ReqAppData => seq![0x72, 0x65, 0x71, 0x20, 0x61, 0x70, 0x70, 0x20, 0x64, 0x61, 0x74, 0x61],
            SpdmKeyScheduleLabel::RspAppData => seq![0x72, 0x73, 0x70, 0x20, 0x61, 0x70, 0x70, 0x20, 0x64, 0x61, 0x74, 0x61],
            SpdmKeyScheduleLabel::Finished => seq![0x66, 0x69, 0x6e, 0x69, 0x73, 0x68, 0x65, 0x64],
        }
    }

    pub fn bytes(&self) -> (r: Vec<u8>)
        ensures
            r@ == self.spec_bytes(),
    {
        let r = match self {
            SpdmKeyScheduleLabel::Derived => vec![0x64, 0x65, 0x72, 0x69, 0x76, 0x65, 0x64],
            SpdmKeyScheduleLabel::ReqHsData => vec![0x72, 0x65, 0x71, 0x20, 0x68, 0x73, 0x20, 0x64, 0x61, 0x74, 0x61],
            SpdmKeyScheduleLabel::RspHsData => vec![0x72, 0x73, 0x70, 0x20, 0x68, 0x73, 0x20, 0x64, 0x61, 0x74, 0x61],
            SpdmKeyScheduleLabel::ReqAppData => vec![0x72, 0x65, 0x71, 0x20, 0x61, 0x70, 0x70, 0x20, 0x64, 0x61, 0x74, 0x61],
            SpdmKeyScheduleLabel::RspAppData => vec![0x72, 0x73, 0x70, 0x20, 0x61, 0x70, 0x70, 0x20, 0x64, 0x61, 0x74, 0x61],
            SpdmKeyScheduleLabel::Finished => vec![0x66, 0x69, 0x6e, 0x69, 0x73, 0x68, 0x65, 0x64],
        };
        proof {
            assert(r@ =~= self.spec_bytes());
        }
        r
    }
}

/// The prefix of every HKDF label: "spdm1.1 ".
pub open spec fn spec_version_label() -> Seq<u8> {
    seq![0x73, 0x70, 0x64, 0x6d, 0x31, 0x2e, 0x31, 0x20]
}

/// The HKDF info for a derivation of `length` bytes: the length, the versioned
/// label and the context (a transcript hash, or nothing).
pub open spec fn spec_bin_concat(length: u16, label: SpdmKeyScheduleLabel, context: Seq<u8>) -> Seq<
    u8,
> {
    spec_le16(length) + spec_version_label() + label.spec_bytes() + context
}

pub fn bin_concat(length: u16, label: SpdmKeyScheduleLabel, context: &[u8]) -> (r: Vec<u8>)
    ensures
        r@ == spec_bin_concat(length, label, context@),
{
    let mut r: Vec<u8> = Vec::new();
    r.push((length % 256) as u8);
    r.push((length / 256) as u8);
    let version: Vec<u8> = vec![0x73, 0x70, 0x64, 0x6d, 0x31, 0x2e, 0x31, 0x20];
    append_bytes(&mut r, version.as_slice());
    let l = label.bytes();
    append_bytes(&mut r, l.as_slice());
    append_bytes(&mut r, context);
    proof {
        assert(version@ =~= spec_version_label());
        assert(r@ =~= spec_bin_concat(length, label, context@));
    }
    r
}

/// `n` zero bytes.
pub open spec fn spec_zeros(n: nat) -> Seq<u8> {
    Seq::new(n, |i: int| 0u8)
}

fn zeros(n: usize) -> (r: Vec<u8>)
    ensures
        r@ == spec_zeros(n as nat),
{
    let mut r: Vec<u8> = Vec::new();
    let mut i: usize = 0;
    while i < n
        invariant
            i <= n,
            r@ == spec_zeros(i as nat),
        decreases n - i,
    {
        r.push(0);
        i = i + 1;
        assert(r@ =~= spec_zeros(i as nat));
    }
    r
}

/// The secrets derived from the DHE shared secret and TH1.
pub struct SpdmHandshakeSecret {
    pub handshake_secret: Vec<u8>,
    pub request_handshake_secret: Vec<u8>,
    pub response_handshake_secret: Vec<u8>,
    pub request_finished_key: Vec<u8>,
    pub response_finished_key: Vec<u8>,
}

pub ghost struct SpdmHandshakeSecretView {
    pub handshake_secret: Seq<u8>,
    pub request_handshake_secret: Seq<u8>,
    pub response_handshake_secret: Seq<u8>,
    pub request_finished_key: Seq<u8>,
    pub response_finished_key: Seq<u8>,
}

impl View for SpdmHandshakeSecret {
    type V = SpdmHandshakeSecretView;

    open spec fn view(&self) -> SpdmHandshakeSecretView {
        SpdmHandshakeSecretView {
            handshake_secret: self.handshake_secret@,
            request_handshake_secret: self.request_handshake_secret@,
            response_handshake_secret: self.response_handshake_secret@,
            request_finished_key: self.request_finished_key@,
            response_finished_key: self.response_finished_key@,
        }
    }
}

impl SpdmHandshakeSecretView {
    pub open spec fn is_cleared(self) -> bool {
        &&& self.handshake_secret.len() == 0
        &&& self.request_handshake_secret.len() == 0
        &&& self.response_handshake_secret.len() == 0
        &&& self.request_finished_key.len() == 0
        &&& self.response_finished_key.len() == 0
    }
}

/// The secrets derived from the handshake secret and TH2: the keys of the
/// established channel.
pub struct SpdmDataSecret {
    pub request_data_secret: Vec<u8>,
    pub response_data_secret: Vec<u8>,
}

pub ghost struct SpdmDataSecretView {
    pub request_data_secret: Seq<u8>,
    pub response_data_secret: Seq<u8>,
}

impl View for SpdmDataSecret {
    type V = SpdmDataSecretView;

    open spec fn view(&self) -> SpdmDataSecretView {
        SpdmDataSecretView {
            request_data_secret: self.request_data_secret@,
            response_data_secret: self.response_data_secret@,
        }
    }
}

impl SpdmDataSecretView {
    pub open spec fn is_cleared(self) -> bool {
        &&& self.request_data_secret.len() == 0
        &&& self.response_data_secret.len() == 0
    }
}

impl SpdmHandshakeSecret {
    pub fn empty() -> (r: SpdmHandshakeSecret)
        ensures
            r@.is_cleared(),
    {
        SpdmHandshakeSecret {
            handshake_secret: Vec::new(),
            request_handshake_secret: Vec::new(),
            response_handshake_secret: Vec::new(),
            request_finished_key: Vec::new(),
            response_finished_key: Vec::new(),
        }
    }
}

impl SpdmDataSecret {
    pub fn empty() -> (r: SpdmDataSecret)
        ensures
            r@.is_cleared(),
    {
        SpdmDataSecret { request_data_secret: Vec::new(), response_data_secret: Vec::new() }
    }
}

/// One HKDF-Expand step of the schedule: a hash-sized output from `secret`
/// under `label` and `context`.
pub open spec fn spec_derive<C: SpdmCryptoBackend>(
    hash: SpdmBaseHashAlgo,
    secret: Seq<u8>,
    label: SpdmKeyScheduleLabel,
    context: Seq<u8>,
) -> Seq<u8> {
    C::spec_hkdf_expand(
        hash,
        secret,
        spec_bin_concat(hash.spec_size() as u16, label, context),
        hash.spec_size(),
    )
}

/// The handshake secrets for a DHE shared secret and TH1.
pub open spec fn spec_handshake_secret<C: SpdmCryptoBackend>(
    hash: SpdmBaseHashAlgo,
    dhe_secret: Seq<u8>,
    th1: Seq<u8>,
) -> SpdmHandshakeSecretView {
    let hs = C::spec_hmac(hash, spec_zeros(hash.spec_size()), dhe_secret);
    let req_hs = spec_derive::<C>(hash, hs, SpdmKeyScheduleLabel::ReqHsData, th1);
    let rsp_hs = spec_derive::<C>(hash, hs, SpdmKeyScheduleLabel::RspHsData, th1);
    SpdmHandshakeSecretView {
        handshake_secret: hs,
        request_handshake_secret: req_hs,
        response_handshake_secret: rsp_hs,
        request_finished_key: spec_derive::<C>(
            hash,
            req_hs,
            SpdmKeyScheduleLabel::Finished,
            Seq::empty(),
        ),
        response_finished_key: spec_derive::<C>(
            hash,
            rsp_hs,
            SpdmKeyScheduleLabel::Finished,
            Seq::empty(),
        ),
    }
}

/// The data secrets for a handshake secret and TH2.
pub open spec fn spec_data_secret<C: SpdmCryptoBackend>(
    hash: SpdmBaseHashAlgo,
    handshake_secret: Seq<u8>,
    th2: Seq<u8>,
) -> SpdmDataSecretView {
    let salt = spec_derive::<C>(hash, handshake_secret, SpdmKeyScheduleLabel::Derived, Seq::empty());
    let master = C::spec_hmac(hash, salt, spec_zeros(hash.spec_size()));
    SpdmDataSecretView {
        request_data_secret: spec_derive::<C>(hash, master, SpdmKeyScheduleLabel::ReqAppData, th2),
        response_data_secret: spec_derive::<C>(hash, master, SpdmKeyScheduleLabel::RspAppData, th2),
    }
}

fn derive<C: SpdmCryptoBackend>(
    crypto: &C,
    hash: SpdmBaseHashAlgo,
    secret: &[u8],
    label: SpdmKeyScheduleLabel,
    context: &[u8],
) -> (r: Vec<u8>)
    ensures
        r@ == spec_derive::<C>(hash, secret@, label, context@),
        r@.len() == hash.spec_size(),
{
    let h = hash.get_size();
    let info = bin_concat(h as u16, label, context);
    crypto.hkdf_expand(hash, secret, info.as_slice(), h)
}

/// Derives the handshake secret, the per-direction handshake secrets and the
/// per-direction finished keys from the DHE shared secret and TH1.
pub fn generate_handshake_secret<C: SpdmCryptoBackend>(
    crypto: &C,
    hash: SpdmBaseHashAlgo,
    dhe_secret: &[u8],
    th1: &[u8],
) -> (r: SpdmHandshakeSecret)
    ensures
        r@ == spec_handshake_secret::<C>(hash, dhe_secret@, th1@),
{
    let salt = zeros(hash.get_size());
    let hs = crypto.hmac(hash, salt.as_slice(), dhe_secret);
    let req_hs = derive(crypto, hash, hs.as_slice(), SpdmKeyScheduleLabel::ReqHsData, th1);
    let rsp_hs = derive(crypto, hash, hs.as_slice(), SpdmKeyScheduleLabel::RspHsData, th1);
    let empty: Vec<u8> = Vec::new();
    let req_fk = derive(crypto, hash, req_hs.as_slice(), SpdmKeyScheduleLabel::Finished, empty.as_slice());
    let rsp_fk = derive(crypto, hash, rsp_hs.as_slice(), SpdmKeyScheduleLabel::Finished, empty.as_slice());
    proof {
        assert(empty@ =~= Seq::<u8>::empty());
    }
    SpdmHandshakeSecret {
        handshake_secret: hs,
        request_handshake_secret: req_hs,
        response_handshake_secret: rsp_hs,
        request_finished_key: req_fk,
        response_finished_key: rsp_fk,
    }
}

/// Derives the per-direction data secrets from the handshake secret and TH2.
pub fn generate_data_secret<C: SpdmCryptoBackend>(
    crypto: &C,
    hash: SpdmBaseHashAlgo,
    handshake_secret: &[u8],
    th2: &[u8],
) -> (r: SpdmDataSecret)
    ensures
        r@ == spec_data_secret::<C>(hash, handshake_secret@, th2@),
{
    let empty: Vec<u8> = Vec::new();
    let salt = derive(crypto, hash, handshake_secret, SpdmKeyScheduleLabel::Derived, empty.as_slice());
    let zero = zeros(hash.get_size());
    let master = crypto.hmac(hash, salt.as_slice(), zero.as_slice());
    let req = derive(crypto, hash, master.as_slice(), SpdmKeyScheduleLabel::ReqAppData, th2);
    let rsp = derive(crypto, hash, master.as_slice(), SpdmKeyScheduleLabel::RspAppData, th2);
    proof {
        assert(empty@ =~= Seq::<u8>::empty());
    }
    SpdmDataSecret { request_data_secret: req, response_data_secret: rsp }
}

/// The key schedule is deterministic: the same DHE shared secret, TH1, TH2
/// and hash algorithm give the same handshake secret, finished keys and data
/// secrets, whichever run computes them.
pub proof fn lemma_key_schedule_deterministic<C: SpdmCryptoBackend>(
    hash: SpdmBaseHashAlgo,
    dhe_secret_a: Seq<u8>,
    dhe_secret_b: Seq<u8>,
    th1_a: Seq<u8>,
    th1_b: Seq<u8>,
    th2_a: Seq<u8>,
    th2_b: Seq<u8>,
)
    requires
        dhe_secret_a == dhe_secret_b,
        th1_a == th1_b,
        th2_a == th2_b,
    ensures
        spec_handshake_secret::<C>(hash, dhe_secret_a, th1_a) == spec_handshake_secret::<C>(
            hash,
            dhe_secret_b,
            th1_b,
        ),
        spec_data_secret::<C>(
            hash,
            spec_handshake_secret::<C>(hash, dhe_secret_a, th1_a).handshake_secret,
            th2_a,
        ) == spec_data_secret::<C>(
            hash,
            spec_handshake_secret::<C>(hash, dhe_secret_b, th1_b).handshake_secret,
            th2_b,
        ),
{
}

} // verus!
