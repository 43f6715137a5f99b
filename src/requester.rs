use vstd::prelude::*;

use crate::codec::{
    spec_finish_response_parses, spec_finish_response_size, SpdmFinishRequestPayload,
    SpdmFinishResponsePayload, spec_decode_key_exchange_request, spec_decode_key_exchange_response, spec_read_header,
    write_prefix, lemma_key_exchange_request_round_trip, SpdmKeyExchangeRequestPayload,
    SpdmKeyExchangeResponsePayload, SpdmKeyExchangeResponseView, SpdmKeyExchangeRspShape,
    SpdmMessageHeader,
};
use crate::common::SpdmContext;
use crate::crypto::SpdmCryptoBackend;
use crate::error::{SpdmError, SpdmResult};
use crate::key_schedule::{
    generate_data_secret, generate_handshake_secret, spec_data_secret, spec_handshake_secret,
};
use crate::protocol::{
    SpdmMeasurementSummaryHashType, INITIAL_SESSION_ID, MAX_SPDM_MESSAGE_BUFFER_SIZE,
    SPDM_RANDOM_SIZE, SPDM_REQUEST_FINISH, SPDM_RESPONSE_FINISH_RSP, SPDM_RESPONSE_KEY_EXCHANGE_RSP,
    SPDM_VERSION_1_1, MAX_SPDM_TRANSPORT_SIZE,
};
use crate::session::{session_id_of, spec_session_id, SpdmSession, SpdmSessionState};
use crate::transcript::ManagedBuffer;

verus! {

/// The transport that carries messages to the responder. A session id is
/// given for messages that travel inside a secured session.
pub trait SpdmDeviceIo {
    fn send(&mut self, session_id: Option<u32>, buffer: &[u8]) -> SpdmResult<()>;

    fn receive(&mut self, session_id: Option<u32>, buffer: &mut [u8]) -> (r: SpdmResult<usize>)
        ensures
            final(buffer)@.len() == old(buffer)@.len(),
            r matches Ok(n) ==> n <= old(buffer)@.len(),
    ;
}

/// The ephemeral DHE private key, held from sending KEY_EXCHANGE until its
/// response is handled, and consumed there.
pub struct SpdmKeyExchangeContext {
    dhe_algo: crate::protocol::SpdmDheAlgo,
    private_key: Vec<u8>,
}

impl SpdmKeyExchangeContext {
    pub closed spec fn spec_dhe_algo(&self) -> crate::protocol::SpdmDheAlgo {
        self.dhe_algo
    }

    pub closed spec fn spec_private_key(&self) -> Seq<u8> {
        self.private_key@
    }
}

/// The opaque data a KEY_EXCHANGE carries: the secured-message version list,
/// naming version 1.1.
pub open spec fn spec_opaque_data_support_version() -> Seq<u8> {
    seq![
        0x46u8, 0x54, 0x4d, 0x44, 0x01, 0x01, 0x00, 0x00, 0x00, 0x00, 0x05, 0x00, 0x01, 0x01,
        0x01, 0x00, 0x11, 0x00, 0x00, 0x00,
    ]
}

fn opaque_data_support_version() -> (r: Vec<u8>)
    ensures
        r@ == spec_opaque_data_support_version(),
{
    let r: Vec<u8> = vec![
        0x46, 0x54, 0x4d, 0x44, 0x01, 0x01, 0x00, 0x00, 0x00, 0x00, 0x05, 0x00, 0x01, 0x01, 0x01,
        0x00, 0x11, 0x00, 0x00, 0x00,
    ];
    proof {
        assert(r@ =~= spec_opaque_data_support_version());
    }
    r
}

/// Whether `a` and `b` hold the same bytes.
pub fn bytes_eq(a: &[u8], b: &[u8]) -> (r: bool)
    ensures
        r == (a@ == b@),
{
    if a.len() != b.len() {
        return false;
    }
    let mut i: usize = 0;
    while i < a.len()
        invariant
            i <= a@.len() == b@.len(),
            forall|k: int| 0 <= k < i ==> a@[k] == b@[k],
        decreases a@.len() - i,
    {
        if a[i] != b[i] {
            return false;
        }
        i = i + 1;
    }
    assert(a@ =~= b@);
    true
}

/// The requester's side of the handshake.
pub struct RequesterContext<C: SpdmCryptoBackend, D: SpdmDeviceIo> {
    pub common: SpdmContext,
    pub crypto: C,
    pub device_io: D,
}

/// The sizes a KEY_EXCHANGE_RSP is decoded with.
pub open spec fn spec_key_exchange_rsp_shape(
    ctx: &SpdmContext,
    t: SpdmMeasurementSummaryHashType,
) -> SpdmKeyExchangeRspShape {
    SpdmKeyExchangeRspShape {
        base_hash: ctx.negotiate_info.base_hash_sel,
        base_asym: ctx.negotiate_info.base_asym_sel,
        dhe: ctx.negotiate_info.dhe_sel,
        need_measurement_summary_hash: t.spec_needs_hash(),
    }
}

/// The KEY_EXCHANGE_RSP in `recv`, with the bytes it takes, or `None` when
/// `recv` holds no such response.
pub open spec fn spec_key_exchange_rsp(
    ctx: &SpdmContext,
    recv: Seq<u8>,
    t: SpdmMeasurementSummaryHashType,
) -> Option<(SpdmKeyExchangeResponseView, nat)> {
    match spec_read_header(recv) {
        None => None,
        Some(h) => if h.request_response_code != SPDM_RESPONSE_KEY_EXCHANGE_RSP {
            None
        } else {
            spec_decode_key_exchange_response(recv, spec_key_exchange_rsp_shape(ctx, t))
        },
    }
}

/// The key-exchange transcript before the signature: the request, then the
/// response up to its signature.
pub open spec fn spec_message_k_unsigned(
    ctx: &SpdmContext,
    send: Seq<u8>,
    recv: Seq<u8>,
    t: SpdmMeasurementSummaryHashType,
    n: nat,
) -> Seq<u8> {
    send + recv.subrange(0, n - spec_key_exchange_rsp_shape(ctx, t).spec_tail_size())
}

/// The key-exchange transcript through the signature, or the error that
/// building it stops at: the transcript overflows, or the responder's
/// signature over it does not verify.
pub open spec fn spec_signed_message_k<C: SpdmCryptoBackend>(
    ctx: &SpdmContext,
    k1: Seq<u8>,
    signature: Seq<u8>,
) -> SpdmResult<Seq<u8>> {
    if k1.len() > MAX_SPDM_MESSAGE_BUFFER_SIZE {
        Err(SpdmError::ResourceExhausted)
    } else if !C::spec_asym_verify(
        ctx.negotiate_info.base_hash_sel,
        ctx.negotiate_info.base_asym_sel,
        ctx.peer_cert_chain@,
        ctx.spec_transcript_data::<C>(k1, Seq::empty()),
        signature,
    ) {
        Err(SpdmError::AuthenticationFailure)
    } else if k1.len() + signature.len() > MAX_SPDM_MESSAGE_BUFFER_SIZE {
        Err(SpdmError::ResourceExhausted)
    } else {
        Ok(k1 + signature)
    }
}

/// The handshake secrets of a session whose key-exchange transcript through
/// the signature is `k2`: TH1 is the hash of its transcript data.
pub open spec fn spec_session_handshake_secret<C: SpdmCryptoBackend>(
    ctx: &SpdmContext,
    secret: Seq<u8>,
    k2: Seq<u8>,
) -> crate::key_schedule::SpdmHandshakeSecretView {
    let hash = ctx.negotiate_info.base_hash_sel;
    spec_handshake_secret::<C>(hash, secret, C::spec_hash(hash, ctx.spec_transcript_data::<C>(k2, Seq::empty())))
}

/// The HMAC the responder owes over the transcript through the signature.
pub open spec fn spec_responder_verify_data<C: SpdmCryptoBackend>(
    ctx: &SpdmContext,
    secret: Seq<u8>,
    k2: Seq<u8>,
) -> Seq<u8> {
    C::spec_hmac(
        ctx.negotiate_info.base_hash_sel,
        spec_session_handshake_secret::<C>(ctx, secret, k2).response_finished_key,
        ctx.spec_transcript_data::<C>(k2, Seq::empty()),
    )
}

/// The outcome of handling a KEY_EXCHANGE_RSP: the first gate that fails, in
/// protocol order, or the new session's id.
pub open spec fn spec_key_exchange_outcome<C: SpdmCryptoBackend>(
    ctx: &SpdmContext,
    send: Seq<u8>,
    recv: Seq<u8>,
    t: SpdmMeasurementSummaryHashType,
    kx_dhe: crate::protocol::SpdmDheAlgo,
    kx_private: Seq<u8>,
) -> SpdmResult<u32> {
    match spec_key_exchange_rsp(ctx, recv, t) {
        None => Err(SpdmError::ProtocolViolation),
        Some((p, n)) => match C::spec_dhe_shared_secret(kx_dhe, kx_private, p.exchange) {
            None => Err(SpdmError::CryptoUnavailable),
            Some(secret) => match spec_signed_message_k::<C>(
                ctx,
                spec_message_k_unsigned(ctx, send, recv, t, n),
                p.signature,
            ) {
                Err(e) => Err(e),
                Ok(k2) => {
                    let sid = spec_session_id(INITIAL_SESSION_ID, p.rsp_session_id);
                    if ctx.spec_has_live_session(sid) {
                        Err(SpdmError::ProtocolViolation)
                    } else if !ctx.spec_has_free_slot() {
                        Err(SpdmError::ResourceExhausted)
                    } else if spec_responder_verify_data::<C>(ctx, secret, k2) != p.verify_data {
                        Err(SpdmError::AuthenticationFailure)
                    } else if k2.len() + p.verify_data.len() > MAX_SPDM_MESSAGE_BUFFER_SIZE {
                        Err(SpdmError::ResourceExhausted)
                    } else {
                        Ok(sid)
                    }
                },
            },
        },
    }
}

/// A session in the handshaking state under `sid`, with the negotiated
/// algorithms, the DHE shared secret `secret`, the handshake secrets derived
/// from it and TH1, and the key-exchange transcript `k2 ++ verify_data`.
pub open spec fn spec_handshaking_session<C: SpdmCryptoBackend>(
    s: &SpdmSession,
    ctx: &SpdmContext,
    sid: u32,
    secret: Seq<u8>,
    k2: Seq<u8>,
    verify_data: Seq<u8>,
) -> bool {
    &&& s.wf()
    &&& s.session_id == sid
    &&& s.session_state == SpdmSessionState::SpdmSessionHandshaking
    &&& !s.use_psk
    &&& s.crypto_param.base_hash_algo == ctx.negotiate_info.base_hash_sel
    &&& s.crypto_param.dhe_algo == ctx.negotiate_info.dhe_sel
    &&& s.crypto_param.aead_algo == ctx.negotiate_info.aead_sel
    &&& s.crypto_param.key_schedule_algo == ctx.negotiate_info.key_schedule_sel
    &&& s.sequence_number_count == ctx.sequence_number_count
    &&& s.max_random_count == ctx.max_random_count
    &&& s.dhe_secret@ == secret
    &&& s.handshake_secret@ == spec_session_handshake_secret::<C>(ctx, secret, k2)
    &&& s.data_secret@.is_cleared()
    &&& s.message_k@ == k2 + verify_data
    &&& s.message_f@.len() == 0
}

/// What the session that a successful KEY_EXCHANGE creates holds.
pub open spec fn spec_key_exchange_session<C: SpdmCryptoBackend>(
    s: &SpdmSession,
    ctx: &SpdmContext,
    send: Seq<u8>,
    recv: Seq<u8>,
    t: SpdmMeasurementSummaryHashType,
    kx_dhe: crate::protocol::SpdmDheAlgo,
    kx_private: Seq<u8>,
) -> bool {
    let (p, n) = spec_key_exchange_rsp(ctx, recv, t).unwrap();
    let k2 = spec_message_k_unsigned(ctx, send, recv, t, n) + p.signature;
    let secret = C::spec_dhe_shared_secret(kx_dhe, kx_private, p.exchange).unwrap();
    spec_handshaking_session::<C>(
        s,
        ctx,
        spec_session_id(INITIAL_SESSION_ID, p.rsp_session_id),
        secret,
        k2,
        p.verify_data,
    )
}

/// The FINISH request up to its verify data.
pub open spec fn spec_finish_request_header() -> Seq<u8> {
    seq![SPDM_VERSION_1_1, SPDM_REQUEST_FINISH, 0u8, 0u8]
}

/// The requester's verify data in FINISH: the HMAC, under the request
/// finished key, of the transcript data through the FINISH header.
pub open spec fn spec_requester_verify_data<C: SpdmCryptoBackend>(
    ctx: &SpdmContext,
    s: &SpdmSession,
) -> Seq<u8> {
    C::spec_hmac(
        s.crypto_param.base_hash_algo,
        s.handshake_secret.request_finished_key@,
        ctx.spec_transcript_data::<C>(s.message_k@, spec_finish_request_header()),
    )
}

/// Slot `i` holds the handshaking session `session_id`.
pub open spec fn spec_handshaking_slot(ctx: &SpdmContext, session_id: u32, i: int) -> bool {
    &&& 0 <= i < ctx.session@.len()
    &&& ctx.session@[i].is_live()
    &&& ctx.session@[i].session_id == session_id
    &&& ctx.session@[i].session_state == SpdmSessionState::SpdmSessionHandshaking
}

/// Some slot holds the handshaking session `session_id`.
pub open spec fn spec_has_handshaking_session(ctx: &SpdmContext, session_id: u32) -> bool {
    exists|i: int| #[trigger] spec_handshaking_slot(ctx, session_id, i)
}

/// The finish transcript once the FINISH_RSP in `recv` is folded in: in the
/// clear, its bytes before the verify data, then the verify data; otherwise
/// the whole response.
pub open spec fn spec_finish_message_f(
    ctx: &SpdmContext,
    s: &SpdmSession,
    message_f: Seq<u8>,
    recv: Seq<u8>,
) -> Seq<u8> {
    let hash = s.crypto_param.base_hash_algo;
    let in_clear = ctx.negotiate_info.spec_in_clear_text();
    let n = spec_finish_response_size(hash, in_clear) as int;
    if in_clear {
        message_f + recv.subrange(0, n - hash.spec_size()) + recv.subrange(4, n)
    } else {
        message_f + recv.subrange(0, n)
    }
}

/// The outcome of handling a FINISH_RSP for the handshaking session `s`.
pub open spec fn spec_finish_outcome<C: SpdmCryptoBackend>(
    ctx: &SpdmContext,
    s: &SpdmSession,
    base_hash_size: usize,
    message_f: Seq<u8>,
    max_size: nat,
    recv: Seq<u8>,
) -> SpdmResult<()> {
    let hash = s.crypto_param.base_hash_algo;
    let in_clear = ctx.negotiate_info.spec_in_clear_text();
    let n = spec_finish_response_size(hash, in_clear) as int;
    if base_hash_size != hash.spec_size() {
        Err(SpdmError::ProtocolViolation)
    } else if !(spec_read_header(recv) matches Some(h) && h.request_response_code
        == SPDM_RESPONSE_FINISH_RSP) {
        Err(SpdmError::ProtocolViolation)
    } else if !spec_finish_response_parses(recv, hash, in_clear) {
        Err(SpdmError::ProtocolViolation)
    } else if in_clear {
        let f1 = message_f + recv.subrange(0, n - hash.spec_size());
        if f1.len() > max_size {
            Err(SpdmError::ResourceExhausted)
        } else if C::spec_hmac(
            hash,
            s.handshake_secret.response_finished_key@,
            ctx.spec_transcript_data::<C>(s.message_k@, f1),
        ) != recv.subrange(4, n) {
            Err(SpdmError::AuthenticationFailure)
        } else if f1.len() + hash.spec_size() > max_size {
            Err(SpdmError::ResourceExhausted)
        } else {
            Ok(())
        }
    } else if message_f.len() + n > max_size {
        Err(SpdmError::ResourceExhausted)
    } else {
        Ok(())
    }
}

/// Session `t` is session `s` established: its finish transcript is `f`, and
/// its data secrets are derived from its handshake secret and TH2.
pub open spec fn spec_established_session<C: SpdmCryptoBackend>(
    t: &SpdmSession,
    s: &SpdmSession,
    ctx: &SpdmContext,
    f: Seq<u8>,
) -> bool {
    let th2 = C::spec_hash(
        ctx.negotiate_info.base_hash_sel,
        ctx.spec_transcript_data::<C>(s.message_k@, f),
    );
    &&& t.wf()
    &&& t.session_state == SpdmSessionState::SpdmSessionEstablished
    &&& t.session_id == s.session_id
    &&& t.use_psk == s.use_psk
    &&& t.crypto_param == s.crypto_param
    &&& t.sequence_number_count == s.sequence_number_count
    &&& t.max_random_count == s.max_random_count
    &&& t.dhe_secret@ == s.dhe_secret@
    &&& t.handshake_secret@ == s.handshake_secret@
    &&& t.message_k@ == s.message_k@
    &&& t.message_f@ == f
    &&& t.data_secret@ == spec_data_secret::<C>(
        s.crypto_param.base_hash_algo,
        s.handshake_secret.handshake_secret@,
        th2,
    )
}

impl<C: SpdmCryptoBackend, D: SpdmDeviceIo> RequesterContext<C, D> {
    pub open spec fn wf(&self) -> bool {
        self.common.wf()
    }

    /// Encodes a KEY_EXCHANGE request into `buf`, with a fresh nonce and a
    /// fresh ephemeral key pair; returns the private half and the length.
    pub fn encode_spdm_key_exchange(
        &mut self,
        buf: &mut [u8],
        slot_id: u8,
        measurement_summary_hash_type: SpdmMeasurementSummaryHashType,
    ) -> (r: SpdmResult<(SpdmKeyExchangeContext, usize)>)
        ensures
            final(self).common == old(self).common,
            final(buf)@.len() == old(buf)@.len(),
            ({
                let dhe = old(self).common.negotiate_info.dhe_sel;
                match r {
                    Ok((kx, n)) => {
                        &&& n <= old(buf)@.len()
                        &&& kx.spec_dhe_algo() == dhe
                        &&& spec_decode_key_exchange_request(
                            final(buf)@.subrange(0, n as int),
                            dhe,
                        ) matches Some((req, m)) && {
                            &&& m == n
                            &&& req.slot_id == slot_id
                            &&& req.measurement_summary_hash_type == measurement_summary_hash_type
                            &&& req.req_session_id == INITIAL_SESSION_ID
                            &&& req.random.len() == SPDM_RANDOM_SIZE
                            &&& req.exchange.len() == dhe.spec_size()
                            &&& req.opaque == spec_opaque_data_support_version()
                        }
                    },
                    Err(e) => e == SpdmError::CryptoUnavailable || (e
                        == SpdmError::ResourceExhausted && old(buf)@.len() < 62 + dhe.spec_size()),
                }
            }),
    {
        let dhe = self.common.negotiate_info.dhe_sel;
        let random = match self.crypto.get_random(SPDM_RANDOM_SIZE) {
            Some(random) => random,
            None => return Err(SpdmError::CryptoUnavailable),
        };
        let (exchange, private_key) = match self.crypto.dhe_generate_key_pair(dhe) {
            Some(pair) => pair,
            None => return Err(SpdmError::CryptoUnavailable),
        };
        let request = SpdmKeyExchangeRequestPayload {
            slot_id,
            measurement_summary_hash_type,
            req_session_id: INITIAL_SESSION_ID,
            random,
            exchange,
            opaque: opaque_data_support_version(),
        };
        let bytes = request.spdm_encode();
        if bytes.len() > buf.len() {
            return Err(SpdmError::ResourceExhausted);
        }
        write_prefix(buf, bytes.as_slice());
        proof {
            lemma_key_exchange_request_round_trip(request@, dhe);
        }
        Ok((SpdmKeyExchangeContext { dhe_algo: dhe, private_key }, bytes.len()))
    }

    /// The key-exchange transcript through the signature: the request, the
    /// response up to its signature, and, once the signature verifies over
    /// the transcript data, the signature.
    fn signed_message_k(
        &self,
        send_buffer: &[u8],
        unsigned_response: &[u8],
        signature: &[u8],
    ) -> (r: SpdmResult<ManagedBuffer>)
        ensures
            match r {
                Ok(k) => {
                    &&& spec_signed_message_k::<C>(
                        &self.common,
                        send_buffer@ + unsigned_response@,
                        signature@,
                    ) == Ok::<Seq<u8>, SpdmError>(k@)
                    &&& k.wf()
                    &&& k.max_size() == MAX_SPDM_MESSAGE_BUFFER_SIZE
                },
                Err(e) => spec_signed_message_k::<C>(
                    &self.common,
                    send_buffer@ + unsigned_response@,
                    signature@,
                ) == Err::<Seq<u8>, SpdmError>(e),
            },
    {
        let empty: Vec<u8> = Vec::new();
        assert(empty@ =~= Seq::<u8>::empty());
        let mut message_k = ManagedBuffer::new();
        match message_k.append_message(send_buffer) {
            Ok(_) => {},
            Err(e) => return Err(e),
        }
        match message_k.append_message(unsigned_response) {
            Ok(_) => {},
            Err(e) => return Err(e),
        }
        let td = self.common.calc_req_transcript_data(&self.crypto, message_k.as_ref(), empty.as_slice());
        if !self.crypto.asym_verify(
            self.common.negotiate_info.base_hash_sel,
            self.common.negotiate_info.base_asym_sel,
            self.common.peer_cert_chain.as_slice(),
            td.as_slice(),
            signature,
        ) {
            return Err(SpdmError::AuthenticationFailure);
        }
        match message_k.append_message(signature) {
            Ok(_) => {},
            Err(e) => return Err(e),
        }
        Ok(message_k)
    }

    /// A handshaking session under `session_id`, once the responder's
    /// verify data matches the HMAC under the response finished key; the
    /// session's secrets are zeroed on every failure.
    fn establish_session(
        &self,
        session_id: u32,
        final_key: Vec<u8>,
        message_k: ManagedBuffer,
        verify_data: &[u8],
    ) -> (r: SpdmResult<SpdmSession>)
        requires
            message_k.wf(),
            message_k.max_size() == MAX_SPDM_MESSAGE_BUFFER_SIZE,
        ensures
            ({
                let expected = spec_responder_verify_data::<C>(&self.common, final_key@, message_k@);
                match r {
                    Ok(s) => {
                        &&& expected == verify_data@
                        &&& message_k@.len() + verify_data@.len() <= MAX_SPDM_MESSAGE_BUFFER_SIZE
                        &&& spec_handshaking_session::<C>(
                            &s,
                            &self.common,
                            session_id,
                            final_key@,
                            message_k@,
                            verify_data@,
                        )
                    },
                    Err(e) => if expected != verify_data@ {
                        e == SpdmError::AuthenticationFailure
                    } else {
                        e == SpdmError::ResourceExhausted && message_k@.len() + verify_data@.len()
                            > MAX_SPDM_MESSAGE_BUFFER_SIZE
                    },
                }
            }),
    {
        let hash = self.common.negotiate_info.base_hash_sel;
        let empty: Vec<u8> = Vec::new();
        assert(empty@ =~= Seq::<u8>::empty());
        let mut message_k = message_k;
        let th1 = self.common.calc_req_transcript_hash(&self.crypto, message_k.as_ref(), empty.as_slice());
        let mut session = SpdmSession::new();
        session.setup(session_id);
        session.use_psk = false;
        session.set_crypto_param(
            hash,
            self.common.negotiate_info.dhe_sel,
            self.common.negotiate_info.aead_sel,
            self.common.negotiate_info.key_schedule_sel,
        );
        session.sequence_number_count = self.common.sequence_number_count;
        session.max_random_count = self.common.max_random_count;
        session.handshake_secret = generate_handshake_secret(
            &self.crypto,
            hash,
            final_key.as_slice(),
            th1.as_slice(),
        );
        session.dhe_secret = final_key;

        // verify the responder's HMAC with the response finished key
        let td = self.common.calc_req_transcript_data(&self.crypto, message_k.as_ref(), empty.as_slice());
        let expected = self.crypto.hmac(
            hash,
            session.handshake_secret.response_finished_key.as_slice(),
            td.as_slice(),
        );
        if !bytes_eq(expected.as_slice(), verify_data) {
            session.teardown();
            return Err(SpdmError::AuthenticationFailure);
        }
        match message_k.append_message(verify_data) {
            Ok(_) => {},
            Err(e) => {
                session.teardown();
                return Err(e);
            },
        }
        session.message_k = message_k;
        Ok(session)
    }

    /// Handles the KEY_EXCHANGE_RSP to the request in `send_buffer`: checks
    /// the responder's signature over the transcript, derives the handshake
    /// secrets, checks the responder's HMAC, and only then places the new
    /// session, in the handshaking state, in a free slot. Every failure
    /// leaves the session table as it was.
    pub fn handle_spdm_key_exhcange_response(
        &mut self,
        send_buffer: &[u8],
        receive_buffer: &[u8],
        measurement_summary_hash_type: SpdmMeasurementSummaryHashType,
        key_exchange_context: SpdmKeyExchangeContext,
    ) -> (r: SpdmResult<u32>)
        requires
            old(self).wf(),
        ensures
            final(self).wf(),
            final(self).common.same_config(&old(self).common),
            final(self).common.runtime_info.need_measurement_summary_hash
                == measurement_summary_hash_type.spec_needs_hash(),
            r == spec_key_exchange_outcome::<C>(
                &old(self).common,
                send_buffer@,
                receive_buffer@,
                measurement_summary_hash_type,
                key_exchange_context.spec_dhe_algo(),
                key_exchange_context.spec_private_key(),
            ),
            r is Err ==> final(self).common.session == old(self).common.session,
            r is Ok ==> exists|i: int|
                0 <= i < old(self).common.session@.len()
                    && !(#[trigger] old(self).common.session@[i]).is_live()
                    && final(self).common.session@ == old(self).common.session@.update(
                    i,
                    final(self).common.session@[i],
                ) && spec_key_exchange_session::<C>(
                    &final(self).common.session@[i],
                    &old(self).common,
                    send_buffer@,
                    receive_buffer@,
                    measurement_summary_hash_type,
                    key_exchange_context.spec_dhe_algo(),
                    key_exchange_context.spec_private_key(),
                ),
    {
        let ghost old_common = self.common;
        let hash = self.common.negotiate_info.base_hash_sel;
        let asym = self.common.negotiate_info.base_asym_sel;
        let need = measurement_summary_hash_type
            != SpdmMeasurementSummaryHashType::SpdmMeasurementSummaryHashTypeNone;
        self.common.runtime_info.need_measurement_summary_hash = need;
        let shape = SpdmKeyExchangeRspShape {
            base_hash: hash,
            base_asym: asym,
            dhe: self.common.negotiate_info.dhe_sel,
            need_measurement_summary_hash: need,
        };
        assert(shape == spec_key_exchange_rsp_shape(&old_common, measurement_summary_hash_type));
        let header = match SpdmMessageHeader::read(receive_buffer) {
            Some(h) => h,
            None => return Err(SpdmError::ProtocolViolation),
        };
        if header.request_response_code != SPDM_RESPONSE_KEY_EXCHANGE_RSP {
            return Err(SpdmError::ProtocolViolation);
        }
        let (key_exchange_rsp, receive_used) = match SpdmKeyExchangeResponsePayload::spdm_read(
            receive_buffer,
            shape,
        ) {
            Some(x) => x,
            None => return Err(SpdmError::ProtocolViolation),
        };
        let final_key = match self.crypto.dhe_compute_final_key(
            key_exchange_context.dhe_algo,
            key_exchange_context.private_key.as_slice(),
            key_exchange_rsp.exchange.as_slice(),
        ) {
            Some(k) => k,
            None => return Err(SpdmError::CryptoUnavailable),
        };
        let temp_receive_used = receive_used - asym.get_size() - hash.get_size();
        let message_k = match self.signed_message_k(
            send_buffer,
            &receive_buffer[0..temp_receive_used],
            key_exchange_rsp.signature.as_slice(),
        ) {
            Ok(k) => k,
            Err(e) => return Err(e),
        };
        let session_id = session_id_of(INITIAL_SESSION_ID, key_exchange_rsp.rsp_session_id);
        if self.common.get_session_via_id(session_id).is_some() {
            return Err(SpdmError::ProtocolViolation);
        }
        let slot = match self.common.get_next_avaiable_session() {
            Some(i) => i,
            None => return Err(SpdmError::ResourceExhausted),
        };
        let mut session = match self.establish_session(
            session_id,
            final_key,
            message_k,
            key_exchange_rsp.verify_data.as_slice(),
        ) {
            Ok(s) => s,
            Err(e) => return Err(e),
        };
        let ghost new_session = session;
        self.common.swap_slot(slot, &mut session);
        proof {
            let sessions = self.common.session@;
            assert(sessions[slot as int] == new_session);
            assert forall|a: int, b: int|
                0 <= a < sessions.len() && 0 <= b < sessions.len() && a != b && (
                #[trigger] sessions[a]).is_live() && (#[trigger] sessions[b]).is_live()
                implies sessions[a].session_id != sessions[b].session_id by {
                if a == slot {
                    assert(old_common.session@[b] == sessions[b]);
                    assert(!old_common.spec_has_live_session(session_id));
                } else if b == slot {
                    assert(old_common.session@[a] == sessions[a]);
                    assert(!old_common.spec_has_live_session(session_id));
                } else {
                    assert(old_common.session@[a] == sessions[a]);
                    assert(old_common.session@[b] == sessions[b]);
                }
            }
            assert(self.common.session@ == old_common.session@.update(
                slot as int,
                sessions[slot as int],
            ));
            assert(!old_common.session@[slot as int].is_live());
        }
        Ok(session_id)
    }

    /// Encodes the FINISH request for the handshaking session `session_id`
    /// into `buf`, its verify data the HMAC under the request finished key;
    /// returns the request's length, the digest size, and the finish
    /// transcript so far (the whole request).
    pub fn encode_spdm_finish(&mut self, session_id: u32, buf: &mut [u8]) -> (r: SpdmResult<
        (usize, usize, ManagedBuffer),
    >)
        requires
            old(self).wf(),
        ensures
            final(self).common == old(self).common,
            final(buf)@.len() == old(buf)@.len(),
            !spec_has_handshaking_session(&old(self).common, session_id) ==> r == Err::<
                (usize, usize, ManagedBuffer),
                SpdmError,
            >(SpdmError::ProtocolViolation),
            forall|i: int|
                #[trigger] spec_handshaking_slot(&old(self).common, session_id, i) ==> {
                    let s = old(self).common.session@[i];
                    let h = s.crypto_param.base_hash_algo.spec_size();
                    let request = spec_finish_request_header() + spec_requester_verify_data::<C>(
                        &old(self).common,
                        &s,
                    );
                    &&& old(buf)@.len() < 4 + h ==> r == Err::<
                        (usize, usize, ManagedBuffer),
                        SpdmError,
                    >(SpdmError::ResourceExhausted)
                    &&& old(buf)@.len() >= 4 + h ==> (r matches Ok((n, hs, mf)) && {
                        &&& n == 4 + h
                        &&& hs == h
                        &&& final(buf)@.subrange(0, n as int) == request
                        &&& mf@ == request
                        &&& mf.wf()
                        &&& mf.max_size() == MAX_SPDM_MESSAGE_BUFFER_SIZE
                    })
                },
    {
        let slot = match self.common.get_session_via_id(session_id) {
            Some(i) => i,
            None => return Err(SpdmError::ProtocolViolation),
        };
        if self.common.session[slot].session_state != SpdmSessionState::SpdmSessionHandshaking {
            return Err(SpdmError::ProtocolViolation);
        }
        let ghost s = self.common.session@[slot as int];
        assert(spec_handshaking_slot(&self.common, session_id, slot as int));
        assert forall|i: int| #[trigger]
            spec_handshaking_slot(&self.common, session_id, i) implies i == slot by {
            if i != slot {
                assert(SpdmContext::live_ids_unique(self.common.session@));
                assert(self.common.session@[i].is_live() && self.common.session@[slot as int].is_live());
            }
        }
        let hash = self.common.session[slot].crypto_param.base_hash_algo;
        let base_hash_size = hash.get_size();
        if buf.len() < 4 + base_hash_size {
            return Err(SpdmError::ResourceExhausted);
        }
        let mut request = SpdmFinishRequestPayload {
            finish_request_attributes: 0,
            req_slot_id: 0,
            verify_data: Vec::new(),
        };
        let header = request.spdm_encode();
        assert(header@ =~= spec_finish_request_header());
        let mut message_f = ManagedBuffer::new();
        match message_f.append_message(header.as_slice()) {
            Ok(_) => {},
            Err(e) => return Err(e),
        }
        let td = self.common.calc_req_transcript_data(
            &self.crypto,
            self.common.session[slot].message_k.as_ref(),
            message_f.as_ref(),
        );
        let hmac = self.crypto.hmac(
            hash,
            self.common.session[slot].handshake_secret.request_finished_key.as_slice(),
            td.as_slice(),
        );
        match message_f.append_message(hmac.as_slice()) {
            Ok(_) => {},
            Err(e) => return Err(e),
        }
        request.verify_data = hmac;
        let bytes = request.spdm_encode();
        write_prefix(buf, bytes.as_slice());
        Ok((bytes.len(), base_hash_size, message_f))
    }

    /// The finish transcript with the FINISH_RSP in `receive_buffer` folded
    /// in, for the session in `slot`, or the error that stops it. In the
    /// clear, the responder's HMAC under the response finished key is checked
    /// before its verify data joins the transcript.
    fn finish_transcript(
        &self,
        slot: usize,
        base_hash_size: usize,
        message_f: ManagedBuffer,
        receive_buffer: &[u8],
    ) -> (r: SpdmResult<ManagedBuffer>)
        requires
            self.wf(),
            slot < self.common.session@.len(),
            message_f.wf(),
        ensures
            ({
                let s = self.common.session@[slot as int];
                let outcome = spec_finish_outcome::<C>(
                    &self.common,
                    &s,
                    base_hash_size,
                    message_f@,
                    message_f.max_size(),
                    receive_buffer@,
                );
                match r {
                    Ok(f) => {
                        &&& outcome is Ok
                        &&& f@ == spec_finish_message_f(&self.common, &s, message_f@, receive_buffer@)
                        &&& f.wf()
                        &&& f.max_size() == message_f.max_size()
                    },
                    Err(e) => outcome == Err::<(), SpdmError>(e),
                }
            }),
    {
        let hash = self.common.session[slot].crypto_param.base_hash_algo;
        if base_hash_size != hash.get_size() {
            return Err(SpdmError::ProtocolViolation);
        }
        let in_clear_text = self.common.negotiate_info.in_clear_text();
        let header = match SpdmMessageHeader::read(receive_buffer) {
            Some(h) => h,
            None => return Err(SpdmError::ProtocolViolation),
        };
        if header.request_response_code != SPDM_RESPONSE_FINISH_RSP {
            return Err(SpdmError::ProtocolViolation);
        }
        let (finish_rsp, receive_used) = match SpdmFinishResponsePayload::spdm_read(
            receive_buffer,
            hash,
            in_clear_text,
        ) {
            Some(x) => x,
            None => return Err(SpdmError::ProtocolViolation),
        };
        let mut message_f = message_f;
        if in_clear_text {
            // verify the responder's HMAC with the response finished key
            let temp_used = receive_used - base_hash_size;
            match message_f.append_message(&receive_buffer[0..temp_used]) {
                Ok(_) => {},
                Err(e) => return Err(e),
            }
            let td = self.common.calc_req_transcript_data(
                &self.crypto,
                self.common.session[slot].message_k.as_ref(),
                message_f.as_ref(),
            );
            let expected = self.crypto.hmac(
                hash,
                self.common.session[slot].handshake_secret.response_finished_key.as_slice(),
                td.as_slice(),
            );
            if !bytes_eq(expected.as_slice(), finish_rsp.verify_data.as_slice()) {
                return Err(SpdmError::AuthenticationFailure);
            }
            match message_f.append_message(finish_rsp.verify_data.as_slice()) {
                Ok(_) => {},
                Err(e) => return Err(e),
            }
        } else {
            match message_f.append_message(&receive_buffer[0..receive_used]) {
                Ok(_) => {},
                Err(e) => return Err(e),
            }
        }
        Ok(message_f)
    }

    /// Handles the FINISH_RSP for the handshaking session `session_id`. On
    /// success the session holds the finish transcript and the data secrets
    /// derived from TH2, and is established. A failed HMAC tears the session
    /// down; any other failure leaves the session table as it was.
    pub fn handle_spdm_finish_response(
        &mut self,
        session_id: u32,
        base_hash_size: usize,
        message_f: ManagedBuffer,
        receive_buffer: &[u8],
    ) -> (r: SpdmResult<()>)
        requires
            old(self).wf(),
            message_f.wf(),
            message_f.max_size() == MAX_SPDM_MESSAGE_BUFFER_SIZE,
        ensures
            final(self).wf(),
            final(self).common.same_config(&old(self).common),
            final(self).common.runtime_info == old(self).common.runtime_info,
            !spec_has_handshaking_session(&old(self).common, session_id) ==> r == Err::<
                (),
                SpdmError,
            >(SpdmError::ProtocolViolation) && final(self).common.session == old(self).common.session,
            forall|i: int|
                #[trigger] spec_handshaking_slot(&old(self).common, session_id, i) ==> {
                    let s = old(self).common.session@[i];
                    &&& r == spec_finish_outcome::<C>(
                        &old(self).common,
                        &s,
                        base_hash_size,
                        message_f@,
                        message_f.max_size(),
                        receive_buffer@,
                    )
                    &&& r is Ok ==> final(self).common.session@ == old(self).common.session@.update(
                        i,
                        final(self).common.session@[i],
                    ) && spec_established_session::<C>(
                        &final(self).common.session@[i],
                        &s,
                        &old(self).common,
                        spec_finish_message_f(&old(self).common, &s, message_f@, receive_buffer@),
                    )
                    &&& r == Err::<(), SpdmError>(SpdmError::AuthenticationFailure) ==> final(self).common.session@ == old(self).common.session@.update(
                        i,
                        final(self).common.session@[i],
                    ) && !final(self).common.session@[i].is_live()
                        && final(self).common.session@[i].is_cleared()
                    &&& r is Err && r != Err::<(), SpdmError>(SpdmError::AuthenticationFailure)
                        ==> final(self).common.session == old(self).common.session
                },
    {
        let ghost old_common = self.common;
        let slot = match self.common.get_session_via_id(session_id) {
            Some(i) => i,
            None => return Err(SpdmError::ProtocolViolation),
        };
        if self.common.session[slot].session_state != SpdmSessionState::SpdmSessionHandshaking {
            return Err(SpdmError::ProtocolViolation);
        }
        assert(spec_handshaking_slot(&self.common, session_id, slot as int));
        assert forall|i: int| #[trigger]
            spec_handshaking_slot(&self.common, session_id, i) implies i == slot by {
            if i != slot {
                assert(SpdmContext::live_ids_unique(self.common.session@));
                assert(self.common.session@[i].is_live() && self.common.session@[slot as int].is_live());
            }
        }
        let message_f = match self.finish_transcript(slot, base_hash_size, message_f, receive_buffer) {
            Ok(f) => f,
            Err(e) => {
                if e == SpdmError::AuthenticationFailure {
                    self.common.teardown_slot(slot);
                    assert(self.common.session@ =~= old_common.session@.update(
                        slot as int,
                        self.common.session@[slot as int],
                    ));
                }
                return Err(e);
            },
        };

        // generate the data secret
        let th2 = self.common.calc_req_transcript_hash(
            &self.crypto,
            self.common.session[slot].message_k.as_ref(),
            message_f.as_ref(),
        );
        let data_secret = generate_data_secret(
            &self.crypto,
            self.common.session[slot].crypto_param.base_hash_algo,
            self.common.session[slot].handshake_secret.handshake_secret.as_slice(),
            th2.as_slice(),
        );
        let mut session = SpdmSession::new();
        self.common.swap_slot(slot, &mut session);
        let ghost s = session;
        session.message_f = message_f;
        session.data_secret = data_secret;
        session.session_state = SpdmSessionState::SpdmSessionEstablished;
        let ghost t = session;
        self.common.swap_slot(slot, &mut session);
        proof {
            let sessions = self.common.session@;
            assert(sessions[slot as int] == t);
            assert(s == old_common.session@[slot as int]);
            assert forall|a: int, b: int|
                0 <= a < sessions.len() && 0 <= b < sessions.len() && a != b && (
                #[trigger] sessions[a]).is_live() && (#[trigger] sessions[b]).is_live()
                implies sessions[a].session_id != sessions[b].session_id by {
                assert(old_common.session@[a].is_live() && old_common.session@[b].is_live());
            }
            assert(sessions =~= old_common.session@.update(slot as int, sessions[slot as int]));
        }
        Ok(())
    }

    /// A requester over the endpoint state `common`.
    pub fn new(common: SpdmContext, crypto: C, device_io: D) -> (r: Self)
        ensures
            r.common == common,
            r.crypto == crypto,
            r.device_io == device_io,
    {
        RequesterContext { common, crypto, device_io }
    }

    /// Runs KEY_EXCHANGE: sends the request, receives the response and
    /// handles it. On success the returned id names a handshaking session;
    /// on any failure the session table is as it was.
    pub fn send_receive_spdm_key_exchange(
        &mut self,
        slot_id: u8,
        measurement_summary_hash_type: SpdmMeasurementSummaryHashType,
    ) -> (r: SpdmResult<u32>)
        requires
            old(self).wf(),
        ensures
            final(self).wf(),
            final(self).common.same_config(&old(self).common),
            r is Err ==> final(self).common.session == old(self).common.session,
            r matches Ok(sid) ==> exists|i: int|
                0 <= i < old(self).common.session@.len()
                    && !(#[trigger] old(self).common.session@[i]).is_live()
                    && final(self).common.session@ == old(self).common.session@.update(
                    i,
                    final(self).common.session@[i],
                ) && final(self).common.session@[i].session_id == sid
                    && final(self).common.session@[i].session_state
                    == SpdmSessionState::SpdmSessionHandshaking,
    {
        let mut send_buffer: Vec<u8> = vec![0u8; MAX_SPDM_TRANSPORT_SIZE];
        let (key_exchange_context, send_used) = match self.encode_spdm_key_exchange(
            send_buffer.as_mut_slice(),
            slot_id,
            measurement_summary_hash_type,
        ) {
            Ok(x) => x,
            Err(e) => return Err(e),
        };
        match self.device_io.send(None, &send_buffer.as_slice()[0..send_used]) {
            Ok(_) => {},
            Err(_) => return Err(SpdmError::TransportFailure),
        }
        let mut receive_buffer: Vec<u8> = vec![0u8; MAX_SPDM_TRANSPORT_SIZE];
        let receive_used = match self.device_io.receive(None, receive_buffer.as_mut_slice()) {
            Ok(n) => n,
            Err(_) => return Err(SpdmError::TransportFailure),
        };
        let r = self.handle_spdm_key_exhcange_response(
            &send_buffer.as_slice()[0..send_used],
            &receive_buffer.as_slice()[0..receive_used],
            measurement_summary_hash_type,
            key_exchange_context,
        );
        r
    }

    /// Runs FINISH for the handshaking session `session_id`: sends the
    /// request inside the session, receives the response and handles it. On
    /// success the session is established; a failed HMAC tears it down; any
    /// other failure leaves the session table as it was.
    pub fn send_receive_spdm_finish(&mut self, session_id: u32) -> (r: SpdmResult<()>)
        requires
            old(self).wf(),
        ensures
            final(self).wf(),
            final(self).common.same_config(&old(self).common),
            !spec_has_handshaking_session(&old(self).common, session_id) ==> r == Err::<
                (),
                SpdmError,
            >(SpdmError::ProtocolViolation) && final(self).common.session == old(self).common.session,
            r is Err && r != Err::<(), SpdmError>(SpdmError::AuthenticationFailure)
                ==> final(self).common.session == old(self).common.session,
            r == Err::<(), SpdmError>(SpdmError::AuthenticationFailure)
                ==> !final(self).common.spec_has_live_session(session_id),
            r is Ok ==> exists|i: int|
                #[trigger] spec_handshaking_slot(&old(self).common, session_id, i)
                    && final(self).common.session@ == old(self).common.session@.update(
                    i,
                    final(self).common.session@[i],
                ) && final(self).common.session@[i].session_id == session_id
                    && final(self).common.session@[i].session_state
                    == SpdmSessionState::SpdmSessionEstablished,
    {
        let ghost old_common = self.common;
        let mut send_buffer: Vec<u8> = vec![0u8; MAX_SPDM_TRANSPORT_SIZE];
        let (send_used, base_hash_size, message_f) = match self.encode_spdm_finish(
            session_id,
            send_buffer.as_mut_slice(),
        ) {
            Ok(x) => x,
            Err(e) => return Err(e),
        };
        let ghost i = choose|i: int| #[trigger] spec_handshaking_slot(&old_common, session_id, i);
        match self.device_io.send(Some(session_id), &send_buffer.as_slice()[0..send_used]) {
            Ok(_) => {},
            Err(_) => return Err(SpdmError::TransportFailure),
        }
        let mut receive_buffer: Vec<u8> = vec![0u8; MAX_SPDM_TRANSPORT_SIZE];
        let receive_used = match self.device_io.receive(
            Some(session_id),
            receive_buffer.as_mut_slice(),
        ) {
            Ok(n) => n,
            Err(_) => return Err(SpdmError::TransportFailure),
        };
        let r = self.handle_spdm_finish_response(
            session_id,
            base_hash_size,
            message_f,
            &receive_buffer.as_slice()[0..receive_used],
        );
        proof {
            assert(spec_handshaking_slot(&old_common, session_id, i));
            if r == Err::<(), SpdmError>(SpdmError::AuthenticationFailure) {
                assert forall|k: int|
                    0 <= k < self.common.session@.len() && (#[trigger] self.common.session@[k]).is_live()
                    implies self.common.session@[k].session_id != session_id by {
                    if k != i {
                        assert(self.common.session@[k] == old_common.session@[k]);
                        assert(SpdmContext::live_ids_unique(old_common.session@));
                    }
                }
            }
        }
        r
    }
}


/// Changing any byte of the verify data of a KEY_EXCHANGE_RSP that would be
/// accepted makes the handshake fail with `AuthenticationFailure` (and, by
/// the handler's contract, leaves the session table as it was).
pub proof fn lemma_key_exchange_verify_data_tamper_detected<C: SpdmCryptoBackend>(
    ctx: &SpdmContext,
    send: Seq<u8>,
    recv: Seq<u8>,
    t: SpdmMeasurementSummaryHashType,
    kx_dhe: crate::protocol::SpdmDheAlgo,
    kx_private: Seq<u8>,
    k: int,
    b: u8,
)
    requires
        spec_key_exchange_outcome::<C>(ctx, send, recv, t, kx_dhe, kx_private) is Ok,
        ({
            let n = spec_key_exchange_rsp(ctx, recv, t).unwrap().1;
            n - ctx.negotiate_info.base_hash_sel.spec_size() <= k < n
        }),
        b != recv[k],
    ensures
        spec_key_exchange_outcome::<C>(ctx, send, recv.update(k, b), t, kx_dhe, kx_private)
            == Err::<u32, SpdmError>(SpdmError::AuthenticationFailure),
{
    let shape = spec_key_exchange_rsp_shape(ctx, t);
    let (p, n) = spec_key_exchange_rsp(ctx, recv, t).unwrap();
    let r2 = recv.update(k, b);
    let d = shape.dhe.spec_size() as int;
    let m = shape.spec_msh_size() as int;
    let h = shape.base_hash.spec_size() as int;
    let tail = shape.spec_tail_size() as int;
    assert(r2[0] == recv[0] && r2[1] == recv[1]);
    assert(r2[40 + d + m] == recv[40 + d + m] && r2[41 + d + m] == recv[41 + d + m]);
    assert(r2[4] == recv[4] && r2[5] == recv[5]);
    let (p2, n2) = spec_key_exchange_rsp(ctx, r2, t).unwrap();
    assert(n2 == n);
    assert(r2.subrange(0, n - tail) =~= recv.subrange(0, n - tail));
    assert(p2.exchange =~= p.exchange);
    assert(p2.signature =~= p.signature);
    assert(p2.verify_data[k - (n - h)] == b);
    assert(p.verify_data[k - (n - h)] == recv[k]);
    assert(p2.verify_data != p.verify_data);
}

/// In the clear, changing any byte of the verify data of a FINISH_RSP that
/// would be accepted makes FINISH fail with `AuthenticationFailure` (and, by
/// the handler's contract, tears the session down).
pub proof fn lemma_finish_verify_data_tamper_detected<C: SpdmCryptoBackend>(
    ctx: &SpdmContext,
    s: &SpdmSession,
    base_hash_size: usize,
    message_f: Seq<u8>,
    max_size: nat,
    recv: Seq<u8>,
    k: int,
    b: u8,
)
    requires
        ctx.negotiate_info.spec_in_clear_text(),
        spec_finish_outcome::<C>(ctx, s, base_hash_size, message_f, max_size, recv) is Ok,
        4 <= k < 4 + s.crypto_param.base_hash_algo.spec_size(),
        b != recv[k],
    ensures
        spec_finish_outcome::<C>(ctx, s, base_hash_size, message_f, max_size, recv.update(k, b))
            == Err::<(), SpdmError>(SpdmError::AuthenticationFailure),
{
    let r2 = recv.update(k, b);
    let n = 4 + s.crypto_param.base_hash_algo.spec_size() as int;
    assert(r2[0] == recv[0] && r2[1] == recv[1]);
    assert(r2.subrange(0, 4) =~= recv.subrange(0, 4));
    assert(r2.subrange(4, n)[k - 4] == b);
    assert(recv.subrange(4, n)[k - 4] == recv[k]);
    assert(r2.subrange(4, n) != recv.subrange(4, n));
}


/// A handshake succeeds only under an id that no live session holds: while
/// one session is live, a second handshake that succeeds gets another id.
pub proof fn lemma_key_exchange_id_is_fresh<C: SpdmCryptoBackend>(
    ctx: &SpdmContext,
    send: Seq<u8>,
    recv: Seq<u8>,
    t: SpdmMeasurementSummaryHashType,
    kx_dhe: crate::protocol::SpdmDheAlgo,
    kx_private: Seq<u8>,
    live_id: u32,
)
    requires
        ctx.spec_has_live_session(live_id),
        spec_key_exchange_outcome::<C>(ctx, send, recv, t, kx_dhe, kx_private) is Ok,
    ensures
        spec_key_exchange_outcome::<C>(ctx, send, recv, t, kx_dhe, kx_private).unwrap() != live_id,
{
}

} // verus!
