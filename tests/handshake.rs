use std::cell::Cell;

use spdmlib::codec::{SpdmKeyExchangeRequestPayload, SpdmKeyExchangeResponsePayload};
use spdmlib::common::{SpdmContext, SpdmNegotiateInfo};
use spdmlib::crypto::SpdmCryptoBackend;
use spdmlib::error::SpdmError;
use spdmlib::key_schedule::{generate_data_secret, generate_handshake_secret};
use spdmlib::protocol::{
    SpdmAeadAlgo, SpdmBaseAsymAlgo, SpdmBaseHashAlgo, SpdmDheAlgo, SpdmKeyScheduleAlgo,
    SpdmMeasurementSummaryHashType, HANDSHAKE_IN_THE_CLEAR_CAP, MAX_SPDM_SESSION_COUNT,
};
use spdmlib::requester::{RequesterContext, SpdmDeviceIo};
use spdmlib::session::{SpdmSession, SpdmSessionState};
use spdmlib::transcript::ManagedBuffer;

/// Deterministic stand-in for a digest: FNV-1a over the input, stretched by a counter.
fn mix(tag: u8, data: &[u8], len: usize) -> Vec<u8> {
    let mut out = Vec::with_capacity(len);
    let mut counter: u64 = 0;
    while out.len() < len {
        let mut h: u64 = 0xcbf2_9ce4_8422_2325 ^ (tag as u64) ^ (counter << 8);
        for &b in data {
            h ^= b as u64;
            h = h.wrapping_mul(0x0000_0100_0000_01b3);
        }
        h ^= counter;
        h = h.wrapping_mul(0x0000_0100_0000_01b3);
        for i in 0..8 {
            if out.len() < len {
                out.push((h >> (8 * i)) as u8);
            }
        }
        counter += 1;
    }
    out
}

fn concat(parts: &[&[u8]]) -> Vec<u8> {
    let mut v = Vec::new();
    for p in parts {
        v.extend_from_slice(p);
    }
    v
}

fn fake_sign(asym: SpdmBaseAsymAlgo, cert_chain: &[u8], data: &[u8]) -> Vec<u8> {
    mix(0xA5, &concat(&[cert_chain, data]), asym.get_size())
}

struct TestCrypto {
    counter: Cell<u8>,
    fail_random: bool,
    fail_dhe: bool,
}

impl TestCrypto {
    fn new() -> Self {
        TestCrypto { counter: Cell::new(1), fail_random: false, fail_dhe: false }
    }
}

impl SpdmCryptoBackend for TestCrypto {
    fn hash(&self, alg: SpdmBaseHashAlgo, data: &[u8]) -> Vec<u8> {
        mix(0x01, data, alg.get_size())
    }

    fn hmac(&self, alg: SpdmBaseHashAlgo, key: &[u8], data: &[u8]) -> Vec<u8> {
        mix(0x02, &concat(&[key, &[0x5c], data]), alg.get_size())
    }

    fn hkdf_expand(&self, _alg: SpdmBaseHashAlgo, prk: &[u8], info: &[u8], len: usize) -> Vec<u8> {
        mix(0x03, &concat(&[prk, &[0x36], info]), len)
    }

    fn asym_verify(
        &self,
        _hash: SpdmBaseHashAlgo,
        asym: SpdmBaseAsymAlgo,
        cert_chain: &[u8],
        data: &[u8],
        signature: &[u8],
    ) -> bool {
        fake_sign(asym, cert_chain, data) == signature
    }

    fn dhe_generate_key_pair(&self, dhe: SpdmDheAlgo) -> Option<(Vec<u8>, Vec<u8>)> {
        if self.fail_dhe {
            return None;
        }
        let c = self.counter.get();
        self.counter.set(c.wrapping_add(1));
        let private = mix(0x04, &[c], dhe.get_size());
        Some((private.clone(), private))
    }

    fn dhe_compute_final_key(
        &self,
        dhe: SpdmDheAlgo,
        private_key: &[u8],
        peer_exchange: &[u8],
    ) -> Option<Vec<u8>> {
        if peer_exchange.len() != dhe.get_size() {
            return None;
        }
        let (a, b) = if private_key <= peer_exchange {
            (private_key, peer_exchange)
        } else {
            (peer_exchange, private_key)
        };
        Some(mix(0x05, &concat(&[a, b]), dhe.get_size()))
    }

    fn get_random(&self, len: usize) -> Option<Vec<u8>> {
        if self.fail_random {
            return None;
        }
        let c = self.counter.get();
        self.counter.set(c.wrapping_add(1));
        Some(mix(0x06, &[c], len))
    }
}

const CERT_CHAIN: [u8; 16] = [
    0x30, 0x82, 0x01, 0xcf, 0x30, 0x82, 0x01, 0x56, 0xa0, 0x03, 0x02, 0x01, 0x02, 0x02, 0x14, 0x20,
];
const MESSAGE_A: [u8; 14] = [
    0x11, 0xe0, 0x00, 0x00, 0x11, 0x60, 0x00, 0x01, 0x00, 0x00, 0x00, 0x00, 0x00, 0x00,
];

fn negotiate_info(in_clear: bool) -> SpdmNegotiateInfo {
    let caps = if in_clear { HANDSHAKE_IN_THE_CLEAR_CAP } else { 0 };
    SpdmNegotiateInfo {
        req_capabilities_sel: caps,
        rsp_capabilities_sel: caps,
        base_hash_sel: SpdmBaseHashAlgo::TpmAlgSha384,
        base_asym_sel: SpdmBaseAsymAlgo::TpmAlgEcdsaEccNistP384,
        dhe_sel: SpdmDheAlgo::Secp384R1,
        aead_sel: SpdmAeadAlgo::Aes256Gcm,
        key_schedule_sel: SpdmKeyScheduleAlgo::SpdmKeySchedule,
    }
}

/// How the scripted responder misbehaves, if at all.
#[derive(Clone, Copy, PartialEq)]
enum Fault {
    Honest,
    FlipSignature,
    FlipKeyExchangeVerifyData,
    WrongFinishKey,
    WrongResponseCode,
}

/// A responder that answers KEY_EXCHANGE and FINISH from the same fake
/// crypto, keeping its own copy of the transcript and secrets.
struct ScriptedResponder {
    crypto: TestCrypto,
    info: SpdmNegotiateInfo,
    rsp_session_id: u16,
    fault: Fault,
    fail_transport: bool,
    pending: Vec<u8>,
    message_k: Vec<u8>,
    handshake_secret: Vec<u8>,
    request_finished_key: Vec<u8>,
    response_finished_key: Vec<u8>,
    request_data_secret: Vec<u8>,
    response_data_secret: Vec<u8>,
    finish_request_ok: bool,
}

impl ScriptedResponder {
    fn new(info: SpdmNegotiateInfo, rsp_session_id: u16, fault: Fault) -> Self {
        ScriptedResponder {
            crypto: TestCrypto::new(),
            info,
            rsp_session_id,
            fault,
            fail_transport: false,
            pending: Vec::new(),
            message_k: Vec::new(),
            handshake_secret: Vec::new(),
            request_finished_key: Vec::new(),
            response_finished_key: Vec::new(),
            request_data_secret: Vec::new(),
            response_data_secret: Vec::new(),
            finish_request_ok: false,
        }
    }

    fn transcript(&self, tail: &[u8]) -> Vec<u8> {
        let cert_hash = self.crypto.hash(self.info.base_hash_sel, &CERT_CHAIN);
        concat(&[&MESSAGE_A, &cert_hash, tail])
    }

    fn answer_key_exchange(&mut self, request: &[u8]) -> Vec<u8> {
        let hash = self.info.base_hash_sel;
        let (req, _) = SpdmKeyExchangeRequestPayload::spdm_read(request, self.info.dhe_sel).unwrap();
        let private = vec![0x77u8; self.info.dhe_sel.get_size()];
        let shared = self
            .crypto
            .dhe_compute_final_key(self.info.dhe_sel, &private, &req.exchange)
            .unwrap();
        let need_hash = req.measurement_summary_hash_type
            != SpdmMeasurementSummaryHashType::SpdmMeasurementSummaryHashTypeNone;
        let mut rsp = SpdmKeyExchangeResponsePayload {
            heartbeat_period: 0,
            rsp_session_id: self.rsp_session_id,
            mut_auth_req: 0,
            req_slot_id: 0,
            random: vec![0x22; 32],
            exchange: private.clone(),
            measurement_summary_hash: if need_hash { vec![0; hash.get_size()] } else { Vec::new() },
            opaque: vec![0x46, 0x54, 0x4d, 0x44],
            signature: Vec::new(),
            verify_data: Vec::new(),
        };
        let unsigned = rsp.spdm_encode();
        let k1 = concat(&[request, &unsigned]);
        let mut signature = fake_sign(self.info.base_asym_sel, &CERT_CHAIN, &self.transcript(&k1));
        let k2 = concat(&[&k1, &signature]);
        let th1 = self.crypto.hash(hash, &self.transcript(&k2));
        let secrets = generate_handshake_secret(&self.crypto, hash, &shared, &th1);
        let mut verify_data = self.crypto.hmac(hash, &secrets.response_finished_key, &self.transcript(&k2));
        self.message_k = concat(&[&k2, &verify_data]);
        self.handshake_secret = secrets.handshake_secret;
        self.request_finished_key = secrets.request_finished_key;
        self.response_finished_key = secrets.response_finished_key;
        if self.fault == Fault::FlipSignature {
            signature[5] ^= 0x01;
        }
        if self.fault == Fault::FlipKeyExchangeVerifyData {
            verify_data[0] ^= 0x80;
        }
        rsp.signature = signature;
        rsp.verify_data = verify_data;
        let mut bytes = rsp.spdm_encode();
        if self.fault == Fault::WrongResponseCode {
            bytes[1] = 0x65;
        }
        bytes
    }

    fn answer_finish(&mut self, request: &[u8]) -> Vec<u8> {
        let hash = self.info.base_hash_sel;
        let h = hash.get_size();
        let expected = self.crypto.hmac(
            hash,
            &self.request_finished_key,
            &self.transcript(&concat(&[&self.message_k, &request[..4]])),
        );
        self.finish_request_ok = expected == request[4..4 + h].to_vec();
        let header = [0x11u8, 0x65, 0x00, 0x00];
        let f = concat(&[request, &header]);
        let key = if self.fault == Fault::WrongFinishKey {
            self.request_finished_key.clone()
        } else {
            self.response_finished_key.clone()
        };
        let in_clear = self.info.req_capabilities_sel & HANDSHAKE_IN_THE_CLEAR_CAP != 0
            && self.info.rsp_capabilities_sel & HANDSHAKE_IN_THE_CLEAR_CAP != 0;
        let (response, f_full) = if in_clear {
            let verify = self.crypto.hmac(hash, &key, &self.transcript(&concat(&[&self.message_k, &f])));
            (concat(&[&header, &verify]), concat(&[&f, &verify]))
        } else {
            (header.to_vec(), f.clone())
        };
        let th2 = self.crypto.hash(hash, &self.transcript(&concat(&[&self.message_k, &f_full])));
        let data = generate_data_secret(&self.crypto, hash, &self.handshake_secret, &th2);
        self.request_data_secret = data.request_data_secret;
        self.response_data_secret = data.response_data_secret;
        response
    }
}

impl SpdmDeviceIo for ScriptedResponder {
    fn send(&mut self, _session_id: Option<u32>, buffer: &[u8]) -> Result<(), SpdmError> {
        if self.fail_transport {
            return Err(SpdmError::TransportFailure);
        }
        self.pending = match buffer[1] {
            0xE4 => self.answer_key_exchange(buffer),
            0xE5 => self.answer_finish(buffer),
            _ => Vec::new(),
        };
        Ok(())
    }

    fn receive(&mut self, _session_id: Option<u32>, buffer: &mut [u8]) -> Result<usize, SpdmError> {
        let n = self.pending.len();
        buffer[..n].copy_from_slice(&self.pending);
        Ok(n)
    }
}

fn requester_with(
    info: SpdmNegotiateInfo,
    responder: ScriptedResponder,
) -> RequesterContext<TestCrypto, ScriptedResponder> {
    let mut common = SpdmContext::new(info, CERT_CHAIN.to_vec(), 0, 0);
    common.runtime_info.message_a.append_message(&MESSAGE_A).unwrap();
    RequesterContext::new(common, TestCrypto::new(), responder)
}

fn slot_of(requester: &RequesterContext<TestCrypto, ScriptedResponder>, session_id: u32) -> Option<usize> {
    requester.common.get_session_via_id(session_id)
}

fn all_empty(requester: &RequesterContext<TestCrypto, ScriptedResponder>) -> bool {
    requester
        .common
        .session
        .iter()
        .all(|s| s.session_state == SpdmSessionState::SpdmSessionEmpty)
}

#[test]
fn test_case0_send_receive_spdm_key_exchange() {
    let mut info = negotiate_info(false);
    info.aead_sel = SpdmAeadAlgo::Aes128Gcm;
    let responder = ScriptedResponder::new(info, 0xFFFE, Fault::Honest);
    let mut requester = requester_with(info, responder);
    let measurement_summary_hash_type =
        SpdmMeasurementSummaryHashType::SpdmMeasurementSummaryHashTypeAll;
    let status = requester
        .send_receive_spdm_key_exchange(0, measurement_summary_hash_type)
        .is_ok();
    assert!(status);
}

#[test]
fn test_case0_send_receive_spdm_finish() {
    let info = negotiate_info(true);
    let responder = ScriptedResponder::new(info, 0xFFFE, Fault::Honest);
    let mut requester = requester_with(info, responder);
    requester.common.session[0].setup(4294901758);
    requester.common.session[0].set_crypto_param(
        SpdmBaseHashAlgo::TpmAlgSha384,
        SpdmDheAlgo::Secp384R1,
        SpdmAeadAlgo::Aes256Gcm,
        SpdmKeyScheduleAlgo::SpdmKeySchedule,
    );
    requester.common.session[0].set_session_state(SpdmSessionState::SpdmSessionHandshaking);
    let status = requester.send_receive_spdm_finish(4294901758).is_ok();
    assert!(status);
}

#[test]
fn key_exchange_then_finish_establishes_matching_data_secrets() {
    let info = negotiate_info(true);
    let responder = ScriptedResponder::new(info, 0x1234, Fault::Honest);
    let mut requester = requester_with(info, responder);
    let session_id = requester
        .send_receive_spdm_key_exchange(0, SpdmMeasurementSummaryHashType::SpdmMeasurementSummaryHashTypeAll)
        .unwrap();
    assert_eq!(session_id, 0xFFFE_1234);
    let slot = slot_of(&requester, session_id).unwrap();
    assert_eq!(requester.common.session[slot].session_state, SpdmSessionState::SpdmSessionHandshaking);
    assert_eq!(requester.common.session[slot].message_k.as_ref(), &requester.device_io.message_k[..]);

    requester.send_receive_spdm_finish(session_id).unwrap();
    assert!(requester.device_io.finish_request_ok);
    let s = &requester.common.session[slot];
    assert_eq!(s.session_state, SpdmSessionState::SpdmSessionEstablished);
    assert_eq!(s.data_secret.request_data_secret.len(), 48);
    assert!(s.data_secret.request_data_secret.iter().any(|b| *b != 0));
    assert!(s.data_secret.response_data_secret.iter().any(|b| *b != 0));
    assert_eq!(s.data_secret.request_data_secret, requester.device_io.request_data_secret);
    assert_eq!(s.data_secret.response_data_secret, requester.device_io.response_data_secret);
    assert_eq!(s.crypto_param.aead_algo, SpdmAeadAlgo::Aes256Gcm);
}

#[test]
fn finish_without_clear_text_establishes_session() {
    let info = negotiate_info(false);
    let responder = ScriptedResponder::new(info, 0x0042, Fault::Honest);
    let mut requester = requester_with(info, responder);
    let session_id = requester
        .send_receive_spdm_key_exchange(0, SpdmMeasurementSummaryHashType::SpdmMeasurementSummaryHashTypeNone)
        .unwrap();
    requester.send_receive_spdm_finish(session_id).unwrap();
    let slot = slot_of(&requester, session_id).unwrap();
    let s = &requester.common.session[slot];
    assert_eq!(s.session_state, SpdmSessionState::SpdmSessionEstablished);
    assert_eq!(s.message_f.len(), 4 + 48 + 4);
    assert_eq!(s.data_secret.request_data_secret, requester.device_io.request_data_secret);
}

#[test]
fn finish_hmac_with_wrong_key_fails_and_empties_slot() {
    let info = negotiate_info(true);
    let responder = ScriptedResponder::new(info, 0x0007, Fault::WrongFinishKey);
    let mut requester = requester_with(info, responder);
    let session_id = requester
        .send_receive_spdm_key_exchange(0, SpdmMeasurementSummaryHashType::SpdmMeasurementSummaryHashTypeTcb)
        .unwrap();
    let slot = slot_of(&requester, session_id).unwrap();
    assert_eq!(requester.send_receive_spdm_finish(session_id), Err(SpdmError::AuthenticationFailure));
    let s = &requester.common.session[slot];
    assert_eq!(s.session_state, SpdmSessionState::SpdmSessionEmpty);
    assert_eq!(s.session_id, 0);
    assert!(s.handshake_secret.response_finished_key.is_empty());
    assert!(s.message_k.as_ref().is_empty());
    assert!(slot_of(&requester, session_id).is_none());
}

#[test]
fn flipped_signature_is_rejected_and_no_slot_is_taken() {
    let info = negotiate_info(true);
    let responder = ScriptedResponder::new(info, 0x0001, Fault::FlipSignature);
    let mut requester = requester_with(info, responder);
    let r = requester.send_receive_spdm_key_exchange(0, SpdmMeasurementSummaryHashType::SpdmMeasurementSummaryHashTypeAll);
    assert_eq!(r, Err(SpdmError::AuthenticationFailure));
    assert!(all_empty(&requester));
}

#[test]
fn flipped_key_exchange_verify_data_is_rejected_and_no_slot_is_taken() {
    let info = negotiate_info(true);
    let responder = ScriptedResponder::new(info, 0x0001, Fault::FlipKeyExchangeVerifyData);
    let mut requester = requester_with(info, responder);
    let r = requester.send_receive_spdm_key_exchange(0, SpdmMeasurementSummaryHashType::SpdmMeasurementSummaryHashTypeAll);
    assert_eq!(r, Err(SpdmError::AuthenticationFailure));
    assert!(all_empty(&requester));
}

#[test]
fn flipped_finish_verify_data_is_rejected() {
    let info = negotiate_info(true);
    let responder = ScriptedResponder::new(info, 0x0003, Fault::Honest);
    let mut requester = requester_with(info, responder);
    let session_id = requester
        .send_receive_spdm_key_exchange(0, SpdmMeasurementSummaryHashType::SpdmMeasurementSummaryHashTypeAll)
        .unwrap();
    let slot = slot_of(&requester, session_id).unwrap();
    let mut buf = vec![0u8; 256];
    let (used, hash_size, message_f) = requester.encode_spdm_finish(session_id, &mut buf).unwrap();
    assert_eq!(used, 4 + 48);
    assert_eq!(hash_size, 48);
    let mut response = requester.device_io.answer_finish(&buf[..used]);
    response[10] ^= 0x04;
    let r = requester.handle_spdm_finish_response(session_id, hash_size, message_f, &response);
    assert_eq!(r, Err(SpdmError::AuthenticationFailure));
    assert_eq!(requester.common.session[slot].session_state, SpdmSessionState::SpdmSessionEmpty);
}

#[test]
fn wrong_response_code_is_a_protocol_violation() {
    let info = negotiate_info(true);
    let responder = ScriptedResponder::new(info, 0x0001, Fault::WrongResponseCode);
    let mut requester = requester_with(info, responder);
    let r = requester.send_receive_spdm_key_exchange(0, SpdmMeasurementSummaryHashType::SpdmMeasurementSummaryHashTypeAll);
    assert_eq!(r, Err(SpdmError::ProtocolViolation));
    assert!(all_empty(&requester));
}

#[test]
fn truncated_response_is_a_protocol_violation() {
    let info = negotiate_info(true);
    let responder = ScriptedResponder::new(info, 0x0001, Fault::Honest);
    let mut requester = requester_with(info, responder);
    let mut buf = vec![0u8; 512];
    let (ctx, used) = requester
        .encode_spdm_key_exchange(&mut buf, 0, SpdmMeasurementSummaryHashType::SpdmMeasurementSummaryHashTypeNone)
        .unwrap();
    let response = requester.device_io.answer_key_exchange(&buf[..used]);
    let cut = &response[..response.len() - 1];
    let r = requester.handle_spdm_key_exhcange_response(
        &buf[..used],
        cut,
        SpdmMeasurementSummaryHashType::SpdmMeasurementSummaryHashTypeNone,
        ctx,
    );
    assert_eq!(r, Err(SpdmError::ProtocolViolation));
    let r = requester.handle_spdm_finish_response(0x1234_5678, 48, ManagedBuffer::new(), &[0x11, 0x65, 0, 0]);
    assert_eq!(r, Err(SpdmError::ProtocolViolation));
}

#[test]
fn declined_randomness_is_crypto_unavailable() {
    let info = negotiate_info(true);
    let responder = ScriptedResponder::new(info, 0x0001, Fault::Honest);
    let mut requester = requester_with(info, responder);
    requester.crypto.fail_random = true;
    let mut buf = vec![0u8; 512];
    let r = requester.encode_spdm_key_exchange(&mut buf, 0, SpdmMeasurementSummaryHashType::SpdmMeasurementSummaryHashTypeNone);
    assert!(matches!(r, Err(SpdmError::CryptoUnavailable)));
    requester.crypto.fail_random = false;
    requester.crypto.fail_dhe = true;
    let r = requester.send_receive_spdm_key_exchange(0, SpdmMeasurementSummaryHashType::SpdmMeasurementSummaryHashTypeNone);
    assert_eq!(r, Err(SpdmError::CryptoUnavailable));
}

#[test]
fn small_buffer_is_resource_exhausted() {
    let info = negotiate_info(true);
    let responder = ScriptedResponder::new(info, 0x0001, Fault::Honest);
    let mut requester = requester_with(info, responder);
    // 4 + 2 + 2 + 32 + 96 + 2 + 20 bytes are needed for SECP384R1
    let mut buf = vec![0u8; 157];
    let r = requester.encode_spdm_key_exchange(&mut buf, 0, SpdmMeasurementSummaryHashType::SpdmMeasurementSummaryHashTypeNone);
    assert!(matches!(r, Err(SpdmError::ResourceExhausted)));
    let mut buf = vec![0u8; 158];
    let (_, used) = requester
        .encode_spdm_key_exchange(&mut buf, 3, SpdmMeasurementSummaryHashType::SpdmMeasurementSummaryHashTypeTcb)
        .unwrap();
    assert_eq!(used, 158);
    assert_eq!(&buf[..8], &[0x11, 0xE4, 0x01, 0x03, 0xFE, 0xFF, 0x00, 0x00]);
}

#[test]
fn transport_failure_is_reported() {
    let info = negotiate_info(true);
    let mut responder = ScriptedResponder::new(info, 0x0001, Fault::Honest);
    responder.fail_transport = true;
    let mut requester = requester_with(info, responder);
    let r = requester.send_receive_spdm_key_exchange(0, SpdmMeasurementSummaryHashType::SpdmMeasurementSummaryHashTypeAll);
    assert_eq!(r, Err(SpdmError::TransportFailure));
    assert!(all_empty(&requester));
}

#[test]
fn concurrent_sessions_get_distinct_ids_and_duplicates_are_refused() {
    let info = negotiate_info(true);
    let responder = ScriptedResponder::new(info, 0x0001, Fault::Honest);
    let mut requester = requester_with(info, responder);
    let t = SpdmMeasurementSummaryHashType::SpdmMeasurementSummaryHashTypeAll;
    let a = requester.send_receive_spdm_key_exchange(0, t).unwrap();
    requester.device_io.rsp_session_id = 0x0002;
    let b = requester.send_receive_spdm_key_exchange(0, t).unwrap();
    assert_ne!(a, b);
    assert_ne!(slot_of(&requester, a), slot_of(&requester, b));
    // the responder hands out an id that is already live
    requester.device_io.rsp_session_id = 0x0001;
    let r = requester.send_receive_spdm_key_exchange(0, t);
    assert_eq!(r, Err(SpdmError::ProtocolViolation));
    assert_eq!(requester.common.session.iter().filter(|s| s.session_state != SpdmSessionState::SpdmSessionEmpty).count(), 2);
}

#[test]
fn full_session_table_is_resource_exhausted() {
    let info = negotiate_info(true);
    let responder = ScriptedResponder::new(info, 0x0010, Fault::Honest);
    let mut requester = requester_with(info, responder);
    let t = SpdmMeasurementSummaryHashType::SpdmMeasurementSummaryHashTypeNone;
    for k in 0..MAX_SPDM_SESSION_COUNT {
        requester.device_io.rsp_session_id = 0x0010 + k as u16;
        requester.send_receive_spdm_key_exchange(0, t).unwrap();
    }
    requester.device_io.rsp_session_id = 0x0100;
    assert_eq!(requester.send_receive_spdm_key_exchange(0, t), Err(SpdmError::ResourceExhausted));
    // a torn-down slot is reusable
    requester.common.teardown(0xFFFE_0011);
    requester.common.teardown(0xFFFE_0011);
    assert_eq!(requester.send_receive_spdm_key_exchange(0, t), Ok(0xFFFE_0100));
}

#[test]
fn finish_for_unknown_session_is_a_protocol_violation() {
    let info = negotiate_info(true);
    let responder = ScriptedResponder::new(info, 0x0001, Fault::Honest);
    let mut requester = requester_with(info, responder);
    assert_eq!(requester.send_receive_spdm_finish(0xFFFE_0001), Err(SpdmError::ProtocolViolation));
    let mut s = SpdmSession::new();
    s.setup(5);
    assert_eq!(s.session_state, SpdmSessionState::SpdmSessionHandshaking);
}

#[test]
fn key_schedule_is_deterministic() {
    let crypto = TestCrypto::new();
    let hash = SpdmBaseHashAlgo::TpmAlgSha384;
    let dhe_secret = vec![0x42u8; 48];
    let th1 = crypto.hash(hash, b"transcript one");
    let th2 = crypto.hash(hash, b"transcript two");
    let a = generate_handshake_secret(&crypto, hash, &dhe_secret, &th1);
    let b = generate_handshake_secret(&crypto, hash, &dhe_secret, &th1);
    assert_eq!(a.handshake_secret, b.handshake_secret);
    assert_eq!(a.request_finished_key, b.request_finished_key);
    assert_eq!(a.response_finished_key, b.response_finished_key);
    assert_ne!(a.request_finished_key, a.response_finished_key);
    assert_eq!(a.request_finished_key.len(), 48);
    let da = generate_data_secret(&crypto, hash, &a.handshake_secret, &th2);
    let db = generate_data_secret(&crypto, hash, &b.handshake_secret, &th2);
    assert_eq!(da.request_data_secret, db.request_data_secret);
    assert_eq!(da.response_data_secret, db.response_data_secret);
    let other = generate_handshake_secret(&crypto, hash, &dhe_secret, &th2);
    assert_ne!(a.request_finished_key, other.request_finished_key);
}
