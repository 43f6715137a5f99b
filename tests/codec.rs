use spdmlib::codec::{
    SpdmFinishRequestPayload, SpdmFinishResponsePayload, SpdmKeyExchangeRequestPayload,
    SpdmKeyExchangeResponsePayload, SpdmKeyExchangeRspShape, SpdmMessageHeader,
};
use spdmlib::error::SpdmError;
use spdmlib::key_schedule::{bin_concat, SpdmKeyScheduleLabel};
use spdmlib::protocol::{
    SpdmBaseAsymAlgo, SpdmBaseHashAlgo, SpdmDheAlgo, SpdmMeasurementSummaryHashType,
    MAX_SPDM_MESSAGE_BUFFER_SIZE,
};
use spdmlib::session::session_id_of;
use spdmlib::transcript::ManagedBuffer;

fn sample_request() -> SpdmKeyExchangeRequestPayload {
    SpdmKeyExchangeRequestPayload {
        slot_id: 2,
        measurement_summary_hash_type: SpdmMeasurementSummaryHashType::SpdmMeasurementSummaryHashTypeAll,
        req_session_id: 0xFFFE,
        random: (0..32).collect(),
        exchange: (0..64).map(|i| (i * 3) as u8).collect(),
        opaque: vec![0xAA, 0xBB, 0xCC],
    }
}

#[test]
fn key_exchange_request_round_trips() {
    let req = sample_request();
    let bytes = req.spdm_encode();
    assert_eq!(bytes.len(), 4 + 2 + 2 + 32 + 64 + 2 + 3);
    assert_eq!(&bytes[..8], &[0x11, 0xE4, 0xFF, 0x02, 0xFE, 0xFF, 0x00, 0x00]);
    assert_eq!(&bytes[104..106], &[0x03, 0x00]);
    let (decoded, used) = SpdmKeyExchangeRequestPayload::spdm_read(&bytes, SpdmDheAlgo::Secp256R1).unwrap();
    assert_eq!(used, bytes.len());
    assert_eq!(decoded.slot_id, req.slot_id);
    assert_eq!(decoded.measurement_summary_hash_type, req.measurement_summary_hash_type);
    assert_eq!(decoded.req_session_id, req.req_session_id);
    assert_eq!(decoded.random, req.random);
    assert_eq!(decoded.exchange, req.exchange);
    assert_eq!(decoded.opaque, req.opaque);
}

#[test]
fn key_exchange_request_decode_rejects_bad_input() {
    let bytes = sample_request().spdm_encode();
    assert!(SpdmKeyExchangeRequestPayload::spdm_read(&bytes[..bytes.len() - 1], SpdmDheAlgo::Secp256R1).is_none());
    assert!(SpdmKeyExchangeRequestPayload::spdm_read(&bytes, SpdmDheAlgo::Secp384R1).is_none());
    let mut bad = bytes.clone();
    bad[2] = 0x07;
    assert!(SpdmKeyExchangeRequestPayload::spdm_read(&bad, SpdmDheAlgo::Secp256R1).is_none());
    let mut bad = bytes.clone();
    bad[1] = 0xE5;
    assert!(SpdmKeyExchangeRequestPayload::spdm_read(&bad, SpdmDheAlgo::Secp256R1).is_none());
    assert!(SpdmKeyExchangeRequestPayload::spdm_read(&[], SpdmDheAlgo::Secp256R1).is_none());
}

#[test]
fn key_exchange_response_round_trips() {
    let rsp = SpdmKeyExchangeResponsePayload {
        heartbeat_period: 5,
        rsp_session_id: 0xABCD,
        mut_auth_req: 0,
        req_slot_id: 1,
        random: vec![9; 32],
        exchange: vec![7; 96],
        measurement_summary_hash: vec![1; 48],
        opaque: vec![],
        signature: vec![3; 96],
        verify_data: vec![4; 48],
    };
    let shape = SpdmKeyExchangeRspShape {
        base_hash: SpdmBaseHashAlgo::TpmAlgSha384,
        base_asym: SpdmBaseAsymAlgo::TpmAlgEcdsaEccNistP384,
        dhe: SpdmDheAlgo::Secp384R1,
        need_measurement_summary_hash: true,
    };
    let mut bytes = rsp.spdm_encode();
    assert_eq!(bytes.len(), 42 + 96 + 48 + 96 + 48);
    bytes.extend_from_slice(&[0xEE, 0xEE]);
    let (decoded, used) = SpdmKeyExchangeResponsePayload::spdm_read(&bytes, shape).unwrap();
    assert_eq!(used, bytes.len() - 2);
    assert_eq!(decoded.rsp_session_id, 0xABCD);
    assert_eq!(decoded.heartbeat_period, 5);
    assert_eq!(decoded.signature, rsp.signature);
    assert_eq!(decoded.verify_data, rsp.verify_data);
    assert_eq!(decoded.measurement_summary_hash, rsp.measurement_summary_hash);
    let no_hash = SpdmKeyExchangeRspShape { need_measurement_summary_hash: false, ..shape };
    // read without the hash, the opaque length lands on hash bytes (257) and overruns
    assert!(SpdmKeyExchangeResponsePayload::spdm_read(&bytes, no_hash).is_none());
}

#[test]
fn header_and_finish_messages() {
    assert_eq!(
        SpdmMessageHeader::read(&[0x11, 0x64]),
        Some(SpdmMessageHeader { version: 0x11, request_response_code: 0x64 })
    );
    assert_eq!(SpdmMessageHeader::read(&[0x11]), None);
    assert_eq!(SpdmMessageHeader::read(&[0x20, 0x64]), None);
    let req = SpdmFinishRequestPayload { finish_request_attributes: 0, req_slot_id: 0, verify_data: vec![0xCC; 32] };
    let bytes = req.spdm_encode();
    assert_eq!(bytes.len(), 36);
    assert_eq!(&bytes[..4], &[0x11, 0xE5, 0x00, 0x00]);
    let rsp = SpdmFinishResponsePayload { verify_data: vec![0x5A; 48] };
    let bytes = rsp.spdm_encode();
    let (decoded, used) = SpdmFinishResponsePayload::spdm_read(&bytes, SpdmBaseHashAlgo::TpmAlgSha384, true).unwrap();
    assert_eq!(used, 52);
    assert_eq!(decoded.verify_data, vec![0x5A; 48]);
    let (plain, used) = SpdmFinishResponsePayload::spdm_read(&bytes, SpdmBaseHashAlgo::TpmAlgSha384, false).unwrap();
    assert_eq!(used, 4);
    assert!(plain.verify_data.is_empty());
    assert!(SpdmFinishResponsePayload::spdm_read(&bytes[..51], SpdmBaseHashAlgo::TpmAlgSha384, true).is_none());
}

#[test]
fn transcript_append_beyond_capacity_fails_and_keeps_contents() {
    let mut t = ManagedBuffer::with_capacity(8);
    assert_eq!(t.append_message(&[1, 2, 3, 4, 5]), Ok(()));
    assert_eq!(t.append_message(&[6, 7, 8, 9]), Err(SpdmError::ResourceExhausted));
    assert_eq!(t.as_ref(), &[1, 2, 3, 4, 5]);
    assert_eq!(t.append_message(&[6, 7, 8]), Ok(()));
    assert_eq!(t.as_ref(), &[1, 2, 3, 4, 5, 6, 7, 8]);
    assert_eq!(t.append_message(&[9]), Err(SpdmError::ResourceExhausted));
    assert_eq!(t.len(), 8);
    t.reset();
    assert_eq!(t.len(), 0);
    let mut big = ManagedBuffer::new();
    assert_eq!(big.append_message(&vec![0u8; MAX_SPDM_MESSAGE_BUFFER_SIZE]), Ok(()));
    assert_eq!(big.append_message(&[1]), Err(SpdmError::ResourceExhausted));
}

#[test]
fn session_id_and_label_encoding() {
    assert_eq!(session_id_of(0xFFFE, 0xFFFE), 4294901758);
    assert_eq!(session_id_of(0xFFFE, 0x0001), 0xFFFE_0001);
    let info = bin_concat(48, SpdmKeyScheduleLabel::Finished, &[]);
    assert_eq!(info, b"\x30\x00spdm1.1 finished".to_vec());
    let info = bin_concat(32, SpdmKeyScheduleLabel::ReqHsData, &[0xAB]);
    assert_eq!(info, b"\x20\x00spdm1.1 req hs data\xab".to_vec());
}
