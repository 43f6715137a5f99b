use vstd::prelude::*;

use crate::error::{SpdmError, SpdmResult};
use crate::protocol::{
    SpdmBaseAsymAlgo, SpdmBaseHashAlgo, SpdmDheAlgo, SpdmMeasurementSummaryHashType,
    SPDM_MAX_OPAQUE_SIZE, SPDM_RANDOM_SIZE, SPDM_REQUEST_FINISH, SPDM_REQUEST_KEY_EXCHANGE,
    SPDM_RESPONSE_FINISH_RSP, SPDM_RESPONSE_KEY_EXCHANGE_RSP, SPDM_VERSION_1_0, SPDM_VERSION_1_1,
};
use crate::transcript::append_bytes;

verus! {

/// Little-endian encoding of a 16-bit field.
pub open spec fn spec_le16(v: u16) -> Seq<u8> {
    seq![(v % 256) as u8, (v / 256) as u8]
}

/// The 16-bit little-endian field at offset `i` of `s`.
pub open spec fn spec_read_le16(s: Seq<u8>, i: int) -> u16 {
    (s[i] as int + 256 * (s[i + 1] as int)) as u16
}

pub proof fn lemma_le16_round_trip(v: u16)
    ensures
        spec_read_le16(spec_le16(v), 0) == v,
{
    let s = spec_le16(v);
    assert(s[0] as int == v % 256);
    assert(s[1] as int == v / 256);
}

fn read_le16(s: &[u8], i: usize) -> (r: u16)
    requires
        i + 2 <= s@.len(),
    ensures
        r == spec_read_le16(s@, i as int),
{
    let lo = s[i] as u16;
    let hi = s[i + 1] as u16;
    lo + 256 * hi
}

fn push_le16(v: &mut Vec<u8>, x: u16)
    ensures
        final(v)@ == old(v)@ + spec_le16(x),
{
    v.push((x % 256) as u8);
    v.push((x / 256) as u8);
    assert(final(v)@ =~= old(v)@ + spec_le16(x));
}

/// A copy of `s[start..end]`.
fn copy_range(s: &[u8], start: usize, end: usize) -> (r: Vec<u8>)
    requires
        start <= end <= s@.len(),
    ensures
        r@ == s@.subrange(start as int, end as int),
{
    let mut r: Vec<u8> = Vec::new();
    append_bytes(&mut r, &s[start..end]);
    r
}

/// Copies `src` to the front of `buf`, leaving the rest of `buf` alone.
pub fn write_prefix(buf: &mut [u8], src: &[u8])
    requires
        src@.len() <= old(buf)@.len(),
    ensures
        final(buf)@.len() == old(buf)@.len(),
        final(buf)@.subrange(0, src@.len() as int) == src@,
        final(buf)@.subrange(src@.len() as int, final(buf)@.len() as int) == old(buf)@.subrange(
            src@.len() as int,
            old(buf)@.len() as int,
        ),
{
    let mut i: usize = 0;
    while i < src.len()
        invariant
            i <= src@.len() <= buf@.len(),
            buf@.len() == old(buf)@.len(),
            forall|k: int| 0 <= k < i ==> buf@[k] == src@[k],
            forall|k: int| i <= k < buf@.len() ==> buf@[k] == old(buf)@[k],
        decreases src@.len() - i,
    {
        buf[i] = src[i];
        i = i + 1;
    }
    assert(buf@.subrange(0, src@.len() as int) =~= src@);
    assert(buf@.subrange(src@.len() as int, buf@.len() as int) =~= old(buf)@.subrange(
        src@.len() as int,
        old(buf)@.len() as int,
    ));
}

/// The two-byte header that starts every message.
#[derive(Clone, Copy, Debug, PartialEq, Eq, Structural)]
pub struct SpdmMessageHeader {
    pub version: u8,
    pub request_response_code: u8,
}

pub open spec fn spec_known_version(v: u8) -> bool {
    v == SPDM_VERSION_1_0 || v == SPDM_VERSION_1_1
}

pub open spec fn spec_read_header(s: Seq<u8>) -> Option<SpdmMessageHeader> {
    if s.len() >= 2 && spec_known_version(s[0]) {
        Some(SpdmMessageHeader { version: s[0], request_response_code: s[1] })
    } else {
        None
    }
}

impl SpdmMessageHeader {
    /// Reads the header, refusing a buffer too short for it or an unknown version.
    pub fn read(bytes: &[u8]) -> (r: Option<SpdmMessageHeader>)
        ensures
            r == spec_read_header(bytes@),
    {
        if bytes.len() >= 2 && (bytes[0] == SPDM_VERSION_1_0 || bytes[0] == SPDM_VERSION_1_1) {
            Some(SpdmMessageHeader { version: bytes[0], request_response_code: bytes[1] })
        } else {
            None
        }
    }
}

// ---------------------------------------------------------------- KEY_EXCHANGE

/// The fields of a KEY_EXCHANGE request.
pub struct SpdmKeyExchangeRequestPayload {
    pub slot_id: u8,
    pub measurement_summary_hash_type: SpdmMeasurementSummaryHashType,
    pub req_session_id: u16,
    pub random: Vec<u8>,
    pub exchange: Vec<u8>,
    pub opaque: Vec<u8>,
}

pub ghost struct SpdmKeyExchangeRequestView {
    pub slot_id: u8,
    pub measurement_summary_hash_type: SpdmMeasurementSummaryHashType,
    pub req_session_id: u16,
    pub random: Seq<u8>,
    pub exchange: Seq<u8>,
    pub opaque: Seq<u8>,
}

impl View for SpdmKeyExchangeRequestPayload {
    type V = SpdmKeyExchangeRequestView;

    open spec fn view(&self) -> SpdmKeyExchangeRequestView {
        SpdmKeyExchangeRequestView {
            slot_id: self.slot_id,
            measurement_summary_hash_type: self.measurement_summary_hash_type,
            req_session_id: self.req_session_id,
            random: self.random@,
            exchange: self.exchange@,
            opaque: self.opaque@,
        }
    }
}

impl SpdmKeyExchangeRequestView {
    /// Field sizes fit the negotiated DHE algorithm and the protocol's bounds.
    pub open spec fn valid(self, dhe: SpdmDheAlgo) -> bool {
        &&& self.random.len() == SPDM_RANDOM_SIZE
        &&& self.exchange.len() == dhe.spec_size()
        &&& self.opaque.len() <= SPDM_MAX_OPAQUE_SIZE
    }

    /// The wire bytes of the request.
    pub open spec fn spec_encode(self) -> Seq<u8> {
        seq![
            SPDM_VERSION_1_1,
            SPDM_REQUEST_KEY_EXCHANGE,
            self.measurement_summary_hash_type.spec_byte(),
            self.slot_id,
        ] + spec_le16(self.req_session_id) + seq![0u8, 0u8] + self.random + self.exchange
            + spec_le16(self.opaque.len() as u16) + self.opaque
    }
}

/// What a KEY_EXCHANGE request decodes to, with the number of bytes it takes.
pub open spec fn spec_decode_key_exchange_request(s: Seq<u8>, dhe: SpdmDheAlgo) -> Option<
    (SpdmKeyExchangeRequestView, nat),
> {
    let d = dhe.spec_size() as int;
    if s.len() < 42 + d || s[0] != SPDM_VERSION_1_1 || s[1] != SPDM_REQUEST_KEY_EXCHANGE {
        None
    } else {
        let l = spec_read_le16(s, 40 + d) as int;
        match SpdmMeasurementSummaryHashType::spec_from_byte(s[2]) {
            None => None,
            Some(t) => if l > SPDM_MAX_OPAQUE_SIZE || s.len() < 42 + d + l {
                None
            } else {
                Some(
                    (
                        SpdmKeyExchangeRequestView {
                            slot_id: s[3],
                            measurement_summary_hash_type: t,
                            req_session_id: spec_read_le16(s, 4),
                            random: s.subrange(8, 40),
                            exchange: s.subrange(40, 40 + d),
                            opaque: s.subrange(42 + d, 42 + d + l),
                        },
                        (42 + d + l) as nat,
                    ),
                )
            },
        }
    }
}

impl SpdmKeyExchangeRequestPayload {
    /// The wire bytes of the request.
    pub fn spdm_encode(&self) -> (r: Vec<u8>)
        requires
            self.opaque@.len() <= SPDM_MAX_OPAQUE_SIZE,
        ensures
            r@ == self@.spec_encode(),
    {
        let mut r: Vec<u8> = Vec::new();
        r.push(SPDM_VERSION_1_1);
        r.push(SPDM_REQUEST_KEY_EXCHANGE);
        r.push(self.measurement_summary_hash_type.to_byte());
        r.push(self.slot_id);
        push_le16(&mut r, self.req_session_id);
        r.push(0);
        r.push(0);
        append_bytes(&mut r, self.random.as_slice());
        append_bytes(&mut r, self.exchange.as_slice());
        push_le16(&mut r, self.opaque.len() as u16);
        append_bytes(&mut r, self.opaque.as_slice());
        assert(r@ =~= self@.spec_encode());
        r
    }

    /// Decodes a KEY_EXCHANGE request; `None` when the bytes do not hold one.
    pub fn spdm_read(bytes: &[u8], dhe: SpdmDheAlgo) -> (r: Option<(SpdmKeyExchangeRequestPayload, usize)>)
        ensures
            match r {
                Some((p, n)) => spec_decode_key_exchange_request(bytes@, dhe) == Some((p@, n as nat)),
                None => spec_decode_key_exchange_request(bytes@, dhe) is None,
            },
    {
        let d = dhe.get_size();
        if bytes.len() < 42 + d || bytes[0] != SPDM_VERSION_1_1 || bytes[1]
            != SPDM_REQUEST_KEY_EXCHANGE {
            return None;
        }
        let l = read_le16(bytes, 40 + d) as usize;
        let t = match SpdmMeasurementSummaryHashType::from_byte(bytes[2]) {
            None => return None,
            Some(t) => t,
        };
        if l > SPDM_MAX_OPAQUE_SIZE || bytes.len() < 42 + d + l {
            return None;
        }
        let p = SpdmKeyExchangeRequestPayload {
            slot_id: bytes[3],
            measurement_summary_hash_type: t,
            req_session_id: read_le16(bytes, 4),
            random: copy_range(bytes, 8, 40),
            exchange: copy_range(bytes, 40, 40 + d),
            opaque: copy_range(bytes, 42 + d, 42 + d + l),
        };
        Some((p, 42 + d + l))
    }
}

/// Decoding an encoded KEY_EXCHANGE request gives back every field, and
/// consumes exactly the encoded bytes.
pub proof fn lemma_key_exchange_request_round_trip(p: SpdmKeyExchangeRequestView, dhe: SpdmDheAlgo)
    requires
        p.valid(dhe),
    ensures
        spec_decode_key_exchange_request(p.spec_encode(), dhe) == Some((p, p.spec_encode().len())),
{
    let s = p.spec_encode();
    let d = dhe.spec_size() as int;
    let l = p.opaque.len() as int;
    assert(s.len() == 42 + d + l);
    lemma_le16_round_trip(p.req_session_id);
    lemma_le16_round_trip(l as u16);
    assert(s.subrange(4, 6) =~= spec_le16(p.req_session_id));
    assert(s.subrange(40 + d, 42 + d) =~= spec_le16(l as u16));
    assert(spec_read_le16(s, 4) == spec_read_le16(s.subrange(4, 6), 0));
    assert(spec_read_le16(s, 40 + d) == spec_read_le16(s.subrange(40 + d, 42 + d), 0));
    assert(s.subrange(8, 40) =~= p.random);
    assert(s.subrange(40, 40 + d) =~= p.exchange);
    assert(s.subrange(42 + d, 42 + d + l) =~= p.opaque);
    let t = p.measurement_summary_hash_type;
    assert(SpdmMeasurementSummaryHashType::spec_from_byte(t.spec_byte()) == Some(t));
}


// ------------------------------------------------------------ KEY_EXCHANGE_RSP

/// The fields of a KEY_EXCHANGE_RSP response.
pub struct SpdmKeyExchangeResponsePayload {
    pub heartbeat_period: u8,
    pub rsp_session_id: u16,
    pub mut_auth_req: u8,
    pub req_slot_id: u8,
    pub random: Vec<u8>,
    pub exchange: Vec<u8>,
    pub measurement_summary_hash: Vec<u8>,
    pub opaque: Vec<u8>,
    pub signature: Vec<u8>,
    pub verify_data: Vec<u8>,
}

pub ghost struct SpdmKeyExchangeResponseView {
    pub heartbeat_period: u8,
    pub rsp_session_id: u16,
    pub mut_auth_req: u8,
    pub req_slot_id: u8,
    pub random: Seq<u8>,
    pub exchange: Seq<u8>,
    pub measurement_summary_hash: Seq<u8>,
    pub opaque: Seq<u8>,
    pub signature: Seq<u8>,
    pub verify_data: Seq<u8>,
}

/// The negotiated algorithms that fix the sizes of a KEY_EXCHANGE_RSP.
#[derive(Clone, Copy, Debug, PartialEq, Eq, Structural)]
pub struct SpdmKeyExchangeRspShape {
    pub base_hash: SpdmBaseHashAlgo,
    pub base_asym: SpdmBaseAsymAlgo,
    pub dhe: SpdmDheAlgo,
    pub need_measurement_summary_hash: bool,
}

impl SpdmKeyExchangeRspShape {
    /// Size of the measurement summary hash field.
    pub open spec fn spec_msh_size(self) -> nat {
        if self.need_measurement_summary_hash {
            self.base_hash.spec_size()
        } else {
            0
        }
    }

    /// Size of the trailing signature and verify data together.
    pub open spec fn spec_tail_size(self) -> nat {
        self.base_asym.spec_size() + self.base_hash.spec_size()
    }
}

impl View for SpdmKeyExchangeResponsePayload {
    type V = SpdmKeyExchangeResponseView;

    open spec fn view(&self) -> SpdmKeyExchangeResponseView {
        SpdmKeyExchangeResponseView {
            heartbeat_period: self.heartbeat_period,
            rsp_session_id: self.rsp_session_id,
            mut_auth_req: self.mut_auth_req,
            req_slot_id: self.req_slot_id,
            random: self.random@,
            exchange: self.exchange@,
            measurement_summary_hash: self.measurement_summary_hash@,
            opaque: self.opaque@,
            signature: self.signature@,
            verify_data: self.verify_data@,
        }
    }
}

impl SpdmKeyExchangeResponseView {
    pub open spec fn valid(self, shape: SpdmKeyExchangeRspShape) -> bool {
        &&& self.random.len() == SPDM_RANDOM_SIZE
        &&& self.exchange.len() == shape.dhe.spec_size()
        &&& self.measurement_summary_hash.len() == shape.spec_msh_size()
        &&& self.opaque.len() <= SPDM_MAX_OPAQUE_SIZE
        &&& self.signature.len() == shape.base_asym.spec_size()
        &&& self.verify_data.len() == shape.base_hash.spec_size()
    }

    /// The wire bytes up to, not including, the signature.
    pub open spec fn spec_encode_unsigned(self) -> Seq<u8> {
        seq![SPDM_VERSION_1_1, SPDM_RESPONSE_KEY_EXCHANGE_RSP, self.heartbeat_period, 0u8]
            + spec_le16(self.rsp_session_id) + seq![self.mut_auth_req, self.req_slot_id]
            + self.random + self.exchange + self.measurement_summary_hash + spec_le16(
            self.opaque.len() as u16,
        ) + self.opaque
    }

    /// The wire bytes of the response.
    pub open spec fn spec_encode(self) -> Seq<u8> {
        self.spec_encode_unsigned() + self.signature + self.verify_data
    }
}

/// What a KEY_EXCHANGE_RSP decodes to, with the number of bytes it takes.
pub open spec fn spec_decode_key_exchange_response(
    s: Seq<u8>,
    shape: SpdmKeyExchangeRspShape,
) -> Option<(SpdmKeyExchangeResponseView, nat)> {
    let d = shape.dhe.spec_size() as int;
    let m = shape.spec_msh_size() as int;
    let sg = shape.base_asym.spec_size() as int;
    let h = shape.base_hash.spec_size() as int;
    if s.len() < 42 + d + m || s[0] != SPDM_VERSION_1_1 || s[1] != SPDM_RESPONSE_KEY_EXCHANGE_RSP {
        None
    } else {
        let l = spec_read_le16(s, 40 + d + m) as int;
        let o = 42 + d + m + l;
        if l > SPDM_MAX_OPAQUE_SIZE || s.len() < o + sg + h {
            None
        } else {
            Some(
                (
                    SpdmKeyExchangeResponseView {
                        heartbeat_period: s[2],
                        rsp_session_id: spec_read_le16(s, 4),
                        mut_auth_req: s[6],
                        req_slot_id: s[7],
                        random: s.subrange(8, 40),
                        exchange: s.subrange(40, 40 + d),
                        measurement_summary_hash: s.subrange(40 + d, 40 + d + m),
                        opaque: s.subrange(42 + d + m, o),
                        signature: s.subrange(o, o + sg),
                        verify_data: s.subrange(o + sg, o + sg + h),
                    },
                    (o + sg + h) as nat,
                ),
            )
        }
    }
}

impl SpdmKeyExchangeResponsePayload {
    /// The wire bytes of the response, signature and verify data included.
    pub fn spdm_encode(&self) -> (r: Vec<u8>)
        requires
            self.opaque@.len() <= SPDM_MAX_OPAQUE_SIZE,
        ensures
            r@ == self@.spec_encode(),
    {
        let mut r: Vec<u8> = Vec::new();
        r.push(SPDM_VERSION_1_1);
        r.push(SPDM_RESPONSE_KEY_EXCHANGE_RSP);
        r.push(self.heartbeat_period);
        r.push(0);
        push_le16(&mut r, self.rsp_session_id);
        r.push(self.mut_auth_req);
        r.push(self.req_slot_id);
        append_bytes(&mut r, self.random.as_slice());
        append_bytes(&mut r, self.exchange.as_slice());
        append_bytes(&mut r, self.measurement_summary_hash.as_slice());
        push_le16(&mut r, self.opaque.len() as u16);
        append_bytes(&mut r, self.opaque.as_slice());
        assert(r@ =~= self@.spec_encode_unsigned());
        append_bytes(&mut r, self.signature.as_slice());
        append_bytes(&mut r, self.verify_data.as_slice());
        assert(r@ =~= self@.spec_encode());
        r
    }

    /// Decodes a KEY_EXCHANGE_RSP; `None` when the bytes do not hold one.
    pub fn spdm_read(bytes: &[u8], shape: SpdmKeyExchangeRspShape) -> (r: Option<
        (SpdmKeyExchangeResponsePayload, usize),
    >)
        ensures
            match r {
                Some((p, n)) => spec_decode_key_exchange_response(bytes@, shape) == Some(
                    (p@, n as nat),
                ),
                None => spec_decode_key_exchange_response(bytes@, shape) is None,
            },
    {
        let d = shape.dhe.get_size();
        let m = if shape.need_measurement_summary_hash {
            shape.base_hash.get_size()
        } else {
            0
        };
        let sg = shape.base_asym.get_size();
        let h = shape.base_hash.get_size();
        if bytes.len() < 42 + d + m || bytes[0] != SPDM_VERSION_1_1 || bytes[1]
            != SPDM_RESPONSE_KEY_EXCHANGE_RSP {
            return None;
        }
        let l = read_le16(bytes, 40 + d + m) as usize;
        let o = 42 + d + m + l;
        if l > SPDM_MAX_OPAQUE_SIZE || bytes.len() < o + sg + h {
            return None;
        }
        let p = SpdmKeyExchangeResponsePayload {
            heartbeat_period: bytes[2],
            rsp_session_id: read_le16(bytes, 4),
            mut_auth_req: bytes[6],
            req_slot_id: bytes[7],
            random: copy_range(bytes, 8, 40),
            exchange: copy_range(bytes, 40, 40 + d),
            measurement_summary_hash: copy_range(bytes, 40 + d, 40 + d + m),
            opaque: copy_range(bytes, 42 + d + m, o),
            signature: copy_range(bytes, o, o + sg),
            verify_data: copy_range(bytes, o + sg, o + sg + h),
        };
        Some((p, o + sg + h))
    }
}

/// Decoding an encoded KEY_EXCHANGE_RSP gives back every field.
pub proof fn lemma_key_exchange_response_round_trip(
    p: SpdmKeyExchangeResponseView,
    shape: SpdmKeyExchangeRspShape,
)
    requires
        p.valid(shape),
    ensures
        spec_decode_key_exchange_response(p.spec_encode(), shape) == Some(
            (p, p.spec_encode().len()),
        ),
{
    let s = p.spec_encode();
    let d = shape.dhe.spec_size() as int;
    let m = shape.spec_msh_size() as int;
    let sg = shape.base_asym.spec_size() as int;
    let h = shape.base_hash.spec_size() as int;
    let l = p.opaque.len() as int;
    let o = 42 + d + m + l;
    lemma_le16_round_trip(p.rsp_session_id);
    lemma_le16_round_trip(l as u16);
    assert(s.subrange(4, 6) =~= spec_le16(p.rsp_session_id));
    assert(s.subrange(40 + d + m, 42 + d + m) =~= spec_le16(l as u16));
    assert(spec_read_le16(s, 4) == spec_read_le16(s.subrange(4, 6), 0));
    assert(spec_read_le16(s, 40 + d + m) == spec_read_le16(s.subrange(40 + d + m, 42 + d + m), 0));
    assert(s.subrange(8, 40) =~= p.random);
    assert(s.subrange(40, 40 + d) =~= p.exchange);
    assert(s.subrange(40 + d, 40 + d + m) =~= p.measurement_summary_hash);
    assert(s.subrange(42 + d + m, o) =~= p.opaque);
    assert(s.subrange(o, o + sg) =~= p.signature);
    assert(s.subrange(o + sg, o + sg + h) =~= p.verify_data);
}

// ---------------------------------------------------------------------- FINISH

/// The fields of a FINISH request; mutual authentication is not offered, so
/// it carries no signature.
pub struct SpdmFinishRequestPayload {
    pub finish_request_attributes: u8,
    pub req_slot_id: u8,
    pub verify_data: Vec<u8>,
}

impl SpdmFinishRequestPayload {
    pub open spec fn spec_encode(&self) -> Seq<u8> {
        seq![SPDM_VERSION_1_1, SPDM_REQUEST_FINISH, self.finish_request_attributes, self.req_slot_id]
            + self.verify_data@
    }

    /// The wire bytes of the request.
    pub fn spdm_encode(&self) -> (r: Vec<u8>)
        ensures
            r@ == self.spec_encode(),
    {
        let mut r: Vec<u8> = Vec::new();
        r.push(SPDM_VERSION_1_1);
        r.push(SPDM_REQUEST_FINISH);
        r.push(self.finish_request_attributes);
        r.push(self.req_slot_id);
        append_bytes(&mut r, self.verify_data.as_slice());
        assert(r@ =~= self.spec_encode());
        r
    }
}

/// The fields of a FINISH_RSP response. The verify data is present only when
/// the handshake runs in the clear.
pub struct SpdmFinishResponsePayload {
    pub verify_data: Vec<u8>,
}

/// The length of a FINISH_RSP.
pub open spec fn spec_finish_response_size(hash: SpdmBaseHashAlgo, in_clear_text: bool) -> nat {
    if in_clear_text {
        4 + hash.spec_size()
    } else {
        4
    }
}

/// Whether `s` starts with a FINISH_RSP.
pub open spec fn spec_finish_response_parses(
    s: Seq<u8>,
    hash: SpdmBaseHashAlgo,
    in_clear_text: bool,
) -> bool {
    &&& s.len() >= spec_finish_response_size(hash, in_clear_text)
    &&& s[0] == SPDM_VERSION_1_1
    &&& s[1] == SPDM_RESPONSE_FINISH_RSP
}

impl SpdmFinishResponsePayload {
    pub open spec fn spec_encode(&self) -> Seq<u8> {
        seq![SPDM_VERSION_1_1, SPDM_RESPONSE_FINISH_RSP, 0u8, 0u8] + self.verify_data@
    }

    /// The wire bytes of the response.
    pub fn spdm_encode(&self) -> (r: Vec<u8>)
        ensures
            r@ == self.spec_encode(),
    {
        let mut r: Vec<u8> = Vec::new();
        r.push(SPDM_VERSION_1_1);
        r.push(SPDM_RESPONSE_FINISH_RSP);
        r.push(0);
        r.push(0);
        append_bytes(&mut r, self.verify_data.as_slice());
        assert(r@ =~= self.spec_encode());
        r
    }

    /// Decodes a FINISH_RSP; `None` when the bytes do not hold one.
    pub fn spdm_read(bytes: &[u8], hash: SpdmBaseHashAlgo, in_clear_text: bool) -> (r: Option<
        (SpdmFinishResponsePayload, usize),
    >)
        ensures
            r is Some <==> spec_finish_response_parses(bytes@, hash, in_clear_text),
            r matches Some((p, n)) ==> {
                &&& n == spec_finish_response_size(hash, in_clear_text)
                &&& p.verify_data@ == bytes@.subrange(4, n as int)
            },
    {
        let n = if in_clear_text {
            4 + hash.get_size()
        } else {
            4
        };
        if bytes.len() < n || bytes[0] != SPDM_VERSION_1_1 || bytes[1] != SPDM_RESPONSE_FINISH_RSP {
            return None;
        }
        Some((SpdmFinishResponsePayload { verify_data: copy_range(bytes, 4, n) }, n))
    }
}

} // verus!
