use vstd::prelude::*;

use crate::crypto::SpdmCryptoBackend;
use crate::protocol::{
    SpdmAeadAlgo, SpdmBaseAsymAlgo, SpdmBaseHashAlgo, SpdmDheAlgo, SpdmKeyScheduleAlgo,
    HANDSHAKE_IN_THE_CLEAR_CAP, MAX_SPDM_MESSAGE_BUFFER_SIZE, MAX_SPDM_SESSION_COUNT,
};
use crate::session::SpdmSession;
use crate::transcript::{append_bytes, ManagedBuffer};

verus! {

/// What the negotiation phases settled: capabilities and algorithms.
#[derive(Clone, Copy, Debug, PartialEq, Eq, Structural)]
pub struct SpdmNegotiateInfo {
    pub req_capabilities_sel: u32,
    pub rsp_capabilities_sel: u32,
    pub base_hash_sel: SpdmBaseHashAlgo,
    pub base_asym_sel: SpdmBaseAsymAlgo,
    pub dhe_sel: SpdmDheAlgo,
    pub aead_sel: SpdmAeadAlgo,
    pub key_schedule_sel: SpdmKeyScheduleAlgo,
}

impl SpdmNegotiateInfo {
    /// Both sides offered to run the handshake without encryption.
    pub open spec fn spec_in_clear_text(self) -> bool {
        &&& self.req_capabilities_sel & HANDSHAKE_IN_THE_CLEAR_CAP == HANDSHAKE_IN_THE_CLEAR_CAP
        &&& self.rsp_capabilities_sel & HANDSHAKE_IN_THE_CLEAR_CAP == HANDSHAKE_IN_THE_CLEAR_CAP
    }

    pub fn in_clear_text(&self) -> (r: bool)
        ensures
            r == self.spec_in_clear_text(),
    {
        self.req_capabilities_sel & HANDSHAKE_IN_THE_CLEAR_CAP == HANDSHAKE_IN_THE_CLEAR_CAP
            && self.rsp_capabilities_sel & HANDSHAKE_IN_THE_CLEAR_CAP == HANDSHAKE_IN_THE_CLEAR_CAP
    }
}

/// Per-connection state that the handshake updates.
pub struct SpdmRuntimeInfo {
    pub need_measurement_summary_hash: bool,
    /// The negotiation-phase transcript (VERSION, CAPABILITIES, ALGORITHMS).
    pub message_a: ManagedBuffer,
}

/// One endpoint's state: what was negotiated, the peer's certificate chain,
/// the transport's parameters and the session table.
pub struct SpdmContext {
    pub negotiate_info: SpdmNegotiateInfo,
    pub runtime_info: SpdmRuntimeInfo,
    pub peer_cert_chain: Vec<u8>,
    pub sequence_number_count: u8,
    pub max_random_count: u16,
    pub session: Vec<SpdmSession>,
}

impl SpdmContext {
    /// Live sessions have distinct ids.
    pub open spec fn live_ids_unique(sessions: Seq<SpdmSession>) -> bool {
        forall|i: int, j: int|
            0 <= i < sessions.len() && 0 <= j < sessions.len() && i != j && (
            #[trigger] sessions[i]).is_live() && (#[trigger] sessions[j]).is_live()
                ==> sessions[i].session_id != sessions[j].session_id
    }

    pub open spec fn wf(&self) -> bool {
        &&& self.runtime_info.message_a.wf()
        &&& self.session@.len() == MAX_SPDM_SESSION_COUNT
        &&& forall|i: int| 0 <= i < self.session@.len() ==> (#[trigger] self.session@[i]).wf()
        &&& Self::live_ids_unique(self.session@)
    }

    /// Whether a live session holds `session_id`.
    pub open spec fn spec_has_live_session(&self, session_id: u32) -> bool {
        exists|i: int|
            0 <= i < self.session@.len() && (#[trigger] self.session@[i]).is_live()
                && self.session@[i].session_id == session_id
    }

    /// Whether some slot is free.
    pub open spec fn spec_has_free_slot(&self) -> bool {
        exists|i: int| 0 <= i < self.session@.len() && !(#[trigger] self.session@[i]).is_live()
    }

    /// Everything but the session table and the runtime flags is as in `other`.
    pub open spec fn same_config(&self, other: &SpdmContext) -> bool {
        &&& self.negotiate_info == other.negotiate_info
        &&& self.peer_cert_chain@ == other.peer_cert_chain@
        &&& self.runtime_info.message_a@ == other.runtime_info.message_a@
        &&& self.runtime_info.message_a.wf() == other.runtime_info.message_a.wf()
        &&& self.sequence_number_count == other.sequence_number_count
        &&& self.max_random_count == other.max_random_count
    }

    /// A context with an empty session table and an empty negotiation transcript.
    pub fn new(
        negotiate_info: SpdmNegotiateInfo,
        peer_cert_chain: Vec<u8>,
        sequence_number_count: u8,
        max_random_count: u16,
    ) -> (r: SpdmContext)
        ensures
            r.wf(),
            r.negotiate_info == negotiate_info,
            r.peer_cert_chain@ == peer_cert_chain@,
            r.runtime_info.message_a@ == Seq::<u8>::empty(),
            r.sequence_number_count == sequence_number_count,
            r.max_random_count == max_random_count,
            forall|i: int| 0 <= i < r.session@.len() ==> !(#[trigger] r.session@[i]).is_live(),
    {
        let mut session: Vec<SpdmSession> = Vec::new();
        let mut i: usize = 0;
        while i < MAX_SPDM_SESSION_COUNT
            invariant
                i <= MAX_SPDM_SESSION_COUNT,
                session@.len() == i,
                forall|k: int|
                    0 <= k < session@.len() ==> (#[trigger] session@[k]).wf()
                        && !session@[k].is_live(),
            decreases MAX_SPDM_SESSION_COUNT - i,
        {
            session.push(SpdmSession::new());
            i = i + 1;
        }
        SpdmContext {
            negotiate_info,
            runtime_info: SpdmRuntimeInfo {
                need_measurement_summary_hash: false,
                message_a: ManagedBuffer::new(),
            },
            peer_cert_chain,
            sequence_number_count,
            max_random_count,
            session,
        }
    }

    /// Empties the negotiation transcript and clears the runtime flags.
    pub fn reset_runtime_info(&mut self)
        requires
            old(self).wf(),
        ensures
            final(self).wf(),
            final(self).runtime_info.message_a@ == Seq::<u8>::empty(),
            !final(self).runtime_info.need_measurement_summary_hash,
            final(self).negotiate_info == old(self).negotiate_info,
            final(self).peer_cert_chain@ == old(self).peer_cert_chain@,
            final(self).session == old(self).session,
    {
        self.runtime_info.message_a.reset();
        self.runtime_info.need_measurement_summary_hash = false;
    }

    /// The first free slot; `None` when every slot holds a session.
    pub fn get_next_avaiable_session(&self) -> (r: Option<usize>)
        requires
            self.wf(),
        ensures
            r is Some <==> self.spec_has_free_slot(),
            r matches Some(i) ==> i < self.session@.len() && !self.session@[i as int].is_live(),
    {
        let mut i: usize = 0;
        while i < self.session.len()
            invariant
                self.wf(),
                i <= self.session@.len(),
                forall|k: int| 0 <= k < i ==> (#[trigger] self.session@[k]).is_live(),
            decreases self.session@.len() - i,
        {
            if self.session[i].session_state == crate::session::SpdmSessionState::SpdmSessionEmpty {
                return Some(i);
            }
            i = i + 1;
        }
        None
    }

    /// The slot of the live session with `session_id`; `None` when there is none.
    pub fn get_session_via_id(&self, session_id: u32) -> (r: Option<usize>)
        requires
            self.wf(),
        ensures
            r is Some <==> self.spec_has_live_session(session_id),
            r matches Some(i) ==> i < self.session@.len() && self.session@[i as int].is_live()
                && self.session@[i as int].session_id == session_id,
    {
        let mut i: usize = 0;
        while i < self.session.len()
            invariant
                self.wf(),
                i <= self.session@.len(),
                forall|k: int|
                    0 <= k < i ==> !((#[trigger] self.session@[k]).is_live()
                        && self.session@[k].session_id == session_id),
            decreases self.session@.len() - i,
        {
            if self.session[i].session_state != crate::session::SpdmSessionState::SpdmSessionEmpty
                && self.session[i].session_id == session_id {
                return Some(i);
            }
            i = i + 1;
        }
        None
    }

    /// Puts `s` in slot `i`, handing back what the slot held.
    pub fn swap_slot(&mut self, i: usize, s: &mut SpdmSession)
        requires
            i < old(self).session@.len(),
        ensures
            final(self).session@ == old(self).session@.update(i as int, *old(s)),
            *final(s) == old(self).session@[i as int],
            final(self).negotiate_info == old(self).negotiate_info,
            final(self).runtime_info == old(self).runtime_info,
            final(self).peer_cert_chain == old(self).peer_cert_chain,
            final(self).sequence_number_count == old(self).sequence_number_count,
            final(self).max_random_count == old(self).max_random_count,
    {
        self.session.set_and_swap(i, s);
    }

    /// Tears down the session in slot `i`.
    pub fn teardown_slot(&mut self, i: usize)
        requires
            old(self).wf(),
            i < old(self).session@.len(),
        ensures
            final(self).wf(),
            final(self).session@.len() == old(self).session@.len(),
            !final(self).session@[i as int].is_live(),
            final(self).session@[i as int].is_cleared(),
            forall|j: int|
                0 <= j < final(self).session@.len() && j != i ==> #[trigger] final(self).session@[j]
                    == old(self).session@[j],
            final(self).negotiate_info == old(self).negotiate_info,
            final(self).runtime_info == old(self).runtime_info,
            final(self).peer_cert_chain == old(self).peer_cert_chain,
            final(self).sequence_number_count == old(self).sequence_number_count,
            final(self).max_random_count == old(self).max_random_count,
    {
        let mut s = SpdmSession::new();
        self.swap_slot(i, &mut s);
        s.teardown();
        self.swap_slot(i, &mut s);
        assert forall|a: int, b: int|
            0 <= a < self.session@.len() && 0 <= b < self.session@.len() && a != b && (
            #[trigger] self.session@[a]).is_live() && (#[trigger] self.session@[b]).is_live()
            implies self.session@[a].session_id != self.session@[b].session_id by {
            assert(self.session@[a] == old(self).session@[a]);
            assert(self.session@[b] == old(self).session@[b]);
        }
    }

    /// Tears down the live session with `session_id`, if there is one; with
    /// none, nothing changes.
    pub fn teardown(&mut self, session_id: u32)
        requires
            old(self).wf(),
        ensures
            final(self).wf(),
            !final(self).spec_has_live_session(session_id),
            old(self).spec_has_live_session(session_id) ==> exists|i: int|
                0 <= i < old(self).session@.len() && (#[trigger] old(self).session@[i]).is_live()
                    && old(self).session@[i].session_id == session_id
                    && final(self).session@[i].is_cleared() && forall|j: int|
                    0 <= j < final(self).session@.len() && j != i
                        ==> #[trigger] final(self).session@[j] == old(self).session@[j],
            !old(self).spec_has_live_session(session_id)
                ==> final(self).session == old(self).session,
            final(self).negotiate_info == old(self).negotiate_info,
            final(self).runtime_info == old(self).runtime_info,
            final(self).peer_cert_chain == old(self).peer_cert_chain,
    {
        match self.get_session_via_id(session_id) {
            Some(i) => {
                self.teardown_slot(i);
                assert(!self.spec_has_live_session(session_id)) by {
                    if self.spec_has_live_session(session_id) {
                        let k = choose|k: int|
                            0 <= k < self.session@.len() && (#[trigger] self.session@[k]).is_live()
                                && self.session@[k].session_id == session_id;
                        assert(k != i);
                        assert(self.session@[k] == old(self).session@[k]);
                    }
                }
            },
            None => {},
        }
    }

    /// The transcript that the requester's signatures and HMACs cover: the
    /// negotiation transcript, the digest of the peer's certificate chain,
    /// then the session's key-exchange and finish transcripts.
    pub open spec fn spec_transcript_data<C: SpdmCryptoBackend>(
        &self,
        message_k: Seq<u8>,
        message_f: Seq<u8>,
    ) -> Seq<u8> {
        self.runtime_info.message_a@ + C::spec_hash(
            self.negotiate_info.base_hash_sel,
            self.peer_cert_chain@,
        ) + message_k + message_f
    }

    pub fn calc_req_transcript_data<C: SpdmCryptoBackend>(
        &self,
        crypto: &C,
        message_k: &[u8],
        message_f: &[u8],
    ) -> (r: Vec<u8>)
        ensures
            r@ == self.spec_transcript_data::<C>(message_k@, message_f@),
    {
        let mut r: Vec<u8> = Vec::new();
        append_bytes(&mut r, self.runtime_info.message_a.as_ref());
        let cert_hash = crypto.hash(self.negotiate_info.base_hash_sel, self.peer_cert_chain.as_slice());
        append_bytes(&mut r, cert_hash.as_slice());
        append_bytes(&mut r, message_k);
        append_bytes(&mut r, message_f);
        r
    }

    /// The hash of the transcript data: TH1 after KEY_EXCHANGE, TH2 after FINISH.
    pub fn calc_req_transcript_hash<C: SpdmCryptoBackend>(
        &self,
        crypto: &C,
        message_k: &[u8],
        message_f: &[u8],
    ) -> (r: Vec<u8>)
        ensures
            r@ == C::spec_hash(
                self.negotiate_info.base_hash_sel,
                self.spec_transcript_data::<C>(message_k@, message_f@),
            ),
    {
        let data = self.calc_req_transcript_data(crypto, message_k, message_f);
        crypto.hash(self.negotiate_info.base_hash_sel, data.as_slice())
    }
}

/// Among live sessions, ids never collide: two live slots of a well-formed
/// table hold different session ids.
pub proof fn lemma_live_session_ids_distinct(ctx: &SpdmContext, i: int, j: int)
    requires
        ctx.wf(),
        0 <= i < ctx.session@.len(),
        0 <= j < ctx.session@.len(),
        i != j,
        ctx.session@[i].is_live(),
        ctx.session@[j].is_live(),
    ensures
        ctx.session@[i].session_id != ctx.session@[j].session_id,
{
}

} // verus!
