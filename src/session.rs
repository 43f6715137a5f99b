use vstd::prelude::*;

use crate::key_schedule::{SpdmDataSecret, SpdmHandshakeSecret};
use crate::protocol::{
    SpdmAeadAlgo, SpdmBaseHashAlgo, SpdmDheAlgo, SpdmKeyScheduleAlgo, MAX_SPDM_MESSAGE_BUFFER_SIZE,
};
use crate::transcript::{zeroize, ManagedBuffer};

verus! {

/// Lifecycle of a session slot. `SpdmSessionEmpty` is both the initial state
/// and the state a torn-down slot returns to.
#[derive(Clone, Copy, Debug, PartialEq, Eq, Structural)]
pub enum SpdmSessionState {
    SpdmSessionEmpty,
    SpdmSessionHandshaking,
    SpdmSessionEstablished,
}

/// The algorithms a session runs with.
#[derive(Clone, Copy, Debug, PartialEq, Eq, Structural)]
pub struct SpdmSessionCryptoParam {
    pub base_hash_algo: SpdmBaseHashAlgo,
    pub dhe_algo: SpdmDheAlgo,
    pub aead_algo: SpdmAeadAlgo,
    pub key_schedule_algo: SpdmKeyScheduleAlgo,
}

/// The 32-bit session id: the requester's half in the high bits, the
/// responder's in the low.
pub open spec fn spec_session_id(req_half: u16, rsp_half: u16) -> u32 {
    (req_half as int * 65536 + rsp_half as int) as u32
}

pub fn session_id_of(req_half: u16, rsp_half: u16) -> (r: u32)
    ensures
        r == spec_session_id(req_half, rsp_half),
{
    (req_half as u32) * 65536 + (rsp_half as u32)
}

/// One slot of the session table.
pub struct SpdmSession {
    pub session_id: u32,
    pub session_state: SpdmSessionState,
    pub use_psk: bool,
    pub crypto_param: SpdmSessionCryptoParam,
    pub sequence_number_count: u8,
    pub max_random_count: u16,
    pub dhe_secret: Vec<u8>,
    pub handshake_secret: SpdmHandshakeSecret,
    pub data_secret: SpdmDataSecret,
    pub message_k: ManagedBuffer,
    pub message_f: ManagedBuffer,
}

impl SpdmSession {
    /// The slot holds a session.
    pub open spec fn is_live(&self) -> bool {
        self.session_state != SpdmSessionState::SpdmSessionEmpty
    }

    /// No secret and no transcript is left in the slot.
    pub open spec fn is_cleared(&self) -> bool {
        &&& self.session_id == 0
        &&& self.dhe_secret@.len() == 0
        &&& self.handshake_secret@.is_cleared()
        &&& self.data_secret@.is_cleared()
        &&& self.message_k@.len() == 0
        &&& self.message_f@.len() == 0
    }

    pub open spec fn wf(&self) -> bool {
        &&& self.message_k.wf()
        &&& self.message_f.wf()
        &&& self.message_k.max_size() == MAX_SPDM_MESSAGE_BUFFER_SIZE
        &&& self.message_f.max_size() == MAX_SPDM_MESSAGE_BUFFER_SIZE
        &&& !self.is_live() ==> self.is_cleared()
    }

    /// An empty slot.
    pub fn new() -> (r: SpdmSession)
        ensures
            r.wf(),
            !r.is_live(),
            r.is_cleared(),
            !r.use_psk,
    {
        SpdmSession {
            session_id: 0,
            session_state: SpdmSessionState::SpdmSessionEmpty,
            use_psk: false,
            crypto_param: SpdmSessionCryptoParam {
                base_hash_algo: SpdmBaseHashAlgo::TpmAlgSha384,
                dhe_algo: SpdmDheAlgo::Secp384R1,
                aead_algo: SpdmAeadAlgo::Aes256Gcm,
                key_schedule_algo: SpdmKeyScheduleAlgo::SpdmKeySchedule,
            },
            sequence_number_count: 0,
            max_random_count: 0,
            dhe_secret: Vec::new(),
            handshake_secret: SpdmHandshakeSecret::empty(),
            data_secret: SpdmDataSecret::empty(),
            message_k: ManagedBuffer::new(),
            message_f: ManagedBuffer::new(),
        }
    }

    /// Starts a session under `session_id`, in the handshaking state, with no
    /// secret yet.
    pub fn setup(&mut self, session_id: u32)
        requires
            old(self).wf(),
        ensures
            final(self).wf(),
            final(self).session_id == session_id,
            final(self).session_state == SpdmSessionState::SpdmSessionHandshaking,
            final(self).crypto_param == old(self).crypto_param,
            final(self).use_psk == old(self).use_psk,
            final(self).dhe_secret@.len() == 0,
            final(self).handshake_secret@.is_cleared(),
            final(self).data_secret@.is_cleared(),
            final(self).message_k@.len() == 0,
            final(self).message_f@.len() == 0,
    {
        self.teardown();
        self.session_id = session_id;
        self.session_state = SpdmSessionState::SpdmSessionHandshaking;
    }

    pub fn set_crypto_param(
        &mut self,
        base_hash_algo: SpdmBaseHashAlgo,
        dhe_algo: SpdmDheAlgo,
        aead_algo: SpdmAeadAlgo,
        key_schedule_algo: SpdmKeyScheduleAlgo,
    )
        requires
            old(self).wf(),
        ensures
            final(self).wf(),
            final(self).crypto_param == (SpdmSessionCryptoParam {
                base_hash_algo,
                dhe_algo,
                aead_algo,
                key_schedule_algo,
            }),
            final(self).session_id == old(self).session_id,
            final(self).session_state == old(self).session_state,
            final(self).use_psk == old(self).use_psk,
            final(self).dhe_secret == old(self).dhe_secret,
            final(self).handshake_secret == old(self).handshake_secret,
            final(self).data_secret == old(self).data_secret,
            final(self).message_k == old(self).message_k,
            final(self).message_f == old(self).message_f,
    {
        self.crypto_param = SpdmSessionCryptoParam {
            base_hash_algo,
            dhe_algo,
            aead_algo,
            key_schedule_algo,
        };
    }

    /// Moves a live session to `state`; an empty slot stays as it is.
    pub fn set_session_state(&mut self, state: SpdmSessionState)
        requires
            old(self).wf(),
        ensures
            final(self).wf(),
            final(self).session_id == old(self).session_id,
            old(self).is_live() && state != SpdmSessionState::SpdmSessionEmpty
                ==> final(self).session_state == state,
            !(old(self).is_live() && state != SpdmSessionState::SpdmSessionEmpty)
                ==> final(self).session_state == old(self).session_state,
    {
        if self.session_state != SpdmSessionState::SpdmSessionEmpty
            && state != SpdmSessionState::SpdmSessionEmpty {
            self.session_state = state;
        }
    }

    /// Zeroes every secret and transcript the slot holds and returns it to
    /// the empty state. Tearing down an empty slot changes nothing it holds.
    pub fn teardown(&mut self)
        requires
            old(self).wf(),
        ensures
            final(self).wf(),
            !final(self).is_live(),
            final(self).is_cleared(),
            final(self).crypto_param == old(self).crypto_param,
            final(self).use_psk == old(self).use_psk,
    {
        self.session_id = 0;
        self.session_state = SpdmSessionState::SpdmSessionEmpty;
        zeroize(&mut self.dhe_secret);
        zeroize(&mut self.handshake_secret.handshake_secret);
        zeroize(&mut self.handshake_secret.request_handshake_secret);
        zeroize(&mut self.handshake_secret.response_handshake_secret);
        zeroize(&mut self.handshake_secret.request_finished_key);
        zeroize(&mut self.handshake_secret.response_finished_key);
        zeroize(&mut self.data_secret.request_data_secret);
        zeroize(&mut self.data_secret.response_data_secret);
        self.message_k.reset();
        self.message_f.reset();
    }
}

} // verus!
