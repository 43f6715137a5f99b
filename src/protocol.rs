use vstd::prelude::*;

verus! {

/// The protocol versions, as carried in the first byte of every message.
pub const SPDM_VERSION_1_0: u8 = 0x10;
/// The version this library speaks.
pub const SPDM_VERSION_1_1: u8 = 0x11;

pub const SPDM_REQUEST_KEY_EXCHANGE: u8 = 0xE4;
pub const SPDM_RESPONSE_KEY_EXCHANGE_RSP: u8 = 0x64;
pub const SPDM_REQUEST_FINISH: u8 = 0xE5;
pub const SPDM_RESPONSE_FINISH_RSP: u8 = 0x65;

/// Size of the nonce carried in KEY_EXCHANGE and KEY_EXCHANGE_RSP.
pub const SPDM_RANDOM_SIZE: usize = 32;
/// Largest opaque data block a message may carry.
pub const SPDM_MAX_OPAQUE_SIZE: usize = 1024;
/// Largest digest of the supported hash algorithms.
pub const SPDM_MAX_HASH_SIZE: usize = 64;
/// Number of slots in the session table.
pub const MAX_SPDM_SESSION_COUNT: usize = 4;
/// Largest message the transport carries.
pub const MAX_SPDM_TRANSPORT_SIZE: usize = 4096;
/// Capacity of a transcript buffer.
pub const MAX_SPDM_MESSAGE_BUFFER_SIZE: usize = 8192;

/// The requester's half of the session id while a handshake is in progress.
pub const INITIAL_SESSION_ID: u16 = 0xFFFE;

/// Capability bit, in both the requester's and the responder's flags, for
/// running the handshake without encryption.
pub const HANDSHAKE_IN_THE_CLEAR_CAP: u32 = 0x8000;

#[derive(Clone, Copy, Debug, PartialEq, Eq, Structural)]
pub enum SpdmBaseHashAlgo {
    TpmAlgSha256,
    TpmAlgSha384,
    TpmAlgSha512,
}

impl SpdmBaseHashAlgo {
    pub open spec fn spec_size(self) -> nat {
        match self {
            SpdmBaseHashAlgo::TpmAlgSha256 => 32,
            SpdmBaseHashAlgo::TpmAlgSha384 => 48,
            SpdmBaseHashAlgo::TpmAlgSha512 => 64,
        }
    }

    /// Digest size in bytes.
    pub fn get_size(&self) -> (r: usize)
        ensures
            r == self.spec_size(),
            r <= SPDM_MAX_HASH_SIZE,
    {
        match self {
            SpdmBaseHashAlgo::TpmAlgSha256 => 32,
            SpdmBaseHashAlgo::TpmAlgSha384 => 48,
            SpdmBaseHashAlgo::TpmAlgSha512 => 64,
        }
    }
}

#[derive(Clone, Copy, Debug, PartialEq, Eq, Structural)]
pub enum SpdmBaseAsymAlgo {
    TpmAlgRsassa2048,
    TpmAlgRsapss2048,
    TpmAlgRsassa3072,
    TpmAlgRsapss3072,
    TpmAlgEcdsaEccNistP256,
    TpmAlgRsassa4096,
    TpmAlgRsapss4096,
    TpmAlgEcdsaEccNistP384,
    TpmAlgEcdsaEccNistP521,
}

impl SpdmBaseAsymAlgo {
    pub open spec fn spec_size(self) -> nat {
        match self {
            SpdmBaseAsymAlgo::TpmAlgRsassa2048 => 256,
            SpdmBaseAsymAlgo::TpmAlgRsapss2048 => 256,
            SpdmBaseAsymAlgo::TpmAlgRsassa3072 => 384,
            SpdmBaseAsymAlgo::TpmAlgRsapss3072 => 384,
            SpdmBaseAsymAlgo::TpmAlgEcdsaEccNistP256 => 64,
            SpdmBaseAsymAlgo::TpmAlgRsassa4096 => 512,
            SpdmBaseAsymAlgo::TpmAlgRsapss4096 => 512,
            SpdmBaseAsymAlgo::TpmAlgEcdsaEccNistP384 => 96,
            SpdmBaseAsymAlgo::TpmAlgEcdsaEccNistP521 => 132,
        }
    }

    /// Signature size in bytes.
    pub fn get_size(&self) -> (r: usize)
        ensures
            r == self.spec_size(),
            r <= 512,
    {
        match self {
            SpdmBaseAsymAlgo::TpmAlgRsassa2048 => 256,
            SpdmBaseAsymAlgo::TpmAlgRsapss2048 => 256,
            SpdmBaseAsymAlgo::TpmAlgRsassa3072 => 384,
            SpdmBaseAsymAlgo::TpmAlgRsapss3072 => 384,
            SpdmBaseAsymAlgo::TpmAlgEcdsaEccNistP256 => 64,
            SpdmBaseAsymAlgo::TpmAlgRsassa4096 => 512,
            SpdmBaseAsymAlgo::TpmAlgRsapss4096 => 512,
            SpdmBaseAsymAlgo::TpmAlgEcdsaEccNistP384 => 96,
            SpdmBaseAsymAlgo::TpmAlgEcdsaEccNistP521 => 132,
        }
    }
}

#[derive(Clone, Copy, Debug, PartialEq, Eq, Structural)]
pub enum SpdmDheAlgo {
    Ffdhe2048,
    Ffdhe3072,
    Ffdhe4096,
    Secp256R1,
    Secp384R1,
    Secp521R1,
}

impl SpdmDheAlgo {
    pub open spec fn spec_size(self) -> nat {
        match self {
            SpdmDheAlgo::Ffdhe2048 => 256,
            SpdmDheAlgo::Ffdhe3072 => 384,
            SpdmDheAlgo::Ffdhe4096 => 512,
            SpdmDheAlgo::Secp256R1 => 64,
            SpdmDheAlgo::Secp384R1 => 96,
            SpdmDheAlgo::Secp521R1 => 132,
        }
    }

    /// Size in bytes of the public exchange value.
    pub fn get_size(&self) -> (r: usize)
        ensures
            r == self.spec_size(),
            r <= 512,
    {
        match self {
            SpdmDheAlgo::Ffdhe2048 => 256,
            SpdmDheAlgo::Ffdhe3072 => 384,
            SpdmDheAlgo::Ffdhe4096 => 512,
            SpdmDheAlgo::Secp256R1 => 64,
            SpdmDheAlgo::Secp384R1 => 96,
            SpdmDheAlgo::Secp521R1 => 132,
        }
    }
}

#[derive(Clone, Copy, Debug, PartialEq, Eq, Structural)]
pub enum SpdmAeadAlgo {
    Aes128Gcm,
    Aes256Gcm,
    ChaCha20Poly1305,
}

#[derive(Clone, Copy, Debug, PartialEq, Eq, Structural)]
pub enum SpdmKeyScheduleAlgo {
    SpdmKeySchedule,
}

/// Which measurement summary hash a KEY_EXCHANGE asks the responder for.
#[derive(Clone, Copy, Debug, PartialEq, Eq, Structural)]
pub enum SpdmMeasurementSummaryHashType {
    SpdmMeasurementSummaryHashTypeNone,
    SpdmMeasurementSummaryHashTypeTcb,
    SpdmMeasurementSummaryHashTypeAll,
}

impl SpdmMeasurementSummaryHashType {
    pub open spec fn spec_byte(self) -> u8 {
        match self {
            SpdmMeasurementSummaryHashType::SpdmMeasurementSummaryHashTypeNone => 0x00,
            SpdmMeasurementSummaryHashType::SpdmMeasurementSummaryHashTypeTcb => 0x01,
            SpdmMeasurementSummaryHashType::SpdmMeasurementSummaryHashTypeAll => 0xFF,
        }
    }

    pub open spec fn spec_from_byte(b: u8) -> Option<SpdmMeasurementSummaryHashType> {
        if b == 0x00 {
            Some(SpdmMeasurementSummaryHashType::SpdmMeasurementSummaryHashTypeNone)
        } else if b == 0x01 {
            Some(SpdmMeasurementSummaryHashType::SpdmMeasurementSummaryHashTypeTcb)
        } else if b == 0xFF {
            Some(SpdmMeasurementSummaryHashType::SpdmMeasurementSummaryHashTypeAll)
        } else {
            None
        }
    }

    /// Whether the responder returns a measurement summary hash for this type.
    pub open spec fn spec_needs_hash(self) -> bool {
        self != SpdmMeasurementSummaryHashType::SpdmMeasurementSummaryHashTypeNone
    }

    pub fn to_byte(&self) -> (r: u8)
        ensures
            r == self.spec_byte(),
    {
        match self {
            SpdmMeasurementSummaryHashType::SpdmMeasurementSummaryHashTypeNone => 0x00,
            SpdmMeasurementSummaryHashType::SpdmMeasurementSummaryHashTypeTcb => 0x01,
            SpdmMeasurementSummaryHashType::SpdmMeasurementSummaryHashTypeAll => 0xFF,
        }
    }

    pub fn from_byte(b: u8) -> (r: Option<SpdmMeasurementSummaryHashType>)
        ensures
            r == Self::spec_from_byte(b),
    {
        if b == 0x00 {
            Some(SpdmMeasurementSummaryHashType::SpdmMeasurementSummaryHashTypeNone)
        } else if b == 0x01 {
            Some(SpdmMeasurementSummaryHashType::SpdmMeasurementSummaryHashTypeTcb)
        } else if b == 0xFF {
            Some(SpdmMeasurementSummaryHashType::SpdmMeasurementSummaryHashTypeAll)
        } else {
            None
        }
    }
}

} // verus!
