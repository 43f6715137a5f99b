//! The key-exchange and finish handshake of an SPDM requester: the wire
//! codec of its messages, bounded transcripts, the key schedule, the session
//! table, and the requester's side of KEY_EXCHANGE and FINISH, all over a
//! pluggable crypto backend and transport.

pub mod error;
pub mod protocol;
pub mod transcript;
pub mod codec;
pub mod crypto;
pub mod key_schedule;
pub mod session;
pub mod common;
pub mod requester;
