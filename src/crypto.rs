use vstd::prelude::*;

use crate::protocol::{SpdmBaseAsymAlgo, SpdmBaseHashAlgo, SpdmDheAlgo};

verus! {

/// The cryptographic capabilities the handshake consumes: hash, HMAC, HKDF
/// expansion, signature verification, DHE key agreement and randomness.
///
/// A backend gives each spec function its algorithm's definition; the
/// handshake's contracts are stated over them, so every derivation is a
/// function of its inputs alone. The default definitions are deliberately
/// unusable (an empty digest cannot have the digest's length), so a verified
/// backend has to supply its own.
pub trait SpdmCryptoBackend {
    /// The digest of `data`.
    open spec fn spec_hash(alg: SpdmBaseHashAlgo, data: Seq<u8>) -> Seq<u8> {
        Seq::empty()
    }

    /// The HMAC of `data` under `key`.
    open spec fn spec_hmac(alg: SpdmBaseHashAlgo, key: Seq<u8>, data: Seq<u8>) -> Seq<u8> {
        Seq::empty()
    }

    /// The HKDF-Expand output of `len` bytes from `prk` and `info`.
    open spec fn spec_hkdf_expand(
        alg: SpdmBaseHashAlgo,
        prk: Seq<u8>,
        info: Seq<u8>,
        len: nat,
    ) -> Seq<u8> {
        Seq::empty()
    }

    /// Whether `signature` is a valid signature of `data` under the public key
    /// of the leaf certificate of `cert_chain`.
    open spec fn spec_asym_verify(
        hash: SpdmBaseHashAlgo,
        asym: SpdmBaseAsymAlgo,
        cert_chain: Seq<u8>,
        data: Seq<u8>,
        signature: Seq<u8>,
    ) -> bool {
        false
    }

    /// The DHE shared secret of `private_key` and the peer's exchange value,
    /// or `None` when the peer's value is not a valid public key.
    open spec fn spec_dhe_shared_secret(
        dhe: SpdmDheAlgo,
        private_key: Seq<u8>,
        peer_exchange: Seq<u8>,
    ) -> Option<Seq<u8>> {
        None
    }

    fn hash(&self, alg: SpdmBaseHashAlgo, data: &[u8]) -> (r: Vec<u8>)
        ensures
            r@ == Self::spec_hash(alg, data@),
            r@.len() == alg.spec_size(),
    ;

    fn hmac(&self, alg: SpdmBaseHashAlgo, key: &[u8], data: &[u8]) -> (r: Vec<u8>)
        ensures
            r@ == Self::spec_hmac(alg, key@, data@),
            r@.len() == alg.spec_size(),
    ;

    fn hkdf_expand(&self, alg: SpdmBaseHashAlgo, prk: &[u8], info: &[u8], len: usize) -> (r: Vec<u8>)
        ensures
            r@ == Self::spec_hkdf_expand(alg, prk@, info@, len as nat),
            r@.len() == len,
    ;

    fn asym_verify(
        &self,
        hash: SpdmBaseHashAlgo,
        asym: SpdmBaseAsymAlgo,
        cert_chain: &[u8],
        data: &[u8],
        signature: &[u8],
    ) -> (r: bool)
        ensures
            r == Self::spec_asym_verify(hash, asym, cert_chain@, data@, signature@),
    ;

    /// A fresh ephemeral key pair: the public exchange value and the private
    /// key; `None` when the backend cannot make one.
    fn dhe_generate_key_pair(&self, dhe: SpdmDheAlgo) -> (r: Option<(Vec<u8>, Vec<u8>)>)
        ensures
            r matches Some((public, private)) ==> public@.len() == dhe.spec_size(),
    ;

    fn dhe_compute_final_key(
        &self,
        dhe: SpdmDheAlgo,
        private_key: &[u8],
        peer_exchange: &[u8],
    ) -> (r: Option<Vec<u8>>)
        ensures
            match r {
                Some(k) => Self::spec_dhe_shared_secret(dhe, private_key@, peer_exchange@) == Some(
                    k@,
                ),
                None => Self::spec_dhe_shared_secret(dhe, private_key@, peer_exchange@) is None,
            },
    ;

    /// `len` random bytes; `None` when no randomness is available.
    fn get_random(&self, len: usize) -> (r: Option<Vec<u8>>)
        ensures
            r matches Some(v) ==> v@.len() == len,
    ;
}

} // verus!
