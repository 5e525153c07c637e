//! Typed key handles and KEM operations for ML-KEM-768.
//!
//! At this level an encoded encapsulation key is exactly 1184 bytes (1152
//! coefficient bytes and a 32-byte seed), a ciphertext is exactly 1088 bytes,
//! and a shared secret is exactly 32 bytes.

use vstd::prelude::*;

use crate::codec::{bytes_to_vec, canonical_ek_bytes, check_coeff_groups, vec_to_array};
use crate::engine::{
    decap_768, ek_encoding_768, engine_decapsulate_768, engine_ek_as_bytes_768,
    engine_ek_from_bytes_768, engine_encapsulate_768, engine_generate_768,
    RawDecapsulationKey768, RawEncapsulationKey768,
};
use rand_core::{CryptoRng, RngCore};

verus! {

/// `s` is a canonical 1184-byte encoding of an ML-KEM-768 encapsulation key.
pub open spec fn canonical_ek_768(s: Seq<u8>) -> bool {
    canonical_ek_bytes(s, 1152)
}

/// An ML-KEM-768 encapsulation key: the public half of a keypair, able to
/// encapsulate fresh shared secrets and to serialize itself.
pub struct EncapsulationKey768 {
    ek: RawEncapsulationKey768,
    bytes: Vec<u8>,
}

impl View for EncapsulationKey768 {
    type V = Seq<u8>;

    /// A key is modeled by its canonical 1184-byte encoding.
    closed spec fn view(&self) -> Seq<u8> {
        self.bytes@
    }
}

impl EncapsulationKey768 {
    /// The engine-internal key this handle wraps.
    pub closed spec fn raw(&self) -> RawEncapsulationKey768 {
        self.ek
    }

    /// The key's stored encoding is canonical and is exactly the engine's
    /// encoding of the wrapped key; every key reachable through this module's
    /// constructors satisfies this.
    pub open spec fn wf(&self) -> bool {
        canonical_ek_768(self@) && self@ == ek_encoding_768(self.raw())
    }

    /// Wraps an engine-internal encapsulation key, recording its canonical
    /// encoding byte for byte.
    pub fn from(ek: RawEncapsulationKey768) -> (r: Self)
        ensures
            r.wf(),
            r.raw() == ek,
            r@ == ek_encoding_768(ek),
    {
        let bytes = engine_ek_as_bytes_768(&ek);
        EncapsulationKey768 { ek, bytes }
    }

    /// Serializes the key to its exact fixed-width form.
    pub fn to_bytes(&self) -> (r: [u8; 1184])
        requires
            self.wf(),
        ensures
            r@ == self@,
    {
        vec_to_array::<1184>(&self.bytes)
    }

    /// Deserializes a key from an exactly 1184-byte buffer. Succeeds if and
    /// only if the buffer is a canonical encoding, and then yields the key
    /// with exactly that encoding; a buffer holding an out-of-range packed
    /// coefficient is rejected.
    pub fn from_bytes(bytes: &[u8; 1184]) -> (r: Option<Self>)
        ensures
            r is Some <==> canonical_ek_768(bytes@),
            r matches Some(k) ==> k.wf() && k@ == bytes@,
    {
        if !check_coeff_groups(bytes.as_slice(), 1152) {
            return None;
        }
        let ek = engine_ek_from_bytes_768(bytes);
        Some(EncapsulationKey768 { ek, bytes: bytes_to_vec(bytes.as_slice()) })
    }

    /// Encapsulates a fresh shared secret against this key, drawing from the
    /// caller's randomness source. Always succeeds, with a 1088-byte
    /// ciphertext and a 32-byte shared secret.
    pub fn encapsulate<R: RngCore + CryptoRng>(self, rng: &mut R) -> (r: Option<
        ([u8; 1088], [u8; 32]),
    >)
        ensures
            r is Some,
    {
        match engine_encapsulate_768(&self.ek, rng) {
            Some((ct, ss)) => Some((vec_to_array::<1088>(&ct), vec_to_array::<32>(&ss))),
            None => None,
        }
    }
}

/// An ML-KEM-768 decapsulation key: the secret half of a keypair. It only
/// decapsulates; no serialization is offered, so the secret never leaves the
/// process through this layer.
pub struct DecapsulationKey768 {
    dk: RawDecapsulationKey768,
}

impl DecapsulationKey768 {
    /// The engine-internal key this handle wraps.
    pub closed spec fn raw(&self) -> RawDecapsulationKey768 {
        self.dk
    }

    /// Wraps an engine-internal decapsulation key, exactly as given.
    pub fn from(dk: RawDecapsulationKey768) -> (r: Self)
        ensures
            r.raw() == dk,
    {
        DecapsulationKey768 { dk }
    }

    /// Recovers a 32-byte shared secret from an exactly 1088-byte ciphertext.
    /// Always succeeds, and the secret is the one the key and the ciphertext
    /// determine — decapsulation is deterministic. A ciphertext that does not
    /// match the key still yields a secret, by the engine's
    /// implicit-rejection design, and only an equality check against the
    /// expected value reveals the mismatch.
    pub fn decapsulate(&self, data: &[u8; 1088]) -> (r: Option<[u8; 32]>)
        ensures
            r is Some,
            r matches Some(ss) ==> ss@ == decap_768(self.raw(), data@),
    {
        match engine_decapsulate_768(&self.dk, data) {
            Some(ss) => Some(vec_to_array::<32>(&ss)),
            None => None,
        }
    }
}

/// Generates a fresh ML-KEM-768 keypair from the caller's randomness source.
pub fn generate_keypair768<R: RngCore + CryptoRng>(rng: &mut R) -> (r: (
    DecapsulationKey768,
    EncapsulationKey768,
))
    ensures
        r.1.wf(),
{
    let (dk, ek) = engine_generate_768(rng);
    (DecapsulationKey768::from(dk), EncapsulationKey768::from(ek))
}

/// Every well-formed encapsulation key's model is a canonical encoding, and
/// is the engine's own encoding of the wrapped key. This is what `from_bytes`
/// needs to accept the output of `to_bytes`; the round trip itself — that
/// deserializing a serialized key succeeds and preserves the model — is
/// stated by the contracts of those two functions.
pub proof fn lemma_wf_encoding_canonical_768(k: EncapsulationKey768)
    requires
        k.wf(),
    ensures
        canonical_ek_768(k@),
        k@ == ek_encoding_768(k.raw()),
{
}

} // verus!
