//! Typed key handles and KEM operations for ML-KEM-1024.
//!
//! At this level an encoded encapsulation key is exactly 1568 bytes (1536
//! coefficient bytes and a 32-byte seed), a ciphertext is exactly 1568 bytes,
//! and a shared secret is exactly 32 bytes.

use vstd::prelude::*;

use crate::codec::{bytes_to_vec, canonical_ek_bytes, check_coeff_groups, vec_to_array};
use crate::engine::{
    decap_1024, ek_encoding_1024, engine_decapsulate_1024, engine_ek_as_bytes_1024,
    engine_ek_from_bytes_1024, engine_encapsulate_1024, engine_generate_1024,
    RawDecapsulationKey1024, RawEncapsulationKey1024,
};
use rand_core::{CryptoRng, RngCore};

verus! {

/// `s` is a canonical 1568-byte encoding of an ML-KEM-1024 encapsulation key.
pub open spec fn canonical_ek_1024(s: Seq<u8>) -> bool {
    canonical_ek_bytes(s, 1536)
}

/// An ML-KEM-1024 encapsulation key: the public half of a keypair, able to
/// encapsulate fresh shared secrets and to serialize itself.
pub struct EncapsulationKey1024 {
    ek: RawEncapsulationKey1024,
    bytes: Vec<u8>,
}

impl View for EncapsulationKey1024 {
    type V = Seq<u8>;

    /// A key is modeled by its canonical 1568-byte encoding.
    closed spec fn view(&self) -> Seq<u8> {
        self.bytes@
    }
}

impl EncapsulationKey1024 {
    /// The engine-internal key this handle wraps.
    pub closed spec fn raw(&self) -> RawEncapsulationKey1024 {
        self.ek
    }

    /// The key's stored encoding is canonical and is exactly the engine's
    /// encoding of the wrapped key; every key reachable through this module's
    /// constructors satisfies this.
    pub open spec fn wf(&self) -> bool {
        canonical_ek_1024(self@) && self@ == ek_encoding_1024(self.raw())
    }

    /// Wraps an engine-internal encapsulation key, recording its canonical
    /// encoding byte for byte.
    pub fn from(ek: RawEncapsulationKey1024) -> (r: Self)
        ensures
            r.wf(),
            r.raw() == ek,
            r@ == ek_encoding_1024(ek),
    {
        let bytes = engine_ek_as_bytes_1024(&ek);
        EncapsulationKey1024 { ek, bytes }
    }

    /// Serializes the key to its exact fixed-width form.
    pub fn to_bytes(&self) -> (r: [u8; 1568])
        requires
            self.wf(),
        ensures
            r@ == self@,
    {
        vec_to_array::<1568>(&self.bytes)
    }

    /// Deserializes a key from an exactly 1568-byte buffer. Succeeds if and
    /// only if the buffer is a canonical encoding, and then yields the key
    /// with exactly that encoding; a buffer holding an out-of-range packed
    /// coefficient is rejected.
    pub fn from_bytes(bytes: &[u8; 1568]) -> (r: Option<Self>)
        ensures
            r is Some <==> canonical_ek_1024(bytes@),
            r matches Some(k) ==> k.wf() && k@ == bytes@,
    {
        if !check_coeff_groups(bytes.as_slice(), 1536) {
            return None;
        }
        let ek = engine_ek_from_bytes_1024(bytes);
        Some(EncapsulationKey1024 { ek, bytes: bytes_to_vec(bytes.as_slice()) })
    }

    /// Encapsulates a fresh shared secret against this key, drawing from the
    /// caller's randomness source. Always succeeds, with a 1568-byte
    /// ciphertext and a 32-byte shared secret.
    pub fn encapsulate<R: RngCore + CryptoRng>(self, rng: &mut R) -> (r: Option<
        ([u8; 1568], [u8; 32]),
    >)
        ensures
            r is Some,
    {
        match engine_encapsulate_1024(&self.ek, rng) {
            Some((ct, ss)) => Some((vec_to_array::<1568>(&ct), vec_to_array::<32>(&ss))),
            None => None,
        }
    }
}

/// An ML-KEM-1024 decapsulation key: the secret half of a keypair. It only
/// decapsulates; no serialization is offered, so the secret never leaves the
/// process through this layer.
pub struct DecapsulationKey1024 {
    dk: RawDecapsulationKey1024,
}

impl DecapsulationKey1024 {
    /// The engine-internal key this handle wraps.
    pub closed spec fn raw(&self) -> RawDecapsulationKey1024 {
        self.dk
    }

    /// Wraps an engine-internal decapsulation key, exactly as given.
    pub fn from(dk: RawDecapsulationKey1024) -> (r: Self)
        ensures
            r.raw() == dk,
    {
        DecapsulationKey1024 { dk }
    }

    /// Recovers a 32-byte shared secret from an exactly 1568-byte ciphertext.
    /// Always succeeds, and the secret is the one the key and the ciphertext
    /// determine — decapsulation is deterministic. A ciphertext that does not
    /// match the key still yields a secret, by the engine's
    /// implicit-rejection design, and only an equality check against the
    /// expected value reveals the mismatch.
    pub fn decapsulate(&self, data: &[u8; 1568]) -> (r: Option<[u8; 32]>)
        ensures
            r is Some,
            r matches Some(ss) ==> ss@ == decap_1024(self.raw(), data@),
    {
        match engine_decapsulate_1024(&self.dk, data) {
            Some(ss) => Some(vec_to_array::<32>(&ss)),
            None => None,
        }
    }
}

/// Generates a fresh ML-KEM-1024 keypair from the caller's randomness source.
pub fn generate_keypair1024<R: RngCore + CryptoRng>(rng: &mut R) -> (r: (
    DecapsulationKey1024,
    EncapsulationKey1024,
))
    ensures
        r.1.wf(),
{
    let (dk, ek) = engine_generate_1024(rng);
    (DecapsulationKey1024::from(dk), EncapsulationKey1024::from(ek))
}

/// Every well-formed encapsulation key's model is a canonical encoding, and
/// is the engine's own encoding of the wrapped key. This is what `from_bytes`
/// needs to accept the output of `to_bytes`; the round trip itself — that
/// deserializing a serialized key succeeds and preserves the model — is
/// stated by the contracts of those two functions.
pub proof fn lemma_wf_encoding_canonical_1024(k: EncapsulationKey1024)
    requires
        k.wf(),
    ensures
        canonical_ek_1024(k@),
        k@ == ek_encoding_1024(k.raw()),
{
}

} // verus!
