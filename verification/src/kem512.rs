//! Typed key handles and KEM operations for ML-KEM-512.
//!
//! At this level an encoded encapsulation key is exactly 800 bytes (768
//! coefficient bytes and a 32-byte seed), a ciphertext is exactly 768 bytes,
//! and a shared secret is exactly 32 bytes.

use vstd::prelude::*;

use crate::codec::{bytes_to_vec, canonical_ek_bytes, check_coeff_groups, vec_to_array};
use crate::engine::{
    decap_512, ek_encoding_512, engine_decapsulate_512, engine_ek_as_bytes_512,
    engine_ek_from_bytes_512, engine_encapsulate_512, engine_generate_512,
    RawDecapsulationKey512, RawEncapsulationKey512,
};
use rand_core::{CryptoRng, RngCore};

verus! {

/// `s` is a canonical 800-byte encoding of an ML-KEM-512 encapsulation key.
pub open spec fn canonical_ek_512(s: Seq<u8>) -> bool {
    canonical_ek_bytes(s, 768)
}

/// An ML-KEM-512 encapsulation key: the public half of a keypair, able to
/// encapsulate fresh shared secrets and to serialize itself.
pub struct EncapsulationKey512 {
    ek: RawEncapsulationKey512,
    bytes: Vec<u8>,
}

impl View for EncapsulationKey512 {
    type V = Seq<u8>;

    /// A key is modeled by its canonical 800-byte encoding.
    closed spec fn view(&self) -> Seq<u8> {
        self.bytes@
    }
}

impl EncapsulationKey512 {
    /// The engine-internal key this handle wraps.
    pub closed spec fn raw(&self) -> RawEncapsulationKey512 {
        self.ek
    }

    /// The key's stored encoding is canonical and is exactly the engine's
    /// encoding of the wrapped key; every key reachable through this module's
    /// constructors satisfies this.
    pub open spec fn wf(&self) -> bool {
        canonical_ek_512(self@) && self@ == ek_encoding_512(self.raw())
    }

    /// Wraps an engine-internal encapsulation key, recording its canonical
    /// encoding byte for byte.
    pub fn from(ek: RawEncapsulationKey512) -> (r: Self)
        ensures
            r.wf(),
            r.raw() == ek,
            r@ == ek_encoding_512(ek),
    {
        let bytes = engine_ek_as_bytes_512(&ek);
        EncapsulationKey512 { ek, bytes }
    }

    /// Serializes the key to its exact fixed-width form.
    pub fn to_bytes(&self) -> (r: [u8; 800])
        requires
            self.wf(),
        ensures
            r@ == self@,
    {
        vec_to_array::<800>(&self.bytes)
    }

    /// Deserializes a key from an exactly 800-byte buffer. Succeeds if and
    /// only if the buffer is a canonical encoding, and then yields the key
    /// with exactly that encoding; a buffer holding an out-of-range packed
    /// coefficient is rejected.
    pub fn from_bytes(bytes: &[u8; 800]) -> (r: Option<Self>)
        ensures
            r is Some <==> canonical_ek_512(bytes@),
            r matches Some(k) ==> k.wf() && k@ == bytes@,
    {
        if !check_coeff_groups(bytes.as_slice(), 768) {
            return None;
        }
        let ek = engine_ek_from_bytes_512(bytes);
        Some(EncapsulationKey512 { ek, bytes: bytes_to_vec(bytes.as_slice()) })
    }

    /// Encapsulates a fresh shared secret against this key, drawing from the
    /// caller's randomness source. Always succeeds, with a 768-byte
    /// ciphertext and a 32-byte shared secret.
    pub fn encapsulate<R: RngCore + CryptoRng>(self, rng: &mut R) -> (r: Option<
        ([u8; 768], [u8; 32]),
    >)
        ensures
            r is Some,
    {
        match engine_encapsulate_512(&self.ek, rng) {
            Some((ct, ss)) => Some((vec_to_array::<768>(&ct), vec_to_array::<32>(&ss))),
            None => None,
        }
    }
}

/// An ML-KEM-512 decapsulation key: the secret half of a keypair. It only
/// decapsulates; no serialization is offered, so the secret never leaves the
/// process through this layer.
pub struct DecapsulationKey512 {
    dk: RawDecapsulationKey512,
}

impl DecapsulationKey512 {
    /// The engine-internal key this handle wraps.
    pub closed spec fn raw(&self) -> RawDecapsulationKey512 {
        self.dk
    }

    /// Wraps an engine-internal decapsulation key, exactly as given.
    pub fn from(dk: RawDecapsulationKey512) -> (r: Self)
        ensures
            r.raw() == dk,
    {
        DecapsulationKey512 { dk }
    }

    /// Recovers a 32-byte shared secret from an exactly 768-byte ciphertext.
    /// Always succeeds, and the secret is the one the key and the ciphertext
    /// determine — decapsulation is deterministic. A ciphertext that does not
    /// match the key still yields a secret, by the engine's
    /// implicit-rejection design, and only an equality check against the
    /// expected value reveals the mismatch.
    pub fn decapsulate(&self, data: &[u8; 768]) -> (r: Option<[u8; 32]>)
        ensures
            r is Some,
            r matches Some(ss) ==> ss@ == decap_512(self.raw(), data@),
    {
        match engine_decapsulate_512(&self.dk, data) {
            Some(ss) => Some(vec_to_array::<32>(&ss)),
            None => None,
        }
    }
}

/// Generates a fresh ML-KEM-512 keypair from the caller's randomness source.
pub fn generate_keypair512<R: RngCore + CryptoRng>(rng: &mut R) -> (r: (
    DecapsulationKey512,
    EncapsulationKey512,
))
    ensures
        r.1.wf(),
{
    let (dk, ek) = engine_generate_512(rng);
    (DecapsulationKey512::from(dk), EncapsulationKey512::from(ek))
}

/// Every well-formed encapsulation key's model is a canonical encoding, and
/// is the engine's own encoding of the wrapped key. This is what `from_bytes`
/// needs to accept the output of `to_bytes`; the round trip itself — that
/// deserializing a serialized key succeeds and preserves the model — is
/// stated by the contracts of those two functions.
pub proof fn lemma_wf_encoding_canonical_512(k: EncapsulationKey512)
    requires
        k.wf(),
    ensures
        canonical_ek_512(k@),
        k@ == ek_encoding_512(k.raw()),
{
}

} // verus!
