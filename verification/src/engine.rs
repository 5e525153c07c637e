//! Trusted boundary to the ML-KEM engine.
//!
//! The lattice mathematics (key generation, the encapsulation and
//! decapsulation transforms, and the canonical key encoding) lives in the
//! `ml_kem` crate and is relied on here, not re-proved. Each wrapper makes
//! exactly one engine call; its contract states only what the engine's source
//! shows of every outcome. The engine's key objects are held opaquely in the
//! `Raw*` structs, since their type parameters are bounded by a trait that the
//! `ml_kem` crate does not export.

use vstd::prelude::*;

use ml_kem::kem::{Decapsulate, Encapsulate};
use ml_kem::{EncodedSizeUser, KemCore};
use rand_core::{CryptoRng, RngCore};

use crate::codec::canonical_ek_bytes;

verus! {

/// The canonical byte encoding of an engine-internal ML-KEM-512
/// encapsulation key: what `EncodedSizeUser::as_bytes` returns, a function of
/// the key value alone.
pub uninterp spec fn ek_encoding_512(ek: RawEncapsulationKey512) -> Seq<u8>;

/// The canonical byte encoding of an engine-internal ML-KEM-768
/// encapsulation key: what `EncodedSizeUser::as_bytes` returns, a function of
/// the key value alone.
pub uninterp spec fn ek_encoding_768(ek: RawEncapsulationKey768) -> Seq<u8>;

/// The canonical byte encoding of an engine-internal ML-KEM-1024
/// encapsulation key: what `EncodedSizeUser::as_bytes` returns, a function of
/// the key value alone.
pub uninterp spec fn ek_encoding_1024(ek: RawEncapsulationKey1024) -> Seq<u8>;

/// The secret that `Decapsulate::decapsulate` derives at level 512: pure
/// integer math over the key and the ciphertext bytes, a function of its
/// arguments alone.
pub uninterp spec fn decap_512(dk: RawDecapsulationKey512, ct: Seq<u8>) -> Seq<u8>;

/// The secret that `Decapsulate::decapsulate` derives at level 768: pure
/// integer math over the key and the ciphertext bytes, a function of its
/// arguments alone.
pub uninterp spec fn decap_768(dk: RawDecapsulationKey768, ct: Seq<u8>) -> Seq<u8>;

/// The secret that `Decapsulate::decapsulate` derives at level 1024: pure
/// integer math over the key and the ciphertext bytes, a function of its
/// arguments alone.
pub uninterp spec fn decap_1024(dk: RawDecapsulationKey1024, ct: Seq<u8>) -> Seq<u8>;

/// An engine-internal ML-KEM-512 encapsulation key, opaque to verification.
#[verifier::external_body]
pub struct RawEncapsulationKey512 {
    ek: ml_kem::kem::EncapsulationKey<ml_kem::MlKem512Params>,
}

/// An engine-internal ML-KEM-768 encapsulation key, opaque to verification.
#[verifier::external_body]
pub struct RawEncapsulationKey768 {
    ek: ml_kem::kem::EncapsulationKey<ml_kem::MlKem768Params>,
}

/// An engine-internal ML-KEM-1024 encapsulation key, opaque to verification.
#[verifier::external_body]
pub struct RawEncapsulationKey1024 {
    ek: ml_kem::kem::EncapsulationKey<ml_kem::MlKem1024Params>,
}

/// An engine-internal ML-KEM-512 decapsulation key, opaque to verification.
#[verifier::external_body]
pub struct RawDecapsulationKey512 {
    dk: ml_kem::kem::DecapsulationKey<ml_kem::MlKem512Params>,
}

/// An engine-internal ML-KEM-768 decapsulation key, opaque to verification.
#[verifier::external_body]
pub struct RawDecapsulationKey768 {
    dk: ml_kem::kem::DecapsulationKey<ml_kem::MlKem768Params>,
}

/// An engine-internal ML-KEM-1024 decapsulation key, opaque to verification.
#[verifier::external_body]
pub struct RawDecapsulationKey1024 {
    dk: ml_kem::kem::DecapsulationKey<ml_kem::MlKem1024Params>,
}

/// Relies on `MlKem512::generate`: draws a fresh keypair from the caller's
/// randomness source. Nothing is promised of the random result.
#[verifier::external_body]
pub(crate) fn engine_generate_512<R: RngCore + CryptoRng>(rng: &mut R) -> (r: (
    RawDecapsulationKey512,
    RawEncapsulationKey512,
)) {
    let (dk, ek) = ml_kem::MlKem512::generate(rng);
    (RawDecapsulationKey512 { dk }, RawEncapsulationKey512 { ek })
}

/// Relies on `MlKem768::generate`: draws a fresh keypair from the caller's
/// randomness source. Nothing is promised of the random result.
#[verifier::external_body]
pub(crate) fn engine_generate_768<R: RngCore + CryptoRng>(rng: &mut R) -> (r: (
    RawDecapsulationKey768,
    RawEncapsulationKey768,
)) {
    let (dk, ek) = ml_kem::MlKem768::generate(rng);
    (RawDecapsulationKey768 { dk }, RawEncapsulationKey768 { ek })
}

/// Relies on `MlKem1024::generate`: draws a fresh keypair from the caller's
/// randomness source. Nothing is promised of the random result.
#[verifier::external_body]
pub(crate) fn engine_generate_1024<R: RngCore + CryptoRng>(rng: &mut R) -> (r: (
    RawDecapsulationKey1024,
    RawEncapsulationKey1024,
)) {
    let (dk, ek) = ml_kem::MlKem1024::generate(rng);
    (RawDecapsulationKey1024 { dk }, RawEncapsulationKey1024 { ek })
}

/// Relies on `EncodedSizeUser::as_bytes` for ML-KEM-512 encapsulation keys:
/// 768 bytes of packed 12-bit coefficients, which the engine keeps reduced
/// below the field modulus, followed by the 32-byte seed.
#[verifier::external_body]
pub(crate) fn engine_ek_as_bytes_512(ek: &RawEncapsulationKey512) -> (r: Vec<u8>)
    ensures
        r@ == ek_encoding_512(*ek),
        canonical_ek_bytes(r@, 768),
{
    ek.ek.as_bytes().as_slice().to_vec()
}

/// Relies on `EncodedSizeUser::as_bytes` for ML-KEM-768 encapsulation keys:
/// 1152 bytes of packed 12-bit coefficients, which the engine keeps reduced
/// below the field modulus, followed by the 32-byte seed.
#[verifier::external_body]
pub(crate) fn engine_ek_as_bytes_768(ek: &RawEncapsulationKey768) -> (r: Vec<u8>)
    ensures
        r@ == ek_encoding_768(*ek),
        canonical_ek_bytes(r@, 1152),
{
    ek.ek.as_bytes().as_slice().to_vec()
}

/// Relies on `EncodedSizeUser::as_bytes` for ML-KEM-1024 encapsulation keys:
/// 1536 bytes of packed 12-bit coefficients, which the engine keeps reduced
/// below the field modulus, followed by the 32-byte seed.
#[verifier::external_body]
pub(crate) fn engine_ek_as_bytes_1024(ek: &RawEncapsulationKey1024) -> (r: Vec<u8>)
    ensures
        r@ == ek_encoding_1024(*ek),
        canonical_ek_bytes(r@, 1536),
{
    ek.ek.as_bytes().as_slice().to_vec()
}

/// Relies on `EncodedSizeUser::from_bytes` for ML-KEM-512 encapsulation keys:
/// structural decode of an exactly 800-byte buffer, which never fails. The
/// decoded coefficients are reduced below the field modulus, so a canonical
/// buffer decodes to a key whose own canonical encoding is that buffer.
#[verifier::external_body]
pub(crate) fn engine_ek_from_bytes_512(bytes: &[u8; 800]) -> (r: RawEncapsulationKey512)
    ensures
        canonical_ek_bytes(bytes@, 768) ==> ek_encoding_512(r) == bytes@,
{
    let enc: ml_kem::Encoded<ml_kem::kem::EncapsulationKey<ml_kem::MlKem512Params>> =
        ml_kem::array::Array::from(*bytes);
    RawEncapsulationKey512 { ek: EncodedSizeUser::from_bytes(&enc) }
}

/// Relies on `EncodedSizeUser::from_bytes` for ML-KEM-768 encapsulation keys:
/// structural decode of an exactly 1184-byte buffer, which never fails. The
/// decoded coefficients are reduced below the field modulus, so a canonical
/// buffer decodes to a key whose own canonical encoding is that buffer.
#[verifier::external_body]
pub(crate) fn engine_ek_from_bytes_768(bytes: &[u8; 1184]) -> (r: RawEncapsulationKey768)
    ensures
        canonical_ek_bytes(bytes@, 1152) ==> ek_encoding_768(r) == bytes@,
{
    let enc: ml_kem::Encoded<ml_kem::kem::EncapsulationKey<ml_kem::MlKem768Params>> =
        ml_kem::array::Array::from(*bytes);
    RawEncapsulationKey768 { ek: EncodedSizeUser::from_bytes(&enc) }
}

/// Relies on `EncodedSizeUser::from_bytes` for ML-KEM-1024 encapsulation keys:
/// structural decode of an exactly 1568-byte buffer, which never fails. The
/// decoded coefficients are reduced below the field modulus, so a canonical
/// buffer decodes to a key whose own canonical encoding is that buffer.
#[verifier::external_body]
pub(crate) fn engine_ek_from_bytes_1024(bytes: &[u8; 1568]) -> (r: RawEncapsulationKey1024)
    ensures
        canonical_ek_bytes(bytes@, 1536) ==> ek_encoding_1024(r) == bytes@,
{
    let enc: ml_kem::Encoded<ml_kem::kem::EncapsulationKey<ml_kem::MlKem1024Params>> =
        ml_kem::array::Array::from(*bytes);
    RawEncapsulationKey1024 { ek: EncodedSizeUser::from_bytes(&enc) }
}

/// Relies on `Encapsulate::encapsulate` for ML-KEM-512: always returns `Ok`
/// with a 768-byte ciphertext and a 32-byte shared secret; their contents
/// depend on the caller's randomness source.
#[verifier::external_body]
pub(crate) fn engine_encapsulate_512<R: RngCore + CryptoRng>(
    ek: &RawEncapsulationKey512,
    rng: &mut R,
) -> (r: Option<(Vec<u8>, Vec<u8>)>)
    ensures
        r is Some,
        r matches Some(p) ==> p.0@.len() == 768 && p.1@.len() == 32,
{
    match ek.ek.encapsulate(rng) {
        Ok((ct, ss)) => Some((ct.as_slice().to_vec(), ss.as_slice().to_vec())),
        Err(()) => None,
    }
}

/// Relies on `Encapsulate::encapsulate` for ML-KEM-768: always returns `Ok`
/// with a 1088-byte ciphertext and a 32-byte shared secret; their contents
/// depend on the caller's randomness source.
#[verifier::external_body]
pub(crate) fn engine_encapsulate_768<R: RngCore + CryptoRng>(
    ek: &RawEncapsulationKey768,
    rng: &mut R,
) -> (r: Option<(Vec<u8>, Vec<u8>)>)
    ensures
        r is Some,
        r matches Some(p) ==> p.0@.len() == 1088 && p.1@.len() == 32,
{
    match ek.ek.encapsulate(rng) {
        Ok((ct, ss)) => Some((ct.as_slice().to_vec(), ss.as_slice().to_vec())),
        Err(()) => None,
    }
}

/// Relies on `Encapsulate::encapsulate` for ML-KEM-1024: always returns `Ok`
/// with a 1568-byte ciphertext and a 32-byte shared secret; their contents
/// depend on the caller's randomness source.
#[verifier::external_body]
pub(crate) fn engine_encapsulate_1024<R: RngCore + CryptoRng>(
    ek: &RawEncapsulationKey1024,
    rng: &mut R,
) -> (r: Option<(Vec<u8>, Vec<u8>)>)
    ensures
        r is Some,
        r matches Some(p) ==> p.0@.len() == 1568 && p.1@.len() == 32,
{
    match ek.ek.encapsulate(rng) {
        Ok((ct, ss)) => Some((ct.as_slice().to_vec(), ss.as_slice().to_vec())),
        Err(()) => None,
    }
}

/// Relies on `Decapsulate::decapsulate` for ML-KEM-512: always returns `Ok`
/// with the 32-byte shared secret that the key and the ciphertext determine
/// (implicit rejection yields a secret even for a ciphertext that does not
/// match the key).
#[verifier::external_body]
pub(crate) fn engine_decapsulate_512(
    dk: &RawDecapsulationKey512,
    ct: &[u8; 768],
) -> (r: Option<Vec<u8>>)
    ensures
        r is Some,
        r matches Some(ss) ==> ss@.len() == 32 && ss@ == decap_512(*dk, ct@),
{
    let enc: ml_kem::Ciphertext<ml_kem::MlKem512> = ml_kem::array::Array::from(*ct);
    match dk.dk.decapsulate(&enc) {
        Ok(ss) => Some(ss.as_slice().to_vec()),
        Err(()) => None,
    }
}

/// Relies on `Decapsulate::decapsulate` for ML-KEM-768: always returns `Ok`
/// with the 32-byte shared secret that the key and the ciphertext determine
/// (implicit rejection yields a secret even for a ciphertext that does not
/// match the key).
#[verifier::external_body]
pub(crate) fn engine_decapsulate_768(
    dk: &RawDecapsulationKey768,
    ct: &[u8; 1088],
) -> (r: Option<Vec<u8>>)
    ensures
        r is Some,
        r matches Some(ss) ==> ss@.len() == 32 && ss@ == decap_768(*dk, ct@),
{
    let enc: ml_kem::Ciphertext<ml_kem::MlKem768> = ml_kem::array::Array::from(*ct);
    match dk.dk.decapsulate(&enc) {
        Ok(ss) => Some(ss.as_slice().to_vec()),
        Err(()) => None,
    }
}

/// Relies on `Decapsulate::decapsulate` for ML-KEM-1024: always returns `Ok`
/// with the 32-byte shared secret that the key and the ciphertext determine
/// (implicit rejection yields a secret even for a ciphertext that does not
/// match the key).
#[verifier::external_body]
pub(crate) fn engine_decapsulate_1024(
    dk: &RawDecapsulationKey1024,
    ct: &[u8; 1568],
) -> (r: Option<Vec<u8>>)
    ensures
        r is Some,
        r matches Some(ss) ==> ss@.len() == 32 && ss@ == decap_1024(*dk, ct@),
{
    let enc: ml_kem::Ciphertext<ml_kem::MlKem1024> = ml_kem::array::Array::from(*ct);
    match dk.dk.decapsulate(&enc) {
        Ok(ss) => Some(ss.as_slice().to_vec()),
        Err(()) => None,
    }
}

} // verus!
