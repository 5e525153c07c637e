//! Typed fixed-width serialization and KEM operations over ML-KEM.
//!
//! For each of the three standardized security levels this crate offers a
//! typed keypair, exact fixed-length serialization of the encapsulation key
//! with rejection of malformed buffers, and the two KEM transforms, on top of
//! the `ml_kem` lattice engine.

pub mod codec;
pub mod engine;
pub mod kem1024;
pub mod kem512;
pub mod kem768;

pub use codec::FIELD_MODULUS;
pub use engine::RawDecapsulationKey1024;
pub use engine::RawDecapsulationKey512;
pub use engine::RawDecapsulationKey768;
pub use engine::RawEncapsulationKey1024;
pub use engine::RawEncapsulationKey512;
pub use engine::RawEncapsulationKey768;
pub use kem1024::generate_keypair1024;
pub use kem1024::DecapsulationKey1024;
pub use kem1024::EncapsulationKey1024;
pub use kem512::generate_keypair512;
pub use kem512::DecapsulationKey512;
pub use kem512::EncapsulationKey512;
pub use kem768::generate_keypair768;
pub use kem768::DecapsulationKey768;
pub use kem768::EncapsulationKey768;
