//! Fixed-width byte codec for encapsulation keys.
//!
//! An encoded ML-KEM encapsulation key is the 12-bit packing of the public
//! polynomial-vector coefficients (three bytes for every two coefficients),
//! followed by a 32-byte seed. A buffer is a canonical encoding exactly when
//! every packed coefficient lies below the field modulus; the seed bytes are
//! unconstrained.

use vstd::prelude::*;

verus! {

/// The ML-KEM field modulus `q`.
pub const FIELD_MODULUS: u16 = 3329;

/// Trailing seed bytes of an encoded encapsulation key.
pub const SEED_LEN: usize = 32;

/// The first packed 12-bit coefficient of a three-byte group.
pub open spec fn group_lo(b0: u8, b1: u8) -> nat {
    b0 as nat + 256 * ((b1 as nat) % 16)
}

/// The second packed 12-bit coefficient of a three-byte group.
pub open spec fn group_hi(b1: u8, b2: u8) -> nat {
    (b1 as nat) / 16 + 16 * (b2 as nat)
}

/// Both coefficients of the three-byte group at offset `3 * g` lie below the
/// field modulus.
pub open spec fn group_in_range(s: Seq<u8>, g: int) -> bool
    recommends
        0 <= g,
        3 * g + 2 < s.len(),
{
    group_lo(s[3 * g], s[3 * g + 1]) < FIELD_MODULUS as nat
    && group_hi(s[3 * g + 1], s[3 * g + 2]) < FIELD_MODULUS as nat
}

/// `s` is a canonical encoded encapsulation key whose coefficient part is
/// `coeff_bytes` bytes long: the length is exact and every packed coefficient
/// lies below the field modulus.
pub open spec fn canonical_ek_bytes(s: Seq<u8>, coeff_bytes: nat) -> bool {
    &&& s.len() == coeff_bytes + SEED_LEN as nat
    &&& forall|g: int| 0 <= g < coeff_bytes / 3 ==> #[trigger] group_in_range(s, g)
}

/// Checks that every three-byte group among the first `coeff_bytes` bytes
/// packs two coefficients below the field modulus.
pub fn check_coeff_groups(bytes: &[u8], coeff_bytes: usize) -> (r: bool)
    requires
        coeff_bytes % 3 == 0,
        coeff_bytes <= bytes@.len(),
    ensures
        r == forall|g: int| 0 <= g < coeff_bytes / 3 ==> #[trigger] group_in_range(bytes@, g),
{
    let n: usize = coeff_bytes / 3;
    let mut g: usize = 0;
    while g < n
        invariant
            g <= n,
            n == coeff_bytes / 3,
            coeff_bytes % 3 == 0,
            coeff_bytes <= bytes@.len(),
            forall|j: int| 0 <= j < g ==> #[trigger] group_in_range(bytes@, j),
        decreases n - g,
    {
        let b0 = bytes[3 * g];
        let b1 = bytes[3 * g + 1];
        let b2 = bytes[3 * g + 2];
        let lo: u16 = b0 as u16 + 256 * (b1 as u16 % 16);
        let hi: u16 = b1 as u16 / 16 + 16 * b2 as u16;
        if lo >= FIELD_MODULUS || hi >= FIELD_MODULUS {
            assert(!group_in_range(bytes@, g as int));
            return false;
        }
        assert(group_in_range(bytes@, g as int));
        g += 1;
    }
    true
}

/// Copies a byte slice into a fresh vector.
pub fn bytes_to_vec(src: &[u8]) -> (r: Vec<u8>)
    ensures
        r@ == src@,
{
    let mut r: Vec<u8> = Vec::new();
    let mut i: usize = 0;
    while i < src.len()
        invariant
            i <= src@.len(),
            r@ == src@.subrange(0, i as int),
        decreases src@.len() - i,
    {
        r.push(src[i]);
        assert(r@ == src@.subrange(0, (i + 1) as int));
        i += 1;
    }
    assert(r@ == src@);
    r
}

/// Copies a vector of exactly `N` bytes into a fixed-length array.
pub fn vec_to_array<const N: usize>(src: &Vec<u8>) -> (r: [u8; N])
    requires
        src@.len() == N,
    ensures
        r@ == src@,
{
    let mut out: [u8; N] = [0u8; N];
    let mut i: usize = 0;
    while i < N
        invariant
            i <= N,
            src@.len() == N,
            out@.len() == N,
            forall|j: int| 0 <= j < i ==> out@[j] == src@[j],
        decreases N - i,
    {
        out[i] = src[i];
        i += 1;
    }
    assert(out@ =~= src@);
    out
}

} // verus!
