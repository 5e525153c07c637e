use qserde::DecapsulationKey512;
use qserde::EncapsulationKey1024;
use qserde::EncapsulationKey512;
use qserde::EncapsulationKey768;
use qserde::generate_keypair1024;
use qserde::generate_keypair512;
use qserde::generate_keypair768;

#[test]
fn is_everything_ok_512() {
    let mut rng = rand::thread_rng();
    let (dk, ek) = generate_keypair512(&mut rng);
    let ek = EncapsulationKey512::from_bytes(&ek.to_bytes()).unwrap();
    let (enc, ss) = ek.encapsulate(&mut rng).unwrap();
    let ss1 = dk.decapsulate(&enc).unwrap();
    assert_eq!(ss, ss1);
}

#[test]
fn is_everything_ok_768() {
    let mut rng = rand::thread_rng();
    let (dk, ek) = generate_keypair768(&mut rng);
    let ek = EncapsulationKey768::from_bytes(&ek.to_bytes()).unwrap();
    let (enc, ss) = ek.encapsulate(&mut rng).unwrap();
    let ss1 = dk.decapsulate(&enc).unwrap();
    assert_eq!(ss, ss1);
}

#[test]
fn is_everything_ok_1024() {
    let mut rng = rand::thread_rng();
    let (dk, ek) = generate_keypair1024(&mut rng);
    let ek = EncapsulationKey1024::from_bytes(&ek.to_bytes()).unwrap();
    let (enc, ss) = ek.encapsulate(&mut rng).unwrap();
    let ss1 = dk.decapsulate(&enc).unwrap();
    assert_eq!(ss, ss1);
}

// Level 512 end to end: serialize to exactly 800 bytes, deserialize,
// encapsulate against the decoded key, decapsulate with the original secret
// key, and compare the two 32-byte secrets.
#[test]
fn scenario_level_512() {
    let mut rng = rand::thread_rng();
    let (dk, ek) = generate_keypair512(&mut rng);
    let buf: [u8; 800] = ek.to_bytes();
    assert_eq!(buf.len(), 800);
    let ek2 = EncapsulationKey512::from_bytes(&buf).unwrap();
    let (ct, s1) = ek2.encapsulate(&mut rng).unwrap();
    assert_eq!(ct.len(), 768);
    let s2 = dk.decapsulate(&ct).unwrap();
    assert_eq!(s1, s2);
    assert_eq!(s1.len(), 32);
}

// Serializing, deserializing and serializing again reproduces the identical
// buffer at every level.
#[test]
fn encoding_round_trip_all_levels() {
    let mut rng = rand::thread_rng();

    let (_, ek) = generate_keypair512(&mut rng);
    let buf = ek.to_bytes();
    let ek2 = EncapsulationKey512::from_bytes(&buf).unwrap();
    assert_eq!(ek2.to_bytes(), buf);

    let (_, ek) = generate_keypair768(&mut rng);
    let buf = ek.to_bytes();
    let ek2 = EncapsulationKey768::from_bytes(&buf).unwrap();
    assert!(ek2.to_bytes() == buf);

    let (_, ek) = generate_keypair1024(&mut rng);
    let buf = ek.to_bytes();
    let ek2 = EncapsulationKey1024::from_bytes(&buf).unwrap();
    assert!(ek2.to_bytes() == buf);
}

// A correctly sized buffer whose first packed coefficient lies beyond the
// field modulus is rejected at every level.
#[test]
fn malformed_coefficient_rejected() {
    let mut rng = rand::thread_rng();

    let (_, ek) = generate_keypair512(&mut rng);
    let mut buf = ek.to_bytes();
    buf[0] = 0xff;
    buf[1] = 0xff;
    assert!(EncapsulationKey512::from_bytes(&buf).is_none());

    let (_, ek) = generate_keypair768(&mut rng);
    let mut buf = ek.to_bytes();
    buf[0] = 0xff;
    buf[1] = 0xff;
    assert!(EncapsulationKey768::from_bytes(&buf).is_none());

    let (_, ek) = generate_keypair1024(&mut rng);
    let mut buf = ek.to_bytes();
    buf[0] = 0xff;
    buf[1] = 0xff;
    assert!(EncapsulationKey1024::from_bytes(&buf).is_none());
}

// The modulus check is exact: a first coefficient of 3328 is accepted and
// 3329 is rejected, all other bytes zero.
#[test]
fn modulus_boundary() {
    let mut buf = [0u8; 800];
    buf[0] = 0x00;
    buf[1] = 0x0d; // first coefficient 13 * 256 = 3328
    assert!(EncapsulationKey512::from_bytes(&buf).is_some());
    buf[0] = 0x01; // first coefficient 3329, the field modulus
    assert!(EncapsulationKey512::from_bytes(&buf).is_none());
}

// A decoded key reports exactly the bytes it was built from.
#[test]
fn decoded_key_keeps_its_bytes() {
    let buf = [0u8; 800];
    let ek = EncapsulationKey512::from_bytes(&buf).unwrap();
    assert_eq!(ek.to_bytes(), buf);
}

// Every produced shared secret is exactly 32 bytes, at all three levels.
#[test]
fn secret_length_all_levels() {
    let mut rng = rand::thread_rng();

    let (dk, ek) = generate_keypair512(&mut rng);
    let (ct, ss) = ek.encapsulate(&mut rng).unwrap();
    assert_eq!(ss.len(), 32);
    assert_eq!(dk.decapsulate(&ct).unwrap().len(), 32);

    let (dk, ek) = generate_keypair768(&mut rng);
    let (ct, ss) = ek.encapsulate(&mut rng).unwrap();
    assert_eq!(ss.len(), 32);
    assert_eq!(dk.decapsulate(&ct).unwrap().len(), 32);

    let (dk, ek) = generate_keypair1024(&mut rng);
    let (ct, ss) = ek.encapsulate(&mut rng).unwrap();
    assert_eq!(ss.len(), 32);
    assert_eq!(dk.decapsulate(&ct).unwrap().len(), 32);
}

// Decapsulating a ciphertext made for a different keypair still yields some
// 32-byte secret, but not the one the sender derived: implicit rejection
// hides the mismatch until the secrets are compared.
#[test]
fn implicit_rejection_on_foreign_ciphertext() {
    let mut rng = rand::thread_rng();
    let (dk_a, _) = generate_keypair512(&mut rng);
    let (_, ek_b) = generate_keypair512(&mut rng);
    let (ct, ss_b) = ek_b.encapsulate(&mut rng).unwrap();
    let ss_a = dk_a.decapsulate(&ct).unwrap();
    assert_eq!(ss_a.len(), 32);
    assert_ne!(ss_a, ss_b);
}

fn secret_for_zero_key(dk: &DecapsulationKey512) -> [u8; 32] {
    let ct = [0u8; 768];
    dk.decapsulate(&ct).unwrap()
}

// Decapsulation is deterministic: the same key and ciphertext give the same
// secret twice.
#[test]
fn decapsulation_deterministic() {
    let mut rng = rand::thread_rng();
    let (dk, _) = generate_keypair512(&mut rng);
    assert_eq!(secret_for_zero_key(&dk), secret_for_zero_key(&dk));
}
