use dpe::crypto::{fill_incrementing, EcdsaPub, EcdsaSignature};
use dpe::profile::DPE_PROFILE;
use dpe::response::DpeErrorCode;
use dpe::DpeProfile;

fn sample_key(n: usize) -> EcdsaPub {
    EcdsaPub {
        x: (0..n).map(|i| i as u8).collect(),
        y: (0..n).map(|i| (0x80 + i) as u8).collect(),
    }
}

#[test]
fn profile_sizes() {
    assert_eq!(DpeProfile::P256Sha256.get_hash_size(), 32);
    assert_eq!(DpeProfile::P256Sha256.get_ecc_int_size(), 32);
    assert_eq!(DpeProfile::P256Sha256.get_cdi_size(), 32);
    assert_eq!(DpeProfile::P384Sha384.get_hash_size(), 48);
    assert_eq!(DpeProfile::P384Sha384.get_ecc_int_size(), 48);
    assert_eq!(DpeProfile::P384Sha384.get_cdi_size(), 48);
}

#[test]
fn serialize_writes_x_then_y() {
    let key = sample_key(32);
    let mut dst = [0xffu8; 64];
    assert_eq!(key.serialize(&mut dst), Ok(64));
    assert_eq!(&dst[..32], key.x.as_slice());
    assert_eq!(&dst[32..], key.y.as_slice());
    assert_eq!(dst[0], 0);
    assert_eq!(dst[32], 0x80);
    assert_eq!(dst[63], 0x80 + 31);
}

#[test]
fn serialize_leaves_the_tail_alone() {
    let key = sample_key(32);
    let mut dst = [0xeeu8; 70];
    assert_eq!(key.serialize(&mut dst), Ok(64));
    assert_eq!(&dst[64..], &[0xeeu8; 6]);
}

#[test]
fn serialize_one_byte_short_fails_and_writes_nothing() {
    let key = sample_key(32);
    let mut dst = [0x5au8; 63];
    assert_eq!(key.serialize(&mut dst), Err(DpeErrorCode::InternalError));
    assert_eq!(dst, [0x5au8; 63]);
}

#[test]
fn serialize_empty_destination_fails() {
    let key = sample_key(32);
    let mut dst: [u8; 0] = [];
    assert_eq!(key.serialize(&mut dst), Err(DpeErrorCode::InternalError));
}

#[test]
fn serialized_length_is_twice_the_integer_size() {
    for profile in [DpeProfile::P256Sha256, DpeProfile::P384Sha384] {
        let key = EcdsaPub::new(profile);
        let mut dst = vec![1u8; 200];
        assert_eq!(key.serialize(&mut dst), Ok(2 * profile.get_ecc_int_size()));
        assert!(dst[..2 * profile.get_ecc_int_size()].iter().all(|b| *b == 0));
        assert!(dst[2 * profile.get_ecc_int_size()..].iter().all(|b| *b == 1));
    }
}

#[test]
fn p384_key_needs_ninety_six_bytes() {
    let key = sample_key(48);
    let mut short = [0u8; 95];
    assert_eq!(key.serialize(&mut short), Err(DpeErrorCode::InternalError));
    let mut exact = [0u8; 96];
    assert_eq!(key.serialize(&mut exact), Ok(96));
}

#[test]
fn default_values_are_zero_and_sized_for_the_default_profile() {
    assert_eq!(DPE_PROFILE, DpeProfile::P256Sha256);
    let key = EcdsaPub::default();
    assert_eq!(key.x, vec![0u8; 32]);
    assert_eq!(key.y, vec![0u8; 32]);
    let sig = EcdsaSignature::default();
    assert_eq!(sig.r, vec![0u8; 32]);
    assert_eq!(sig.s, vec![0u8; 32]);
}

#[test]
fn new_values_follow_the_profile() {
    let key = EcdsaPub::new(DpeProfile::P384Sha384);
    assert_eq!(key.x.len(), 48);
    assert_eq!(key.y.len(), 48);
    let sig = EcdsaSignature::new(DpeProfile::P384Sha384);
    assert_eq!(sig.r, vec![0u8; 48]);
    assert_eq!(sig.s, vec![0u8; 48]);
}

#[test]
fn serialize_rejects_an_unsized_key() {
    let mut dst = [0x11u8; 200];
    let empty = EcdsaPub { x: vec![], y: vec![] };
    assert_eq!(empty.serialize(&mut dst), Err(DpeErrorCode::InternalError));
    let uneven = EcdsaPub { x: vec![1u8; 32], y: vec![2u8; 48] };
    assert_eq!(uneven.serialize(&mut dst), Err(DpeErrorCode::InternalError));
    let odd = EcdsaPub { x: vec![1u8; 33], y: vec![2u8; 33] };
    assert_eq!(odd.serialize(&mut dst), Err(DpeErrorCode::InternalError));
    assert_eq!(dst, [0x11u8; 200]);
}

#[test]
fn fill_incrementing_counts_from_one_and_wraps() {
    let mut dst = [0u8; 300];
    fill_incrementing(&mut dst);
    assert_eq!(&dst[..5], &[1, 2, 3, 4, 5]);
    assert_eq!(dst[254], 255);
    assert_eq!(dst[255], 0);
    assert_eq!(dst[256], 1);
    assert_eq!(dst[299], 44);
}
