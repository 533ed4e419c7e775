use escrow::anchor_escrow::{Escrow, ErrorCode};
use sha2::{Digest, Sha256};

fn sample() -> Escrow {
    Escrow {
        seed: 123,
        maker: [4u8; 32],
        mint_a: [5u8; 32],
        mint_b: [6u8; 32],
        receive: 10,
        lock_period: 172_800,
        bump: 255,
    }
}

#[test]
fn anchor_discriminator_is_hash_prefix() {
    let digest = Sha256::digest(b"account:Escrow");
    assert_eq!(&Escrow::discriminator()[..], &digest[..8]);
}

#[test]
fn anchor_init_space_is_sum_of_fields() {
    assert_eq!(Escrow::INIT_SPACE, 121);
}

#[test]
fn anchor_serialize_then_deserialize() {
    let e = sample();
    let mut data = vec![0u8; 8 + Escrow::INIT_SPACE];
    assert_eq!(e.try_serialize(&mut data), Ok(()));
    let back = Escrow::try_deserialize(&data).unwrap();
    assert_eq!(back, e);
    assert_eq!(back.seed, 123u64);
    assert_eq!(back.receive, 10);
}

#[test]
fn anchor_layout_bytes() {
    let e = sample();
    let bytes = e.to_account_bytes();
    assert_eq!(bytes.len(), 129);
    assert_eq!(&bytes[8..16], &123u64.to_le_bytes());
    assert_eq!(&bytes[16..48], &[4u8; 32]);
    assert_eq!(&bytes[112..120], &10u64.to_le_bytes());
    assert_eq!(&bytes[120..128], &172_800i64.to_le_bytes());
    assert_eq!(bytes[128], 255);
}

#[test]
fn anchor_negative_lock_period_round_trips() {
    let mut e = sample();
    e.lock_period = -5;
    let bytes = e.to_account_bytes();
    assert_eq!(Escrow::try_deserialize(&bytes).unwrap().lock_period, -5);
}

#[test]
fn anchor_trailing_bytes_are_ignored() {
    let e = sample();
    let mut data = vec![0xAAu8; 200];
    assert_eq!(e.try_serialize(&mut data), Ok(()));
    assert_eq!(data[129], 0xAA);
    assert_eq!(Escrow::try_deserialize(&data).unwrap(), e);
}

#[test]
fn anchor_short_data_has_no_discriminator() {
    assert_eq!(Escrow::try_deserialize(&[31, 213, 123]), Err(ErrorCode::AccountDiscriminatorNotFound));
    assert_eq!(Escrow::try_deserialize(&[]), Err(ErrorCode::AccountDiscriminatorNotFound));
}

#[test]
fn anchor_wrong_discriminator_is_refused() {
    let mut bytes = sample().to_account_bytes();
    bytes[3] ^= 1;
    assert_eq!(Escrow::try_deserialize(&bytes), Err(ErrorCode::AccountDiscriminatorMismatch));
}

#[test]
fn anchor_truncated_fields_do_not_deserialize() {
    let bytes = sample().to_account_bytes();
    assert_eq!(Escrow::try_deserialize(&bytes[..128]), Err(ErrorCode::AccountDidNotDeserialize));
    assert_eq!(Escrow::try_deserialize(&bytes[..8]), Err(ErrorCode::AccountDidNotDeserialize));
}

#[test]
fn anchor_small_buffer_gets_prefix_and_error() {
    let e = sample();
    let mut data = vec![0u8; 20];
    assert_eq!(e.try_serialize(&mut data), Err(ErrorCode::AccountDidNotSerialize));
    assert_eq!(&data[..], &e.to_account_bytes()[..20]);
}
