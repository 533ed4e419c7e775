use escrow::account::AccountInfo;
use escrow::state::Escrow;

fn account(owner: [u8; 32], data: Vec<u8>) -> AccountInfo {
    AccountInfo {
        key: [9u8; 32],
        owner,
        lamports: 1_000,
        data,
        is_signer: false,
        is_writable: true,
        executable: false,
    }
}

fn sample() -> Escrow {
    Escrow {
        mint_a: [1u8; 32],
        mint_b: [2u8; 32],
        maker: [3u8; 32],
        receive_amount_mint_b: 0x0102_0304_0506_0708,
        bump: 254,
    }
}

#[test]
fn escrow_len_is_sum_of_fields() {
    assert_eq!(Escrow::LEN, 105);
}

#[test]
fn escrow_layout_is_fields_in_order() {
    let bytes = sample().to_bytes();
    assert_eq!(bytes.len(), Escrow::LEN);
    assert!(bytes[0..32].iter().all(|b| *b == 1));
    assert!(bytes[32..64].iter().all(|b| *b == 2));
    assert!(bytes[64..96].iter().all(|b| *b == 3));
    assert_eq!(&bytes[96..104], &[8, 7, 6, 5, 4, 3, 2, 1]);
    assert_eq!(bytes[104], 254);
}

#[test]
fn escrow_store_then_read_gives_it_back() {
    let program_id = [7u8; 32];
    let mut acc = account(program_id, vec![0u8; Escrow::LEN]);
    let e = sample();
    e.store(&mut acc);
    assert_eq!(Escrow::from_account_info_readable(&acc, &program_id), e);
    assert_eq!(Escrow::from_account_info(&acc, &program_id), e);
    assert_eq!(acc.key, [9u8; 32]);
    assert_eq!(acc.lamports, 1_000);
}

#[test]
fn escrow_read_then_store_keeps_data() {
    let program_id = [7u8; 32];
    let data: Vec<u8> = (0..Escrow::LEN).map(|i| (i * 7 % 251) as u8).collect();
    let mut acc = account(program_id, data.clone());
    let mut e = Escrow::from_account_info(&acc, &program_id);
    assert_eq!(e.bump, data[104]);
    e.store(&mut acc);
    assert_eq!(acc.data, data);
    e.receive_amount_mint_b = 42;
    e.store(&mut acc);
    assert_eq!(Escrow::from_account_info_readable(&acc, &program_id).receive_amount_mint_b, 42);
}

#[test]
fn escrow_default_is_zeroed() {
    let e = Escrow::default();
    assert_eq!(e.to_bytes(), vec![0u8; Escrow::LEN]);
}
