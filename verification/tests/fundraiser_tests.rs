use escrow::account::AccountInfo;
use escrow::error::ProgramError;
use escrow::fundraiser::{process_instruction, IxHandler, FUNDRAISER_ACCOUNT, FUNDRAISER_LEN, ID};
use escrow::steps::Step;

fn account() -> AccountInfo {
    AccountInfo {
        key: [1u8; 32],
        owner: [0u8; 32],
        lamports: 0,
        data: vec![0u8; 4],
        is_signer: true,
        is_writable: true,
        executable: false,
    }
}

fn init_data() -> Vec<u8> {
    let mut d = vec![0u8];
    d.extend_from_slice(&[1, 2, 3, 4, 5, 6, 7, 8, 9, 10, 11, 12, 13, 14, 15, 16]);
    d
}

fn returned(s: Step) -> Result<(), ProgramError> {
    match s {
        Step::Return(r) => r,
        _ => panic!("expected the entrypoint to return"),
    }
}

#[test]
fn fundraiser_id_decodes_declared_string() {
    assert_eq!(ID, pinocchio_pubkey::from_str("27abzM8KfWuiYyiy6T3Dv1EeJWSPuBK7DDjtBQoapEfP"));
}

#[test]
fn fundraiser_initialize_creates_then_writes() {
    let s = process_instruction(&[2u8; 32], &[account()], &init_data());
    let next = match s {
        Step::MinimumBalance { space, next } => {
            assert_eq!(space, FUNDRAISER_LEN);
            assert_eq!(space, 4);
            next
        }
        _ => panic!("expected a rent lookup"),
    };
    match next.resume(Ok(900_000)) {
        Step::Invoke { call, next } => {
            assert_eq!(call.from, FUNDRAISER_ACCOUNT);
            assert_eq!(call.to, FUNDRAISER_ACCOUNT);
            assert_eq!(call.lamports, 900_000);
            assert_eq!(call.space, 4);
            assert_eq!(call.owner, ID);
            assert_eq!(call.seeds, vec![b"fundraiser".to_vec(), vec![1u8; 32], vec![0u8]]);
            match next.resume(Ok(())) {
                Step::Write { account, data } => {
                    assert_eq!(account, 0);
                    assert_eq!(data, vec![0u8, 3, 5, 5]);
                }
                _ => panic!("expected the account data to be written"),
            }
        }
        _ => panic!("expected a create-account call"),
    }
}

#[test]
fn fundraiser_rent_error_is_passed_on() {
    match process_instruction(&[2u8; 32], &[account()], &init_data()) {
        Step::MinimumBalance { next, .. } => {
            assert_eq!(returned(next.resume(Err(ProgramError::UnsupportedSysvar))), Err(ProgramError::UnsupportedSysvar));
        }
        _ => panic!("expected a rent lookup"),
    }
}

#[test]
fn fundraiser_call_error_is_passed_on() {
    match process_instruction(&[2u8; 32], &[account()], &init_data()) {
        Step::MinimumBalance { next, .. } => match next.resume(Ok(1)) {
            Step::Invoke { next, .. } => {
                assert_eq!(returned(next.resume(Err(ProgramError::Custom(0)))), Err(ProgramError::Custom(0)));
            }
            _ => panic!("expected a create-account call"),
        },
        _ => panic!("expected a rent lookup"),
    }
}

#[test]
fn fundraiser_empty_data_is_invalid() {
    assert_eq!(returned(process_instruction(&[2u8; 32], &[account()], &[])), Err(ProgramError::InvalidInstructionData));
}

#[test]
fn fundraiser_unknown_instruction_is_invalid() {
    let mut d = init_data();
    d[0] = 1;
    assert_eq!(returned(process_instruction(&[2u8; 32], &[account()], &d)), Err(ProgramError::InvalidInstructionData));
}

#[test]
fn fundraiser_needs_exactly_one_account() {
    assert_eq!(returned(process_instruction(&[2u8; 32], &[], &init_data())), Err(ProgramError::InvalidInstructionData));
    assert_eq!(
        returned(process_instruction(&[2u8; 32], &[account(), account()], &init_data())),
        Err(ProgramError::InvalidInstructionData)
    );
}

#[test]
fn fundraiser_short_arguments_are_invalid() {
    let d = init_data();
    assert_eq!(returned(process_instruction(&[2u8; 32], &[account()], &d[..16])), Err(ProgramError::InvalidInstructionData));
}

#[test]
fn ix_handler_len_and_round_trip() {
    assert_eq!(IxHandler::LEN, 16);
    let bytes: Vec<u8> = (100..116).collect();
    let h = IxHandler::from_bytes(&bytes).unwrap();
    assert_eq!(h.to_bytes(), bytes);
    assert_eq!(IxHandler::from_bytes(&bytes[..15]), None);
    assert_eq!(IxHandler::from_bytes(&[0u8; 17]), None);
}
