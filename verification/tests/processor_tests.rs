use escrow::account::AccountInfo;
use escrow::error::ProgramError;
use escrow::instructions::{process_make_instruction, ESCROW_INDEX, MAKER_INDEX, MAKE_ACCOUNTS};
use escrow::steps::Step;
use escrow::processor::process_instruction;
use escrow::state::Escrow;

fn accounts(n: usize) -> Vec<AccountInfo> {
    (0..n)
        .map(|i| AccountInfo {
            key: [i as u8; 32],
            owner: [0u8; 32],
            lamports: 0,
            data: Vec::new(),
            is_signer: i == 0,
            is_writable: true,
            executable: false,
        })
        .collect()
}

const PROGRAM: [u8; 32] = [0xEE; 32];

fn returned(s: Step) -> Result<(), ProgramError> {
    match s {
        Step::Return(r) => r,
        _ => panic!("expected the entrypoint to return"),
    }
}

#[test]
fn entrypoint_refuses_empty_data() {
    assert_eq!(returned(process_instruction(&PROGRAM, &accounts(9), &[])), Err(ProgramError::InvalidInstructionData));
}

#[test]
fn entrypoint_accepts_unknown_instruction() {
    assert_eq!(returned(process_instruction(&PROGRAM, &accounts(9), &[7, 1, 2])), Ok(()));
}

#[test]
fn entrypoint_drops_make_account_error() {
    assert_eq!(returned(process_instruction(&PROGRAM, &accounts(3), &[0])), Ok(()));
}

#[test]
fn entrypoint_make_runs_and_drops_errors() {
    let s = process_instruction(&PROGRAM, &accounts(9), &[0, 1, 2, 3]);
    let next = match s {
        Step::MinimumBalance { space, next } => {
            assert_eq!(space, Escrow::LEN);
            next
        }
        _ => panic!("expected a rent lookup"),
    };
    match next.resume(Ok(2_000)) {
        Step::Invoke { call, next } => {
            assert_eq!(call.lamports, 2_000);
            assert_eq!(returned(next.resume(Err(ProgramError::InsufficientFunds))), Ok(()));
        }
        _ => panic!("expected a create-account call"),
    }
}

#[test]
fn make_requires_nine_accounts() {
    assert_eq!(MAKE_ACCOUNTS, 9);
    assert_eq!(returned(process_make_instruction(&PROGRAM, &accounts(8), &[])), Err(ProgramError::NotEnoughAccountKeys));
    assert_eq!(returned(process_make_instruction(&PROGRAM, &accounts(10), &[])), Err(ProgramError::NotEnoughAccountKeys));
}

#[test]
fn make_creates_escrow_account() {
    let s = process_make_instruction(&PROGRAM, &accounts(9), &[]);
    let next = match s {
        Step::MinimumBalance { space, next } => {
            assert_eq!(space, 105);
            next
        }
        _ => panic!("expected a rent lookup"),
    };
    match next.resume(Ok(1_621_680)) {
        Step::Invoke { call, next } => {
            assert_eq!(call.from, MAKER_INDEX);
            assert_eq!(call.to, ESCROW_INDEX);
            assert_eq!(call.from, 0);
            assert_eq!(call.to, 1);
            assert_eq!(call.lamports, 1_621_680);
            assert_eq!(call.space, 105);
            assert_eq!(call.owner, PROGRAM);
            assert!(call.seeds.is_empty());
            assert_eq!(returned(next.resume(Err(ProgramError::Custom(3)))), Err(ProgramError::Custom(3)));
        }
        _ => panic!("expected a create-account call"),
    }
}

#[test]
fn make_passes_on_rent_error() {
    let s = process_make_instruction(&PROGRAM, &accounts(9), &[]);
    match s {
        Step::MinimumBalance { next, .. } => {
            assert_eq!(returned(next.resume(Err(ProgramError::UnsupportedSysvar))), Err(ProgramError::UnsupportedSysvar));
        }
        _ => panic!("expected a rent lookup"),
    }
}

#[test]
fn make_succeeds_when_create_succeeds() {
    match process_make_instruction(&PROGRAM, &accounts(9), &[]) {
        Step::MinimumBalance { next, .. } => match next.resume(Ok(1)) {
            Step::Invoke { next, .. } => assert_eq!(returned(next.resume(Ok(()))), Ok(())),
            _ => panic!("expected a create-account call"),
        },
        _ => panic!("expected a rent lookup"),
    }
}
