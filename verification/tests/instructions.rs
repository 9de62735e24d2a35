use fight_tickets::codec::SiblingRecord;
use fight_tickets::instructions::load_verification_record;
use fight_tickets::instructions::InstructionsAccount;
use fight_tickets::instructions::VERIFICATION_RECORD_INDEX;
use fight_tickets::keys::Pubkey;
use solana_program::sysvar::instructions::construct_instructions_data;
use solana_program::sysvar::instructions::BorrowedAccountMeta;
use solana_program::sysvar::instructions::BorrowedInstruction;

const INSTRUCTIONS_SYSVAR: [u8; 32] = [
    6, 167, 213, 23, 24, 123, 209, 102, 53, 218, 212, 4, 85, 253, 194, 192, 193, 36, 198, 143,
    33, 86, 117, 165, 219, 186, 203, 95, 8, 0, 0, 0,
];

fn sysvar(data: Vec<u8>) -> InstructionsAccount {
    InstructionsAccount { key: Pubkey::new(INSTRUCTIONS_SYSVAR), data }
}

#[test]
fn the_sysvar_address_is_the_hosts() {
    assert_eq!(INSTRUCTIONS_SYSVAR, solana_program::sysvar::instructions::ID.to_bytes());
    assert_eq!(VERIFICATION_RECORD_INDEX, 0);
}

#[test]
fn the_first_instruction_is_read() {
    let first = solana_program::pubkey::Pubkey::new_from_array([1u8; 32]);
    let second = solana_program::pubkey::Pubkey::new_from_array([2u8; 32]);
    let payer = solana_program::pubkey::Pubkey::new_from_array([3u8; 32]);
    let data = construct_instructions_data(&[
        BorrowedInstruction {
            program_id: &first,
            accounts: vec![BorrowedAccountMeta { pubkey: &payer, is_signer: true, is_writable: true }],
            data: &[10, 20, 30],
        },
        BorrowedInstruction { program_id: &second, accounts: vec![], data: &[40] },
    ])
    .unwrap();
    assert_eq!(
        load_verification_record(&sysvar(data)),
        Some(SiblingRecord { program_id: Pubkey::new([1u8; 32]), data: vec![10, 20, 30] })
    );
}

#[test]
fn an_instruction_without_data_is_read() {
    let program = solana_program::pubkey::Pubkey::new_from_array([1u8; 32]);
    let data = construct_instructions_data(&[BorrowedInstruction {
        program_id: &program,
        accounts: vec![],
        data: &[],
    }])
    .unwrap();
    assert_eq!(
        load_verification_record(&sysvar(data)),
        Some(SiblingRecord { program_id: Pubkey::new([1u8; 32]), data: vec![] })
    );
}

#[test]
fn an_empty_unit_holds_no_record() {
    let data = construct_instructions_data(&[]).unwrap();
    assert_eq!(load_verification_record(&sysvar(data)), None);
}

#[test]
fn another_account_holds_no_record() {
    let program = solana_program::pubkey::Pubkey::new_from_array([1u8; 32]);
    let data = construct_instructions_data(&[BorrowedInstruction {
        program_id: &program,
        accounts: vec![],
        data: &[10, 20, 30],
    }])
    .unwrap();
    assert!(load_verification_record(&sysvar(data.clone())).is_some());
    let mut almost = INSTRUCTIONS_SYSVAR;
    almost[0] ^= 1;
    for key in [[0u8; 32], [1u8; 32], almost] {
        let account = InstructionsAccount { key: Pubkey::new(key), data: data.clone() };
        assert_eq!(load_verification_record(&account), None);
    }
}

#[test]
fn unreadable_bytes_hold_no_record() {
    assert_eq!(load_verification_record(&sysvar(vec![])), None);
    assert_eq!(load_verification_record(&sysvar(vec![1])), None);
    assert_eq!(load_verification_record(&sysvar(vec![1, 0])), None);
    assert_eq!(load_verification_record(&sysvar(vec![1, 0, 4, 0])), None);
    assert_eq!(load_verification_record(&sysvar(vec![1, 0, 255, 255, 0, 0])), None);
    assert_eq!(load_verification_record(&sysvar(vec![0xff; 64])), None);
    let program = solana_program::pubkey::Pubkey::new_from_array([1u8; 32]);
    let whole = construct_instructions_data(&[BorrowedInstruction {
        program_id: &program,
        accounts: vec![],
        data: &[10, 20, 30],
    }])
    .unwrap();
    for cut in 0..whole.len() - 2 {
        let found = load_verification_record(&sysvar(whole[..cut].to_vec()));
        assert_eq!(found, None, "cut at {cut}");
    }
}
