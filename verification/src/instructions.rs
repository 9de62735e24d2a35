//! The instructions of the running transaction, as the host keeps them.
//!
//! A claim and the verification record that vouches for it travel in one
//! atomic unit. The host serializes the unit's instructions into one
//! account; this module asks the host's own library to read an instruction
//! back out of that account's bytes.

use vstd::prelude::*;
use crate::codec::SiblingRecord;
use crate::codec::SiblingRecordView;
use crate::keys::Pubkey;

verus! {

/// Position, within the atomic unit, at which the verification record of a
/// claim must sit.
pub const VERIFICATION_RECORD_INDEX: usize = 0;

/// The account in which the host keeps the serialized instructions of the
/// running transaction: its address and its bytes.
#[derive(Clone, Debug, PartialEq, Eq)]
pub struct InstructionsAccount {
    pub key: Pubkey,
    pub data: Vec<u8>,
}

/// An instructions account as a mathematical value.
pub struct InstructionsAccountView {
    pub key: Seq<u8>,
    pub data: Seq<u8>,
}

impl View for InstructionsAccount {
    type V = InstructionsAccountView;

    open spec fn view(&self) -> InstructionsAccountView {
        InstructionsAccountView { key: self.key@, data: self.data@ }
    }
}

/// The address of the instructions sysvar.
pub open spec fn instructions_sysvar_id() -> Seq<u8> {
    seq![
        6u8, 167, 213, 23, 24, 123, 209, 102,
        53, 218, 212, 4, 85, 253, 194, 192,
        193, 36, 198, 143, 33, 86, 117, 165,
        219, 186, 203, 95, 8, 0, 0, 0,
    ]
}

/// The producer and the bytes of the instruction that the host's library
/// reads at position `index` out of an account with address `key` and
/// contents `data`, if it reads one.
pub uninterp spec fn instruction_at(index: usize, key: Seq<u8>, data: Seq<u8>) -> Option<
    SiblingRecordView,
>;

/// The record at the position where a claim's verification record must sit.
pub open spec fn verification_record(account: InstructionsAccountView) -> Option<
    SiblingRecordView,
> {
    instruction_at(VERIFICATION_RECORD_INDEX, account.key, account.data)
}

/// The view of a record that was read, if one was.
pub open spec fn found_view(found: Option<SiblingRecord>) -> Option<SiblingRecordView> {
    match found {
        Some(record) => Some(record@),
        None => None,
    }
}

/// Calls `solana_program::sysvar::instructions::load_instruction_at_checked`
/// on an account made of the given address and a copy of the given bytes,
/// and keeps the instruction's program id and data. Trusted: what is read
/// depends on the index, the address and the bytes alone, and nothing is
/// read from an account whose address is not that of the instructions
/// sysvar.
#[verifier::external_body]
fn load_instruction_at(index: usize, account: &InstructionsAccount) -> (found: Option<SiblingRecord>)
    ensures
        found_view(found) == instruction_at(index, account.key@, account.data@),
        account.key@ != instructions_sysvar_id() ==> found is None,
{
    let key = solana_program::pubkey::Pubkey::new_from_array(account.key.bytes);
    let mut lamports: u64 = 0;
    let mut data = account.data.clone();
    let info = solana_program::account_info::AccountInfo::new(
        &key, false, false, &mut lamports, &mut data, &key, false,
    );
    match solana_program::sysvar::instructions::load_instruction_at_checked(index, &info) {
        Ok(ix) => Some(
            SiblingRecord { program_id: Pubkey { bytes: ix.program_id.to_bytes() }, data: ix.data },
        ),
        Err(_) => None,
    }
}

/// Reads the record at [`VERIFICATION_RECORD_INDEX`] out of the
/// instructions account. There is none when the account is not the
/// instructions sysvar, when the unit holds no instruction, or when the
/// account's bytes cannot be read.
pub fn load_verification_record(account: &InstructionsAccount) -> (found: Option<SiblingRecord>)
    ensures
        found_view(found) == verification_record(account@),
        account.key@ != instructions_sysvar_id() ==> found is None,
{
    load_instruction_at(VERIFICATION_RECORD_INDEX, account)
}

} // verus!
