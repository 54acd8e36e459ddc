//! The on-ledger side: record layout, condition engine and instruction
//! handlers, and the dispatch among them.

use vstd::prelude::*;
use vstd::std_specs::convert::TryFromSpecImpl;

use crate::account::AccountInfo;
use crate::codec::u64_from_le;
use crate::program::handlers::change_commit_condition::{
    spec_change_checks, spec_changed_record, ChangeCommit,
};
use crate::program::handlers::close_commit::{
    spec_close_checks, spec_sweep, ClosedCommit, CloseCommit,
};
use crate::program::constants::ID;
use crate::program::handlers::create_commit::{
    account_keys, spec_create, CreateCommit, CreatedCommit,
};
use crate::program::handlers::entry::{spec_entry, Entry, Invocation};
use crate::program::handlers::withdraw_native::{
    spec_withdraw_native_checks, NativeTransfer, WithdrawNative,
};
use crate::program::handlers::withdraw_token::{
    spec_withdraw_token_checks, TokenTransfer, WithdrawToken,
};
use crate::program::helpers::utils::sha256;
use crate::program::state::config::Config;
use crate::program::state::error::ProgramError;
use crate::pubkey::Pubkey;

pub mod constants;
pub mod handlers;
pub mod helpers;
pub mod state;

verus! {

/// The operations, each selected by the last byte of an instruction's data.
#[derive(Debug, Clone, Copy, PartialEq, Eq, Structural)]
pub enum InstructionTag {
    Entry,
    CreateCommit,
    ChangeCommit,
    CreatePda,
    WithdrawNative,
    WithdrawToken,
    CloseCommit,
}

/// The operation that a tag byte selects, if it selects one.
pub open spec fn instruction_tag_of(tag: u8) -> Result<InstructionTag, ProgramError> {
    if tag == 0 {
        Ok(InstructionTag::Entry)
    } else if tag == 1 {
        Ok(InstructionTag::CreateCommit)
    } else if tag == 2 {
        Ok(InstructionTag::ChangeCommit)
    } else if tag == 3 {
        Ok(InstructionTag::CreatePda)
    } else if tag == 4 {
        Ok(InstructionTag::WithdrawNative)
    } else if tag == 5 {
        Ok(InstructionTag::WithdrawToken)
    } else if tag == 6 {
        Ok(InstructionTag::CloseCommit)
    } else {
        Err(ProgramError::InvalidInstructionData)
    }
}

impl TryFrom<u8> for InstructionTag {
    type Error = ProgramError;

    fn try_from(tag: u8) -> (r: Result<Self, ProgramError>) {
        match tag {
            0 => Ok(InstructionTag::Entry),
            1 => Ok(InstructionTag::CreateCommit),
            2 => Ok(InstructionTag::ChangeCommit),
            3 => Ok(InstructionTag::CreatePda),
            4 => Ok(InstructionTag::WithdrawNative),
            5 => Ok(InstructionTag::WithdrawToken),
            6 => Ok(InstructionTag::CloseCommit),
            _ => Err(ProgramError::InvalidInstructionData),
        }
    }
}

impl TryFromSpecImpl<u8> for InstructionTag {
    open spec fn obeys_try_from_spec() -> bool {
        true
    }

    open spec fn try_from_spec(tag: u8) -> Result<Self, ProgramError> {
        instruction_tag_of(tag)
    }
}

/// What an instruction that passed every check leaves to be done on the
/// ledger. Nothing of it has happened yet; a refused instruction leaves
/// nothing to be done.
#[derive(Debug)]
pub enum Outcome<'a> {
    /// Store `record` in the record's account, then hand on `invocation`.
    Entry { invocation: Invocation<'a>, record: Config },
    /// Allocate the record's account and store the record.
    CreateCommit(CreatedCommit),
    /// Store the record in the record's account.
    ChangeCommit(Config),
    /// Nothing.
    CreatePda,
    /// Transfer a native balance.
    WithdrawNative(NativeTransfer),
    /// Transfer tokens.
    WithdrawToken(TokenTransfer),
    /// Sweep the record's balance and release its account.
    CloseCommit(ClosedCommit),
}

/// Selects the operation by the last byte of `instruction_data` and runs it
/// on the accounts and on the bytes before the tag, `now` being the ledger's
/// time. Data without a tag, or with a tag that selects nothing, is refused.
/// Nothing is changed: what the operation leaves to be done is returned.
pub fn process_instruction<'a>(
    _program_id: &Pubkey,
    accounts: &'a [AccountInfo],
    instruction_data: &'a [u8],
    now: i64,
) -> (r: Result<Outcome<'a>, ProgramError>)
    ensures
        instruction_data@.len() == 0 ==> (r matches Err(e) && e
            == ProgramError::InvalidInstructionData),
        instruction_data@.len() > 0 ==> ({
            let data = instruction_data@.subrange(0, instruction_data@.len() - 1);
            match instruction_tag_of(instruction_data@[instruction_data@.len() - 1]) {
                Err(e) => r matches Err(err) && err == e,
                Ok(InstructionTag::Entry) => match spec_entry(accounts@, data, now) {
                    Err(e) => r matches Err(err) && err == e,
                    Ok((made, stored)) => r matches Ok(Outcome::Entry { invocation, record })
                        && invocation@ == made && record@ == stored,
                },
                Ok(InstructionTag::CreateCommit) => match spec_create(accounts@, data) {
                    Err(e) => r matches Err(err) && err == e,
                    Ok((bump, stored)) => r matches Ok(Outcome::CreateCommit(created))
                        && created.commit_bump == bump && created.config@ == stored
                        && created.space == Config::LEN && created.owner == ID
                        && created.commit_accounts_hash@ == sha256(
                        account_keys(accounts@.subrange(0, stored.base.account_count as int)),
                    ),
                },
                Ok(InstructionTag::ChangeCommit) => match spec_change_checks(accounts@, data) {
                    Err(e) => r matches Err(err) && err == e,
                    Ok(()) => r matches Ok(Outcome::ChangeCommit(record)) && record@
                        == spec_changed_record(accounts@, data),
                },
                Ok(InstructionTag::CreatePda) => r matches Ok(Outcome::CreatePda),
                Ok(InstructionTag::WithdrawNative) => match spec_withdraw_native_checks(
                    accounts@,
                    data,
                ) {
                    Err(e) => r matches Err(err) && err == e,
                    Ok(()) => r matches Ok(Outcome::WithdrawNative(transfer)) && transfer.from
                        == accounts@[1].key && transfer.to == accounts@[0].key
                        && transfer.lamports == u64_from_le(data.subrange(0, 8))
                        && transfer.signer.signer_key == accounts@[0].key && transfer.signer.bump
                        == data[data.len() - 1],
                },
                Ok(InstructionTag::WithdrawToken) => match spec_withdraw_token_checks(
                    accounts@,
                    data,
                ) {
                    Err(e) => r matches Err(err) && err == e,
                    Ok(()) => r matches Ok(Outcome::WithdrawToken(transfer)) && transfer.from
                        == accounts@[3].key && transfer.mint == accounts@[2].key && transfer.to
                        == accounts@[4].key && transfer.authority == accounts@[1].key
                        && transfer.amount == u64_from_le(data.subrange(0, 8))
                        && transfer.decimals == data[8] && transfer.signer.signer_key
                        == accounts@[0].key && transfer.signer.bump == data[9],
                },
                Ok(InstructionTag::CloseCommit) => match spec_close_checks(accounts@) {
                    Err(e) => r matches Err(err) && err == e,
                    Ok(()) => match spec_sweep(
                        accounts@[accounts@.len() - 2].lamports,
                        accounts@[accounts@.len() - 1].lamports,
                    ) {
                        Err(e) => r matches Err(err) && err == e,
                        Ok(swept) => r matches Ok(Outcome::CloseCommit(closed)) && closed == swept,
                    },
                },
            }
        }),
{
    if instruction_data.len() == 0 {
        return Err(ProgramError::InvalidInstructionData);
    }
    let tag = instruction_data[instruction_data.len() - 1];
    let data = vstd::slice::slice_subrange(instruction_data, 0, instruction_data.len() - 1);
    let tag = match InstructionTag::try_from(tag) {
        Ok(tag) => tag,
        Err(e) => {
            return Err(e);
        },
    };
    match tag {
        InstructionTag::Entry => {
            let entry = match Entry::try_from((accounts, data), now) {
                Ok(entry) => entry,
                Err(e) => {
                    return Err(e);
                },
            };
            match entry.process() {
                Ok(invocation) => Ok(Outcome::Entry { invocation, record: entry.config_data }),
                Err(e) => Err(e),
            }
        },
        InstructionTag::CreateCommit => {
            let create_commit = match CreateCommit::try_from((accounts, data)) {
                Ok(create) => create,
                Err(e) => {
                    return Err(e);
                },
            };
            match create_commit.process() {
                Ok(created) => Ok(Outcome::CreateCommit(created)),
                Err(e) => Err(e),
            }
        },
        InstructionTag::ChangeCommit => {
            let mut change_commit = match ChangeCommit::try_from((accounts, data)) {
                Ok(change) => change,
                Err(e) => {
                    return Err(e);
                },
            };
            match change_commit.process() {
                Ok(()) => Ok(Outcome::ChangeCommit(change_commit.config_data)),
                Err(e) => Err(e),
            }
        },
        InstructionTag::CreatePda => Ok(Outcome::CreatePda),
        InstructionTag::WithdrawNative => {
            let withdraw_native = match WithdrawNative::try_from((accounts, data)) {
                Ok(withdraw) => withdraw,
                Err(e) => {
                    return Err(e);
                },
            };
            match withdraw_native.process() {
                Ok(transfer) => Ok(Outcome::WithdrawNative(transfer)),
                Err(e) => Err(e),
            }
        },
        InstructionTag::WithdrawToken => {
            let withdraw_token = match WithdrawToken::try_from((accounts, data)) {
                Ok(withdraw) => withdraw,
                Err(e) => {
                    return Err(e);
                },
            };
            match withdraw_token.process() {
                Ok(transfer) => Ok(Outcome::WithdrawToken(transfer)),
                Err(e) => Err(e),
            }
        },
        InstructionTag::CloseCommit => {
            let close_commit = match CloseCommit::try_from(accounts) {
                Ok(close) => close,
                Err(e) => {
                    return Err(e);
                },
            };
            match close_commit.process() {
                Ok(closed) => Ok(Outcome::CloseCommit(closed)),
                Err(e) => Err(e),
            }
        },
    }
}

} // verus!
