//! Building the instruction that closes a record.

use vstd::prelude::*;

use crate::account::{meta_view, AccountMeta, Instruction};
use crate::client::state::base::{Base, DataCommitType};
use crate::client::state::constants::PROGRAM_ID;
use crate::client::state::error::CustomError;
use crate::pubkey::Pubkey;

verus! {

/// The builder of a closing.
#[derive(Debug, Clone)]
pub struct CloseCommit {
    pub base: Base,
    /// Who receives the balance of the record's account.
    pub recipient_account: Pubkey,
}

impl CloseCommit {
    /// Checks the counts and the positions as `Base::new` does.
    pub fn new(
        program_id: Pubkey,
        signer_commit_account_keys: Vec<Pubkey>,
        non_signer_commit_account_keys: Vec<Pubkey>,
        recipient_account: Pubkey,
        total_accounts_count: u8,
        acct_indices: Vec<u8>,
        instruction_data_meta: DataCommitType,
    ) -> (r: Result<Self, CustomError>)
        ensures
            match Base::spec_new_checks(
                signer_commit_account_keys@.len() as int,
                non_signer_commit_account_keys@.len() as int,
                total_accounts_count,
                acct_indices@,
            ) {
                Err(e) => r matches Err(err) && err == e,
                Ok(()) => r matches Ok(close) && close.recipient_account == recipient_account
                    && close.base.wf() && close.base.program_id == program_id
                    && close.base.signer_commit_account_keys == signer_commit_account_keys
                    && close.base.non_signer_commit_account_keys
                    == non_signer_commit_account_keys && close.base.starter_account_key is None
                    && close.base.total_accounts_count == total_accounts_count
                    && close.base.acct_indices == acct_indices
                    && close.base.instruction_data_meta == instruction_data_meta,
            },
    {
        let base = match Base::new(
            program_id,
            signer_commit_account_keys,
            non_signer_commit_account_keys,
            None,
            total_accounts_count,
            acct_indices,
            instruction_data_meta,
        ) {
            Ok(base) => base,
            Err(e) => {
                return Err(e);
            },
        };
        Ok(Self { base, recipient_account })
    }

    /// Builds the instruction that closes the record: addressed to the
    /// program, naming the authorities as read-only signers, then the
    /// recipient and the record's account, both writable, and carrying the
    /// tag of the operation alone.
    #[inline(always)]
    pub fn make_instruction(base: &mut Base, recipient_account: Pubkey) -> (r: Result<
        Instruction,
        CustomError,
    >)
        requires
            old(base).wf(),
        ensures
            final(base).same_inputs(old(base)),
            final(base).same_bumps(old(base)),
            final(base).instruction_data_hash@ == old(base).spec_hash_after_address(),
            match old(base).spec_record_address() {
                Err(e) => r matches Err(err) && err == e,
                Ok(address) => r matches Ok(instruction) && instruction.program_id == PROGRAM_ID
                    && instruction.accounts@.len() == old(base).signer_commit_account_keys@.len()
                    + 2 && old(base).spec_starts_with_signers(instruction.accounts@)
                    && instruction.accounts@[instruction.accounts@.len() - 2] == (AccountMeta {
                    pubkey: recipient_account,
                    is_signer: false,
                    is_writable: true,
                }) && meta_view(instruction.accounts@[instruction.accounts@.len() - 1]) == (
                    address,
                    false,
                    true,
                ) && instruction.data@ == seq![6u8],
            },
    {
        let (mut accounts, commit_account_key) = match base.signers_and_record() {
            Ok(found) => found,
            Err(e) => {
                return Err(e);
            },
        };
        accounts.push(AccountMeta::new(recipient_account, false));
        accounts.push(AccountMeta::new(commit_account_key, false));
        let mut data: Vec<u8> = Vec::new();
        data.push(6);
        assert(data@ =~= seq![6u8]);
        Ok(Instruction { program_id: PROGRAM_ID, accounts, data })
    }

    /// Builds the instruction that closes the record.
    #[inline(always)]
    pub fn to_instruction(&mut self) -> (r: Result<Instruction, CustomError>)
        requires
            old(self).base.wf(),
        ensures
            final(self).base.same_inputs(&old(self).base),
            final(self).base.same_bumps(&old(self).base),
            final(self).base.instruction_data_hash@ == old(self).base.spec_hash_after_address(),
            final(self).recipient_account == old(self).recipient_account,
            match old(self).base.spec_record_address() {
                Err(e) => r matches Err(err) && err == e,
                Ok(address) => r matches Ok(instruction) && instruction.program_id == PROGRAM_ID
                    && instruction.accounts@.len()
                    == old(self).base.signer_commit_account_keys@.len() + 2
                    && old(self).base.spec_starts_with_signers(instruction.accounts@)
                    && instruction.accounts@[instruction.accounts@.len() - 2] == (AccountMeta {
                    pubkey: old(self).recipient_account,
                    is_signer: false,
                    is_writable: true,
                }) && meta_view(instruction.accounts@[instruction.accounts@.len() - 1]) == (
                    address,
                    false,
                    true,
                ) && instruction.data@ == seq![6u8],
            },
    {
        CloseCommit::make_instruction(&mut self.base, self.recipient_account)
    }
}

} // verus!
