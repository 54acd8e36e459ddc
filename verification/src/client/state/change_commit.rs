//! Building the instruction that replaces a record's condition.

use vstd::prelude::*;

use crate::account::{meta_view, AccountMeta, Instruction};
use crate::client::state::base::{Base, DataCommitType};
use crate::client::state::condition::CommitCondition;
use crate::client::state::constants::PROGRAM_ID;
use crate::client::state::error::CustomError;
use crate::program::state::config::push_all;
use crate::pubkey::Pubkey;

verus! {

/// The builder of a change of condition.
#[derive(Debug, Clone)]
pub struct ChangeCommit {
    pub base: Base,
    pub condition: CommitCondition,
}

impl Base {
    /// The record's address as the authorities reach it, or the refusal
    /// where an authority has no proxy or the record has no address.
    pub open spec fn spec_record_address(&self) -> Result<Seq<u8>, CustomError> {
        if !self.spec_proxies_exist() {
            Err(CustomError::InvalidSignerSeeds)
        } else {
            match self.spec_commit_account(self.spec_proxy_keys()) {
                None => Err(CustomError::InvalidConfiguration),
                Some((address, _)) => Ok(address),
            }
        }
    }

    /// The hash of the committed bytes that the state holds once the
    /// record's address was looked for: the computed one, unless an authority
    /// has no proxy.
    pub open spec fn spec_hash_after_address(&self) -> Seq<u8> {
        if self.spec_proxies_exist() {
            self.instruction_data_meta.spec_data_hash()
        } else {
            self.instruction_data_hash@
        }
    }

    /// Whether `other` holds what this state has derived so far, but for the
    /// hash of the committed bytes.
    pub open spec fn same_bumps(&self, other: &Base) -> bool {
        &&& self.signer_bumps == other.signer_bumps
        &&& self.commit_account_bump == other.commit_account_bump
    }

    /// Whether the first accounts of `accounts` are the authorities, in
    /// order, each a read-only signer.
    pub open spec fn spec_starts_with_signers(&self, accounts: Seq<AccountMeta>) -> bool {
        &&& accounts.len() >= self.signer_commit_account_keys@.len()
        &&& forall|i: int|
            0 <= i < self.signer_commit_account_keys@.len() ==> #[trigger] accounts[i]
                == (AccountMeta {
                pubkey: self.signer_commit_account_keys@[i],
                is_signer: true,
                is_writable: false,
            })
    }

    /// The authorities, each a read-only signer, and the record's address.
    pub fn signers_and_record(&mut self) -> (r: Result<(Vec<AccountMeta>, Pubkey), CustomError>)
        requires
            old(self).wf(),
        ensures
            final(self).same_inputs(old(self)),
            final(self).same_bumps(old(self)),
            final(self).instruction_data_hash@ == old(self).spec_hash_after_address(),
            match old(self).spec_record_address() {
                Err(e) => r matches Err(err) && err == e,
                Ok(address) => r matches Ok(found) && found.1@ == address && found.0@.len()
                    == old(self).signer_commit_account_keys@.len()
                    && old(self).spec_starts_with_signers(found.0@),
            },
    {
        let mut accounts: Vec<AccountMeta> = Vec::new();
        let (program_signers, _) = match self.find_proxies() {
            Ok(found) => found,
            Err(e) => {
                return Err(e);
            },
        };
        let mut i: usize = 0;
        while i < self.signer_commit_account_keys.len()
            invariant
                i <= self.signer_commit_account_keys@.len(),
                accounts@.len() == i,
                forall|j: int|
                    0 <= j < i ==> #[trigger] accounts@[j] == (AccountMeta {
                        pubkey: self.signer_commit_account_keys@[j],
                        is_signer: true,
                        is_writable: false,
                    }),
            decreases self.signer_commit_account_keys@.len() - i,
        {
            accounts.push(AccountMeta::new_readonly(self.signer_commit_account_keys[i], true));
            i += 1;
        }
        let ghost before = *self;
        let ghost proxies = old(self).spec_proxy_keys();
        let (commit_account_key, _) = match self.get_commit_account(program_signers) {
            Ok(found) => found,
            Err(e) => {
                proof {
                    assert(before.spec_search_seeds(proxies) == old(self).spec_search_seeds(
                        proxies,
                    ));
                }
                return Err(e);
            },
        };
        proof {
            assert(before.spec_search_seeds(proxies) == old(self).spec_search_seeds(proxies));
        }
        Ok((accounts, commit_account_key))
    }
}

impl ChangeCommit {
    /// Checks the counts and the positions as `Base::new` does.
    pub fn new(
        program_id: Pubkey,
        signer_commit_account_keys: Vec<Pubkey>,
        non_signer_commit_account_keys: Vec<Pubkey>,
        total_accounts_count: u8,
        acct_indices: Vec<u8>,
        instruction_data_meta: DataCommitType,
        condition: CommitCondition,
    ) -> (r: Result<Self, CustomError>)
        ensures
            match Base::spec_new_checks(
                signer_commit_account_keys@.len() as int,
                non_signer_commit_account_keys@.len() as int,
                total_accounts_count,
                acct_indices@,
            ) {
                Err(e) => r matches Err(err) && err == e,
                Ok(()) => r matches Ok(change) && change.condition == condition
                    && change.base.wf() && change.base.program_id == program_id
                    && change.base.signer_commit_account_keys == signer_commit_account_keys
                    && change.base.non_signer_commit_account_keys
                    == non_signer_commit_account_keys && change.base.starter_account_key is None
                    && change.base.total_accounts_count == total_accounts_count
                    && change.base.acct_indices == acct_indices
                    && change.base.instruction_data_meta == instruction_data_meta,
            },
    {
        let base = match Base::new(
            program_id,
            signer_commit_account_keys,
            non_signer_commit_account_keys,
            None,
            total_accounts_count,
            acct_indices,
            instruction_data_meta,
        ) {
            Ok(base) => base,
            Err(e) => {
                return Err(e);
            },
        };
        Ok(Self { base, condition })
    }

    /// Builds the instruction that replaces the record's condition:
    /// addressed to the program, naming the authorities as read-only signers
    /// and then the record's account, writable, and carrying the packed new
    /// condition followed by the tag of the operation.
    pub fn make_instruction(base: &mut Base, condition: &mut CommitCondition) -> (r: Result<
        Instruction,
        CustomError,
    >)
        requires
            old(base).wf(),
        ensures
            final(base).same_inputs(old(base)),
            final(base).same_bumps(old(base)),
            final(base).instruction_data_hash@ == old(base).spec_hash_after_address(),
            *final(condition) == *old(condition),
            match old(base).spec_record_address() {
                Err(e) => r matches Err(err) && err == e,
                Ok(address) => r matches Ok(instruction) && instruction.program_id == PROGRAM_ID
                    && instruction.accounts@.len() == old(base).signer_commit_account_keys@.len()
                    + 1 && old(base).spec_starts_with_signers(instruction.accounts@) && meta_view(
                    instruction.accounts@[instruction.accounts@.len() - 1],
                ) == (address, false, true) && instruction.data@ == old(condition).spec_bytes()
                    + seq![2u8],
            },
    {
        let (mut accounts, commit_account_key) = match base.signers_and_record() {
            Ok(found) => found,
            Err(e) => {
                return Err(e);
            },
        };
        accounts.push(AccountMeta::new(commit_account_key, false));
        let mut data: Vec<u8> = Vec::new();
        let bytes = condition.to_expected_bytes();
        push_all(&mut data, bytes.as_slice());
        data.push(2);
        Ok(Instruction { program_id: PROGRAM_ID, accounts, data })
    }

    /// Builds the instruction that replaces the record's condition.
    pub fn to_instruction(&mut self) -> (r: Result<Instruction, CustomError>)
        requires
            old(self).base.wf(),
        ensures
            final(self).base.same_inputs(&old(self).base),
            final(self).base.same_bumps(&old(self).base),
            final(self).base.instruction_data_hash@ == old(self).base.spec_hash_after_address(),
            final(self).condition == old(self).condition,
            match old(self).base.spec_record_address() {
                Err(e) => r matches Err(err) && err == e,
                Ok(address) => r matches Ok(instruction) && instruction.program_id == PROGRAM_ID
                    && instruction.accounts@.len()
                    == old(self).base.signer_commit_account_keys@.len() + 1
                    && old(self).base.spec_starts_with_signers(instruction.accounts@)
                    && meta_view(instruction.accounts@[instruction.accounts@.len() - 1]) == (
                    address,
                    false,
                    true,
                ) && instruction.data@ == old(self).condition.spec_bytes() + seq![2u8],
            },
    {
        ChangeCommit::make_instruction(&mut self.base, &mut self.condition)
    }
}

} // verus!
