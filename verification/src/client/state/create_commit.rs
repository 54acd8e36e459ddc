//! Building the instruction that creates a record.

use vstd::prelude::*;

use crate::account::Instruction;
use crate::client::state::base::{Base, DataCommitType};
use crate::client::state::condition::{CommitCondition, RawCommitCondition};
use crate::client::state::constants::{CONFIG_MAX_ACCOUNTS, CONFIG_MAX_SIGNERS, PROGRAM_ID};
use crate::client::state::error::CustomError;
use crate::codec::{i16_bits, i16_to_le_bytes, lemma_u16_round_trip, u16_to_le_bytes};
use crate::program::state::condition::CommitCondition as StoredCondition;
use crate::program::state::config::{ConfigBase, ConfigBaseView, DataCommitType as StoredType};
use crate::pubkey::Pubkey;

verus! {

/// The committed fields in the form in which a creation carries them: field
/// after field, numbers little-endian, nothing in between.
#[derive(Debug, Clone, Copy)]
pub struct RawConfigBase {
    pub account_count: [u8; 1],
    pub account_indices: [u8; CONFIG_MAX_ACCOUNTS],
    pub signer_count: [u8; 1],
    pub signer_bumps: [u8; CONFIG_MAX_SIGNERS],
    pub instruction_data_commit_type: [u8; 1],
    pub instruction_data_length: [u8; 2],
    pub instruction_data_offset: [u8; 2],
    pub instruction_data_hash: [u8; 32],
    pub commit_bump: [u8; 1],
    pub condition: RawCommitCondition,
}

impl View for RawConfigBase {
    type V = ConfigBaseView;

    open spec fn view(&self) -> ConfigBaseView {
        self.spec_stored()@
    }
}

impl RawConfigBase {
    /// Packed size.
    pub const LEN: usize = 73;

    /// The same fields as the program stores them.
    pub open spec fn spec_stored(&self) -> ConfigBase {
        ConfigBase {
            account_count: self.account_count,
            account_indices: self.account_indices,
            signer_count: self.signer_count,
            signer_bumps: self.signer_bumps,
            instruction_data_commit_type: StoredType {
                commit_type: self.instruction_data_commit_type,
            },
            instruction_data_length: self.instruction_data_length,
            instruction_data_offset: self.instruction_data_offset,
            instruction_data_hash: self.instruction_data_hash,
            commit_bump: self.commit_bump,
            condition: StoredCondition { tag: self.condition.tag, data: self.condition.data },
        }
    }

    /// The packed form.
    pub fn to_bytes(&self) -> (r: Vec<u8>)
        ensures
            r@ == self@.encode(),
            r@.len() == Self::LEN,
    {
        let stored = ConfigBase {
            account_count: self.account_count,
            account_indices: self.account_indices,
            signer_count: self.signer_count,
            signer_bumps: self.signer_bumps,
            instruction_data_commit_type: StoredType {
                commit_type: self.instruction_data_commit_type,
            },
            instruction_data_length: self.instruction_data_length,
            instruction_data_offset: self.instruction_data_offset,
            instruction_data_hash: self.instruction_data_hash,
            commit_bump: self.commit_bump,
            condition: StoredCondition { tag: self.condition.tag, data: self.condition.data },
        };
        stored.to_bytes()
    }
}

/// The builder of a creation.
#[derive(Debug, Clone)]
pub struct CreateCommit {
    pub base: Base,
    pub condition: CommitCondition,
}

impl Base {
    /// The committed fields that a creation carries once the proxies' bumps
    /// `signer_bumps` and the record's bump `commit_bump` are derived.
    pub open spec fn spec_raw_config(
        &self,
        condition: CommitCondition,
        signer_bumps: Seq<u8>,
        commit_bump: u8,
    ) -> ConfigBaseView {
        ConfigBaseView {
            account_count: self.spec_accounts_count() as u8,
            account_indices: self.spec_account_indices(),
            signer_count: self.signer_commit_account_keys@.len() as u8,
            signer_bumps: signer_bumps + Seq::new(
                (CONFIG_MAX_SIGNERS - signer_bumps.len()) as nat,
                |i: int| 0u8,
            ),
            commit_type: self.instruction_data_meta.spec_commit_type(),
            data_length: self.instruction_data_meta.spec_length() as u16,
            data_offset: i16_bits(self.instruction_data_meta.spec_offset()),
            data_hash: self.instruction_data_meta.spec_data_hash(),
            commit_bump,
            condition_tag: condition.spec_tag(),
            condition_data: condition.spec_data(),
        }
    }

    /// What building a creation gives: the record's address and the packed
    /// committed fields, or the refusal. The derivations come first; then
    /// committed bytes too many for their length to be stored are refused.
    pub open spec fn spec_create_instruction(&self, condition: CommitCondition) -> Result<
        (Seq<u8>, ConfigBaseView),
        CustomError,
    > {
        match self.spec_creation() {
            Err(e) => Err(e),
            Ok((commit_account, bump)) => if self.instruction_data_meta.spec_length() > u16::MAX {
                Err(CustomError::ArithmeticError)
            } else {
                Ok((commit_account, self.spec_raw_config(condition, self.spec_proxy_bumps(), bump)))
            },
        }
    }
}

impl CreateCommit {
    /// Checks the counts and the positions as `Base::new` does.
    pub fn new(
        program_id: Pubkey,
        signer_commit_account_keys: Vec<Pubkey>,
        non_signer_commit_account_keys: Vec<Pubkey>,
        starter_account_key: Option<Pubkey>,
        total_accounts_count: u8,
        acct_indices: Vec<u8>,
        instruction_data_meta: DataCommitType,
        condition: CommitCondition,
    ) -> (r: Result<Self, CustomError>)
        ensures
            match Base::spec_new_checks(
                signer_commit_account_keys@.len() as int,
                non_signer_commit_account_keys@.len() as int,
                total_accounts_count,
                acct_indices@,
            ) {
                Err(e) => r matches Err(err) && err == e,
                Ok(()) => r matches Ok(create) && create.condition == condition
                    && create.base.wf() && create.base.program_id == program_id
                    && create.base.signer_commit_account_keys == signer_commit_account_keys
                    && create.base.non_signer_commit_account_keys
                    == non_signer_commit_account_keys && create.base.starter_account_key
                    == starter_account_key && create.base.total_accounts_count
                    == total_accounts_count && create.base.acct_indices == acct_indices
                    && create.base.instruction_data_meta == instruction_data_meta,
            },
    {
        let base = match Base::new(
            program_id,
            signer_commit_account_keys,
            non_signer_commit_account_keys,
            starter_account_key,
            total_accounts_count,
            acct_indices,
            instruction_data_meta,
        ) {
            Ok(base) => base,
            Err(e) => {
                return Err(e);
            },
        };
        Ok(Self { base, condition })
    }

    pub fn new_from_base(base: Base, condition: CommitCondition) -> (r: Self)
        ensures
            r.base == base,
            r.condition == condition,
    {
        Self { base, condition }
    }

    /// Builds the instruction that creates the record: addressed to the
    /// program, naming the accounts of a creation with the starter as a
    /// writable signer, and carrying the packed committed fields followed by
    /// the tag of the operation.
    pub fn make_instruction(base: &mut Base, condition: &mut CommitCondition) -> (r: Result<
        Instruction,
        CustomError,
    >)
        requires
            old(base).wf(),
        ensures
            final(base).same_inputs(old(base)),
            final(base).signer_bumps@ == old(base).spec_bumps_after_creation(),
            final(base).instruction_data_hash@ == old(base).spec_hash_after_creation(),
            final(base).commit_account_bump == old(base).spec_bump_after_creation(),
            *final(condition) == *old(condition),
            match old(base).spec_create_instruction(*old(condition)) {
                Err(e) => r matches Err(err) && err == e,
                Ok((commit_account, fields)) => r matches Ok(instruction) && instruction.program_id
                    == PROGRAM_ID && old(base).spec_is_creation_list(
                    instruction.accounts@,
                    old(base).spec_proxy_keys(),
                    commit_account,
                    true,
                    true,
                ) && instruction.data@ == fields.encode() + seq![1u8],
            },
    {
        let accounts = match base.get_accounts_and_mid_state(true, true) {
            Ok(accounts) => accounts,
            Err(e) => {
                return Err(e);
            },
        };
        let n = base.non_signer_commit_account_keys.len();
        let s = base.signer_commit_account_keys.len();
        let account_count: [u8; 1] = [(n + s + 1) as u8];
        let account_indices = base.account_indices();
        let signer_count: [u8; 1] = [s as u8];

        let mut signer_bumps: [u8; CONFIG_MAX_SIGNERS] = [0u8;CONFIG_MAX_SIGNERS];
        let mut i: usize = 0;
        while i < base.signer_bumps.len()
            invariant
                base.signer_bumps@.len() <= CONFIG_MAX_SIGNERS,
                i <= base.signer_bumps@.len(),
                forall|j: int| 0 <= j < i ==> signer_bumps@[j] == base.signer_bumps@[j],
                forall|j: int| i <= j < CONFIG_MAX_SIGNERS ==> signer_bumps@[j] == 0,
            decreases base.signer_bumps@.len() - i,
        {
            signer_bumps[i] = base.signer_bumps[i];
            i += 1;
        }
        let instruction_data_length: [u8; 2] = match &base.instruction_data_meta {
            DataCommitType::Data(_, data) => {
                if data.len() > u16::MAX as usize {
                    return Err(CustomError::ArithmeticError);
                }
                u16_to_le_bytes(data.len() as u16)
            },
            _ => u16_to_le_bytes(0),
        };
        let raw = RawConfigBase {
            account_count,
            account_indices,
            signer_count,
            signer_bumps,
            instruction_data_commit_type: [base.instruction_data_meta.commit_type()],
            instruction_data_length,
            instruction_data_offset: i16_to_le_bytes(base.instruction_data_meta.offset()),
            instruction_data_hash: base.instruction_data_hash,
            commit_bump: [base.commit_account_bump],
            condition: RawCommitCondition::from(condition),
        };
        let mut instruction_data = raw.to_bytes();
        instruction_data.push(1);
        proof {
            let fields = old(base).spec_create_instruction(*old(condition))->Ok_0.1;
            lemma_u16_round_trip(fields.data_length);
            lemma_u16_round_trip(fields.data_offset);
            assert(raw@.signer_bumps =~= fields.signer_bumps);
            assert(raw@ == fields);
        }
        Ok(Instruction { program_id: PROGRAM_ID, accounts, data: instruction_data })
    }

    /// Builds the instruction that creates the record.
    pub fn to_instruction(&mut self) -> (r: Result<Instruction, CustomError>)
        requires
            old(self).base.wf(),
        ensures
            final(self).base.same_inputs(&old(self).base),
            final(self).base.signer_bumps@ == old(self).base.spec_bumps_after_creation(),
            final(self).base.instruction_data_hash@ == old(self).base.spec_hash_after_creation(),
            final(self).base.commit_account_bump == old(self).base.spec_bump_after_creation(),
            final(self).condition == old(self).condition,
            match old(self).base.spec_create_instruction(old(self).condition) {
                Err(e) => r matches Err(err) && err == e,
                Ok((commit_account, fields)) => r matches Ok(instruction) && instruction.program_id
                    == PROGRAM_ID && old(self).base.spec_is_creation_list(
                    instruction.accounts@,
                    old(self).base.spec_proxy_keys(),
                    commit_account,
                    true,
                    true,
                ) && instruction.data@ == fields.encode() + seq![1u8],
            },
    {
        CreateCommit::make_instruction(&mut self.base, &mut self.condition)
    }
}

} // verus!
