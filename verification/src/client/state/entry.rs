//! Turning a committed instruction into the trigger that runs it.

use vstd::prelude::*;

use crate::account::{metas_view, AccountMeta, Instruction, MetaView};
use crate::client::state::base::{key_bytes, spec_proxy, Base, DataCommitType};
use crate::client::state::constants::PROGRAM_ID;
use crate::client::state::error::CustomError;
use crate::pubkey::Pubkey;

verus! {

/// The builder of a trigger.
#[derive(Debug, Clone)]
pub struct Entry {
    pub base: Base,
}

impl Base {
    /// The accounts of the committed instruction once the first `upto`
    /// authorities have given their places to their proxies, each at the
    /// position that the authority's index names; or the first refusal: an
    /// authority without a proxy, or an index that names no account.
    pub open spec fn spec_substituted(&self, metas: Seq<MetaView>, upto: int) -> Result<
        Seq<MetaView>,
        CustomError,
    >
        decreases upto,
    {
        if upto <= 0 {
            Ok(metas)
        } else {
            match self.spec_substituted(metas, upto - 1) {
                Err(e) => Err(e),
                Ok(previous) => {
                    let signer = self.signer_commit_account_keys@[upto - 1];
                    let index = self.acct_indices@[self.non_signer_commit_account_keys@.len() + upto
                        - 1] as int;
                    if spec_proxy(signer) is None {
                        Err(CustomError::InvalidSignerSeeds)
                    } else if index >= previous.len() {
                        Err(CustomError::InvalidAccountIndex)
                    } else {
                        Ok(
                            previous.update(
                                index,
                                (
                                    spec_proxy(signer)->Some_0.0,
                                    previous[index].1,
                                    previous[index].2,
                                ),
                            ),
                        )
                    }
                },
            }
        }
    }

    /// The accounts of a trigger made from a committed instruction with the
    /// accounts `metas` addressed to `program`: the proxies in the places of
    /// the authorities, then the addressed program, the starter as a
    /// read-only signer, and the record's account; or the refusal.
    pub open spec fn spec_trigger_accounts(&self, metas: Seq<MetaView>, program: Seq<u8>) -> Result<
        Seq<MetaView>,
        CustomError,
    > {
        match self.spec_substituted(metas, self.signer_commit_account_keys@.len() as int) {
            Err(e) => Err(e),
            Ok(substituted) => match self.starter_account_key {
                None => Err(CustomError::StarterKeyNotProvided),
                Some(starter) => match self.spec_commit_account(self.spec_proxy_keys()) {
                    None => Err(CustomError::InvalidConfiguration),
                    Some((address, _)) => Ok(
                        substituted + seq![
                            (program, false, false),
                            (starter@, true, false),
                            (address, true, true),
                        ],
                    ),
                },
            },
        }
    }
}

impl Entry {
    /// Checks the counts and the positions as `Base::new` does.
    pub fn new(
        program_id: Pubkey,
        signer_commit_account_keys: Vec<Pubkey>,
        non_signer_commit_account_keys: Vec<Pubkey>,
        starter_account_key: Pubkey,
        total_accounts_count: u8,
        acct_indices: Vec<u8>,
        instruction_data_meta: DataCommitType,
    ) -> (r: Result<Self, CustomError>)
        ensures
            match Base::spec_new_checks(
                signer_commit_account_keys@.len() as int,
                non_signer_commit_account_keys@.len() as int,
                total_accounts_count,
                acct_indices@,
            ) {
                Err(e) => r matches Err(err) && err == e,
                Ok(()) => r matches Ok(entry) && entry.base.wf() && entry.base.program_id
                    == program_id && entry.base.signer_commit_account_keys
                    == signer_commit_account_keys && entry.base.non_signer_commit_account_keys
                    == non_signer_commit_account_keys && entry.base.starter_account_key == Some(
                    starter_account_key,
                ) && entry.base.total_accounts_count == total_accounts_count
                    && entry.base.acct_indices == acct_indices && entry.base.instruction_data_meta
                    == instruction_data_meta,
            },
    {
        let base = match Base::new(
            program_id,
            signer_commit_account_keys,
            non_signer_commit_account_keys,
            Some(starter_account_key),
            total_accounts_count,
            acct_indices,
            instruction_data_meta,
        ) {
            Ok(base) => base,
            Err(e) => {
                return Err(e);
            },
        };
        Ok(Self { base })
    }

    /// Turns the committed instruction into its trigger: the proxies take
    /// the places of the authorities, the program that the instruction
    /// addressed is named after its accounts, then the starter as a
    /// read-only signer and the record's account; the trigger is addressed to
    /// this program, and the tag of the operation follows the payload.
    pub fn to_instruction(&mut self, old_instruction: Instruction) -> (r: Result<
        Instruction,
        CustomError,
    >)
        requires
            old(self).base.wf(),
        ensures
            final(self).base.same_inputs(&old(self).base),
            final(self).base.same_bumps(&old(self).base),
            final(self).base.instruction_data_hash@ == if old(self).base.spec_substituted(
                metas_view(old_instruction.accounts@),
                old(self).base.signer_commit_account_keys@.len() as int,
            ) is Ok && old(self).base.starter_account_key is Some {
                old(self).base.instruction_data_meta.spec_data_hash()
            } else {
                old(self).base.instruction_data_hash@
            },
            match old(self).base.spec_trigger_accounts(
                metas_view(old_instruction.accounts@),
                old_instruction.program_id@,
            ) {
                Err(e) => r matches Err(err) && err == e,
                Ok(accounts) => r matches Ok(instruction) && instruction.program_id == PROGRAM_ID
                    && metas_view(instruction.accounts@) == accounts && instruction.data@
                    == old_instruction.data@ + seq![0u8],
            },
    {
        let ghost given = metas_view(old_instruction.accounts@);
        let ghost given_data = old_instruction.data@;
        let ghost given_program = old_instruction.program_id;
        let mut instruction = old_instruction;
        let n = self.base.non_signer_commit_account_keys.len();
        let s = self.base.signer_commit_account_keys.len();
        let mut program_signers: Vec<Pubkey> = Vec::new();
        let mut i: usize = 0;
        while i < s
            invariant
                self.base.wf(),
                *self == *old(self),
                n == self.base.non_signer_commit_account_keys@.len(),
                s == self.base.signer_commit_account_keys@.len(),
                i <= s,
                program_signers@.len() == i,
                instruction.data@ == given_data,
                instruction.program_id == given_program,
                given == metas_view(old_instruction.accounts@),
                forall|j: int|
                    0 <= j < i ==> spec_proxy(#[trigger] self.base.signer_commit_account_keys@[j])
                        is Some && spec_proxy(self.base.signer_commit_account_keys@[j])->Some_0.0
                        == program_signers@[j]@,
                self.base.spec_substituted(given, i as int) == Ok::<Seq<MetaView>, CustomError>(
                    metas_view(instruction.accounts@),
                ),
            decreases s - i,
        {
            let (key, _) = match Base::find_proxy(&self.base.signer_commit_account_keys[i]) {
                Some(found) => found,
                None => {
                    proof {
                        assert(self.base.spec_substituted(given, i + 1) == Err::<
                            Seq<MetaView>,
                            CustomError,
                        >(CustomError::InvalidSignerSeeds));
                        self.base.lemma_substituted_stays_refused(given, i + 1, s as int);
                    }
                    return Err(CustomError::InvalidSignerSeeds);
                },
            };
            let index = self.base.acct_indices[n + i] as usize;
            if index >= instruction.accounts.len() {
                proof {
                    assert(metas_view(instruction.accounts@).len() == instruction.accounts@.len());
                    assert(self.base.spec_substituted(given, i + 1) == Err::<
                        Seq<MetaView>,
                        CustomError,
                    >(CustomError::InvalidAccountIndex));
                    self.base.lemma_substituted_stays_refused(given, i + 1, s as int);
                }
                return Err(CustomError::InvalidAccountIndex);
            }
            let ghost before = metas_view(instruction.accounts@);
            let previous = instruction.accounts[index];
            instruction.accounts.set(
                index,
                AccountMeta {
                    pubkey: key,
                    is_signer: previous.is_signer,
                    is_writable: previous.is_writable,
                },
            );
            program_signers.push(key);
            proof {
                assert(metas_view(instruction.accounts@) =~= before.update(
                    index as int,
                    (key@, before[index as int].1, before[index as int].2),
                ));
            }
            i += 1;
        }
        let old_program_id = instruction.program_id;
        instruction.program_id = PROGRAM_ID;
        let ghost substituted = metas_view(instruction.accounts@);
        instruction.accounts.push(
            AccountMeta { pubkey: old_program_id, is_signer: false, is_writable: false },
        );
        let starter = match self.base.starter_account_key {
            Some(starter) => starter,
            None => {
                return Err(CustomError::StarterKeyNotProvided);
            },
        };
        instruction.accounts.push(
            AccountMeta { pubkey: starter, is_signer: true, is_writable: false },
        );
        proof {
            assert(key_bytes(program_signers@) =~= self.base.spec_proxy_keys());
        }
        let ghost before = self.base;
        let ghost proxies = self.base.spec_proxy_keys();
        let (commit_account, _) = match self.base.get_commit_account(program_signers) {
            Ok(found) => found,
            Err(e) => {
                proof {
                    assert(before.spec_search_seeds(proxies) == old(self).base.spec_search_seeds(
                        proxies,
                    ));
                }
                return Err(e);
            },
        };
        instruction.accounts.push(
            AccountMeta { pubkey: commit_account, is_signer: true, is_writable: true },
        );
        instruction.data.push(0);
        proof {
            assert(before.spec_search_seeds(proxies) == old(self).base.spec_search_seeds(proxies));
            assert(metas_view(instruction.accounts@) =~= substituted + seq![
                (old_program_id@, false, false),
                (starter@, true, false),
                (commit_account@, true, true),
            ]);
        }
        Ok(instruction)
    }
}

impl Base {
    /// A refusal met while the authorities give their places to their
    /// proxies stays the outcome, however many more are looked at.
    pub proof fn lemma_substituted_stays_refused(&self, metas: Seq<MetaView>, at: int, upto: int)
        requires
            at <= upto,
            self.spec_substituted(metas, at) is Err,
        ensures
            self.spec_substituted(metas, upto) == self.spec_substituted(metas, at),
        decreases upto - at,
    {
        if at < upto {
            self.lemma_substituted_stays_refused(metas, at, upto - 1);
        }
    }
}

} // verus!
