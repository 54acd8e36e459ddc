//! Triggering a committed instruction.

use arrayvec::ArrayVec;
use vstd::prelude::*;

use crate::account::{AccountInfo, AccountMeta, ProxySigner};
use crate::program::constants::{
    CONFIG_MAX_ACCOUNTS, CONFIG_MAX_SIGNERS, HASH_LENGTH, ID, MAX_INSTRUCTION_ACCOUNTS,
};
use crate::program::helpers::utils::{
    are_keys_equal, hashv, is_program_account, is_signer, sha256, spec_is_program_account,
};
use crate::program::state::condition::update_payload;
use crate::program::state::config::{lemma_seeds_view, Config, ConfigBaseView, ConfigView};
use crate::program::state::error::ProgramError;
use crate::pubkey::{create_program_address, program_address, Pubkey, PubkeyError};

verus! {

/// `arrayvec::ArrayVec`, a list of bounded length, taken as it is: nothing of
/// its inside is read here.
#[verifier::external_type_specification]
#[verifier::external_body]
#[verifier::reject_recursive_types(T)]
pub struct ExArrayVec<T, const CAP: usize>(ArrayVec<T, CAP>);

/// The accounts that a bounded list of account descriptions holds, in order.
pub uninterp spec fn metas_of(metas: ArrayVec<AccountMeta, MAX_INSTRUCTION_ACCOUNTS>) -> Seq<
    AccountMeta,
>;

/// An empty bounded list.
///
/// Calls `arrayvec::ArrayVec::new`. Trusted: the new list holds nothing.
#[verifier::external_body]
fn metas_new() -> (r: ArrayVec<AccountMeta, MAX_INSTRUCTION_ACCOUNTS>)
    ensures
        metas_of(r) == Seq::<AccountMeta>::empty(),
{
    ArrayVec::new()
}

/// Appends `meta` to a bounded list that is not full.
///
/// Calls `arrayvec::ArrayVec::push`, which panics on a full list. Trusted:
/// on a list with room the element is added at the end and nothing else
/// changes.
#[verifier::external_body]
fn metas_push(metas: &mut ArrayVec<AccountMeta, MAX_INSTRUCTION_ACCOUNTS>, meta: AccountMeta)
    requires
        metas_of(*old(metas)).len() < MAX_INSTRUCTION_ACCOUNTS,
    ensures
        metas_of(*final(metas)) == metas_of(*old(metas)).push(meta),
{
    metas.push(meta)
}

/// The instruction to hand on once a trigger has passed every check.
#[derive(Debug)]
pub struct Invocation<'b> {
    /// The program that the instruction addresses.
    pub program_id: Pubkey,
    /// The accounts that the instruction names.
    pub accounts: ArrayVec<AccountMeta, MAX_INSTRUCTION_ACCOUNTS>,
    /// The payload, as the caller gave it.
    pub data: &'b [u8],
    /// The proxies that sign.
    pub signers: Vec<ProxySigner>,
}

/// An instruction to hand on, as plain values.
pub struct InvocationView {
    pub program_id: Seq<u8>,
    pub accounts: Seq<AccountMeta>,
    pub data: Seq<u8>,
    pub signers: Seq<(Seq<u8>, u8)>,
}

impl<'b> View for Invocation<'b> {
    type V = InvocationView;

    open spec fn view(&self) -> InvocationView {
        InvocationView {
            program_id: self.program_id@,
            accounts: metas_of(self.accounts),
            data: self.data@,
            signers: Seq::new(
                self.signers@.len(),
                |i: int| (self.signers@[i].signer_key@, self.signers@[i].bump),
            ),
        }
    }
}

/// How an instruction names `account`: by its key, with the flags it came
/// with.
pub open spec fn meta_of(account: AccountInfo) -> AccountMeta {
    AccountMeta {
        pubkey: account.key,
        is_signer: account.is_signer,
        is_writable: account.is_writable,
    }
}

/// Whether each of the first `count` positions in `indices` names one of
/// `accounts`.
pub open spec fn indices_in_range(accounts: Seq<AccountInfo>, indices: Seq<u8>, count: int) -> bool {
    forall|i: int| 0 <= i < count ==> (#[trigger] indices[i]) < accounts.len()
}

/// The keys of the accounts at the first `count` positions in `indices`, in
/// that order.
pub open spec fn indexed_keys(accounts: Seq<AccountInfo>, indices: Seq<u8>, count: int) -> Seq<
    Seq<u8>,
> {
    Seq::new(count as nat, |i: int| accounts[indices[i] as int].key@)
}

/// The state of a trigger that has passed the checks on its accounts, its
/// payload and its condition.
pub struct Entry<'a, 'b> {
    /// The accounts to hand on, the addressed program last.
    pub program_accounts: &'a [AccountInfo],
    /// The record's account.
    pub commit_account: &'a AccountInfo,
    /// The payload to hand on.
    pub program_data: &'b [u8],
    /// The record as it is to be stored once the trigger has gone through:
    /// its condition advanced.
    pub config_data: Config,
}

/// The checks of `Entry::try_from`, in their order, for a trigger at `now`.
pub open spec fn spec_entry_checks(accounts: Seq<AccountInfo>, data: Seq<u8>, now: i64) -> Result<
    (),
    ProgramError,
> {
    if accounts.len() < 2 {
        Err(ProgramError::NotEnoughAccountKeys)
    } else {
        let commit_account = accounts[accounts.len() - 1];
        let starter_account = accounts[accounts.len() - 2];
        match spec_is_program_account(commit_account, Config::LEN, ID) {
            Err(e) => Err(e),
            Ok(()) => {
                let config = ConfigView::decode(commit_account.data@)->Some_0;
                if !starter_account.is_signer {
                    Err(ProgramError::MissingRequiredSignature)
                } else if starter_account.key@ != config.starter_key {
                    Err(ProgramError::MissingRequiredSignature)
                } else if !config.base.length_matches_commit_type(data.len() as int) {
                    Err(ProgramError::InvalidInstructionData)
                } else if config.base.account_count > accounts.len() - 2 {
                    Err(ProgramError::NotEnoughAccountKeys)
                } else {
                    match update_payload(
                        config.base.condition_tag,
                        config.base.condition_data,
                        now,
                    ) {
                        Err(e) => Err(e),
                        Ok(_) => Ok(()),
                    }
                }
            },
        }
    }
}

/// The record that a trigger at `now` leaves: the stored one with its
/// condition advanced.
pub open spec fn spec_entry_record(accounts: Seq<AccountInfo>, now: i64) -> ConfigView {
    let config = ConfigView::decode(accounts[accounts.len() - 1].data@)->Some_0;
    ConfigView {
        base: config.base.with_condition_data(
            update_payload(config.base.condition_tag, config.base.condition_data, now)->Ok_0,
        ),
        ..config
    }
}

/// The hash over the committed accounts as a trigger presents them: over the
/// keys of the accounts handed on, at the positions that the record stores.
pub open spec fn spec_accounts_hash(program_accounts: Seq<AccountInfo>, base: ConfigBaseView) -> Seq<
    u8,
> {
    sha256(indexed_keys(program_accounts, base.account_indices, base.account_count as int))
}

/// The seeds from which a trigger derives the record's address anew, or the
/// refusal met on the way to them: a committed position that names no
/// account, a record that commits to more accounts than it can hold, or a
/// payload that does not satisfy the commitment.
pub open spec fn spec_trigger_seeds(
    program_accounts: Seq<AccountInfo>,
    program_data: Seq<u8>,
    base: ConfigBaseView,
) -> Result<Seq<Seq<u8>>, ProgramError> {
    let walked = if base.account_count <= CONFIG_MAX_ACCOUNTS {
        base.account_count as int
    } else {
        CONFIG_MAX_ACCOUNTS as int
    };
    if !indices_in_range(program_accounts, base.account_indices, walked) {
        Err(ProgramError::NotEnoughAccountKeys)
    } else if base.account_count > CONFIG_MAX_ACCOUNTS {
        Err(ProgramError::InvalidAccountData)
    } else {
        base.get_commit_seeds(spec_accounts_hash(program_accounts, base), Some(program_data))
    }
}

/// The instruction that a trigger hands on, given the outcome `derived` of
/// deriving the record's address anew; or the refusal.
pub open spec fn spec_invoke_with(
    program_accounts: Seq<AccountInfo>,
    commit_key: Seq<u8>,
    program_data: Seq<u8>,
    config: ConfigView,
    derived: Result<Seq<u8>, PubkeyError>,
) -> Result<InvocationView, ProgramError> {
    match derived {
        Err(_) => Err(ProgramError::InvalidSeeds),
        Ok(address) => if address != commit_key {
            Err(ProgramError::InvalidSeeds)
        } else if program_accounts.len() == 0 {
            Err(ProgramError::NotEnoughAccountKeys)
        } else if program_accounts.len() > MAX_INSTRUCTION_ACCOUNTS {
            Err(ProgramError::InvalidArgument)
        } else if config.base.signer_count > CONFIG_MAX_SIGNERS {
            Err(ProgramError::InvalidAccountData)
        } else {
            Ok(
                InvocationView {
                    program_id: program_accounts[program_accounts.len() - 1].key@,
                    accounts: Seq::new(
                        (program_accounts.len() - 1) as nat,
                        |i: int| meta_of(program_accounts[i]),
                    ),
                    data: program_data,
                    signers: Seq::new(
                        config.base.signer_count as nat,
                        |i: int| (config.signer_keys[i], config.base.signer_bumps[i]),
                    ),
                },
            )
        },
    }
}

/// What a trigger that has passed its first checks gives: the instruction to
/// hand on, or the refusal.
pub open spec fn spec_trigger(
    program_accounts: Seq<AccountInfo>,
    commit_key: Seq<u8>,
    program_data: Seq<u8>,
    config: ConfigView,
) -> Result<InvocationView, ProgramError> {
    match spec_trigger_seeds(program_accounts, program_data, config.base) {
        Err(e) => Err(e),
        Ok(seeds) => spec_invoke_with(
            program_accounts,
            commit_key,
            program_data,
            config,
            program_address(seeds, ID@),
        ),
    }
}

/// What the whole of a trigger at `now` gives for the accounts `[accounts to
/// hand on.., starter, record]` and the payload `data`: the instruction to
/// hand on and the record to store, or the refusal.
pub open spec fn spec_entry(accounts: Seq<AccountInfo>, data: Seq<u8>, now: i64) -> Result<
    (InvocationView, ConfigView),
    ProgramError,
> {
    match spec_entry_checks(accounts, data, now) {
        Err(e) => Err(e),
        Ok(()) => {
            let record = spec_entry_record(accounts, now);
            match spec_trigger(
                accounts.subrange(0, accounts.len() - 2),
                accounts[accounts.len() - 1].key@,
                data,
                record,
            ) {
                Err(e) => Err(e),
                Ok(invocation) => Ok((invocation, record)),
            }
        },
    }
}

impl<'a, 'b> Entry<'a, 'b> {
    /// Takes the accounts `[accounts to hand on.., starter, record]` and the
    /// payload to hand on, for a trigger at time `now`, and checks, in this
    /// order: that the record's account exists, has the size of a record and
    /// belongs to this program; that the starter has signed and is the
    /// record's starter; that the payload's length fits the commitment; that
    /// at least as many accounts are handed on as the record commits to; and
    /// that the record's condition lets a trigger at `now` through.
    pub fn try_from(value: (&'a [AccountInfo], &'b [u8]), now: i64) -> (r: Result<
        Self,
        ProgramError,
    >)
        ensures
            match spec_entry_checks(value.0@, value.1@, now) {
                Err(e) => r matches Err(err) && err == e,
                Ok(()) => r matches Ok(entry) && entry.program_accounts@ == value.0@.subrange(
                    0,
                    value.0@.len() - 2,
                ) && *entry.commit_account == value.0@[value.0@.len() - 1] && entry.program_data@
                    == value.1@ && entry.config_data@ == spec_entry_record(value.0@, now),
            },
    {
        let accounts = value.0;
        if accounts.len() < 2 {
            return Err(ProgramError::NotEnoughAccountKeys);
        }
        let program_accounts = vstd::slice::slice_subrange(accounts, 0, accounts.len() - 2);
        let starter_account = &accounts[accounts.len() - 2];
        let commit_account = &accounts[accounts.len() - 1];
        let program_data = value.1;

        match is_program_account(commit_account, Config::LEN, &ID) {
            Err(e) => {
                return Err(e);
            },
            Ok(()) => {},
        }
        let mut config_data = match Config::from_bytes(commit_account.data.as_slice()) {
            Some(config) => config,
            None => {
                return Err(ProgramError::InvalidAccountData);
            },
        };

        match is_signer(starter_account) {
            Err(e) => {
                return Err(e);
            },
            Ok(()) => {},
        }
        if !are_keys_equal(starter_account.key(), &config_data.starter_key) {
            return Err(ProgramError::MissingRequiredSignature);
        }
        if !config_data.base.length_matches_commit_type(program_data.len()) {
            return Err(ProgramError::InvalidInstructionData);
        }
        if (config_data.base.account_count[0] as usize) > program_accounts.len() {
            return Err(ProgramError::NotEnoughAccountKeys);
        }
        match config_data.base.update_condition(now) {
            Err(e) => {
                return Err(e);
            },
            Ok(()) => {},
        }
        proof {
            assert(config_data@.signer_keys =~= spec_entry_record(accounts@, now).signer_keys);
        }
        Ok(Entry { program_accounts, commit_account, config_data, program_data })
    }

    /// What `process` gives.
    pub open spec fn spec_process(&self) -> Result<InvocationView, ProgramError> {
        spec_trigger(
            self.program_accounts@,
            self.commit_account.key@,
            self.program_data@,
            self.config_data@,
        )
    }

    /// Gathers the keys of the committed accounts from the accounts handed
    /// on, by the positions that the record stores; a position that names no
    /// account is refused.
    fn get_commit_accounts(program_accounts: &'a [AccountInfo], config_data: &Config) -> (r:
        Result<Vec<&'a [u8]>, ProgramError>)
        ensures
            ({
                let base = config_data@.base;
                let walked = if base.account_count <= CONFIG_MAX_ACCOUNTS {
                    base.account_count as int
                } else {
                    CONFIG_MAX_ACCOUNTS as int
                };
                if indices_in_range(program_accounts@, base.account_indices, walked) {
                    r matches Ok(keys) && keys@.len() == walked && forall|i: int|
                        0 <= i < walked ==> (#[trigger] keys@[i])@ == indexed_keys(
                            program_accounts@,
                            base.account_indices,
                            walked,
                        )[i]
                } else {
                    r matches Err(e) && e == ProgramError::NotEnoughAccountKeys
                }
            }),
    {
        let count = config_data.base.account_count[0] as usize;
        let walked = if count <= CONFIG_MAX_ACCOUNTS {
            count
        } else {
            CONFIG_MAX_ACCOUNTS
        };
        let mut commit_accounts: Vec<&'a [u8]> = Vec::new();
        let mut i: usize = 0;
        while i < walked
            invariant
                i <= walked <= CONFIG_MAX_ACCOUNTS,
                walked == if config_data@.base.account_count <= CONFIG_MAX_ACCOUNTS {
                    config_data@.base.account_count as int
                } else {
                    CONFIG_MAX_ACCOUNTS as int
                },
                commit_accounts@.len() == i,
                indices_in_range(program_accounts@, config_data@.base.account_indices, i as int),
                forall|j: int|
                    0 <= j < i ==> (#[trigger] commit_accounts@[j])@
                        == program_accounts@[config_data@.base.account_indices[j] as int].key@,
            decreases walked - i,
        {
            let index = config_data.base.account_indices[i] as usize;
            if index >= program_accounts.len() {
                assert(!(config_data@.base.account_indices[i as int] < program_accounts@.len()));
                return Err(ProgramError::NotEnoughAccountKeys);
            }
            commit_accounts.push(program_accounts[index].key().as_slice());
            i += 1;
        }
        Ok(commit_accounts)
    }

    /// Describes every account handed on but the last, which is the
    /// addressed program itself, with the flags it came with.
    fn get_account_metas(program_accounts: &[AccountInfo]) -> (r: ArrayVec<
        AccountMeta,
        MAX_INSTRUCTION_ACCOUNTS,
    >)
        requires
            1 <= program_accounts@.len() <= MAX_INSTRUCTION_ACCOUNTS,
        ensures
            metas_of(r) == Seq::new(
                (program_accounts@.len() - 1) as nat,
                |i: int| meta_of(program_accounts@[i]),
            ),
    {
        let mut metas = metas_new();
        let mut i: usize = 0;
        while i < program_accounts.len() - 1
            invariant
                1 <= program_accounts@.len() <= MAX_INSTRUCTION_ACCOUNTS,
                i <= program_accounts@.len() - 1,
                metas_of(metas) == Seq::new(i as nat, |j: int| meta_of(program_accounts@[j])),
            decreases program_accounts@.len() - i,
        {
            let account = &program_accounts[i];
            metas_push(
                &mut metas,
                AccountMeta {
                    is_signer: account.is_signer(),
                    is_writable: account.is_writable(),
                    pubkey: *account.key(),
                },
            );
            assert(metas_of(metas) =~= Seq::new(
                (i + 1) as nat,
                |j: int| meta_of(program_accounts@[j]),
            ));
            i += 1;
        }
        metas
    }

    /// The addressed program: the last of the accounts handed on.
    #[inline(always)]
    fn get_program_account(program_accounts: &[AccountInfo]) -> (r: &AccountInfo)
        requires
            program_accounts@.len() >= 1,
        ensures
            *r == program_accounts@[program_accounts@.len() - 1],
    {
        &program_accounts[program_accounts.len() - 1]
    }

    /// Decides on the trigger once the record's address has been derived
    /// anew, `derived` being the outcome: the derivation must have given the
    /// address of the record's own account. Then the instruction to hand on
    /// addresses the last of the accounts handed on, names all the others
    /// with the flags they came with, carries the payload unchanged, and is
    /// signed by one proxy for each authority.
    pub fn invoke_with(&self, derived: Result<Pubkey, PubkeyError>) -> (r: Result<
        Invocation<'b>,
        ProgramError,
    >)
        ensures
            match spec_invoke_with(
                self.program_accounts@,
                self.commit_account.key@,
                self.program_data@,
                self.config_data@,
                match derived {
                    Ok(address) => Ok(address@),
                    Err(e) => Err(e),
                },
            ) {
                Ok(invocation) => r matches Ok(made) && made@ == invocation,
                Err(e) => r matches Err(err) && err == e,
            },
    {
        let expected_commit_account = match derived {
            Ok(address) => address,
            Err(_) => {
                return Err(ProgramError::InvalidSeeds);
            },
        };
        if !are_keys_equal(self.commit_account.key(), &expected_commit_account) {
            return Err(ProgramError::InvalidSeeds);
        }
        if self.program_accounts.len() == 0 {
            return Err(ProgramError::NotEnoughAccountKeys);
        }
        if self.program_accounts.len() > MAX_INSTRUCTION_ACCOUNTS {
            return Err(ProgramError::InvalidArgument);
        }
        let signer_count = self.config_data.base.signer_count[0] as usize;
        if signer_count > CONFIG_MAX_SIGNERS {
            return Err(ProgramError::InvalidAccountData);
        }
        let accounts = Self::get_account_metas(self.program_accounts);
        let program_id = *Self::get_program_account(self.program_accounts).key();

        let mut signers: Vec<ProxySigner> = Vec::new();
        let mut i: usize = 0;
        while i < signer_count
            invariant
                i <= signer_count <= CONFIG_MAX_SIGNERS,
                signers@.len() == i,
                forall|j: int|
                    0 <= j < i ==> (#[trigger] signers@[j]).signer_key@
                        == self.config_data@.signer_keys[j] && signers@[j].bump
                        == self.config_data@.base.signer_bumps[j],
            decreases signer_count - i,
        {
            signers.push(
                ProxySigner {
                    signer_key: self.config_data.signer_keys[i],
                    bump: self.config_data.base.signer_bumps[i],
                },
            );
            i += 1;
        }
        let made = Invocation { program_id, accounts, data: self.program_data, signers };
        proof {
            let expected = spec_invoke_with(
                self.program_accounts@,
                self.commit_account.key@,
                self.program_data@,
                self.config_data@,
                Ok(expected_commit_account@),
            )->Ok_0;
            assert(made@.signers =~= expected.signers);
        }
        Ok(made)
    }

    /// Binds what the trigger presents to what was committed, and on success
    /// gives the instruction to hand on. The keys of the accounts at the
    /// stored positions are hashed, the payload is checked against the
    /// commitment, the record's address is derived anew from the stored
    /// fields with that hash and the stored bump, and it must be the address
    /// of the record's own account.
    pub fn process(&self) -> (r: Result<Invocation<'b>, ProgramError>)
        ensures
            match self.spec_process() {
                Ok(invocation) => r matches Ok(made) && made@ == invocation,
                Err(e) => r matches Err(err) && err == e,
            },
    {
        let commit_accounts = match Self::get_commit_accounts(
            self.program_accounts,
            &self.config_data,
        ) {
            Ok(keys) => keys,
            Err(e) => {
                return Err(e);
            },
        };
        if (self.config_data.base.account_count[0] as usize) > CONFIG_MAX_ACCOUNTS {
            return Err(ProgramError::InvalidAccountData);
        }
        let mut commit_accounts_hash: [u8; HASH_LENGTH] = [0;HASH_LENGTH];
        let commit_accounts = commit_accounts.as_slice();
        proof {
            lemma_seeds_view(
                commit_accounts,
                indexed_keys(
                    self.program_accounts@,
                    self.config_data@.base.account_indices,
                    self.config_data@.base.account_count as int,
                ),
            );
        }
        hashv(commit_accounts, &mut commit_accounts_hash);

        let commit_seeds = match self.config_data.base.get_commit_seeds(
            commit_accounts_hash.as_slice(),
            Some(self.program_data),
        ) {
            Ok(seeds) => seeds,
            Err(e) => {
                return Err(e);
            },
        };
        let commit_seeds = commit_seeds.as_slice();
        proof {
            lemma_seeds_view(
                commit_seeds,
                spec_trigger_seeds(
                    self.program_accounts@,
                    self.program_data@,
                    self.config_data@.base,
                )->Ok_0,
            );
        }
        let derived = create_program_address(commit_seeds, &ID);
        self.invoke_with(derived)
    }
}

} // verus!
