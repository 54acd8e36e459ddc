//! Creating a record for a committed instruction.

use vstd::prelude::*;

use crate::account::AccountInfo;
use crate::program::constants::{
    COMMIT_SEEDS_LEN, CONFIG_MAX_ACCOUNTS, CONFIG_MAX_SIGNERS, CONFIG_MIN_ACCOUNTS, HASH_LENGTH,
    ID,
};
use crate::program::helpers::utils::{
    are_keys_equal, hashv, is_signer, sha256, spec_verify_signers, verify_signers,
};
use crate::program::state::condition::tag_of;
use crate::program::state::config::{
    lemma_seeds_view, Config, ConfigBase, ConfigBaseView, ConfigView, HashType,
};
use crate::program::state::error::{custom, ProgramError, WrapperError};
use crate::pubkey::{
    canonical_address, find_program_address, lemma_canonical_address_is_canonical,
    program_address, with_bump, Pubkey, PubkeyError,
};

verus! {

/// The state of a creation that has passed the checks on its counts, its
/// accounts and its signers.
pub struct CreateCommit<'a> {
    /// The committed accounts: the non-signers, the addressed program, then
    /// the proxies.
    pub commit_accounts: &'a [AccountInfo],
    /// The authorities, one for each proxy.
    pub signers: &'a [AccountInfo],
    /// Who may trigger, and who pays for the record.
    pub starter_account: &'a AccountInfo,
    /// The account that is to hold the record.
    pub commit_account: &'a AccountInfo,
    /// The committed fields as the caller packed them.
    pub config_base_data: ConfigBase,
}

/// What a creation leaves to be done on the ledger: the account at the
/// record's address is allocated with `space` bytes, given to `owner` and
/// signed for with the record's seeds, and `config` is stored in it.
#[derive(Debug, Clone, Copy)]
pub struct CreatedCommit {
    /// The hash over the keys of the committed accounts.
    pub commit_accounts_hash: HashType,
    /// The canonical bump of the record's address.
    pub commit_bump: u8,
    /// The size of the record's account: that of a record, exactly.
    pub space: usize,
    /// The owner of the record's account: this program.
    pub owner: Pubkey,
    /// The record to store.
    pub config: Config,
}

/// The checks of `CreateCommit::try_from`, in their order.
pub open spec fn spec_create_checks(accounts: Seq<AccountInfo>, data: Seq<u8>) -> Result<
    (),
    ProgramError,
> {
    if accounts.len() < 3 {
        Err(ProgramError::NotEnoughAccountKeys)
    } else {
        match ConfigBaseView::decode(data) {
            None => Err(ProgramError::InvalidInstructionData),
            Some(base) => {
                let others = accounts.len() - 3;
                let account_count = base.account_count as int;
                let signer_count = base.signer_count as int;
                if account_count < CONFIG_MIN_ACCOUNTS || account_count > CONFIG_MAX_ACCOUNTS {
                    Err(custom(WrapperError::InvalidAccountCount))
                } else if signer_count == 0 || signer_count > CONFIG_MAX_SIGNERS || signer_count
                    >= account_count {
                    Err(custom(WrapperError::InvalidSignerCount))
                } else if others != account_count + signer_count {
                    Err(custom(WrapperError::InvalidAccountKeysCount))
                } else if !accounts[others].is_signer {
                    Err(ProgramError::MissingRequiredSignature)
                } else {
                    match spec_verify_signers(
                        accounts.subrange(account_count, account_count + signer_count),
                        accounts.subrange(account_count - signer_count, account_count),
                        base.signer_bumps,
                    ) {
                        Err(e) => Err(e),
                        Ok(()) => match tag_of(base.condition_tag) {
                            Err(e) => Err(custom(e)),
                            Ok(_) => Ok(()),
                        },
                    }
                }
            },
        }
    }
}

/// A creation whose counts are out of range is refused, whatever else it
/// holds: fewer than three or more than eight committed accounts as an
/// invalid account count; with a valid account count, no signer, more than
/// four, or as many signers as committed accounts as an invalid signer
/// count.
pub proof fn lemma_create_rejects_bad_counts(accounts: Seq<AccountInfo>, data: Seq<u8>)
    requires
        accounts.len() >= 3,
        ConfigBaseView::decode(data) is Some,
    ensures
        ({
            let base = ConfigBaseView::decode(data)->Some_0;
            &&& (base.account_count < 3 || base.account_count > 8) ==> spec_create_checks(
                accounts,
                data,
            ) == Err::<(), ProgramError>(custom(WrapperError::InvalidAccountCount))
            &&& (3 <= base.account_count <= 8 && (base.signer_count == 0 || base.signer_count > 4
                || base.signer_count >= base.account_count)) ==> spec_create_checks(
                accounts,
                data,
            ) == Err::<(), ProgramError>(custom(WrapperError::InvalidSignerCount))
        }),
{
}

/// The keys of `accounts`, in order.
pub open spec fn account_keys(accounts: Seq<AccountInfo>) -> Seq<Seq<u8>> {
    Seq::new(accounts.len(), |i: int| accounts[i].key@)
}

/// The seeds that a record's bump is searched for: those of its address for
/// the committed accounts, without the bump.
pub open spec fn spec_search_seeds(commit_accounts: Seq<AccountInfo>, base: ConfigBaseView) -> Seq<
    Seq<u8>,
> {
    base.commit_seeds(sha256(account_keys(commit_accounts))).take(COMMIT_SEEDS_LEN - 1)
}

/// The record that a creation stores under the bump `commit_bump`: the
/// committed fields with that bump, the starter's key, and the keys of the
/// authorities, the unused places left zero.
pub open spec fn spec_record(
    base: ConfigBaseView,
    starter_key: Seq<u8>,
    signers: Seq<AccountInfo>,
    commit_bump: u8,
) -> ConfigView {
    ConfigView {
        base: base.with_commit_bump(commit_bump),
        starter_key,
        signer_keys: Seq::new(
            CONFIG_MAX_SIGNERS as nat,
            |i: int|
                if i < signers.len() {
                    signers[i].key@
                } else {
                    Seq::new(32, |j: int| 0u8)
                },
        ),
    }
}

/// What a creation gives once the canonical bump of the record's seeds has
/// been searched, `found` being the outcome: the bump to store, or the
/// refusal.
pub open spec fn spec_process_with(commit_key: Seq<u8>, found: Option<(Seq<u8>, u8)>) -> Result<
    u8,
    ProgramError,
> {
    match found {
        None => Err(ProgramError::InvalidSeeds),
        Some((address, bump)) => if address != commit_key {
            Err(ProgramError::InvalidSeeds)
        } else {
            Ok(bump)
        },
    }
}

/// What a creation that has passed its checks gives: the bump under which
/// the record is stored, or the refusal.
pub open spec fn spec_mint(
    commit_accounts: Seq<AccountInfo>,
    commit_key: Seq<u8>,
    base: ConfigBaseView,
) -> Result<u8, ProgramError> {
    spec_process_with(
        commit_key,
        canonical_address(spec_search_seeds(commit_accounts, base), ID@),
    )
}

/// What the whole of a creation gives for the accounts `[committed
/// accounts.., signers.., starter, system program, record]` and the packed
/// committed fields `data`: the bump and the record to store, or the refusal.
pub open spec fn spec_create(accounts: Seq<AccountInfo>, data: Seq<u8>) -> Result<
    (u8, ConfigView),
    ProgramError,
> {
    match spec_create_checks(accounts, data) {
        Err(e) => Err(e),
        Ok(()) => {
            let base = ConfigBaseView::decode(data)->Some_0;
            let commit_accounts = accounts.subrange(0, base.account_count as int);
            let signers = accounts.subrange(base.account_count as int, accounts.len() - 3);
            match spec_mint(commit_accounts, accounts[accounts.len() - 1].key@, base) {
                Err(e) => Err(e),
                Ok(bump) => Ok(
                    (bump, spec_record(base, accounts[accounts.len() - 3].key@, signers, bump)),
                ),
            }
        },
    }
}

impl<'a> CreateCommit<'a> {
    /// The counts are in range, and the accounts are as many as the counts
    /// say.
    pub open spec fn wf(&self) -> bool {
        let base = self.config_base_data@;
        &&& CONFIG_MIN_ACCOUNTS <= base.account_count <= CONFIG_MAX_ACCOUNTS
        &&& 1 <= base.signer_count <= CONFIG_MAX_SIGNERS
        &&& base.signer_count < base.account_count
        &&& self.commit_accounts@.len() == base.account_count
        &&& self.signers@.len() == base.signer_count
    }

    /// Takes the accounts `[committed accounts.., signers.., starter, system
    /// program, record]` and the packed committed fields, and checks, in this
    /// order: the number of committed accounts; the number of signers; that
    /// the accounts are as many as the two counts say; that the starter has
    /// signed; that every authority has signed and stands behind its proxy;
    /// and that the condition's tag names a rule.
    pub fn try_from(value: (&'a [AccountInfo], &[u8])) -> (r: Result<Self, ProgramError>)
        ensures
            match spec_create_checks(value.0@, value.1@) {
                Err(e) => r matches Err(err) && err == e,
                Ok(()) => r matches Ok(create) && create.wf() && Some(create.config_base_data@)
                    == ConfigBaseView::decode(value.1@) && create.commit_accounts@
                    == value.0@.subrange(0, create.config_base_data@.account_count as int)
                    && create.signers@ == value.0@.subrange(
                    create.config_base_data@.account_count as int,
                    value.0@.len() - 3,
                ) && *create.starter_account == value.0@[value.0@.len() - 3]
                    && *create.commit_account == value.0@[value.0@.len() - 1],
            },
    {
        let accounts = value.0;
        if accounts.len() < 3 {
            return Err(ProgramError::NotEnoughAccountKeys);
        }
        let other_accounts = vstd::slice::slice_subrange(accounts, 0, accounts.len() - 3);
        let starter_account = &accounts[accounts.len() - 3];
        let commit_account = &accounts[accounts.len() - 1];
        let data = value.1;

        let config_base_data = match ConfigBase::from_bytes(data) {
            Some(base) => base,
            None => {
                return Err(ProgramError::InvalidInstructionData);
            },
        };
        let commit_account_count: u8 = config_base_data.account_count[0];
        let signer_account_count: u8 = config_base_data.signer_count[0];

        if (commit_account_count as usize) < CONFIG_MIN_ACCOUNTS || (commit_account_count as usize)
            > CONFIG_MAX_ACCOUNTS {
            return Err(ProgramError::from(WrapperError::InvalidAccountCount));
        }
        if signer_account_count == 0 || (signer_account_count as usize) > CONFIG_MAX_SIGNERS
            || signer_account_count >= commit_account_count {
            return Err(ProgramError::from(WrapperError::InvalidSignerCount));
        }
        let expected_account_count = match commit_account_count.checked_add(
            signer_account_count,
        ) {
            Some(sum) => sum as usize,
            None => {
                return Err(ProgramError::ArithmeticOverflow);
            },
        };
        if other_accounts.len() != expected_account_count {
            return Err(ProgramError::from(WrapperError::InvalidAccountKeysCount));
        }
        match is_signer(starter_account) {
            Err(e) => {
                return Err(e);
            },
            Ok(()) => {},
        }
        let commit_accounts = vstd::slice::slice_subrange(
            other_accounts,
            0,
            commit_account_count as usize,
        );
        let signers = vstd::slice::slice_subrange(
            other_accounts,
            commit_account_count as usize,
            other_accounts.len(),
        );
        let program_signers = vstd::slice::slice_subrange(
            commit_accounts,
            (commit_account_count - signer_account_count) as usize,
            commit_accounts.len(),
        );
        proof {
            assert(commit_accounts@ =~= accounts@.subrange(0, commit_account_count as int));
            assert(signers@ =~= accounts@.subrange(
                commit_account_count as int,
                commit_account_count + signer_account_count,
            ));
            assert(program_signers@ =~= accounts@.subrange(
                commit_account_count - signer_account_count,
                commit_account_count as int,
            ));
        }
        match verify_signers(signers, program_signers, config_base_data.signer_bumps.as_slice()) {
            Err(e) => {
                return Err(e);
            },
            Ok(()) => {},
        }
        match config_base_data.condition.is_valid() {
            Err(e) => {
                return Err(ProgramError::from(e));
            },
            Ok(_) => {},
        }
        Ok(
            CreateCommit {
                commit_accounts,
                signers,
                starter_account,
                commit_account,
                config_base_data,
            },
        )
    }

    /// The keys of the committed accounts, in order.
    pub open spec fn spec_commit_keys(&self) -> Seq<Seq<u8>> {
        account_keys(self.commit_accounts@)
    }

    /// The hash over the keys of the committed accounts.
    pub open spec fn spec_accounts_hash(&self) -> Seq<u8> {
        sha256(account_keys(self.commit_accounts@))
    }

    /// The seeds that the record's bump is searched for: those of its
    /// address, without the bump.
    pub open spec fn spec_search_seeds(&self) -> Seq<Seq<u8>> {
        spec_search_seeds(self.commit_accounts@, self.config_base_data@)
    }

    /// The record to store under the bump `commit_bump`.
    pub open spec fn spec_record(&self, commit_bump: u8) -> ConfigView {
        spec_record(
            self.config_base_data@,
            self.starter_account.key@,
            self.signers@,
            commit_bump,
        )
    }

    /// Builds the record to store: the committed fields under the canonical
    /// bump, the key of the starter, and the keys of the authorities in
    /// their order.
    #[inline(always)]
    pub fn write_commit_account_data(&self, commit_bump: u8) -> (r: Config)
        requires
            self.wf(),
        ensures
            r@ == self.spec_record(commit_bump),
    {
        let zero: Pubkey = [0u8;32];
        let mut signer_keys: [Pubkey; CONFIG_MAX_SIGNERS] = [zero, zero, zero, zero];
        let mut i: usize = 0;
        while i < self.signers.len()
            invariant
                i <= self.signers@.len() <= CONFIG_MAX_SIGNERS,
                forall|j: int| 0 <= j < i ==> (#[trigger] signer_keys@[j]) == self.signers@[j].key,
                forall|j: int|
                    i <= j < CONFIG_MAX_SIGNERS ==> (#[trigger] signer_keys@[j]) == zero,
                zero@ =~= Seq::new(32, |j: int| 0u8),
            decreases self.signers@.len() - i,
        {
            signer_keys[i] = *self.signers[i].key();
            i += 1;
        }
        let mut base = self.config_base_data;
        base.commit_bump = [commit_bump];
        let config = Config { base, starter_key: *self.starter_account.key(), signer_keys };
        proof {
            assert(config@.signer_keys =~= self.spec_record(commit_bump).signer_keys);
        }
        config
    }

    /// Decides on the creation once the canonical bump of the record's seeds
    /// has been searched, `found` being the outcome and
    /// `commit_accounts_hash` the hash over the committed accounts: there
    /// must be such a bump, and it must lead to the address of the account
    /// that the caller designated for the record.
    pub fn process_with(&self, commit_accounts_hash: HashType, found: Option<(Pubkey, u8)>) -> (r:
        Result<CreatedCommit, ProgramError>)
        requires
            self.wf(),
        ensures
            match spec_process_with(
                self.commit_account.key@,
                match found {
                    Some((address, bump)) => Some((address@, bump)),
                    None => None,
                },
            ) {
                Ok(bump) => r matches Ok(created) && created.commit_bump == bump
                    && created.commit_accounts_hash == commit_accounts_hash && created.space
                    == Config::LEN && created.owner == ID && created.config@ == self.spec_record(
                    bump,
                ),
                Err(e) => r matches Err(err) && err == e,
            },
    {
        let (expected_commit_account, expected_commit_bump) = match found {
            Some(pair) => pair,
            None => {
                return Err(ProgramError::InvalidSeeds);
            },
        };
        if !are_keys_equal(self.commit_account.key(), &expected_commit_account) {
            return Err(ProgramError::InvalidSeeds);
        }
        Ok(
            CreatedCommit {
                commit_accounts_hash,
                commit_bump: expected_commit_bump,
                space: Config::LEN,
                owner: ID,
                config: self.write_commit_account_data(expected_commit_bump),
            },
        )
    }

    /// Mints the record's address and builds the record. The keys of the
    /// committed accounts are hashed, the canonical bump of the record's
    /// seeds is searched, and the address it leads to must be that of the
    /// account designated for the record; the record is then stored under
    /// that bump, so that its address is the one derived from what it
    /// stores.
    pub fn process(&self) -> (r: Result<CreatedCommit, ProgramError>)
        requires
            self.wf(),
        ensures
            match spec_mint(
                self.commit_accounts@,
                self.commit_account.key@,
                self.config_base_data@,
            ) {
                Err(e) => r matches Err(err) && err == e,
                Ok(bump) => r matches Ok(created) && created.commit_bump == bump
                    && created.commit_accounts_hash@ == self.spec_accounts_hash() && created.space
                    == Config::LEN && created.owner == ID && created.config@ == self.spec_record(
                    bump,
                ) && program_address(
                    created.config@.base.commit_seeds(self.spec_accounts_hash()),
                    ID@,
                ) == Ok::<Seq<u8>, PubkeyError>(self.commit_account.key@),
            },
    {
        let mut commit_accounts: Vec<&[u8]> = Vec::new();
        let mut i: usize = 0;
        while i < self.commit_accounts.len()
            invariant
                i <= self.commit_accounts@.len(),
                commit_accounts@.len() == i,
                forall|j: int|
                    0 <= j < i ==> (#[trigger] commit_accounts@[j])@
                        == self.commit_accounts@[j].key@,
            decreases self.commit_accounts@.len() - i,
        {
            commit_accounts.push(self.commit_accounts[i].key().as_slice());
            i += 1;
        }
        let commit_accounts = commit_accounts.as_slice();
        let mut commit_accounts_hash: [u8; HASH_LENGTH] = [0;HASH_LENGTH];
        proof {
            lemma_seeds_view(commit_accounts, self.spec_commit_keys());
        }
        hashv(commit_accounts, &mut commit_accounts_hash);

        let commit_seeds = match self.config_base_data.get_commit_seeds(
            commit_accounts_hash.as_slice(),
            None,
        ) {
            Ok(seeds) => seeds,
            Err(e) => {
                return Err(e);
            },
        };
        let search_seeds = vstd::slice::slice_subrange(
            commit_seeds.as_slice(),
            0,
            COMMIT_SEEDS_LEN - 1,
        );
        proof {
            lemma_seeds_view(search_seeds, self.spec_search_seeds());
        }
        let found = find_program_address(search_seeds, &ID);
        let r = self.process_with(commit_accounts_hash, found);
        proof {
            let seeds = self.spec_search_seeds();
            match found {
                None => {},
                Some((address, bump)) => {
                    lemma_canonical_address_is_canonical(seeds, ID@);
                    assert(self.spec_record(bump).base.commit_seeds(self.spec_accounts_hash())
                        =~= with_bump(seeds, bump));
                },
            }
        }
        r
    }
}

} // verus!
