//! What holds of a record from its creation to its closing.

use vstd::prelude::*;

use crate::account::AccountInfo;
use crate::program::constants::{CONFIG_MAX_ACCOUNTS, ID};
use crate::program::handlers::change_commit_condition::spec_changed_record;
use crate::program::handlers::create_commit::{account_keys, spec_create, spec_search_seeds};
use crate::program::handlers::entry::{
    indexed_keys, indices_in_range, spec_entry_record, spec_trigger, spec_trigger_seeds,
    InvocationView,
};
use crate::program::helpers::utils::sha256;
use crate::program::state::config::{
    commit_type_of, ConfigBaseView, ConfigView, DataCommitTypeEnum,
};
use crate::program::state::error::{ProgramError, WrapperError};
use crate::pubkey::{
    lemma_canonical_address_is_canonical, program_address, with_bump, PubkeyError,
};

verus! {

/// A record that a creation stores lives at the address that its own fields
/// lead to.
pub proof fn lemma_created_record_lives_at_its_address(accounts: Seq<AccountInfo>, data: Seq<u8>)
    requires
        spec_create(accounts, data) is Ok,
    ensures
        ({
            let record = spec_create(accounts, data)->Ok_0.1;
            let committed = accounts.subrange(0, record.base.account_count as int);
            record.base.address(sha256(account_keys(committed))) == Ok::<Seq<u8>, PubkeyError>(
                accounts[accounts.len() - 1].key@,
            )
        }),
{
    let base = ConfigBaseView::decode(data)->Some_0;
    let record = spec_create(accounts, data)->Ok_0.1;
    let bump = spec_create(accounts, data)->Ok_0.0;
    let committed = accounts.subrange(0, base.account_count as int);
    let seeds = spec_search_seeds(committed, base);
    lemma_canonical_address_is_canonical(seeds, ID@);
    assert(record.base.commit_seeds(sha256(account_keys(committed))) =~= with_bump(seeds, bump));
}

/// A trigger that presents what was committed is bound to the record: where
/// the accounts handed on hold, at the positions that the record stores, the
/// committed accounts, and the payload satisfies the commitment, the address
/// derived anew is that of a record that lives at the address its fields lead
/// to, whatever its condition has become. Such a trigger is refused only
/// where there is nothing to hand on, too much, or the record counts more
/// authorities than it can hold.
pub proof fn lemma_matching_trigger_is_bound(
    program_accounts: Seq<AccountInfo>,
    commit_key: Seq<u8>,
    program_data: Seq<u8>,
    record: ConfigView,
    committed_keys: Seq<Seq<u8>>,
)
    requires
        record.base.account_count <= CONFIG_MAX_ACCOUNTS,
        indices_in_range(
            program_accounts,
            record.base.account_indices,
            record.base.account_count as int,
        ),
        indexed_keys(
            program_accounts,
            record.base.account_indices,
            record.base.account_count as int,
        ) == committed_keys,
        record.base.check_data(program_data) is Ok,
        record.base.address(sha256(committed_keys)) == Ok::<Seq<u8>, PubkeyError>(commit_key),
    ensures
        spec_trigger_seeds(program_accounts, program_data, record.base) == Ok::<
            Seq<Seq<u8>>,
            ProgramError,
        >(record.base.commit_seeds(sha256(committed_keys))),
        spec_trigger(program_accounts, commit_key, program_data, record) matches Err(e) ==> e
            == ProgramError::NotEnoughAccountKeys || e == ProgramError::InvalidArgument || e
            == ProgramError::InvalidAccountData,
        spec_trigger(program_accounts, commit_key, program_data, record) matches Err(e) ==> e
            != ProgramError::InvalidSeeds,
{
}

/// What was not committed is refused: a trigger whose accounts or payload
/// lead to another address than that of the record's account, or to none,
/// is refused.
pub proof fn lemma_mismatching_trigger_is_refused(
    program_accounts: Seq<AccountInfo>,
    commit_key: Seq<u8>,
    program_data: Seq<u8>,
    record: ConfigView,
)
    requires
        spec_trigger_seeds(program_accounts, program_data, record.base) matches Ok(seeds)
            && program_address(seeds, ID@) != Ok::<Seq<u8>, PubkeyError>(commit_key),
    ensures
        spec_trigger(program_accounts, commit_key, program_data, record) == Err::<
            InvocationView,
            ProgramError,
        >(ProgramError::InvalidSeeds),
{
}

/// A committed range binds the payload: where a record commits to a range
/// of bytes, a payload that reaches the end of the range but whose bytes in
/// the range hash to another value than the committed one is refused,
/// whatever its length and whatever the accounts.
pub proof fn lemma_payload_is_bound(
    program_accounts: Seq<AccountInfo>,
    commit_key: Seq<u8>,
    program_data: Seq<u8>,
    record: ConfigView,
)
    requires
        commit_type_of(record.base.commit_type) == Ok::<DataCommitTypeEnum, WrapperError>(
            DataCommitTypeEnum::Data,
        ),
        program_data.len() >= record.base.data_offset + record.base.data_length,
        sha256(
            seq![
                program_data.subrange(
                    record.base.data_offset as int,
                    record.base.data_offset + record.base.data_length,
                ),
            ],
        ) != record.base.data_hash,
    ensures
        record.base.check_data(program_data) == Err::<(), ProgramError>(
            ProgramError::InvalidInstructionData,
        ),
        spec_trigger(program_accounts, commit_key, program_data, record) is Err,
{
}

/// A trigger changes nothing of a record but its condition's payload, and a
/// change of condition nothing but the condition: the address that the
/// record's fields lead to stays where it was.
pub proof fn lemma_record_keeps_its_address(
    accounts: Seq<AccountInfo>,
    data: Seq<u8>,
    now: i64,
    commit_accounts_hash: Seq<u8>,
)
    requires
        accounts.len() >= 1,
    ensures
        ({
            let stored = ConfigView::decode(accounts[accounts.len() - 1].data@)->Some_0;
            &&& spec_entry_record(accounts, now).base.address(commit_accounts_hash)
                == stored.base.address(commit_accounts_hash)
            &&& spec_entry_record(accounts, now).starter_key == stored.starter_key
            &&& spec_entry_record(accounts, now).signer_keys == stored.signer_keys
            &&& spec_changed_record(accounts, data).base.address(commit_accounts_hash)
                == stored.base.address(commit_accounts_hash)
            &&& spec_changed_record(accounts, data).starter_key == stored.starter_key
            &&& spec_changed_record(accounts, data).signer_keys == stored.signer_keys
        }),
{
}

} // verus!
