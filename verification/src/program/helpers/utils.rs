//! Checks on signers, ownership and account shape that every handler shares.

use vstd::prelude::*;

use crate::account::AccountInfo;
use crate::codec::{u64_from_le, u64_from_le_slice};
use crate::program::constants::{CONFIG_MAX_SIGNERS, ID, SYSTEM_PROGRAM_ID};
use crate::program::state::config::Config;
use crate::program::state::error::{custom, ProgramError, ProgramResult, WrapperError};
use crate::pubkey::{create_program_address, program_address, Pubkey, PubkeyError};

verus! {

/// The SHA-256 digest of the concatenation of `values`.
pub uninterp spec fn sha256(values: Seq<Seq<u8>>) -> Seq<u8>;

/// Hashes `values`, one after the other, into `hash_result`.
///
/// Calls `solana_sdk::hash::hashv`. Trusted: the digest depends on the bytes
/// handed in alone; it is given the name `sha256`.
#[verifier::external_body]
#[inline(always)]
pub fn hashv(values: &[&[u8]], hash_result: &mut [u8; 32])
    ensures
        final(hash_result)@ == sha256(values.deep_view()),
{
    *hash_result = solana_sdk::hash::hashv(values).to_bytes();
}

/// The proxy accounts among the committed ones: the last `signers_count` of
/// the first `accounts_count`.
pub fn extract_program_signers<'a>(
    accounts: &'a [AccountInfo],
    signers_count: u8,
    accounts_count: u8,
) -> (r: &'a [AccountInfo])
    requires
        signers_count <= accounts_count,
        accounts_count <= accounts@.len(),
    ensures
        r@ == accounts@.subrange(accounts_count - signers_count, accounts_count as int),
{
    vstd::slice::slice_subrange(
        accounts,
        (accounts_count - signers_count) as usize,
        accounts_count as usize,
    )
}

/// The authorities: the `signers_count` accounts that follow the
/// first `accounts_count`.
pub fn extract_signers<'a>(accounts: &'a [AccountInfo], signers_count: u8, accounts_count: u8) -> (r:
    &'a [AccountInfo])
    requires
        accounts_count + signers_count <= u8::MAX,
        accounts_count + signers_count <= accounts@.len(),
    ensures
        r@ == accounts@.subrange(accounts_count as int, accounts_count + signers_count),
{
    vstd::slice::slice_subrange(
        accounts,
        accounts_count as usize,
        (accounts_count + signers_count) as usize,
    )
}

/// The seeds of the proxy that stands for `signer`.
pub open spec fn program_signer_seeds(signer: Pubkey, bump: u8) -> Seq<Seq<u8>> {
    seq![signer@, seq![bump]]
}

/// What the check of one authority against its proxy gives, `derived` being
/// the outcome of deriving the proxy's address.
pub open spec fn spec_verify_signer_with(
    signer: AccountInfo,
    program_signer: AccountInfo,
    derived: Result<Seq<u8>, PubkeyError>,
) -> ProgramResult {
    if !signer.is_signer {
        Err(ProgramError::MissingRequiredSignature)
    } else {
        match derived {
            Err(_) => Err(custom(WrapperError::InvalidSignerSeeds)),
            Ok(expected) => if expected == program_signer.key@ {
                Ok(())
            } else {
                Err(custom(WrapperError::InvalidSignerSeeds))
            },
        }
    }
}

/// What the check of one authority against its proxy and bump gives.
pub open spec fn spec_verify_signer(
    signer: AccountInfo,
    program_signer: AccountInfo,
    bump: u8,
) -> ProgramResult {
    spec_verify_signer_with(
        signer,
        program_signer,
        program_address(program_signer_seeds(signer.key, bump), ID@),
    )
}

/// The first refusal among the triples from position `from` on, or `Ok` when
/// every one of them passes. The shortest of the three lists ends the walk.
pub open spec fn spec_verify_signers_from(
    signers: Seq<AccountInfo>,
    program_signers: Seq<AccountInfo>,
    signer_bumps: Seq<u8>,
    from: int,
) -> ProgramResult
    decreases signers.len() - from,
{
    if from < 0 || from >= signers.len() || from >= program_signers.len() || from
        >= signer_bumps.len() {
        Ok(())
    } else {
        match spec_verify_signer(signers[from], program_signers[from], signer_bumps[from]) {
            Err(e) => Err(e),
            Ok(()) => spec_verify_signers_from(signers, program_signers, signer_bumps, from + 1),
        }
    }
}

/// What `verify_signers` gives.
pub open spec fn spec_verify_signers(
    signers: Seq<AccountInfo>,
    program_signers: Seq<AccountInfo>,
    signer_bumps: Seq<u8>,
) -> ProgramResult {
    if program_signers.len() > signers.len() {
        Err(ProgramError::MissingRequiredSignature)
    } else {
        spec_verify_signers_from(signers, program_signers, signer_bumps, 0)
    }
}

/// Checks one authority against its proxy, given the outcome `derived` of
/// deriving the proxy's address from the authority's key and bump: the
/// authority has signed, and the derivation gave the proxy's own address.
pub fn verify_signer_with(
    signer: &AccountInfo,
    program_signer: &AccountInfo,
    derived: Result<Pubkey, PubkeyError>,
) -> (r: ProgramResult)
    ensures
        r == spec_verify_signer_with(
            *signer,
            *program_signer,
            match derived {
                Ok(address) => Ok(address@),
                Err(e) => Err(e),
            },
        ),
{
    if !signer.is_signer() {
        return Err(ProgramError::MissingRequiredSignature);
    }
    match derived {
        Err(_) => Err(ProgramError::from(WrapperError::InvalidSignerSeeds)),
        Ok(expected_program_signer) => {
            if !are_keys_equal(&expected_program_signer, program_signer.key()) {
                return Err(ProgramError::from(WrapperError::InvalidSignerSeeds));
            }
            Ok(())
        },
    }
}

/// Checks every authority against its proxy: each has signed, and each
/// proxy's address is the one derived from the authority's key and bump.
/// The three lists are walked together, in order, up to the shortest.
pub fn verify_signers(
    signers: &[AccountInfo],
    program_signers: &[AccountInfo],
    signer_bumps: &[u8],
) -> (r: ProgramResult)
    ensures
        r == spec_verify_signers(signers@, program_signers@, signer_bumps@),
{
    if program_signers.len() > signers.len() {
        return Err(ProgramError::MissingRequiredSignature);
    }
    let mut i: usize = 0;
    while i < signers.len() && i < program_signers.len() && i < signer_bumps.len()
        invariant
            program_signers@.len() <= signers@.len(),
            spec_verify_signers_from(signers@, program_signers@, signer_bumps@, 0)
                == spec_verify_signers_from(signers@, program_signers@, signer_bumps@, i as int),
        decreases signers@.len() - i,
    {
        let signer = &signers[i];
        let program_signer = &program_signers[i];
        let bump_seed: [u8; 1] = [signer_bumps[i]];
        let seeds: [&[u8]; 2] = [signer.key().as_slice(), bump_seed.as_slice()];
        let seeds = seeds.as_slice();
        let derived = create_program_address(seeds, &ID);
        proof {
            assert(seeds.deep_view() =~~= program_signer_seeds(
                signer.key,
                signer_bumps@[i as int],
            ));
        }
        match verify_signer_with(signer, program_signer, derived) {
            Err(e) => {
                return Err(e);
            },
            Ok(()) => {},
        }
        i += 1;
    }
    Ok(())
}

/// What the check of a proxy's address against the outcome `derived` of
/// deriving it gives.
pub open spec fn spec_check_proxy_with(
    derived: Result<Seq<u8>, PubkeyError>,
    program_signer: Seq<u8>,
) -> ProgramResult {
    match derived {
        Err(_) => Err(ProgramError::InvalidSeeds),
        Ok(expected) => if expected == program_signer {
            Ok(())
        } else {
            Err(ProgramError::InvalidSeeds)
        },
    }
}

/// Checks that the derivation of a proxy's address, `derived` being its
/// outcome, gave the address `program_signer`.
pub fn check_proxy_with(derived: Result<Pubkey, PubkeyError>, program_signer: &Pubkey) -> (r:
    ProgramResult)
    ensures
        r == spec_check_proxy_with(
            match derived {
                Ok(address) => Ok(address@),
                Err(e) => Err(e),
            },
            program_signer@,
        ),
{
    match derived {
        Err(_) => Err(ProgramError::InvalidSeeds),
        Ok(expected_program_signer) => {
            if !are_keys_equal(program_signer, &expected_program_signer) {
                return Err(ProgramError::InvalidSeeds);
            }
            Ok(())
        },
    }
}

/// Whether every account of `signers` has signed and is the authority that
/// the record stores at its place. Places beyond the stored keys are not
/// looked at.
pub open spec fn spec_authorities_signed(
    signers: Seq<AccountInfo>,
    signer_keys: Seq<Seq<u8>>,
) -> bool {
    forall|i: int|
        0 <= i < signers.len() && i < signer_keys.len() ==> (#[trigger] signers[i]).is_signer
            && signers[i].key@ == signer_keys[i]
}

/// Checks the accounts `signers` against the authorities that a record
/// stores: there are as many as the record counts, and each, in the stored
/// order, has signed and has the stored key.
pub fn verify_authorities(signers: &[AccountInfo], config: &Config) -> (r: ProgramResult)
    ensures
        signers@.len() != config@.base.signer_count ==> r == Err::<(), ProgramError>(
            custom(WrapperError::InvalidAccountKeysCount),
        ),
        signers@.len() == config@.base.signer_count && !spec_authorities_signed(
            signers@,
            config@.signer_keys,
        ) ==> r == Err::<(), ProgramError>(ProgramError::MissingRequiredSignature),
        signers@.len() == config@.base.signer_count && spec_authorities_signed(
            signers@,
            config@.signer_keys,
        ) ==> r is Ok,
{
    let signer_account_count = config.base.signer_count[0] as usize;
    if signers.len() != signer_account_count {
        return Err(ProgramError::from(WrapperError::InvalidAccountKeysCount));
    }
    let mut i: usize = 0;
    while i < signers.len() && i < CONFIG_MAX_SIGNERS
        invariant
            signers@.len() == config@.base.signer_count,
            config@.signer_keys.len() == CONFIG_MAX_SIGNERS,
            forall|j: int|
                0 <= j < i ==> (#[trigger] signers@[j]).is_signer && signers@[j].key@
                    == config@.signer_keys[j],
        decreases signers@.len() - i,
    {
        let maybe_signer = &signers[i];
        if !maybe_signer.is_signer() {
            assert(!signers@[i as int].is_signer);
            return Err(ProgramError::MissingRequiredSignature);
        }
        if !are_keys_equal(maybe_signer.key(), &config.signer_keys[i]) {
            assert(signers@[i as int].key@ != config@.signer_keys[i as int]);
            return Err(ProgramError::MissingRequiredSignature);
        }
        i += 1;
    }
    Ok(())
}

/// The record account: the last one. The list must not be empty.
pub fn extract_commit_account<'a>(accounts: &'a [AccountInfo]) -> (r: &'a AccountInfo)
    requires
        accounts@.len() >= 1,
    ensures
        *r == accounts@[accounts@.len() - 1],
{
    &accounts[accounts.len() - 1]
}

/// The paying account: the last but two. The list must hold three accounts.
pub fn extract_payer_account<'a>(accounts: &'a [AccountInfo]) -> (r: &'a AccountInfo)
    requires
        accounts@.len() >= 3,
    ensures
        *r == accounts@[accounts@.len() - 3],
{
    &accounts[accounts.len() - 3]
}

/// The program account: the last but one. The list must hold two accounts.
pub fn extract_program_account<'a>(accounts: &'a [AccountInfo]) -> (r: &'a AccountInfo)
    requires
        accounts@.len() >= 2,
    ensures
        *r == accounts@[accounts@.len() - 2],
{
    &accounts[accounts.len() - 2]
}

/// The amount in a withdrawal's payload: its first eight bytes, little-endian.
pub fn extract_amount(instruction_data: &[u8]) -> (r: Result<u64, ProgramError>)
    ensures
        instruction_data@.len() >= 8 ==> r == Ok::<u64, ProgramError>(
            u64_from_le(instruction_data@.subrange(0, 8)),
        ),
        instruction_data@.len() < 8 ==> r == Err::<u64, ProgramError>(
            ProgramError::InvalidInstructionData,
        ),
{
    if instruction_data.len() < 8 {
        return Err(ProgramError::InvalidInstructionData);
    }
    Ok(u64_from_le_slice(instruction_data, 0))
}

/// The bump in a withdrawal's payload: the byte at position 8.
pub fn extract_bump(instruction_data: &[u8]) -> (r: Result<u8, ProgramError>)
    ensures
        instruction_data@.len() > 8 ==> r == Ok::<u8, ProgramError>(instruction_data@[8]),
        instruction_data@.len() <= 8 ==> r == Err::<u8, ProgramError>(
            ProgramError::InvalidInstructionData,
        ),
{
    if instruction_data.len() <= 8 {
        return Err(ProgramError::InvalidInstructionData);
    }
    Ok(instruction_data[8])
}

/// The decimals in a token withdrawal's payload: the byte at position 9.
pub fn extract_decimals(instruction_data: &[u8]) -> (r: Result<u8, ProgramError>)
    ensures
        instruction_data@.len() > 9 ==> r == Ok::<u8, ProgramError>(instruction_data@[9]),
        instruction_data@.len() <= 9 ==> r == Err::<u8, ProgramError>(
            ProgramError::InvalidInstructionData,
        ),
{
    if instruction_data.len() <= 9 {
        return Err(ProgramError::InvalidInstructionData);
    }
    Ok(instruction_data[9])
}

/// Whether two addresses are the same, byte for byte.
pub fn are_keys_equal(first: &Pubkey, second: &Pubkey) -> (r: bool)
    ensures
        r == (first@ == second@),
        r == (*first == *second),
{
    crate::pubkey::are_keys_equal(first, second)
}

/// What `is_program_account` gives.
pub open spec fn spec_is_program_account(
    account: AccountInfo,
    data_len: usize,
    owner: Pubkey,
) -> ProgramResult {
    if account.lamports == 0 {
        Err(ProgramError::UninitializedAccount)
    } else if account.data@.len() != data_len {
        Err(ProgramError::InvalidAccountData)
    } else if account.owner != owner {
        Err(ProgramError::IncorrectProgramId)
    } else {
        Ok(())
    }
}

/// Checks that `account` exists, holds exactly `data_len` bytes and belongs
/// to `owner`, in that order.
#[inline(always)]
pub fn is_program_account(account: &AccountInfo, data_len: usize, owner: &Pubkey) -> (r:
    ProgramResult)
    ensures
        r == spec_is_program_account(*account, data_len, *owner),
{
    if account.lamports() == 0 {
        return Err(ProgramError::UninitializedAccount);
    }
    if account.data_len() != data_len {
        return Err(ProgramError::InvalidAccountData);
    }
    if !are_keys_equal(account.owner(), owner) {
        return Err(ProgramError::IncorrectProgramId);
    }
    Ok(())
}

/// Checks that `account` has signed.
#[inline(always)]
pub fn is_signer(account: &AccountInfo) -> (r: ProgramResult)
    ensures
        account.is_signer ==> r is Ok,
        !account.is_signer ==> r == Err::<(), ProgramError>(
            ProgramError::MissingRequiredSignature,
        ),
{
    if !account.is_signer() {
        return Err(ProgramError::MissingRequiredSignature);
    }
    Ok(())
}

/// Refuses an account that was never set up: no data, no balance, and still
/// owned by the system program.
#[inline(always)]
pub fn is_unitialized(account: &AccountInfo) -> (r: ProgramResult)
    ensures
        r is Err <==> account.data@.len() == 0 && account.lamports == 0 && account.owner
            == SYSTEM_PROGRAM_ID,
        r is Err ==> r == Err::<(), ProgramError>(ProgramError::UninitializedAccount),
{
    if account.data_is_empty() && account.lamports() == 0 && account.is_owned_by(
        &SYSTEM_PROGRAM_ID,
    ) {
        return Err(ProgramError::UninitializedAccount);
    }
    Ok(())
}

} // verus!
