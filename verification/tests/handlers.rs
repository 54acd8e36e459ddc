use commit_wrapper::account::AccountInfo;
use commit_wrapper::program::constants::{ID, SYSTEM_PROGRAM_ID};
use commit_wrapper::program::handlers::change_commit_condition::ChangeCommit;
use commit_wrapper::program::handlers::close_commit::{CloseCommit, ClosedCommit};
use commit_wrapper::program::handlers::create_commit::CreateCommit;
use commit_wrapper::program::handlers::entry::Entry;
use commit_wrapper::program::handlers::withdraw_native::WithdrawNative;
use commit_wrapper::program::handlers::withdraw_token::WithdrawToken;
use commit_wrapper::program::helpers::utils::{
    check_proxy_with, extract_amount, extract_bump, extract_commit_account, extract_decimals,
    extract_payer_account, extract_program_account, extract_program_signers, extract_signers,
    hashv, is_program_account, is_signer, is_unitialized, verify_authorities, verify_signer_with,
    verify_signers,
};
use commit_wrapper::program::state::condition::CommitCondition;
use commit_wrapper::program::state::config::{Config, ConfigBase, DataCommitType, DataCommitTypeEnum};
use commit_wrapper::program::state::error::{ProgramError, WrapperError};
use commit_wrapper::program::{process_instruction, InstructionTag, Outcome};
use commit_wrapper::pubkey::{find_program_address, Pubkey, PubkeyError};

const TARGET: Pubkey = [6; 32];

fn custom(error: WrapperError) -> ProgramError {
    ProgramError::Custom(error.code())
}

fn account(key: Pubkey, is_signer: bool) -> AccountInfo {
    AccountInfo {
        key,
        owner: SYSTEM_PROGRAM_ID,
        lamports: 1_000,
        data: Vec::new(),
        is_signer,
        is_writable: false,
    }
}

fn create_program_address(seeds: &[&[u8]], program: &Pubkey) -> Result<Pubkey, ()> {
    let program = solana_sdk::pubkey::Pubkey::new_from_array(*program);
    solana_sdk::pubkey::Pubkey::create_program_address(seeds, &program)
        .map(|address| address.to_bytes())
        .map_err(|_| ())
}

fn proxy(signer: &Pubkey) -> (Pubkey, u8) {
    find_program_address(&[signer], &ID).expect("no proxy")
}

/// The packed fields of a creation for the given counts and bumps.
fn fields(account_count: u8, signer_count: u8, signer_bumps: [u8; 4], tag: u8) -> Vec<u8> {
    ConfigBase {
        account_count: [account_count],
        account_indices: [0, 1, 2, 3, 4, 5, 6, 7],
        signer_count: [signer_count],
        signer_bumps,
        instruction_data_commit_type: DataCommitType::from(DataCommitTypeEnum::AnyData),
        instruction_data_length: [0, 0],
        instruction_data_offset: [0, 0],
        instruction_data_hash: [0; 32],
        commit_bump: [0],
        condition: CommitCondition { tag, data: [2, 0, 0, 0, 0, 0, 0, 0, 0, 0, 0, 0, 0, 0, 0, 0, 0, 0, 0, 0] },
    }
    .to_bytes()
}

/// The accounts of a creation with one non-signer and the given authorities:
/// the non-signer, the target program, the proxies, the authorities, the
/// starter, the system program, and the record's account.
fn creation(signers: &[Pubkey], record: Pubkey) -> (Vec<AccountInfo>, [u8; 4]) {
    let mut accounts = vec![account([40; 32], false), account(TARGET, false)];
    let mut bumps = [0u8; 4];
    for (at, signer) in signers.iter().enumerate() {
        let (address, bump) = proxy(signer);
        accounts.push(account(address, false));
        bumps[at] = bump;
    }
    for signer in signers {
        accounts.push(account(*signer, true));
    }
    accounts.push(account([50; 32], true));
    accounts.push(account(SYSTEM_PROGRAM_ID, false));
    accounts.push(account(record, false));
    (accounts, bumps)
}

/// The address and the bump of the record that a creation with these
/// accounts and fields mints.
fn minted(accounts: &[AccountInfo], data: &[u8]) -> (Pubkey, u8) {
    let base = ConfigBase::from_bytes(data).unwrap();
    let count = base.account_count[0] as usize;
    let keys: Vec<&[u8]> = accounts[..count].iter().map(|account| &account.key[..]).collect();
    let mut hash = [0u8; 32];
    hashv(&keys, &mut hash);
    let seeds = base.get_commit_seeds(&hash, None).unwrap();
    find_program_address(&seeds[..6], &ID).expect("no address")
}

fn try_create(accounts: &[AccountInfo], data: &[u8]) -> Result<(), ProgramError> {
    CreateCommit::try_from((accounts, data)).map(|_| ())
}

#[test]
fn a_creation_with_too_few_or_too_many_accounts_is_refused() {
    let (accounts, bumps) = creation(&[[41; 32]], [0; 32]);
    for account_count in [0u8, 1, 2, 9, 10, 255] {
        assert_eq!(
            try_create(&accounts, &fields(account_count, 1, bumps, 1)),
            Err(custom(WrapperError::InvalidAccountCount))
        );
    }
    assert_eq!(try_create(&accounts, &fields(2, 1, bumps, 1)), Err(ProgramError::Custom(6)));
    assert_eq!(try_create(&accounts, &fields(9, 1, bumps, 1)), Err(ProgramError::Custom(6)));
    // The account count is looked at before the signer count.
    assert_eq!(try_create(&accounts, &fields(2, 0, bumps, 1)), Err(ProgramError::Custom(6)));
}

#[test]
fn a_creation_with_no_signer_or_too_many_is_refused() {
    let (accounts, bumps) = creation(&[[41; 32]], [0; 32]);
    for signer_count in [0u8, 5, 6, 255] {
        assert_eq!(
            try_create(&accounts, &fields(8, signer_count, bumps, 1)),
            Err(custom(WrapperError::InvalidSignerCount))
        );
    }
    assert_eq!(try_create(&accounts, &fields(3, 0, bumps, 1)), Err(ProgramError::Custom(7)));
    assert_eq!(try_create(&accounts, &fields(8, 5, bumps, 1)), Err(ProgramError::Custom(7)));
}

#[test]
fn a_creation_with_as_many_signers_as_accounts_is_refused() {
    let (accounts, bumps) = creation(&[[41; 32]], [0; 32]);
    for (account_count, signer_count) in [(3u8, 3u8), (3, 4), (4, 4)] {
        assert_eq!(
            try_create(&accounts, &fields(account_count, signer_count, bumps, 1)),
            Err(custom(WrapperError::InvalidSignerCount))
        );
    }
}

#[test]
fn a_creation_is_checked_in_order() {
    let signer = [41; 32];
    let (accounts, bumps) = creation(&[signer], [0; 32]);
    let data = fields(3, 1, bumps, 1);
    assert_eq!(try_create(&accounts, &data), Ok(()));

    assert_eq!(try_create(&accounts[..2], &data), Err(ProgramError::NotEnoughAccountKeys));
    assert_eq!(try_create(&[], &data), Err(ProgramError::NotEnoughAccountKeys));
    assert_eq!(try_create(&accounts, &data[..72]), Err(ProgramError::InvalidInstructionData));
    assert_eq!(try_create(&accounts, &[]), Err(ProgramError::InvalidInstructionData));

    // One account too many, one too few.
    let mut more = accounts.clone();
    more.insert(0, account([70; 32], false));
    assert_eq!(try_create(&more, &data), Err(custom(WrapperError::InvalidAccountKeysCount)));
    assert_eq!(try_create(&accounts[1..], &data), Err(ProgramError::Custom(13)));

    // The starter has not signed.
    let mut unsigned = accounts.clone();
    unsigned[4].is_signer = false;
    assert_eq!(try_create(&unsigned, &data), Err(ProgramError::MissingRequiredSignature));

    // The authority has not signed.
    let mut unsigned = accounts.clone();
    unsigned[3].is_signer = false;
    assert_eq!(try_create(&unsigned, &data), Err(ProgramError::MissingRequiredSignature));

    // The proxy is not the authority's.
    let mut other = accounts.clone();
    other[2].key = [71; 32];
    assert_eq!(try_create(&other, &data), Err(custom(WrapperError::InvalidSignerSeeds)));
    assert_eq!(try_create(&other, &data), Err(ProgramError::Custom(9)));

    // The bump is not the proxy's.
    let mut wrong = bumps;
    wrong[0] = wrong[0].wrapping_sub(1);
    assert_eq!(
        try_create(&accounts, &fields(3, 1, wrong, 1)),
        Err(custom(WrapperError::InvalidSignerSeeds))
    );

    // The condition's tag names no rule.
    assert_eq!(
        try_create(&accounts, &fields(3, 1, bumps, 8)),
        Err(custom(WrapperError::InvalidCommitConditionTag))
    );
    // A condition that is not set may be stored.
    assert_eq!(try_create(&accounts, &fields(3, 1, bumps, 0)), Ok(()));
}

#[test]
fn a_creation_stores_the_record_under_its_canonical_bump() {
    let signers = [[41; 32], [42; 32]];
    let (mut accounts, bumps) = creation(&signers, [0; 32]);
    let data = fields(4, 2, bumps, 1);
    let (address, bump) = minted(&accounts, &data);
    let last = accounts.len() - 1;

    // Any other account than the one at the record's address is refused.
    let create = CreateCommit::try_from((&accounts[..], &data[..])).unwrap();
    assert_eq!(create.process().unwrap_err(), ProgramError::InvalidSeeds);
    assert_eq!(
        create.process_with([0; 32], Some((address, bump))).unwrap_err(),
        ProgramError::InvalidSeeds
    );
    assert_eq!(create.process_with([0; 32], None).unwrap_err(), ProgramError::InvalidSeeds);

    accounts[last].key = address;
    let create = CreateCommit::try_from((&accounts[..], &data[..])).unwrap();
    assert_eq!(create.commit_accounts.len(), 4);
    assert_eq!(create.signers.len(), 2);
    assert_eq!(create.starter_account.key, [50; 32]);
    assert_eq!(create.commit_account.key, address);
    let created = create.process().unwrap();
    assert_eq!(created.commit_bump, bump);
    assert_eq!(created.config.base.commit_bump, [bump]);
    assert_eq!(created.config.starter_key, [50; 32]);
    assert_eq!(created.config.signer_keys, [[41; 32], [42; 32], [0; 32], [0; 32]]);
    assert_eq!(created.config.base.signer_bumps, bumps);
    assert_eq!(created.config.base.account_count, [4]);
    assert_eq!(created.config.base.condition.tag, 1);

    // The record lives at the address that its own fields lead to.
    let seeds = created.config.base.get_commit_seeds(&created.commit_accounts_hash, None).unwrap();
    assert_eq!(create_program_address(&seeds, &ID), Ok(address));
    let written = create.write_commit_account_data(bump);
    assert_eq!(written.to_bytes(), created.config.to_bytes());

    // Through the dispatch, with the tag of the operation after the fields.
    let mut tagged = data.clone();
    tagged.push(1);
    match process_instruction(&ID, &accounts, &tagged, 0).unwrap() {
        Outcome::CreateCommit(same) => assert_eq!(same.config.to_bytes(), created.config.to_bytes()),
        other => panic!("{:?}", other),
    }
}

/// A stored record with one authority, for the accounts `[other, proxy,
/// target]` at the positions `[0, 2(target), 1]`, and the accounts of a
/// trigger for it.
fn triggered(condition: CommitCondition, kind: DataCommitTypeEnum) -> (Vec<AccountInfo>, Config) {
    let signer = [41; 32];
    let starter = [50; 32];
    let (address, bump) = proxy(&signer);
    let mut base = ConfigBase::from_bytes(&fields(3, 1, [bump, 0, 0, 0], 1)).unwrap();
    base.account_indices = [0, 2, 1, 0, 0, 0, 0, 0];
    base.condition = condition;
    base.instruction_data_commit_type = DataCommitType::from(kind);
    let mut hash = [0u8; 32];
    hashv(&[&[40u8; 32], &TARGET, &address], &mut hash);
    let seeds = base.get_commit_seeds(&hash, None).unwrap();
    let (record, commit_bump) = find_program_address(&seeds[..6], &ID).unwrap();
    base.commit_bump = [commit_bump];
    let config =
        Config { base, starter_key: starter, signer_keys: [signer, [0; 32], [0; 32], [0; 32]] };
    let mut writable = account([40; 32], false);
    writable.is_writable = true;
    let accounts = vec![
        writable,
        account(address, false),
        account(TARGET, false),
        account(starter, true),
        AccountInfo {
            key: record,
            owner: ID,
            lamports: 5_000,
            data: config.to_bytes(),
            is_signer: false,
            is_writable: true,
        },
    ];
    (accounts, config)
}

fn count_of(n: u32) -> CommitCondition {
    let mut data = [0u8; 20];
    data[..4].copy_from_slice(&n.to_le_bytes());
    CommitCondition { tag: 1, data }
}

fn try_entry(accounts: &[AccountInfo], data: &[u8], now: i64) -> Result<(), ProgramError> {
    Entry::try_from((accounts, data), now).map(|_| ())
}

#[test]
fn a_trigger_is_checked_in_order() {
    let (accounts, _) = triggered(count_of(2), DataCommitTypeEnum::NoData);
    assert_eq!(try_entry(&accounts, &[], 0), Ok(()));
    assert_eq!(try_entry(&accounts[..1], &[], 0), Err(ProgramError::NotEnoughAccountKeys));
    assert_eq!(try_entry(&[], &[], 0), Err(ProgramError::NotEnoughAccountKeys));

    let last = accounts.len() - 1;
    let mut empty = accounts.clone();
    empty[last].lamports = 0;
    assert_eq!(try_entry(&empty, &[], 0), Err(ProgramError::UninitializedAccount));
    let mut short = accounts.clone();
    short[last].data.pop();
    assert_eq!(try_entry(&short, &[], 0), Err(ProgramError::InvalidAccountData));
    let mut foreign = accounts.clone();
    foreign[last].owner = SYSTEM_PROGRAM_ID;
    assert_eq!(try_entry(&foreign, &[], 0), Err(ProgramError::IncorrectProgramId));

    let mut unsigned = accounts.clone();
    unsigned[3].is_signer = false;
    assert_eq!(try_entry(&unsigned, &[], 0), Err(ProgramError::MissingRequiredSignature));
    let mut stranger = accounts.clone();
    stranger[3].key = [51; 32];
    assert_eq!(try_entry(&stranger, &[], 0), Err(ProgramError::MissingRequiredSignature));

    assert_eq!(try_entry(&accounts, &[1], 0), Err(ProgramError::InvalidInstructionData));

    let mut fewer = accounts.clone();
    fewer.remove(0);
    assert_eq!(try_entry(&fewer, &[], 0), Err(ProgramError::NotEnoughAccountKeys));

    let (exhausted, _) = triggered(count_of(0), DataCommitTypeEnum::NoData);
    assert_eq!(try_entry(&exhausted, &[], 0), Err(custom(WrapperError::CountExhausted)));
    let (unset, _) =
        triggered(CommitCondition { tag: 0, data: [0; 20] }, DataCommitTypeEnum::NoData);
    assert_eq!(try_entry(&unset, &[], 0), Err(custom(WrapperError::ConditionNotSet)));
}

#[test]
fn a_trigger_hands_on_what_was_committed() {
    let (accounts, config) = triggered(count_of(2), DataCommitTypeEnum::AnyData);
    let payload = [1u8, 2, 3];
    let entry = Entry::try_from((&accounts[..], &payload[..]), 0).unwrap();
    assert_eq!(entry.program_accounts.len(), 3);
    assert_eq!(entry.config_data.base.condition.data[..4], [1, 0, 0, 0]);
    assert_eq!(entry.config_data.starter_key, config.starter_key);

    let made = entry.process().unwrap();
    assert_eq!(made.program_id, TARGET);
    assert_eq!(made.data, &payload[..]);
    assert_eq!(made.accounts.len(), 2);
    assert_eq!(made.accounts[0].pubkey, [40; 32]);
    assert!(made.accounts[0].is_writable);
    assert!(!made.accounts[0].is_signer);
    assert_eq!(made.accounts[1].pubkey, accounts[1].key);
    assert!(!made.accounts[1].is_writable);
    assert_eq!(made.signers.len(), 1);
    assert_eq!(made.signers[0].signer_key, [41; 32]);
    assert_eq!(made.signers[0].bump, config.base.signer_bumps[0]);
    // The proxy that signs is the one that the instruction names.
    assert_eq!(
        create_program_address(&[&made.signers[0].signer_key, &[made.signers[0].bump]], &ID),
        Ok(made.accounts[1].pubkey)
    );

    // The outcome of the derivation decides.
    assert!(entry.invoke_with(Ok(accounts[4].key)).is_ok());
    assert_eq!(entry.invoke_with(Ok([0; 32])).unwrap_err(), ProgramError::InvalidSeeds);
    assert_eq!(
        entry.invoke_with(Err(PubkeyError::InvalidSeeds)).unwrap_err(),
        ProgramError::InvalidSeeds
    );
    assert_eq!(
        entry.invoke_with(Err(PubkeyError::MaxSeedLengthExceeded)).unwrap_err(),
        ProgramError::InvalidSeeds
    );
}

#[test]
fn a_trigger_with_other_accounts_is_refused() {
    let (accounts, _) = triggered(count_of(2), DataCommitTypeEnum::AnyData);
    for at in 0..3 {
        let mut other = accounts.clone();
        other[at].key = [90 + at as u8; 32];
        let entry = Entry::try_from((&other[..], &[][..]), 0).unwrap();
        assert_eq!(entry.process().unwrap_err(), ProgramError::InvalidSeeds);
    }
    // The same accounts in another order.
    let mut swapped = accounts.clone();
    swapped.swap(0, 1);
    let entry = Entry::try_from((&swapped[..], &[][..]), 0).unwrap();
    assert_eq!(entry.process().unwrap_err(), ProgramError::InvalidSeeds);
    // Another record's account.
    let mut other = accounts.clone();
    other[4].key = [91; 32];
    let entry = Entry::try_from((&other[..], &[][..]), 0).unwrap();
    assert_eq!(entry.process().unwrap_err(), ProgramError::InvalidSeeds);
    // More accounts than were committed are handed on as they are.
    let mut more = accounts.clone();
    more.insert(2, account([92; 32], false));
    let entry = Entry::try_from((&more[..], &[][..]), 0).unwrap();
    assert_eq!(entry.process().unwrap_err(), ProgramError::InvalidSeeds);
}

#[test]
fn a_trigger_whose_positions_name_no_account_is_refused() {
    let (mut accounts, mut config) = triggered(count_of(2), DataCommitTypeEnum::AnyData);
    config.base.account_indices = [0, 3, 1, 0, 0, 0, 0, 0];
    accounts[4].data = config.to_bytes();
    let entry = Entry::try_from((&accounts[..], &[][..]), 0).unwrap();
    assert_eq!(entry.process().unwrap_err(), ProgramError::NotEnoughAccountKeys);
}

#[test]
fn a_malformed_record_is_refused() {
    let (mut accounts, mut config) = triggered(count_of(2), DataCommitTypeEnum::AnyData);
    config.base.account_count = [9];
    accounts[4].data = config.to_bytes();
    for _ in 0..6 {
        accounts.insert(0, account([93; 32], false));
    }
    let entry = Entry::try_from((&accounts[..], &[][..]), 0).unwrap();
    assert_eq!(entry.process().unwrap_err(), ProgramError::InvalidAccountData);

    let (accounts, mut config) = triggered(count_of(2), DataCommitTypeEnum::AnyData);
    config.base.signer_count = [5];
    let entry = Entry {
        program_accounts: &accounts[..3],
        commit_account: &accounts[4],
        program_data: &[],
        config_data: config,
    };
    assert_eq!(entry.invoke_with(Ok(accounts[4].key)).unwrap_err(), ProgramError::InvalidAccountData);
    let nothing = Entry {
        program_accounts: &[],
        commit_account: &accounts[4],
        program_data: &[],
        config_data: config,
    };
    assert_eq!(
        nothing.invoke_with(Ok(accounts[4].key)).unwrap_err(),
        ProgramError::NotEnoughAccountKeys
    );
    let crowd: Vec<AccountInfo> = (0..65).map(|at| account([at as u8; 32], false)).collect();
    let many = Entry {
        program_accounts: &crowd,
        commit_account: &accounts[4],
        program_data: &[],
        config_data: config,
    };
    assert_eq!(many.invoke_with(Ok(accounts[4].key)).unwrap_err(), ProgramError::InvalidArgument);
}

#[test]
fn sixty_four_accounts_can_be_handed_on() {
    let (accounts, mut config) = triggered(count_of(2), DataCommitTypeEnum::AnyData);
    config.base.signer_count = [4];
    let crowd: Vec<AccountInfo> = (0..64).map(|at| account([at as u8; 32], at % 2 == 0)).collect();
    let entry = Entry {
        program_accounts: &crowd,
        commit_account: &accounts[4],
        program_data: &[7],
        config_data: config,
    };
    let made = entry.invoke_with(Ok(accounts[4].key)).unwrap();
    assert_eq!(made.accounts.len(), 63);
    assert_eq!(made.program_id, [63; 32]);
    for (at, meta) in made.accounts.iter().enumerate() {
        assert_eq!(meta.pubkey, [at as u8; 32]);
        assert_eq!(meta.is_signer, at % 2 == 0);
        assert!(!meta.is_writable);
    }
    assert_eq!(made.signers.len(), 4);
    assert_eq!(made.signers[3].signer_key, [0; 32]);
}

#[test]
fn a_change_of_condition_is_checked_in_order() {
    let (accounts, config) = triggered(count_of(2), DataCommitTypeEnum::AnyData);
    let record = accounts[4].clone();
    let signer = account([41; 32], true);
    let new_condition = count_of(10).to_bytes();

    let given = [signer.clone(), record.clone()];
    let mut change = ChangeCommit::try_from((&given[..], &new_condition[..])).unwrap();
    assert_eq!(change.signers.len(), 1);
    assert_eq!(change.process(), Ok(()));
    let mut expected = config;
    expected.base.condition = count_of(10);
    assert_eq!(change.config_data.to_bytes(), expected.to_bytes());

    let refused = |accounts: &[AccountInfo], data: &[u8]| {
        ChangeCommit::try_from((accounts, data)).map(|_| ()).unwrap_err()
    };
    assert_eq!(refused(&[], &new_condition), ProgramError::NotEnoughAccountKeys);
    let mut foreign = record.clone();
    foreign.owner = [1; 32];
    assert_eq!(refused(&[signer.clone(), foreign], &new_condition), ProgramError::IncorrectProgramId);
    assert_eq!(refused(&given, &new_condition[..20]), ProgramError::InvalidInstructionData);
    assert_eq!(refused(&given, &[]), ProgramError::InvalidInstructionData);
    assert_eq!(refused(&[record.clone()], &new_condition), custom(WrapperError::InvalidAccountKeysCount));
    assert_eq!(
        refused(&[signer.clone(), signer.clone(), record.clone()], &new_condition),
        ProgramError::Custom(13)
    );
    let mut unsigned = signer.clone();
    unsigned.is_signer = false;
    assert_eq!(refused(&[unsigned, record.clone()], &new_condition), ProgramError::MissingRequiredSignature);
    assert_eq!(
        refused(&[account([42; 32], true), record.clone()], &new_condition),
        ProgramError::MissingRequiredSignature
    );
    let mut unknown = new_condition;
    unknown[0] = 8;
    assert_eq!(refused(&given, &unknown), custom(WrapperError::InvalidCommitConditionTag));

    // Through the dispatch, with the tag of the operation after the condition.
    let mut tagged = new_condition.to_vec();
    tagged.push(2);
    match process_instruction(&ID, &given, &tagged, 0).unwrap() {
        Outcome::ChangeCommit(record) => assert_eq!(record.to_bytes(), expected.to_bytes()),
        other => panic!("{:?}", other),
    }
}

#[test]
fn a_closing_sweeps_the_whole_balance() {
    let (accounts, _) = triggered(count_of(2), DataCommitTypeEnum::AnyData);
    let record = accounts[4].clone();
    let signer = account([41; 32], true);
    let mut recipient = account([60; 32], false);
    recipient.lamports = 7;

    let given = [signer.clone(), recipient.clone(), record.clone()];
    let close = CloseCommit::try_from(&given[..]).unwrap();
    assert_eq!(
        close.process(),
        Ok(ClosedCommit {
            recipient_lamports: 5_007,
            commit_lamports: 0,
            commit_space: 0,
            commit_owner: SYSTEM_PROGRAM_ID,
        })
    );
    assert_eq!(
        process_instruction(&ID, &given, &[6], 0).map(|outcome| match outcome {
            Outcome::CloseCommit(closed) => closed.recipient_lamports,
            _ => 0,
        }),
        Ok(5_007)
    );

    let refused = |accounts: &[AccountInfo]| CloseCommit::try_from(accounts).map(|_| ()).unwrap_err();
    assert_eq!(refused(&given[2..]), ProgramError::NotEnoughAccountKeys);
    assert_eq!(refused(&given[1..]), custom(WrapperError::InvalidAccountKeysCount));
    let mut unsigned = signer.clone();
    unsigned.is_signer = false;
    assert_eq!(
        refused(&[unsigned, recipient.clone(), record.clone()]),
        ProgramError::MissingRequiredSignature
    );
    assert_eq!(
        refused(&[account([42; 32], true), recipient.clone(), record.clone()]),
        ProgramError::MissingRequiredSignature
    );
    assert_eq!(refused(&[signer.clone(), record.clone(), recipient.clone()]), ProgramError::InvalidAccountData);

    let mut rich = recipient.clone();
    rich.lamports = u64::MAX - 4_999;
    let given = [signer, rich, record];
    let close = CloseCommit::try_from(&given[..]).unwrap();
    assert_eq!(close.process(), Err(ProgramError::ArithmeticOverflow));
}

#[test]
fn a_native_withdrawal_goes_back_to_the_authority() {
    let signer = [41; 32];
    let (address, bump) = proxy(&signer);
    let accounts = [account(signer, true), account(address, false), account(SYSTEM_PROGRAM_ID, false)];
    let mut data = 1_000_000u64.to_le_bytes().to_vec();
    data.push(bump);
    let withdraw = WithdrawNative::try_from((&accounts[..], &data[..])).unwrap();
    assert_eq!(withdraw.amount, 1_000_000);
    assert_eq!(withdraw.bump, [bump]);
    let transfer = withdraw.process().unwrap();
    assert_eq!(transfer.from, address);
    assert_eq!(transfer.to, signer);
    assert_eq!(transfer.lamports, 1_000_000);
    assert_eq!((transfer.signer.signer_key, transfer.signer.bump), (signer, bump));

    let refused = |accounts: &[AccountInfo], data: &[u8]| {
        WithdrawNative::try_from((accounts, data)).map(|_| ()).unwrap_err()
    };
    assert_eq!(refused(&accounts[..2], &data), ProgramError::NotEnoughAccountKeys);
    assert_eq!(refused(&accounts, &data[..8]), ProgramError::InvalidInstructionData);
    let unsigned = [account(signer, false), accounts[1].clone(), accounts[2].clone()];
    assert_eq!(refused(&unsigned, &data), ProgramError::MissingRequiredSignature);
    let other = [accounts[0].clone(), account([1; 32], false), accounts[2].clone()];
    assert_eq!(refused(&other, &data), ProgramError::InvalidSeeds);
    let mut wrong = data.clone();
    wrong[8] = bump.wrapping_sub(1);
    assert_eq!(refused(&accounts, &wrong), ProgramError::InvalidSeeds);

    // Through the dispatch the tag follows the payload, and the bump is the
    // last byte before it.
    let mut tagged = data.clone();
    tagged.push(4);
    match process_instruction(&ID, &accounts, &tagged, 0).unwrap() {
        Outcome::WithdrawNative(same) => assert_eq!(same.lamports, 1_000_000),
        other => panic!("{:?}", other),
    }
}

#[test]
fn a_token_withdrawal_goes_back_to_the_authority() {
    let signer = [41; 32];
    let (address, bump) = proxy(&signer);
    let accounts = [
        account(signer, true),
        account(address, false),
        account([61; 32], false),
        account([62; 32], false),
        account([63; 32], false),
    ];
    let mut data = 77u64.to_le_bytes().to_vec();
    data.push(9);
    data.push(bump);
    let withdraw = WithdrawToken::try_from((&accounts[..], &data[..])).unwrap();
    assert_eq!((withdraw.amount, withdraw.decimals, withdraw.bump), (77, 9, [bump]));
    let transfer = withdraw.process().unwrap();
    assert_eq!(transfer.from, [62; 32]);
    assert_eq!(transfer.mint, [61; 32]);
    assert_eq!(transfer.to, [63; 32]);
    assert_eq!(transfer.authority, address);
    assert_eq!((transfer.amount, transfer.decimals), (77, 9));
    assert_eq!((transfer.signer.signer_key, transfer.signer.bump), (signer, bump));

    let refused = |accounts: &[AccountInfo], data: &[u8]| {
        WithdrawToken::try_from((accounts, data)).map(|_| ()).unwrap_err()
    };
    assert_eq!(refused(&accounts[..4], &data), ProgramError::NotEnoughAccountKeys);
    assert_eq!(refused(&accounts, &data[..9]), ProgramError::InvalidInstructionData);
    let mut unsigned = accounts.clone();
    unsigned[0].is_signer = false;
    assert_eq!(refused(&unsigned, &data), ProgramError::MissingRequiredSignature);
    let mut wrong = data.clone();
    wrong[9] = bump.wrapping_sub(1);
    assert_eq!(refused(&accounts, &wrong), ProgramError::InvalidSeeds);

    let mut tagged = data.clone();
    tagged.push(5);
    assert!(matches!(
        process_instruction(&ID, &accounts, &tagged, 0),
        Ok(Outcome::WithdrawToken(_))
    ));
}

#[test]
fn the_last_byte_selects_the_operation() {
    assert_eq!(InstructionTag::try_from(0), Ok(InstructionTag::Entry));
    assert_eq!(InstructionTag::try_from(1), Ok(InstructionTag::CreateCommit));
    assert_eq!(InstructionTag::try_from(2), Ok(InstructionTag::ChangeCommit));
    assert_eq!(InstructionTag::try_from(3), Ok(InstructionTag::CreatePda));
    assert_eq!(InstructionTag::try_from(4), Ok(InstructionTag::WithdrawNative));
    assert_eq!(InstructionTag::try_from(5), Ok(InstructionTag::WithdrawToken));
    assert_eq!(InstructionTag::try_from(6), Ok(InstructionTag::CloseCommit));
    for tag in 7u8..=255 {
        assert_eq!(InstructionTag::try_from(tag), Err(ProgramError::InvalidInstructionData));
    }
    let refused = |data: &[u8]| process_instruction(&ID, &[], data, 0).map(|_| ()).unwrap_err();
    assert_eq!(refused(&[]), ProgramError::InvalidInstructionData);
    assert_eq!(refused(&[7]), ProgramError::InvalidInstructionData);
    assert_eq!(refused(&[0, 0, 255]), ProgramError::InvalidInstructionData);
    assert_eq!(refused(&[0]), ProgramError::NotEnoughAccountKeys);
    assert_eq!(refused(&[1]), ProgramError::NotEnoughAccountKeys);
    assert_eq!(refused(&[2]), ProgramError::NotEnoughAccountKeys);
    assert_eq!(refused(&[6]), ProgramError::NotEnoughAccountKeys);
    assert!(matches!(process_instruction(&ID, &[], &[3], 0), Ok(Outcome::CreatePda)));
    assert!(matches!(process_instruction(&ID, &[], &[9, 9, 3], 0), Ok(Outcome::CreatePda)));
}

#[test]
fn a_trigger_through_the_dispatch_is_judged_by_the_time_given() {
    let mut window = [0u8; 20];
    window[..4].copy_from_slice(&1u32.to_le_bytes());
    window[4..12].copy_from_slice(&1_000i64.to_le_bytes());
    window[12..16].copy_from_slice(&100u32.to_le_bytes());
    let (accounts, _) =
        triggered(CommitCondition { tag: 6, data: window }, DataCommitTypeEnum::AnyData);
    let run = |now: i64| process_instruction(&ID, &accounts, &[1, 2, 3, 0], now);
    assert_eq!(run(999).map(|_| ()).unwrap_err(), custom(WrapperError::TooEarly));
    assert_eq!(run(1_101).map(|_| ()).unwrap_err(), custom(WrapperError::TooLate));
    for now in [1_000, 1_050, 1_100] {
        match run(now).unwrap() {
            Outcome::Entry { invocation, record } => {
                assert_eq!(invocation.data, &[1, 2, 3][..]);
                assert_eq!(record.base.condition.get_data_fields(), Ok((0, 1_000, 100, 0)));
            }
            other => panic!("{:?}", other),
        }
    }
}

#[test]
fn signers_are_checked_against_their_proxies() {
    let first = [41; 32];
    let second = [42; 32];
    let (first_proxy, first_bump) = proxy(&first);
    let (second_proxy, second_bump) = proxy(&second);
    let signers = [account(first, true), account(second, true)];
    let proxies = [account(first_proxy, false), account(second_proxy, false)];
    let bumps = [first_bump, second_bump, 0, 0];
    assert_eq!(verify_signers(&signers, &proxies, &bumps), Ok(()));
    assert_eq!(verify_signers(&signers[..1], &proxies, &bumps), Err(ProgramError::MissingRequiredSignature));
    // The shortest list ends the walk.
    assert_eq!(verify_signers(&signers, &proxies[..1], &bumps), Ok(()));
    assert_eq!(verify_signers(&signers, &proxies, &[]), Ok(()));
    assert_eq!(verify_signers(&[], &[], &bumps), Ok(()));
    let swapped = [proxies[1].clone(), proxies[0].clone()];
    assert_eq!(verify_signers(&signers, &swapped, &bumps), Err(custom(WrapperError::InvalidSignerSeeds)));
    let unsigned = [account(first, true), account(second, false)];
    assert_eq!(verify_signers(&unsigned, &proxies, &bumps), Err(ProgramError::MissingRequiredSignature));
    // The first refusal wins.
    let unsigned = [account(first, false), account(second, true)];
    assert_eq!(verify_signers(&unsigned, &swapped, &bumps), Err(ProgramError::MissingRequiredSignature));

    assert_eq!(verify_signer_with(&signers[0], &proxies[0], Ok(first_proxy)), Ok(()));
    assert_eq!(
        verify_signer_with(&signers[0], &proxies[0], Ok(second_proxy)),
        Err(custom(WrapperError::InvalidSignerSeeds))
    );
    assert_eq!(
        verify_signer_with(&signers[0], &proxies[0], Err(PubkeyError::InvalidSeeds)),
        Err(ProgramError::Custom(9))
    );
    assert_eq!(
        verify_signer_with(&unsigned[0], &proxies[0], Ok(first_proxy)),
        Err(ProgramError::MissingRequiredSignature)
    );
    assert_eq!(check_proxy_with(Ok(first_proxy), &first_proxy), Ok(()));
    assert_eq!(check_proxy_with(Ok(first_proxy), &second_proxy), Err(ProgramError::InvalidSeeds));
    assert_eq!(
        check_proxy_with(Err(PubkeyError::IllegalOwner), &second_proxy),
        Err(ProgramError::InvalidSeeds)
    );
}

#[test]
fn authorities_are_checked_against_the_record() {
    let (_, mut config) = triggered(count_of(1), DataCommitTypeEnum::AnyData);
    config.base.signer_count = [2];
    config.signer_keys[1] = [42; 32];
    let signers = [account([41; 32], true), account([42; 32], true)];
    assert_eq!(verify_authorities(&signers, &config), Ok(()));
    assert_eq!(
        verify_authorities(&signers[..1], &config),
        Err(custom(WrapperError::InvalidAccountKeysCount))
    );
    let swapped = [signers[1].clone(), signers[0].clone()];
    assert_eq!(verify_authorities(&swapped, &config), Err(ProgramError::MissingRequiredSignature));
    let unsigned = [signers[0].clone(), account([42; 32], false)];
    assert_eq!(verify_authorities(&unsigned, &config), Err(ProgramError::MissingRequiredSignature));
}

#[test]
fn accounts_are_picked_by_their_places() {
    let accounts: Vec<AccountInfo> = (0..6).map(|at| account([at as u8; 32], false)).collect();
    assert_eq!(extract_commit_account(&accounts).key, [5; 32]);
    assert_eq!(extract_program_account(&accounts).key, [4; 32]);
    assert_eq!(extract_payer_account(&accounts).key, [3; 32]);
    let proxies = extract_program_signers(&accounts, 2, 4);
    assert_eq!(proxies.iter().map(|a| a.key[0]).collect::<Vec<u8>>(), vec![2, 3]);
    let signers = extract_signers(&accounts, 2, 4);
    assert_eq!(signers.iter().map(|a| a.key[0]).collect::<Vec<u8>>(), vec![4, 5]);
    assert!(extract_signers(&accounts, 0, 6).is_empty());
    assert!(extract_program_signers(&accounts, 0, 0).is_empty());
}

#[test]
fn a_withdrawal_payload_is_read_by_position() {
    let data = [0x40u8, 0x42, 0x0f, 0, 0, 0, 0, 0, 0xfe, 9];
    assert_eq!(extract_amount(&data), Ok(1_000_000));
    assert_eq!(extract_bump(&data), Ok(0xfe));
    assert_eq!(extract_decimals(&data), Ok(9));
    assert_eq!(extract_amount(&data[..8]), Ok(1_000_000));
    assert_eq!(extract_amount(&data[..7]), Err(ProgramError::InvalidInstructionData));
    assert_eq!(extract_bump(&data[..8]), Err(ProgramError::InvalidInstructionData));
    assert_eq!(extract_bump(&data[..9]), Ok(0xfe));
    assert_eq!(extract_decimals(&data[..9]), Err(ProgramError::InvalidInstructionData));
    assert_eq!(extract_amount(&[]), Err(ProgramError::InvalidInstructionData));
}

#[test]
fn an_account_is_checked_for_existence_size_and_owner() {
    let mut record = account([1; 32], false);
    record.owner = ID;
    record.data = vec![0; 233];
    assert_eq!(is_program_account(&record, 233, &ID), Ok(()));
    assert_eq!(is_program_account(&record, 232, &ID), Err(ProgramError::InvalidAccountData));
    assert_eq!(is_program_account(&record, 233, &[2; 32]), Err(ProgramError::IncorrectProgramId));
    record.lamports = 0;
    assert_eq!(is_program_account(&record, 232, &[2; 32]), Err(ProgramError::UninitializedAccount));

    assert_eq!(is_signer(&account([1; 32], true)), Ok(()));
    assert_eq!(is_signer(&account([1; 32], false)), Err(ProgramError::MissingRequiredSignature));

    let mut fresh = account([1; 32], false);
    assert_eq!(is_unitialized(&fresh), Ok(()));
    fresh.lamports = 0;
    assert_eq!(is_unitialized(&fresh), Err(ProgramError::UninitializedAccount));
    fresh.data = vec![0];
    assert_eq!(is_unitialized(&fresh), Ok(()));
    fresh.data = Vec::new();
    fresh.owner = ID;
    assert_eq!(is_unitialized(&fresh), Ok(()));

    let plain = account([3; 32], true);
    assert_eq!(plain.key(), &[3; 32]);
    assert_eq!(plain.owner(), &SYSTEM_PROGRAM_ID);
    assert!(plain.is_signer());
    assert!(!plain.is_writable());
    assert_eq!(plain.lamports(), 1_000);
    assert_eq!(plain.data_len(), 0);
    assert!(plain.data_is_empty());
    assert!(plain.is_owned_by(&SYSTEM_PROGRAM_ID));
    assert!(!plain.is_owned_by(&ID));
}
