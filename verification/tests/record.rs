use commit_wrapper::program::helpers::utils::hashv;
use commit_wrapper::program::state::condition::CommitCondition;
use commit_wrapper::program::state::config::{
    push_all, Config, ConfigBase, DataCommitType, DataCommitTypeEnum,
};
use commit_wrapper::program::state::error::{ProgramError, WrapperError};

fn sample_base() -> ConfigBase {
    let mut hash = [0u8; 32];
    hashv(&[&[3u8, 0x40, 0x42, 0x0f]], &mut hash);
    ConfigBase {
        account_count: [4],
        account_indices: [1, 0, 3, 2, 0, 0, 0, 0],
        signer_count: [1],
        signer_bumps: [254, 0, 0, 0],
        instruction_data_commit_type: DataCommitType::from(DataCommitTypeEnum::Data),
        instruction_data_length: [4, 0],
        instruction_data_offset: [0, 0],
        instruction_data_hash: hash,
        commit_bump: [253],
        condition: CommitCondition { tag: 1, data: [25, 0, 0, 0, 0, 0, 0, 0, 0, 0, 0, 0, 0, 0, 0, 0, 0, 0, 0, 0] },
    }
}

fn sample() -> Config {
    Config {
        base: sample_base(),
        starter_key: [14; 32],
        signer_keys: [[13; 32], [0; 32], [0; 32], [0; 32]],
    }
}

#[test]
fn a_record_has_its_exact_size() {
    assert_eq!(ConfigBase::LEN, 73);
    assert_eq!(Config::LEN, 233);
    assert_eq!(CommitCondition::LEN, 21);
    assert_eq!(sample_base().to_bytes().len(), 73);
    assert_eq!(sample().to_bytes().len(), 233);
}

#[test]
fn a_record_is_stored_field_after_field() {
    let bytes = sample().to_bytes();
    assert_eq!(bytes[0], 4);
    assert_eq!(&bytes[1..9], &[1, 0, 3, 2, 0, 0, 0, 0]);
    assert_eq!(bytes[9], 1);
    assert_eq!(&bytes[10..14], &[254, 0, 0, 0]);
    assert_eq!(bytes[14], 1);
    assert_eq!(&bytes[15..17], &[4, 0]);
    assert_eq!(&bytes[17..19], &[0, 0]);
    assert_eq!(&bytes[19..51], &sample_base().instruction_data_hash);
    assert_eq!(bytes[51], 253);
    assert_eq!(bytes[52], 1);
    assert_eq!(&bytes[53..57], &[25, 0, 0, 0]);
    assert_eq!(&bytes[57..73], &[0u8; 16]);
    assert_eq!(&bytes[73..105], &[14u8; 32]);
    assert_eq!(&bytes[105..137], &[13u8; 32]);
    assert_eq!(&bytes[137..233], &[0u8; 96]);
}

#[test]
fn a_record_reads_back_as_it_was_stored() {
    let config = sample();
    let read = Config::from_bytes(&config.to_bytes()).expect("a record has 233 bytes");
    assert_eq!(read.to_bytes(), config.to_bytes());
    assert_eq!(read.starter_key, config.starter_key);
    assert_eq!(read.signer_keys, config.signer_keys);
    assert_eq!(read.base.account_indices, config.base.account_indices);
    assert_eq!(read.base.instruction_data_hash, config.base.instruction_data_hash);
    assert_eq!(read.base.condition.tag, 1);
    assert_eq!(read.base.condition.data, config.base.condition.data);

    let base = ConfigBase::from_bytes(&sample_base().to_bytes()).unwrap();
    assert_eq!(base.to_bytes(), sample_base().to_bytes());
    assert_eq!(base.commit_bump, [253]);
    assert_eq!(base.signer_bumps, [254, 0, 0, 0]);
}

#[test]
fn any_bytes_of_the_exact_size_are_a_record() {
    let bytes: Vec<u8> = (0..233u32).map(|i| (i * 7 + 3) as u8).collect();
    let read = Config::from_bytes(&bytes).unwrap();
    assert_eq!(read.to_bytes(), bytes);
    let read = ConfigBase::from_bytes(&bytes[..73]).unwrap();
    assert_eq!(read.to_bytes(), &bytes[..73]);
}

#[test]
fn any_other_size_is_no_record() {
    let bytes = sample().to_bytes();
    assert!(Config::from_bytes(&bytes[..232]).is_none());
    assert!(Config::from_bytes(&[]).is_none());
    let mut longer = bytes.clone();
    longer.push(0);
    assert!(Config::from_bytes(&longer).is_none());
    assert!(ConfigBase::from_bytes(&bytes[..72]).is_none());
    assert!(ConfigBase::from_bytes(&bytes[..74]).is_none());
    assert!(ConfigBase::from_bytes(&bytes).is_none());
}

#[test]
fn the_ways_of_binding_a_payload_are_three() {
    assert_eq!(DataCommitType::from(DataCommitTypeEnum::NoData).commit_type, [0]);
    assert_eq!(DataCommitType::from(DataCommitTypeEnum::Data).commit_type, [1]);
    assert_eq!(DataCommitType::from(DataCommitTypeEnum::AnyData).commit_type, [2]);
    assert_eq!(
        DataCommitTypeEnum::try_from(DataCommitType { commit_type: [0] }),
        Ok(DataCommitTypeEnum::NoData)
    );
    assert_eq!(
        DataCommitTypeEnum::try_from(DataCommitType { commit_type: [1] }),
        Ok(DataCommitTypeEnum::Data)
    );
    assert_eq!(
        DataCommitTypeEnum::try_from(DataCommitType { commit_type: [2] }),
        Ok(DataCommitTypeEnum::AnyData)
    );
    for byte in 3u8..=255 {
        assert_eq!(
            DataCommitTypeEnum::try_from(DataCommitType { commit_type: [byte] }),
            Err(WrapperError::InvalidDataCommitType)
        );
    }
}

#[test]
fn the_length_of_a_payload_must_fit_the_commitment() {
    let mut base = sample_base();
    assert!(base.length_matches_commit_type(4));
    assert!(!base.length_matches_commit_type(0));
    assert!(!base.length_matches_commit_type(5));
    base.instruction_data_length = [0x02, 0x01];
    assert!(base.length_matches_commit_type(258));
    assert!(!base.length_matches_commit_type(2));

    base.instruction_data_commit_type = DataCommitType::from(DataCommitTypeEnum::NoData);
    assert!(base.length_matches_commit_type(0));
    assert!(!base.length_matches_commit_type(1));
    assert!(!base.length_matches_commit_type(258));

    base.instruction_data_commit_type = DataCommitType::from(DataCommitTypeEnum::AnyData);
    assert!(base.length_matches_commit_type(0));
    assert!(base.length_matches_commit_type(1));
    assert!(base.length_matches_commit_type(usize::MAX));

    base.instruction_data_commit_type = DataCommitType { commit_type: [3] };
    assert!(!base.length_matches_commit_type(0));
    assert!(!base.length_matches_commit_type(258));
}

#[test]
fn the_seeds_come_in_their_fixed_order() {
    let base = sample_base();
    let accounts_hash = [9u8; 32];
    let seeds = base.get_commit_seeds(&accounts_hash, None).unwrap();
    assert_eq!(seeds.len(), 7);
    assert_eq!(seeds[0], &[1u8, 0, 3, 2, 0, 0, 0, 0][..]);
    assert_eq!(seeds[1], &[1u8][..]);
    assert_eq!(seeds[2], &accounts_hash[..]);
    assert_eq!(seeds[3], &[1u8][..]);
    assert_eq!(seeds[4], &[0u8, 0][..]);
    assert_eq!(seeds[5], &base.instruction_data_hash[..]);
    assert_eq!(seeds[6], &[253u8][..]);
}

#[test]
fn a_payload_is_checked_before_the_seeds_are_given() {
    let mut base = sample_base();
    let accounts_hash = [9u8; 32];
    let refused = Err(ProgramError::InvalidInstructionData);

    // A committed range: the bytes in it must hash to the committed hash.
    assert!(base.get_commit_seeds(&accounts_hash, Some(&[3, 0x40, 0x42, 0x0f])).is_ok());
    assert!(base.get_commit_seeds(&accounts_hash, Some(&[3, 0x40, 0x42, 0x0f, 1, 2, 3])).is_ok());
    assert_eq!(base.get_commit_seeds(&accounts_hash, Some(&[3, 0x41, 0x42, 0x0f])), refused);
    assert_eq!(base.get_commit_seeds(&accounts_hash, Some(&[3, 0x40, 0x42])), refused);
    assert_eq!(base.get_commit_seeds(&accounts_hash, Some(&[])), refused);
    assert_eq!(base.check_data(&[3, 0x40, 0x42, 0x0f]), Ok(()));
    assert_eq!(base.check_data(&[3, 0x40, 0x42, 0x0e]), Err(ProgramError::InvalidInstructionData));

    // The range may start anywhere.
    base.instruction_data_offset = [2, 0];
    assert!(base.get_commit_seeds(&accounts_hash, Some(&[0, 0, 3, 0x40, 0x42, 0x0f])).is_ok());
    assert_eq!(base.get_commit_seeds(&accounts_hash, Some(&[3, 0x40, 0x42, 0x0f, 0, 0])), refused);
    assert_eq!(base.get_commit_seeds(&accounts_hash, Some(&[0, 0, 3, 0x40, 0x42])), refused);
    base.instruction_data_offset = [0xff, 0xff];
    assert_eq!(base.get_commit_seeds(&accounts_hash, Some(&[3, 0x40, 0x42, 0x0f])), refused);

    // No payload committed: none accepted.
    base.instruction_data_commit_type = DataCommitType::from(DataCommitTypeEnum::NoData);
    assert!(base.get_commit_seeds(&accounts_hash, Some(&[])).is_ok());
    assert_eq!(base.get_commit_seeds(&accounts_hash, Some(&[0])), refused);

    // Any payload accepted.
    base.instruction_data_commit_type = DataCommitType::from(DataCommitTypeEnum::AnyData);
    assert!(base.get_commit_seeds(&accounts_hash, Some(&[])).is_ok());
    assert!(base.get_commit_seeds(&accounts_hash, Some(&[1, 2, 3])).is_ok());

    // An unknown way of binding accepts no payload, but gives its seeds
    // where none is handed in.
    base.instruction_data_commit_type = DataCommitType { commit_type: [7] };
    assert_eq!(
        base.get_commit_seeds(&accounts_hash, Some(&[])),
        Err(ProgramError::Custom(WrapperError::InvalidDataCommitType.code()))
    );
    assert_eq!(base.check_data(&[]), Err(ProgramError::Custom(14)));
    assert!(base.get_commit_seeds(&accounts_hash, None).is_ok());
}

#[test]
fn a_computed_hash_is_compared_with_the_committed_one() {
    let base = sample_base();
    assert_eq!(base.check_data_hash(&base.instruction_data_hash), Ok(()));
    let mut other = base.instruction_data_hash;
    other[31] ^= 1;
    assert_eq!(base.check_data_hash(&other), Err(ProgramError::InvalidInstructionData));
    assert_eq!(base.check_data_hash(&[0u8; 32]), Err(ProgramError::InvalidInstructionData));
}

#[test]
fn a_trigger_advances_the_condition_and_nothing_else() {
    let mut base = sample_base();
    let before = base.to_bytes();
    assert_eq!(base.update_condition(0), Ok(()));
    let after = base.to_bytes();
    assert_eq!(&after[..53], &before[..53]);
    assert_eq!(&after[53..57], &[24, 0, 0, 0]);
    assert_eq!(&after[57..], &before[57..]);

    base.condition = CommitCondition { tag: 0, data: [0; 20] };
    let before = base.to_bytes();
    assert_eq!(
        base.update_condition(0),
        Err(ProgramError::Custom(WrapperError::ConditionNotSet.code()))
    );
    assert_eq!(base.to_bytes(), before);
}

#[test]
fn bytes_are_appended_in_order() {
    let mut out = vec![1u8, 2];
    push_all(&mut out, &[3, 4, 5]);
    push_all(&mut out, &[]);
    assert_eq!(out, vec![1, 2, 3, 4, 5]);
}

#[test]
fn every_failure_has_its_code() {
    let codes = [
        (WrapperError::OutOfTimeRange, 0u32),
        (WrapperError::ConditionNotSet, 1),
        (WrapperError::TooEarly, 2),
        (WrapperError::TooLate, 3),
        (WrapperError::CountExhausted, 4),
        (WrapperError::InvalidConfiguration, 5),
        (WrapperError::InvalidAccountCount, 6),
        (WrapperError::InvalidSignerCount, 7),
        (WrapperError::SignerCountGreaterThanAccountCount, 8),
        (WrapperError::InvalidSignerSeeds, 9),
        (WrapperError::InvalidCommitCondition, 10),
        (WrapperError::InvalidInstructionDataLength, 11),
        (WrapperError::InvalidCommitConditionTag, 12),
        (WrapperError::InvalidAccountKeysCount, 13),
        (WrapperError::InvalidDataCommitType, 14),
    ];
    for (error, code) in codes {
        assert_eq!(error.code(), code);
        assert_eq!(ProgramError::from(error), ProgramError::Custom(code));
    }
}
