use commit_wrapper::client::state::condition::{CommitCondition, RawCommitCondition};
use commit_wrapper::program::state::condition::{
    CommitCondition as StoredCondition, CommitConditionTag,
};
use commit_wrapper::program::state::error::{ProgramError, WrapperError};

const T: i64 = 1_700_000_000;

fn stored(condition: CommitCondition) -> StoredCondition {
    let raw = RawCommitCondition::from(&condition);
    StoredCondition { tag: raw.tag, data: raw.data }
}

fn refusal(error: WrapperError) -> Result<(), ProgramError> {
    Err(ProgramError::Custom(error.code()))
}

fn fields(condition: &StoredCondition) -> (u32, i64, u32, u32) {
    condition.get_data_fields().unwrap()
}

#[test]
fn tags_zero_to_seven_are_the_rules() {
    for tag in 0u8..=7 {
        assert!(CommitConditionTag::is_valid(tag));
        let rule = CommitConditionTag::try_from(tag).unwrap();
        assert_eq!(u8::from(rule), tag);
    }
    for tag in 8u8..=255 {
        assert!(!CommitConditionTag::is_valid(tag));
        assert_eq!(
            CommitConditionTag::try_from(tag),
            Err(WrapperError::InvalidCommitConditionTag)
        );
    }
    assert_eq!(CommitConditionTag::try_from(6), Ok(CommitConditionTag::OneOffCountBetweenTimestamp));
    assert_eq!(CommitConditionTag::try_from(7), Ok(CommitConditionTag::RepeatCountBetweenTimestamp));
}

#[test]
fn a_condition_that_is_not_set_lets_nothing_through() {
    let mut condition = stored(CommitCondition::Default);
    assert_eq!(condition.is_valid(), Ok(CommitConditionTag::Default));
    assert_eq!(condition.update(T), refusal(WrapperError::ConditionNotSet));
    assert_eq!(condition.update(T), Err(ProgramError::Custom(1)));
    assert_eq!(condition.data, [0u8; 20]);
}

#[test]
fn an_unknown_tag_is_refused_and_nothing_changes() {
    let mut condition = StoredCondition { tag: 8, data: [7u8; 20] };
    assert_eq!(condition.is_valid(), Err(WrapperError::InvalidCommitConditionTag));
    assert_eq!(condition.update(T), refusal(WrapperError::InvalidCommitConditionTag));
    assert_eq!(condition.update(T), Err(ProgramError::Custom(12)));
    assert_eq!(condition.data, [7u8; 20]);
    assert_eq!(condition.tag, 8);
}

#[test]
fn a_count_is_taken_down_to_zero_and_then_exhausted() {
    let mut condition = stored(CommitCondition::Count(3));
    assert_eq!(condition.update(i64::MIN), Ok(()));
    assert_eq!(fields(&condition), (2, 0, 0, 0));
    assert_eq!(condition.update(0), Ok(()));
    assert_eq!(condition.update(i64::MAX), Ok(()));
    assert_eq!(fields(&condition), (0, 0, 0, 0));
    let before = condition.data;
    assert_eq!(condition.update(0), refusal(WrapperError::CountExhausted));
    assert_eq!(condition.data, before);
}

#[test]
fn update_count_takes_one_or_refuses() {
    let mut count = 2u32;
    assert_eq!(StoredCondition::update_count(&mut count), Ok(()));
    assert_eq!(count, 1);
    assert_eq!(StoredCondition::update_count(&mut count), Ok(()));
    assert_eq!(count, 0);
    assert_eq!(StoredCondition::update_count(&mut count), refusal(WrapperError::CountExhausted));
    assert_eq!(count, 0);
    let mut most = u32::MAX;
    assert_eq!(StoredCondition::update_count(&mut most), Ok(()));
    assert_eq!(most, u32::MAX - 1);
}

#[test]
fn before_a_time_means_strictly_before() {
    let mut condition = stored(CommitCondition::BeforeTimestamp(T));
    assert_eq!(condition.update(T - 1), Ok(()));
    assert_eq!(condition.update(T), refusal(WrapperError::TooLate));
    assert_eq!(condition.update(T + 1), refusal(WrapperError::TooLate));
    assert_eq!(condition.update(T + 1), Err(ProgramError::Custom(3)));
    assert_eq!(fields(&condition), (0, T, 0, 0));
}

#[test]
fn after_a_time_means_strictly_after() {
    let mut condition = stored(CommitCondition::AfterTimestamp(T));
    assert_eq!(condition.update(T + 1), Ok(()));
    assert_eq!(condition.update(T), refusal(WrapperError::TooEarly));
    assert_eq!(condition.update(T - 1), refusal(WrapperError::TooEarly));
    assert_eq!(condition.update(T - 1), Err(ProgramError::Custom(2)));
    assert_eq!(fields(&condition), (0, T, 0, 0));
}

#[test]
fn a_count_before_a_time_looks_at_the_time_first() {
    let mut condition = stored(CommitCondition::CountBeforeTimestamp(1, T));
    assert_eq!(condition.update(T), refusal(WrapperError::TooLate));
    assert_eq!(condition.update(T - 1), Ok(()));
    assert_eq!(fields(&condition), (0, T, 0, 0));
    assert_eq!(condition.update(T - 1), refusal(WrapperError::CountExhausted));
    assert_eq!(condition.update(T), refusal(WrapperError::TooLate));
}

#[test]
fn a_count_after_a_time_looks_at_the_time_first() {
    let mut condition = stored(CommitCondition::CountAfterTimestamp(1, T));
    assert_eq!(condition.update(T), refusal(WrapperError::TooEarly));
    assert_eq!(condition.update(T + 1), Ok(()));
    assert_eq!(fields(&condition), (0, T, 0, 0));
    assert_eq!(condition.update(T + 1), refusal(WrapperError::CountExhausted));
    assert_eq!(condition.update(T), refusal(WrapperError::TooEarly));
}

#[test]
fn a_one_off_window_includes_both_ends() {
    for now in [T, T + 1, T + 50, T + 99, T + 100] {
        let mut condition = stored(CommitCondition::OneOffCountBetweenTimestamp(1, 100, T));
        assert_eq!(condition.update(now), Ok(()));
        assert_eq!(fields(&condition), (0, T, 100, 0));
    }
    for now in [T - 1, T - 100, i64::MIN] {
        let mut condition = stored(CommitCondition::OneOffCountBetweenTimestamp(1, 100, T));
        assert_eq!(condition.update(now), refusal(WrapperError::TooEarly));
        assert_eq!(fields(&condition), (1, T, 100, 0));
    }
    for now in [T + 101, T + 150, i64::MAX] {
        let mut condition = stored(CommitCondition::OneOffCountBetweenTimestamp(1, 100, T));
        assert_eq!(condition.update(now), refusal(WrapperError::TooLate));
        assert_eq!(fields(&condition), (1, T, 100, 0));
    }
}

#[test]
fn a_one_off_window_never_refills() {
    let mut condition = stored(CommitCondition::OneOffCountBetweenTimestamp(1, 100, T));
    assert_eq!(condition.update(T + 10), Ok(()));
    assert_eq!(condition.update(T + 20), refusal(WrapperError::CountExhausted));
    assert_eq!(condition.update(T + 150), refusal(WrapperError::TooLate));
    assert_eq!(fields(&condition), (0, T, 100, 0));
}

#[test]
fn a_repeating_window_starts_anew_after_it_has_closed() {
    let mut condition = stored(CommitCondition::RepeatCountBetweenTimestamp(1, 100, T, 1));
    assert_eq!(condition.update(T + 150), Ok(()));
    assert_eq!(fields(&condition), (0, T + 150, 100, 1));
    // The new window is used up, and it is still open.
    assert_eq!(condition.update(T + 250), refusal(WrapperError::CountExhausted));
    assert_eq!(fields(&condition), (0, T + 150, 100, 1));
    // It closes, and the next one opens with a full count.
    assert_eq!(condition.update(T + 251), Ok(()));
    assert_eq!(fields(&condition), (0, T + 251, 100, 1));
}

#[test]
fn a_repeating_window_refills_with_its_repeat_count() {
    let mut condition = stored(CommitCondition::RepeatCountBetweenTimestamp(2, 10, T, 5));
    assert_eq!(condition.update(T - 1), refusal(WrapperError::TooEarly));
    assert_eq!(condition.update(T), Ok(()));
    assert_eq!(condition.update(T + 10), Ok(()));
    assert_eq!(fields(&condition), (0, T, 10, 5));
    assert_eq!(condition.update(T + 10), refusal(WrapperError::CountExhausted));
    assert_eq!(condition.update(T + 11), Ok(()));
    assert_eq!(fields(&condition), (4, T + 11, 10, 5));
}

#[test]
fn a_repeating_window_with_nothing_to_refill_with_is_exhausted() {
    let mut condition = stored(CommitCondition::RepeatCountBetweenTimestamp(3, 10, T, 0));
    assert_eq!(condition.update(T + 11), refusal(WrapperError::CountExhausted));
    assert_eq!(fields(&condition), (3, T, 10, 0));
}

#[test]
fn a_window_that_ends_beyond_all_time_is_an_overflow() {
    let mut one_off = stored(CommitCondition::OneOffCountBetweenTimestamp(1, 1, i64::MAX));
    assert_eq!(one_off.update(0), Err(ProgramError::ArithmeticOverflow));
    assert_eq!(fields(&one_off), (1, i64::MAX, 1, 0));
    let mut repeat = stored(CommitCondition::RepeatCountBetweenTimestamp(1, u32::MAX, i64::MAX - 5, 1));
    assert_eq!(repeat.update(i64::MAX), Err(ProgramError::ArithmeticOverflow));
    // A window that ends at the very last moment is none.
    let mut last = stored(CommitCondition::OneOffCountBetweenTimestamp(1, 5, i64::MAX - 5));
    assert_eq!(last.update(i64::MAX), Ok(()));
}

#[test]
fn negative_times_are_times() {
    let mut condition = stored(CommitCondition::OneOffCountBetweenTimestamp(2, 10, -5));
    assert_eq!(fields(&condition), (2, -5, 10, 0));
    assert_eq!(condition.update(-6), refusal(WrapperError::TooEarly));
    assert_eq!(condition.update(-5), Ok(()));
    assert_eq!(condition.update(5), Ok(()));
    assert_eq!(condition.update(6), refusal(WrapperError::TooLate));
}

#[test]
fn set_data_fields_leaves_the_rest_of_the_payload() {
    let mut condition = stored(CommitCondition::RepeatCountBetweenTimestamp(9, 8, 7, 6));
    assert_eq!(condition.set_data_fields(1, -2), Ok(()));
    assert_eq!(fields(&condition), (1, -2, 8, 6));
    assert_eq!(condition.tag, 7);
    assert_eq!(&condition.data[..4], &[1, 0, 0, 0]);
    assert_eq!(&condition.data[4..12], &[0xfe, 0xff, 0xff, 0xff, 0xff, 0xff, 0xff, 0xff]);
}

#[test]
fn a_condition_is_packed_field_after_field() {
    let condition = CommitCondition::RepeatCountBetweenTimestamp(0x01020304, 0x0a0b0c0d, 0x1112131415161718, 0x21222324);
    assert_eq!(
        condition.to_expected_bytes(),
        [
            7, 0x04, 0x03, 0x02, 0x01, 0x18, 0x17, 0x16, 0x15, 0x14, 0x13, 0x12, 0x11, 0x0d, 0x0c,
            0x0b, 0x0a, 0x24, 0x23, 0x22, 0x21
        ]
    );
    assert_eq!(condition.get_tag(), 7);
    assert_eq!(condition.get_data()[..], condition.to_expected_bytes()[1..]);
    assert_eq!(CommitCondition::Count(25).to_expected_bytes()[..6], [1, 25, 0, 0, 0, 0]);
    assert_eq!(CommitCondition::Default.to_expected_bytes(), [0u8; 21]);
    assert_eq!(CommitCondition::default(), CommitCondition::Default);
}

#[test]
fn every_rule_reads_back_what_was_packed() {
    let conditions = [
        CommitCondition::Default,
        CommitCondition::Count(u32::MAX),
        CommitCondition::BeforeTimestamp(i64::MIN),
        CommitCondition::AfterTimestamp(i64::MAX),
        CommitCondition::CountBeforeTimestamp(1, -1),
        CommitCondition::CountAfterTimestamp(2, T),
        CommitCondition::OneOffCountBetweenTimestamp(3, 4, 5),
        CommitCondition::RepeatCountBetweenTimestamp(6, 7, -8, 9),
    ];
    let expected: [(u8, u32, i64, u32, u32); 8] = [
        (0, 0, 0, 0, 0),
        (1, u32::MAX, 0, 0, 0),
        (2, 0, i64::MIN, 0, 0),
        (3, 0, i64::MAX, 0, 0),
        (4, 1, -1, 0, 0),
        (5, 2, T, 0, 0),
        (6, 3, 5, 4, 0),
        (7, 6, -8, 7, 9),
    ];
    for (condition, expected) in conditions.iter().zip(expected.iter()) {
        let bytes = condition.to_expected_bytes();
        let read = StoredCondition::from_bytes(&bytes).expect("a condition has 21 bytes");
        assert_eq!(read.tag, expected.0);
        assert_eq!(fields(&read), (expected.1, expected.2, expected.3, expected.4));
        assert_eq!(read.to_bytes(), bytes);
        assert!(read.is_valid().is_ok());
    }
    assert!(StoredCondition::from_bytes(&[0u8; 20]).is_none());
    assert!(StoredCondition::from_bytes(&[0u8; 22]).is_none());
    assert!(StoredCondition::from_bytes(&[]).is_none());
}
