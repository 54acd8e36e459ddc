//! The condition engine: a tagged 20-byte payload that gates each trigger by
//! count, by time, or by both, and is partly consumed by every trigger it lets
//! through.

use vstd::prelude::*;
use vstd::std_specs::convert::FromSpecImpl;
use vstd::std_specs::convert::TryFromSpecImpl;

use crate::codec::{
    array_from_slice, i64_from_le, i64_from_le_slice, i64_le, i64_to_le_bytes, lemma_i64_round_trip,
    lemma_u32_round_trip, u32_from_le, u32_from_le_slice, u32_le, u32_to_le_bytes,
};
use crate::program::state::error::{custom, ProgramError, WrapperError};

verus! {

pub const COMMIT_CONDITION_DATA_SIZE: usize = 20;

/// Which rule a condition applies.
#[derive(Debug, Clone, Copy, PartialEq, Eq, Structural)]
pub enum CommitConditionTag {
    Default,
    Count,
    BeforeTimestamp,
    AfterTimestamp,
    CountBeforeTimestamp,
    CountAfterTimestamp,
    OneOffCountBetweenTimestamp,
    RepeatCountBetweenTimestamp,
}

impl TryFrom<u8> for CommitConditionTag {
    type Error = WrapperError;

    fn try_from(value: u8) -> (r: Result<Self, WrapperError>) {
        match value {
            0 => Ok(CommitConditionTag::Default),
            1 => Ok(CommitConditionTag::Count),
            2 => Ok(CommitConditionTag::BeforeTimestamp),
            3 => Ok(CommitConditionTag::AfterTimestamp),
            4 => Ok(CommitConditionTag::CountBeforeTimestamp),
            5 => Ok(CommitConditionTag::CountAfterTimestamp),
            6 => Ok(CommitConditionTag::OneOffCountBetweenTimestamp),
            7 => Ok(CommitConditionTag::RepeatCountBetweenTimestamp),
            _ => Err(WrapperError::InvalidCommitConditionTag),
        }
    }
}

/// The rule that a stored tag byte names, if it names one.
pub open spec fn tag_of(value: u8) -> Result<CommitConditionTag, WrapperError> {
    if value == 0 {
        Ok(CommitConditionTag::Default)
    } else if value == 1 {
        Ok(CommitConditionTag::Count)
    } else if value == 2 {
        Ok(CommitConditionTag::BeforeTimestamp)
    } else if value == 3 {
        Ok(CommitConditionTag::AfterTimestamp)
    } else if value == 4 {
        Ok(CommitConditionTag::CountBeforeTimestamp)
    } else if value == 5 {
        Ok(CommitConditionTag::CountAfterTimestamp)
    } else if value == 6 {
        Ok(CommitConditionTag::OneOffCountBetweenTimestamp)
    } else if value == 7 {
        Ok(CommitConditionTag::RepeatCountBetweenTimestamp)
    } else {
        Err(WrapperError::InvalidCommitConditionTag)
    }
}

impl TryFromSpecImpl<u8> for CommitConditionTag {
    open spec fn obeys_try_from_spec() -> bool {
        true
    }

    open spec fn try_from_spec(value: u8) -> Result<Self, WrapperError> {
        tag_of(value)
    }
}

impl From<CommitConditionTag> for u8 {
    fn from(tag: CommitConditionTag) -> (r: u8) {
        match tag {
            CommitConditionTag::Default => 0,
            CommitConditionTag::Count => 1,
            CommitConditionTag::BeforeTimestamp => 2,
            CommitConditionTag::AfterTimestamp => 3,
            CommitConditionTag::CountBeforeTimestamp => 4,
            CommitConditionTag::CountAfterTimestamp => 5,
            CommitConditionTag::OneOffCountBetweenTimestamp => 6,
            CommitConditionTag::RepeatCountBetweenTimestamp => 7,
        }
    }
}

impl FromSpecImpl<CommitConditionTag> for u8 {
    open spec fn obeys_from_spec() -> bool {
        true
    }

    open spec fn from_spec(tag: CommitConditionTag) -> u8 {
        match tag {
            CommitConditionTag::Default => 0,
            CommitConditionTag::Count => 1,
            CommitConditionTag::BeforeTimestamp => 2,
            CommitConditionTag::AfterTimestamp => 3,
            CommitConditionTag::CountBeforeTimestamp => 4,
            CommitConditionTag::CountAfterTimestamp => 5,
            CommitConditionTag::OneOffCountBetweenTimestamp => 6,
            CommitConditionTag::RepeatCountBetweenTimestamp => 7,
        }
    }
}

impl CommitConditionTag {
    /// Whether `value` names one of the eight rules.
    #[inline(always)]
    pub fn is_valid(value: u8) -> (r: bool)
        ensures
            r == (value <= 7),
            r == (tag_of(value) is Ok),
    {
        match value {
            0 | 1 | 2 | 3 | 4 | 5 | 6 | 7 => true,
            _ => false,
        }
    }
}

/// Takes one unit from `count`, or refuses when none is left.
pub open spec fn consume(count: u32, timestamp: i64) -> Result<(u32, i64), ProgramError> {
    if count > 0 {
        Ok(((count - 1) as u32, timestamp))
    } else {
        Err(custom(WrapperError::CountExhausted))
    }
}

/// What one trigger at time `now` does under rule `tag`: the count and the
/// timestamp to keep afterwards, or the refusal. `offset` and `repeat_count`
/// never change.
pub open spec fn evaluate(
    tag: CommitConditionTag,
    count: u32,
    timestamp: i64,
    offset: u32,
    repeat_count: u32,
    now: i64,
) -> Result<(u32, i64), ProgramError> {
    match tag {
        CommitConditionTag::Default => Err(custom(WrapperError::ConditionNotSet)),
        CommitConditionTag::Count => consume(count, timestamp),
        CommitConditionTag::BeforeTimestamp => if now >= timestamp {
            Err(custom(WrapperError::TooLate))
        } else {
            Ok((count, timestamp))
        },
        CommitConditionTag::AfterTimestamp => if now <= timestamp {
            Err(custom(WrapperError::TooEarly))
        } else {
            Ok((count, timestamp))
        },
        CommitConditionTag::CountBeforeTimestamp => if now >= timestamp {
            Err(custom(WrapperError::TooLate))
        } else {
            consume(count, timestamp)
        },
        CommitConditionTag::CountAfterTimestamp => if now <= timestamp {
            Err(custom(WrapperError::TooEarly))
        } else {
            consume(count, timestamp)
        },
        CommitConditionTag::OneOffCountBetweenTimestamp => if timestamp + offset > i64::MAX {
            Err(ProgramError::ArithmeticOverflow)
        } else if now < timestamp {
            Err(custom(WrapperError::TooEarly))
        } else if now > timestamp + offset {
            Err(custom(WrapperError::TooLate))
        } else {
            consume(count, timestamp)
        },
        CommitConditionTag::RepeatCountBetweenTimestamp => if timestamp + offset > i64::MAX {
            Err(ProgramError::ArithmeticOverflow)
        } else if now < timestamp {
            Err(custom(WrapperError::TooEarly))
        } else if now > timestamp + offset {
            consume(repeat_count, now)
        } else {
            consume(count, timestamp)
        },
    }
}

/// The state after a run of triggers at the times `nows`, in order, or the
/// first refusal met.
pub open spec fn evaluate_all(
    tag: CommitConditionTag,
    count: u32,
    timestamp: i64,
    offset: u32,
    repeat_count: u32,
    nows: Seq<i64>,
) -> Result<(u32, i64), ProgramError>
    decreases nows.len(),
{
    if nows.len() == 0 {
        Ok((count, timestamp))
    } else {
        match evaluate(tag, count, timestamp, offset, repeat_count, nows[0]) {
            Ok((c, t)) => evaluate_all(tag, c, t, offset, repeat_count, nows.drop_first()),
            Err(e) => Err(e),
        }
    }
}

/// A pure count of `n` lets exactly `n` triggers through, whenever they come:
/// a run of `n` leaves the count at zero, and any longer run is refused as
/// exhausted.
pub proof fn lemma_count_allows_exactly_n(
    count: u32,
    timestamp: i64,
    offset: u32,
    repeat_count: u32,
    nows: Seq<i64>,
)
    ensures
        nows.len() <= count ==> evaluate_all(
            CommitConditionTag::Count,
            count,
            timestamp,
            offset,
            repeat_count,
            nows,
        ) == Ok::<(u32, i64), ProgramError>(((count - nows.len()) as u32, timestamp)),
        nows.len() > count ==> evaluate_all(
            CommitConditionTag::Count,
            count,
            timestamp,
            offset,
            repeat_count,
            nows,
        ) == Err::<(u32, i64), ProgramError>(custom(WrapperError::CountExhausted)),
    decreases nows.len(),
{
    if nows.len() > 0 && count > 0 {
        lemma_count_allows_exactly_n(
            (count - 1) as u32,
            timestamp,
            offset,
            repeat_count,
            nows.drop_first(),
        );
    }
}

/// A one-off window opens at its start, closes `offset` later, both ends
/// included, and never refills: inside it a trigger takes one unit and leaves
/// the start where it was; before it the trigger is too early, after it too
/// late, whatever `repeat_count` holds.
pub proof fn lemma_one_off_window(
    count: u32,
    start: i64,
    offset: u32,
    repeat_count: u32,
    now: i64,
)
    requires
        start + offset <= i64::MAX,
    ensures
        now < start ==> evaluate(
            CommitConditionTag::OneOffCountBetweenTimestamp,
            count,
            start,
            offset,
            repeat_count,
            now,
        ) == Err::<(u32, i64), ProgramError>(custom(WrapperError::TooEarly)),
        now > start + offset ==> evaluate(
            CommitConditionTag::OneOffCountBetweenTimestamp,
            count,
            start,
            offset,
            repeat_count,
            now,
        ) == Err::<(u32, i64), ProgramError>(custom(WrapperError::TooLate)),
        start <= now <= start + offset && count > 0 ==> evaluate(
            CommitConditionTag::OneOffCountBetweenTimestamp,
            count,
            start,
            offset,
            repeat_count,
            now,
        ) == Ok::<(u32, i64), ProgramError>(((count - 1) as u32, start)),
        start <= now <= start + offset && count == 0 ==> evaluate(
            CommitConditionTag::OneOffCountBetweenTimestamp,
            count,
            start,
            offset,
            repeat_count,
            now,
        ) == Err::<(u32, i64), ProgramError>(custom(WrapperError::CountExhausted)),
{
}

/// A repeating window that is triggered after it has closed starts anew at
/// the moment of the trigger with a full count, of which that trigger takes
/// one unit; it is never too late.
pub proof fn lemma_repeat_window_refills(
    count: u32,
    start: i64,
    offset: u32,
    repeat_count: u32,
    now: i64,
)
    requires
        start + offset <= i64::MAX,
        now > start + offset,
    ensures
        repeat_count > 0 ==> evaluate(
            CommitConditionTag::RepeatCountBetweenTimestamp,
            count,
            start,
            offset,
            repeat_count,
            now,
        ) == Ok::<(u32, i64), ProgramError>(((repeat_count - 1) as u32, now)),
        repeat_count == 0 ==> evaluate(
            CommitConditionTag::RepeatCountBetweenTimestamp,
            count,
            start,
            offset,
            repeat_count,
            now,
        ) == Err::<(u32, i64), ProgramError>(custom(WrapperError::CountExhausted)),
{
}

/// Inside its window a repeating condition behaves as a one-off one, and
/// before its start it is too early.
pub proof fn lemma_repeat_window_inside(
    count: u32,
    start: i64,
    offset: u32,
    repeat_count: u32,
    now: i64,
)
    requires
        start + offset <= i64::MAX,
        now <= start + offset,
    ensures
        evaluate(
            CommitConditionTag::RepeatCountBetweenTimestamp,
            count,
            start,
            offset,
            repeat_count,
            now,
        ) == evaluate(
            CommitConditionTag::OneOffCountBetweenTimestamp,
            count,
            start,
            offset,
            repeat_count,
            now,
        ),
{
}

/// The count that a payload packs.
pub open spec fn payload_count(data: Seq<u8>) -> u32 {
    u32_from_le(data.subrange(0, 4))
}

/// The timestamp that a payload packs.
pub open spec fn payload_timestamp(data: Seq<u8>) -> i64 {
    i64_from_le(data.subrange(4, 12))
}

/// The offset that a payload packs.
pub open spec fn payload_offset(data: Seq<u8>) -> u32 {
    u32_from_le(data.subrange(12, 16))
}

/// The repeat count that a payload packs.
pub open spec fn payload_repeat_count(data: Seq<u8>) -> u32 {
    u32_from_le(data.subrange(16, 20))
}

/// The payload once `count` and `timestamp` are written over its first
/// twelve bytes.
pub open spec fn payload_with(data: Seq<u8>, count: u32, timestamp: i64) -> Seq<u8> {
    u32_le(count) + i64_le(timestamp) + data.subrange(12, 20)
}

/// What a trigger at `now` does to a stored condition: the payload to store
/// in its place, or the refusal.
pub open spec fn update_payload(tag: u8, data: Seq<u8>, now: i64) -> Result<Seq<u8>, ProgramError> {
    match tag_of(tag) {
        Err(e) => Err(custom(e)),
        Ok(rule) => match evaluate(
            rule,
            payload_count(data),
            payload_timestamp(data),
            payload_offset(data),
            payload_repeat_count(data),
            now,
        ) {
            Err(e) => Err(e),
            Ok((count, timestamp)) => Ok(payload_with(data, count, timestamp)),
        },
    }
}

/// A payload that a trigger has written packs the count and the timestamp
/// that the trigger left, and the offset and repeat count it found.
pub proof fn lemma_payload_with_fields(data: Seq<u8>, count: u32, timestamp: i64)
    requires
        data.len() == COMMIT_CONDITION_DATA_SIZE,
    ensures
        payload_with(data, count, timestamp).len() == COMMIT_CONDITION_DATA_SIZE,
        payload_count(payload_with(data, count, timestamp)) == count,
        payload_timestamp(payload_with(data, count, timestamp)) == timestamp,
        payload_offset(payload_with(data, count, timestamp)) == payload_offset(data),
        payload_repeat_count(payload_with(data, count, timestamp)) == payload_repeat_count(data),
{
    let p = payload_with(data, count, timestamp);
    lemma_u32_round_trip(count);
    lemma_i64_round_trip(timestamp);
    assert(p.subrange(0, 4) =~= u32_le(count));
    assert(p.subrange(4, 12) =~= i64_le(timestamp));
    assert(p.subrange(12, 16) =~= data.subrange(12, 16));
    assert(p.subrange(16, 20) =~= data.subrange(16, 20));
}

/// The time form of a commitment as it is stored: a rule and its packed
/// fields, `count` at byte 0, `timestamp` at 4, `offset` at 12 and
/// `repeat_count` at 16, each little-endian.
#[derive(Debug, Clone, Copy)]
pub struct CommitCondition {
    pub tag: u8,
    pub data: [u8; COMMIT_CONDITION_DATA_SIZE],
}

impl CommitCondition {
    /// Stored size: the tag and the payload.
    pub const LEN: usize = 21;

    pub open spec fn spec_count(&self) -> u32 {
        payload_count(self.data@)
    }

    pub open spec fn spec_timestamp(&self) -> i64 {
        payload_timestamp(self.data@)
    }

    pub open spec fn spec_offset(&self) -> u32 {
        payload_offset(self.data@)
    }

    pub open spec fn spec_repeat_count(&self) -> u32 {
        payload_repeat_count(self.data@)
    }

    /// What a trigger at `now` does to this condition: the payload to store,
    /// or the refusal.
    pub open spec fn spec_update(&self, now: i64) -> Result<Seq<u8>, ProgramError> {
        update_payload(self.tag, self.data@, now)
    }

    /// Reads a condition from its stored form, the tag first. Fails closed:
    /// any width but the exact one gives nothing.
    pub fn from_bytes(data: &[u8]) -> (r: Option<CommitCondition>)
        ensures
            data@.len() != Self::LEN ==> r is None,
            data@.len() == Self::LEN ==> (r matches Some(condition) && condition.tag == data@[0]
                && condition.data@ == data@.subrange(1, Self::LEN as int)),
    {
        if data.len() != Self::LEN {
            return None;
        }
        Some(
            CommitCondition {
                tag: data[0],
                data: array_from_slice::<COMMIT_CONDITION_DATA_SIZE>(data, 1),
            },
        )
    }

    /// The stored form of the condition: the tag, then the payload.
    pub fn to_bytes(&self) -> (r: [u8; 21])
        ensures
            r@ == seq![self.tag] + self.data@,
    {
        let mut r = [0u8;21];
        r[0] = self.tag;
        let mut i: usize = 0;
        while i < COMMIT_CONDITION_DATA_SIZE
            invariant
                i <= COMMIT_CONDITION_DATA_SIZE,
                r@[0] == self.tag,
                forall|j: int| 0 <= j < i ==> r@[j + 1] == self.data@[j],
            decreases COMMIT_CONDITION_DATA_SIZE - i,
        {
            r[i + 1] = self.data[i];
            i += 1;
        }
        assert(r@ =~= seq![self.tag] + self.data@);
        r
    }

    /// Checks that the tag names a rule, and returns the rule.
    #[inline(always)]
    pub fn is_valid(&self) -> (r: Result<CommitConditionTag, WrapperError>)
        ensures
            r == tag_of(self.tag),
    {
        CommitConditionTag::try_from(self.tag)
    }

    /// Takes one unit from `count`; refuses, leaving it untouched, when none
    /// is left.
    #[inline(always)]
    pub fn update_count(count: &mut u32) -> (r: Result<(), ProgramError>)
        ensures
            *old(count) > 0 ==> r is Ok && *final(count) == *old(count) - 1,
            *old(count) == 0 ==> r == Err::<(), ProgramError>(
                custom(WrapperError::CountExhausted),
            ) && *final(count) == 0,
    {
        if *count > 0 {
            *count = *count - 1;
            return Ok(());
        }
        Err(ProgramError::from(WrapperError::CountExhausted))
    }

    /// Reads the four packed fields: count, timestamp, offset, repeat count.
    #[inline]
    pub fn get_data_fields(&self) -> (r: Result<(u32, i64, u32, u32), ProgramError>)
        ensures
            r == Ok::<(u32, i64, u32, u32), ProgramError>(
                (
                    self.spec_count(),
                    self.spec_timestamp(),
                    self.spec_offset(),
                    self.spec_repeat_count(),
                ),
            ),
    {
        let bytes = self.data.as_slice();
        let count = u32_from_le_slice(bytes, 0);
        let timestamp = i64_from_le_slice(bytes, 4);
        let offset = u32_from_le_slice(bytes, 12);
        let repeat_count = u32_from_le_slice(bytes, 16);
        Ok((count, timestamp, offset, repeat_count))
    }

    /// Writes the two fields that a trigger can change; the rest of the
    /// payload stays.
    #[inline]
    pub fn set_data_fields(&mut self, count: u32, timestamp: i64) -> (r: Result<
        (),
        ProgramError,
    >)
        ensures
            r is Ok,
            final(self).tag == old(self).tag,
            final(self).data@ == payload_with(old(self).data@, count, timestamp),
            final(self).spec_count() == count,
            final(self).spec_timestamp() == timestamp,
            final(self).spec_offset() == old(self).spec_offset(),
            final(self).spec_repeat_count() == old(self).spec_repeat_count(),
    {
        let c = u32_to_le_bytes(count);
        let t = i64_to_le_bytes(timestamp);
        let d = self.data;
        let updated: [u8; COMMIT_CONDITION_DATA_SIZE] = [
            c[0],
            c[1],
            c[2],
            c[3],
            t[0],
            t[1],
            t[2],
            t[3],
            t[4],
            t[5],
            t[6],
            t[7],
            d[12],
            d[13],
            d[14],
            d[15],
            d[16],
            d[17],
            d[18],
            d[19],
        ];
        proof {
            lemma_payload_with_fields(d@, count, timestamp);
            assert(updated@ =~= payload_with(d@, count, timestamp));
        }
        self.data = updated;
        Ok(())
    }

    /// Evaluates the condition for a trigger at time `now` and, if it lets
    /// the trigger through, stores what the trigger used up. A refusal leaves
    /// the condition as it was.
    pub fn update(&mut self, now: i64) -> (r: Result<(), ProgramError>)
        ensures
            final(self).tag == old(self).tag,
            match old(self).spec_update(now) {
                Ok(payload) => r is Ok && final(self).data@ == payload,
                Err(e) => r == Err::<(), ProgramError>(e) && *final(self) == *old(self),
            },
            r is Ok ==> final(self).spec_offset() == old(self).spec_offset()
                && final(self).spec_repeat_count() == old(self).spec_repeat_count()
                && evaluate(
                tag_of(old(self).tag)->Ok_0,
                old(self).spec_count(),
                old(self).spec_timestamp(),
                old(self).spec_offset(),
                old(self).spec_repeat_count(),
                now,
            ) == Ok::<(u32, i64), ProgramError>(
                (final(self).spec_count(), final(self).spec_timestamp()),
            ),
    {
        let current_timestamp = now;
        let tag = match CommitConditionTag::try_from(self.tag) {
            Ok(tag) => tag,
            Err(e) => {
                return Err(ProgramError::from(e));
            },
        };
        let (mut count, mut timestamp, offset, repeat_count) = match self.get_data_fields() {
            Ok(fields) => fields,
            Err(e) => {
                return Err(e);
            },
        };
        let checked = match tag {
            CommitConditionTag::Count => Self::update_count(&mut count),
            CommitConditionTag::BeforeTimestamp => {
                if current_timestamp >= timestamp {
                    Err(ProgramError::from(WrapperError::TooLate))
                } else {
                    Ok(())
                }
            },
            CommitConditionTag::AfterTimestamp => {
                if current_timestamp <= timestamp {
                    Err(ProgramError::from(WrapperError::TooEarly))
                } else {
                    Ok(())
                }
            },
            CommitConditionTag::CountBeforeTimestamp => {
                if current_timestamp >= timestamp {
                    Err(ProgramError::from(WrapperError::TooLate))
                } else {
                    Self::update_count(&mut count)
                }
            },
            CommitConditionTag::CountAfterTimestamp => {
                if current_timestamp <= timestamp {
                    Err(ProgramError::from(WrapperError::TooEarly))
                } else {
                    Self::update_count(&mut count)
                }
            },
            CommitConditionTag::OneOffCountBetweenTimestamp => {
                let start = timestamp;
                match start.checked_add(offset as i64) {
                    None => Err(ProgramError::ArithmeticOverflow),
                    Some(end) => {
                        if current_timestamp < start {
                            Err(ProgramError::from(WrapperError::TooEarly))
                        } else if current_timestamp > end {
                            Err(ProgramError::from(WrapperError::TooLate))
                        } else {
                            Self::update_count(&mut count)
                        }
                    },
                }
            },
            CommitConditionTag::RepeatCountBetweenTimestamp => {
                match timestamp.checked_add(offset as i64) {
                    None => Err(ProgramError::ArithmeticOverflow),
                    Some(end) => {
                        if current_timestamp < timestamp {
                            Err(ProgramError::from(WrapperError::TooEarly))
                        } else {
                            if current_timestamp > end {
                                timestamp = current_timestamp;
                                count = repeat_count;
                            }
                            Self::update_count(&mut count)
                        }
                    },
                }
            },
            CommitConditionTag::Default => Err(ProgramError::from(WrapperError::ConditionNotSet)),
        };
        match checked {
            Err(e) => Err(e),
            Ok(()) => self.set_data_fields(count, timestamp),
        }
    }
}

} // verus!
