//! Conditions as a caller writes them, and their stored form.

use vstd::prelude::*;

use crate::codec::{
    i64_le, i64_to_le_bytes, lemma_i64_round_trip, lemma_u32_round_trip, u32_le, u32_to_le_bytes,
};
use crate::program::state::condition::{
    payload_count, payload_offset, payload_repeat_count, payload_timestamp, tag_of,
    CommitConditionTag,
};

verus! {

/// Width of a condition's payload.
pub const COMMIT_CONDITION_DATA_SIZE: usize = 20;

/// A condition on the triggers of a committed instruction.
#[derive(Debug, Clone, Copy, PartialEq, Eq, Structural)]
pub enum CommitCondition {
    /// Not set: lets no trigger through.
    Default,
    /// So many triggers: the count.
    Count(u32),
    /// Triggers before a time: the end.
    BeforeTimestamp(i64),
    /// Triggers after a time: the start.
    AfterTimestamp(i64),
    /// So many triggers before a time: the count, the end.
    CountBeforeTimestamp(u32, i64),
    /// So many triggers after a time: the count, the start.
    CountAfterTimestamp(u32, i64),
    /// So many triggers within one window: the count, the window's length,
    /// its start.
    OneOffCountBetweenTimestamp(u32, u32, i64),
    /// So many triggers within each window: the count, the window's length,
    /// its start, the count that every new window starts with.
    RepeatCountBetweenTimestamp(u32, u32, i64, u32),
}

impl Default for CommitCondition {
    fn default() -> (r: Self)
        ensures
            r == CommitCondition::Default,
    {
        CommitCondition::Default
    }
}

/// A condition in its stored form: the tag and the packed payload.
#[derive(Debug, Clone, Copy)]
pub struct RawCommitCondition {
    pub tag: u8,
    pub data: [u8; COMMIT_CONDITION_DATA_SIZE],
}

impl RawCommitCondition {
    /// The stored form of `condition`.
    pub fn from(condition: &CommitCondition) -> (r: Self)
        ensures
            r.tag == condition.spec_tag(),
            r.data@ == condition.spec_data(),
    {
        let tag = condition.get_tag();
        let data = condition.get_data();
        RawCommitCondition { tag, data }
    }
}

/// The condition that a stored tag and payload stand for, if the tag names a
/// rule: of the payload's fields, those that the rule uses.
pub open spec fn condition_of(tag: u8, data: Seq<u8>) -> Option<CommitCondition> {
    match tag_of(tag) {
        Err(_) => None,
        Ok(CommitConditionTag::Default) => Some(CommitCondition::Default),
        Ok(CommitConditionTag::Count) => Some(CommitCondition::Count(payload_count(data))),
        Ok(CommitConditionTag::BeforeTimestamp) => Some(
            CommitCondition::BeforeTimestamp(payload_timestamp(data)),
        ),
        Ok(CommitConditionTag::AfterTimestamp) => Some(
            CommitCondition::AfterTimestamp(payload_timestamp(data)),
        ),
        Ok(CommitConditionTag::CountBeforeTimestamp) => Some(
            CommitCondition::CountBeforeTimestamp(payload_count(data), payload_timestamp(data)),
        ),
        Ok(CommitConditionTag::CountAfterTimestamp) => Some(
            CommitCondition::CountAfterTimestamp(payload_count(data), payload_timestamp(data)),
        ),
        Ok(CommitConditionTag::OneOffCountBetweenTimestamp) => Some(
            CommitCondition::OneOffCountBetweenTimestamp(
                payload_count(data),
                payload_offset(data),
                payload_timestamp(data),
            ),
        ),
        Ok(CommitConditionTag::RepeatCountBetweenTimestamp) => Some(
            CommitCondition::RepeatCountBetweenTimestamp(
                payload_count(data),
                payload_offset(data),
                payload_timestamp(data),
                payload_repeat_count(data),
            ),
        ),
    }
}

impl CommitCondition {
    /// The tag of the rule.
    pub open spec fn spec_tag(&self) -> u8 {
        match self {
            CommitCondition::Default => 0,
            CommitCondition::Count(_) => 1,
            CommitCondition::BeforeTimestamp(_) => 2,
            CommitCondition::AfterTimestamp(_) => 3,
            CommitCondition::CountBeforeTimestamp(_, _) => 4,
            CommitCondition::CountAfterTimestamp(_, _) => 5,
            CommitCondition::OneOffCountBetweenTimestamp(_, _, _) => 6,
            CommitCondition::RepeatCountBetweenTimestamp(_, _, _, _) => 7,
        }
    }

    /// The count, zero where the rule has none.
    pub open spec fn spec_count(&self) -> u32 {
        match self {
            CommitCondition::Count(count) => *count,
            CommitCondition::CountBeforeTimestamp(count, _) => *count,
            CommitCondition::CountAfterTimestamp(count, _) => *count,
            CommitCondition::OneOffCountBetweenTimestamp(count, _, _) => *count,
            CommitCondition::RepeatCountBetweenTimestamp(count, _, _, _) => *count,
            _ => 0,
        }
    }

    /// The timestamp, zero where the rule has none.
    pub open spec fn spec_timestamp(&self) -> i64 {
        match self {
            CommitCondition::BeforeTimestamp(ts) => *ts,
            CommitCondition::AfterTimestamp(ts) => *ts,
            CommitCondition::CountBeforeTimestamp(_, ts) => *ts,
            CommitCondition::CountAfterTimestamp(_, ts) => *ts,
            CommitCondition::OneOffCountBetweenTimestamp(_, _, ts) => *ts,
            CommitCondition::RepeatCountBetweenTimestamp(_, _, ts, _) => *ts,
            _ => 0,
        }
    }

    /// The window's length, zero where the rule has none.
    pub open spec fn spec_offset(&self) -> u32 {
        match self {
            CommitCondition::OneOffCountBetweenTimestamp(_, offset, _) => *offset,
            CommitCondition::RepeatCountBetweenTimestamp(_, offset, _, _) => *offset,
            _ => 0,
        }
    }

    /// The count of a new window, zero where the rule has none.
    pub open spec fn spec_repeat_count(&self) -> u32 {
        match self {
            CommitCondition::RepeatCountBetweenTimestamp(_, _, _, repeat) => *repeat,
            _ => 0,
        }
    }

    /// The packed payload: the count at byte 0, the timestamp at 4, the
    /// window's length at 12, the count of a new window at 16, each
    /// little-endian, and zero where the rule has no such field.
    pub open spec fn spec_data(&self) -> Seq<u8> {
        u32_le(self.spec_count()) + i64_le(self.spec_timestamp()) + u32_le(self.spec_offset())
            + u32_le(self.spec_repeat_count())
    }

    /// The stored form: the tag, then the payload.
    pub open spec fn spec_bytes(&self) -> Seq<u8> {
        seq![self.spec_tag()] + self.spec_data()
    }

    /// Packing a condition and reading it back gives the same condition,
    /// for each of the eight rules.
    pub proof fn lemma_round_trip(self)
        ensures
            self.spec_data().len() == COMMIT_CONDITION_DATA_SIZE,
            self.spec_bytes().len() == 1 + COMMIT_CONDITION_DATA_SIZE,
            condition_of(self.spec_bytes()[0], self.spec_bytes().subrange(1, 21)) == Some(self),
            condition_of(self.spec_tag(), self.spec_data()) == Some(self),
    {
        let d = self.spec_data();
        lemma_u32_round_trip(self.spec_count());
        lemma_i64_round_trip(self.spec_timestamp());
        lemma_u32_round_trip(self.spec_offset());
        lemma_u32_round_trip(self.spec_repeat_count());
        assert(d.subrange(0, 4) =~= u32_le(self.spec_count()));
        assert(d.subrange(4, 12) =~= i64_le(self.spec_timestamp()));
        assert(d.subrange(12, 16) =~= u32_le(self.spec_offset()));
        assert(d.subrange(16, 20) =~= u32_le(self.spec_repeat_count()));
        assert(self.spec_bytes().subrange(1, 21) =~= d);
    }

    /// The tag of the rule.
    pub fn get_tag(&self) -> (r: u8)
        ensures
            r == self.spec_tag(),
    {
        match self {
            CommitCondition::Default => 0,
            CommitCondition::Count(_) => 1,
            CommitCondition::BeforeTimestamp(_) => 2,
            CommitCondition::AfterTimestamp(_) => 3,
            CommitCondition::CountBeforeTimestamp(_, _) => 4,
            CommitCondition::CountAfterTimestamp(_, _) => 5,
            CommitCondition::OneOffCountBetweenTimestamp(_, _, _) => 6,
            CommitCondition::RepeatCountBetweenTimestamp(_, _, _, _) => 7,
        }
    }

    /// The packed payload.
    pub fn get_data(&self) -> (r: [u8; COMMIT_CONDITION_DATA_SIZE])
        ensures
            r@ == self.spec_data(),
    {
        let (count, timestamp, offset, repeat): (u32, i64, u32, u32) = match self {
            CommitCondition::Default => (0, 0, 0, 0),
            CommitCondition::Count(count) => (*count, 0, 0, 0),
            CommitCondition::BeforeTimestamp(ts) => (0, *ts, 0, 0),
            CommitCondition::AfterTimestamp(ts) => (0, *ts, 0, 0),
            CommitCondition::CountBeforeTimestamp(count, ts) => (*count, *ts, 0, 0),
            CommitCondition::CountAfterTimestamp(count, ts) => (*count, *ts, 0, 0),
            CommitCondition::OneOffCountBetweenTimestamp(count, offset, ts) => (
                *count,
                *ts,
                *offset,
                0,
            ),
            CommitCondition::RepeatCountBetweenTimestamp(count, offset, ts, repeat) => (
                *count,
                *ts,
                *offset,
                *repeat,
            ),
        };
        let c = u32_to_le_bytes(count);
        let t = i64_to_le_bytes(timestamp);
        let o = u32_to_le_bytes(offset);
        let p = u32_to_le_bytes(repeat);
        let data: [u8; COMMIT_CONDITION_DATA_SIZE] = [
            c[0],
            c[1],
            c[2],
            c[3],
            t[0],
            t[1],
            t[2],
            t[3],
            t[4],
            t[5],
            t[6],
            t[7],
            o[0],
            o[1],
            o[2],
            o[3],
            p[0],
            p[1],
            p[2],
            p[3],
        ];
        proof {
            lemma_i64_round_trip(timestamp);
            assert(data@ =~= self.spec_data());
        }
        data
    }

    /// The stored form: the tag, then the payload.
    pub fn to_expected_bytes(&self) -> (r: [u8; 21])
        ensures
            r@ == self.spec_bytes(),
    {
        let mut data = [0u8;21];
        data[0] = self.get_tag();
        let payload = self.get_data();
        let mut i: usize = 0;
        while i < COMMIT_CONDITION_DATA_SIZE
            invariant
                i <= COMMIT_CONDITION_DATA_SIZE,
                data@[0] == self.spec_tag(),
                payload@ == self.spec_data(),
                forall|j: int| 0 <= j < i ==> data@[j + 1] == payload@[j],
            decreases COMMIT_CONDITION_DATA_SIZE - i,
        {
            data[i + 1] = payload[i];
            i += 1;
        }
        assert(data@ =~= self.spec_bytes());
        data
    }
}

} // verus!
