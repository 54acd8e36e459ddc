//! The authorization record: what it commits to, how it is laid out in
//! storage, and the seeds its own address is derived from.

use vstd::prelude::*;
use vstd::std_specs::convert::FromSpecImpl;
use vstd::std_specs::convert::TryFromSpecImpl;

use crate::codec::{
    array_from_slice, lemma_u16_bytes_round_trip, lemma_u16_round_trip, u16_from_le,
    u16_from_le_bytes, u16_le,
};
use crate::program::constants::{
    COMMIT_SEEDS_LEN, CONFIG_MAX_ACCOUNTS, CONFIG_MAX_SIGNERS, HASH_LENGTH, ID,
};
use crate::program::helpers::utils::{hashv, sha256};
use crate::program::state::condition::{
    update_payload, CommitCondition, COMMIT_CONDITION_DATA_SIZE,
};
use crate::program::state::error::{custom, ProgramError, WrapperError};
use crate::pubkey::{program_address, Pubkey, PubkeyError};

verus! {

pub type HashType = [u8; 32];

/// How a record binds the payload of the instruction it commits to, as one
/// stored byte: 0 for no payload at all, 1 for one exact range of bytes, 2
/// for any payload.
#[derive(Debug, Clone, Copy)]
pub struct DataCommitType {
    pub commit_type: [u8; 1],
}

/// The three ways a record can bind a payload.
#[derive(Debug, Clone, Copy, PartialEq, Eq, Structural)]
pub enum DataCommitTypeEnum {
    NoData,
    Data,
    AnyData,
}

/// The byte that stands for a way of binding.
pub open spec fn commit_type_byte(value: DataCommitTypeEnum) -> u8 {
    match value {
        DataCommitTypeEnum::NoData => 0,
        DataCommitTypeEnum::Data => 1,
        DataCommitTypeEnum::AnyData => 2,
    }
}

/// The way of binding that a stored byte stands for, if it stands for one.
pub open spec fn commit_type_of(byte: u8) -> Result<DataCommitTypeEnum, WrapperError> {
    if byte == 0 {
        Ok(DataCommitTypeEnum::NoData)
    } else if byte == 1 {
        Ok(DataCommitTypeEnum::Data)
    } else if byte == 2 {
        Ok(DataCommitTypeEnum::AnyData)
    } else {
        Err(WrapperError::InvalidDataCommitType)
    }
}

impl From<DataCommitTypeEnum> for DataCommitType {
    fn from(value: DataCommitTypeEnum) -> (r: Self) {
        let byte: u8 = match value {
            DataCommitTypeEnum::NoData => 0,
            DataCommitTypeEnum::Data => 1,
            DataCommitTypeEnum::AnyData => 2,
        };
        DataCommitType { commit_type: [byte] }
    }
}

impl FromSpecImpl<DataCommitTypeEnum> for DataCommitType {
    open spec fn obeys_from_spec() -> bool {
        true
    }

    open spec fn from_spec(value: DataCommitTypeEnum) -> Self {
        DataCommitType { commit_type: [commit_type_byte(value)] }
    }
}

impl TryFrom<DataCommitType> for DataCommitTypeEnum {
    type Error = WrapperError;

    fn try_from(value: DataCommitType) -> (r: Result<Self, WrapperError>) {
        let byte = value.commit_type[0];
        if byte == 0 {
            Ok(DataCommitTypeEnum::NoData)
        } else if byte == 1 {
            Ok(DataCommitTypeEnum::Data)
        } else if byte == 2 {
            Ok(DataCommitTypeEnum::AnyData)
        } else {
            Err(WrapperError::InvalidDataCommitType)
        }
    }
}

impl TryFromSpecImpl<DataCommitType> for DataCommitTypeEnum {
    open spec fn obeys_try_from_spec() -> bool {
        true
    }

    open spec fn try_from_spec(value: DataCommitType) -> Result<Self, WrapperError> {
        commit_type_of(value.commit_type@[0])
    }
}

/// What a record commits to, with its condition: every field in the form in
/// which it is stored.
#[derive(Debug, Clone, Copy)]
pub struct ConfigBase {
    pub account_count: [u8; 1],
    pub account_indices: [u8; CONFIG_MAX_ACCOUNTS],
    pub signer_count: [u8; 1],
    pub signer_bumps: [u8; CONFIG_MAX_SIGNERS],
    pub instruction_data_commit_type: DataCommitType,
    pub instruction_data_length: [u8; 2],
    pub instruction_data_offset: [u8; 2],
    pub instruction_data_hash: HashType,
    pub commit_bump: [u8; 1],
    pub condition: CommitCondition,
}

/// A record's committed fields as plain values.
pub struct ConfigBaseView {
    pub account_count: u8,
    pub account_indices: Seq<u8>,
    pub signer_count: u8,
    pub signer_bumps: Seq<u8>,
    pub commit_type: u8,
    pub data_length: u16,
    pub data_offset: u16,
    pub data_hash: Seq<u8>,
    pub commit_bump: u8,
    pub condition_tag: u8,
    pub condition_data: Seq<u8>,
}

impl ConfigBaseView {
    /// Every list has the width of its field.
    pub open spec fn wf(self) -> bool {
        &&& self.account_indices.len() == CONFIG_MAX_ACCOUNTS
        &&& self.signer_bumps.len() == CONFIG_MAX_SIGNERS
        &&& self.data_hash.len() == HASH_LENGTH
        &&& self.condition_data.len() == COMMIT_CONDITION_DATA_SIZE
    }

    /// The stored form: the fields one after the other, numbers
    /// little-endian, nothing in between.
    pub open spec fn encode(self) -> Seq<u8> {
        seq![self.account_count] + self.account_indices + seq![self.signer_count]
            + self.signer_bumps + seq![self.commit_type] + u16_le(self.data_length) + u16_le(
            self.data_offset,
        ) + self.data_hash + seq![self.commit_bump] + seq![self.condition_tag]
            + self.condition_data
    }

    /// The fields that `bytes` store; none unless the width is exact.
    pub open spec fn decode(bytes: Seq<u8>) -> Option<ConfigBaseView> {
        if bytes.len() != ConfigBase::LEN {
            None
        } else {
            Some(
                ConfigBaseView {
                    account_count: bytes[0],
                    account_indices: bytes.subrange(1, 9),
                    signer_count: bytes[9],
                    signer_bumps: bytes.subrange(10, 14),
                    commit_type: bytes[14],
                    data_length: u16_from_le(bytes.subrange(15, 17)),
                    data_offset: u16_from_le(bytes.subrange(17, 19)),
                    data_hash: bytes.subrange(19, 51),
                    commit_bump: bytes[51],
                    condition_tag: bytes[52],
                    condition_data: bytes.subrange(53, 73),
                },
            )
        }
    }

    /// The way of binding the payload, if the stored byte names one.
    pub open spec fn commit_type_enum(self) -> Result<DataCommitTypeEnum, WrapperError> {
        commit_type_of(self.commit_type)
    }

    /// Whether a payload of `length` bytes can satisfy the commitment.
    pub open spec fn length_matches_commit_type(self, length: int) -> bool {
        match self.commit_type_enum() {
            Ok(DataCommitTypeEnum::NoData) => length == 0,
            Ok(DataCommitTypeEnum::AnyData) => true,
            Ok(DataCommitTypeEnum::Data) => length == self.data_length,
            Err(_) => false,
        }
    }

    /// The seeds of the record's address, in their fixed order: the account
    /// index layout, the signer count, the hash of the committed accounts,
    /// the way of binding the payload, the offset of the committed range, its
    /// hash, and the bump.
    pub open spec fn commit_seeds(self, commit_accounts_hash: Seq<u8>) -> Seq<Seq<u8>> {
        seq![
            self.account_indices,
            seq![self.signer_count],
            commit_accounts_hash,
            seq![self.commit_type],
            u16_le(self.data_offset),
            self.data_hash,
            seq![self.commit_bump],
        ]
    }

    /// The address that the record's fields lead to, for committed accounts
    /// whose keys hash to `commit_accounts_hash`, or why there is none.
    pub open spec fn address(self, commit_accounts_hash: Seq<u8>) -> Result<
        Seq<u8>,
        PubkeyError,
    > {
        program_address(self.commit_seeds(commit_accounts_hash), ID@)
    }

    /// The address depends on the seven seed components alone, and on
    /// nothing else: two records that agree on the index layout, the signer
    /// count, the way of binding the payload, the offset, the hash of the
    /// committed bytes and the bump lead, for the same hash of the committed
    /// accounts, to the same address.
    pub proof fn lemma_address_deterministic(
        self,
        other: ConfigBaseView,
        commit_accounts_hash: Seq<u8>,
        other_accounts_hash: Seq<u8>,
    )
        requires
            self.account_indices == other.account_indices,
            self.signer_count == other.signer_count,
            commit_accounts_hash == other_accounts_hash,
            self.commit_type == other.commit_type,
            self.data_offset == other.data_offset,
            self.data_hash == other.data_hash,
            self.commit_bump == other.commit_bump,
        ensures
            self.address(commit_accounts_hash) == other.address(other_accounts_hash),
    {
    }

    /// Replacing a record's condition, in whole or in part, leaves its
    /// address where it was.
    pub proof fn lemma_condition_keeps_address(
        self,
        tag: u8,
        data: Seq<u8>,
        commit_accounts_hash: Seq<u8>,
    )
        ensures
            self.with_condition(tag, data).address(commit_accounts_hash) == self.address(
                commit_accounts_hash,
            ),
            self.with_condition_data(data).address(commit_accounts_hash) == self.address(
                commit_accounts_hash,
            ),
    {
    }

    /// Whether the hash `computed` over the committed range of a payload is
    /// the committed one.
    pub open spec fn check_data_hash(self, computed: Seq<u8>) -> Result<(), ProgramError> {
        if computed == self.data_hash {
            Ok(())
        } else {
            Err(ProgramError::InvalidInstructionData)
        }
    }

    /// Whether the payload `data` satisfies the commitment.
    pub open spec fn check_data(self, data: Seq<u8>) -> Result<(), ProgramError> {
        match self.commit_type_enum() {
            Err(e) => Err(custom(e)),
            Ok(DataCommitTypeEnum::Data) => {
                let offset = self.data_offset as int;
                let length = self.data_length as int;
                if data.len() < offset + length {
                    Err(ProgramError::InvalidInstructionData)
                } else {
                    self.check_data_hash(sha256(seq![data.subrange(offset, offset + length)]))
                }
            },
            Ok(DataCommitTypeEnum::NoData) => if data.len() != 0 {
                Err(ProgramError::InvalidInstructionData)
            } else {
                Ok(())
            },
            Ok(DataCommitTypeEnum::AnyData) => Ok(()),
        }
    }

    /// The seeds of the record's address once the payload, where one is
    /// handed in, has been checked against the commitment.
    pub open spec fn get_commit_seeds(
        self,
        commit_accounts_hash: Seq<u8>,
        maybe_data: Option<Seq<u8>>,
    ) -> Result<Seq<Seq<u8>>, ProgramError> {
        match maybe_data {
            None => Ok(self.commit_seeds(commit_accounts_hash)),
            Some(data) => match self.check_data(data) {
                Err(e) => Err(e),
                Ok(()) => Ok(self.commit_seeds(commit_accounts_hash)),
            },
        }
    }

    /// The record with its condition's payload replaced.
    pub open spec fn with_condition_data(self, data: Seq<u8>) -> ConfigBaseView {
        ConfigBaseView { condition_data: data, ..self }
    }

    /// The record with its whole condition replaced.
    pub open spec fn with_condition(self, tag: u8, data: Seq<u8>) -> ConfigBaseView {
        ConfigBaseView { condition_tag: tag, condition_data: data, ..self }
    }

    /// The record with its bump replaced.
    pub open spec fn with_commit_bump(self, bump: u8) -> ConfigBaseView {
        ConfigBaseView { commit_bump: bump, ..self }
    }

    /// Storing a record's fields and reading them back gives the same
    /// fields.
    pub proof fn lemma_decode_encode(self)
        requires
            self.wf(),
        ensures
            self.encode().len() == ConfigBase::LEN,
            ConfigBaseView::decode(self.encode()) == Some(self),
    {
        let b = self.encode();
        lemma_u16_round_trip(self.data_length);
        lemma_u16_round_trip(self.data_offset);
        assert(b.len() == 73);
        assert(b.subrange(1, 9) =~= self.account_indices);
        assert(b.subrange(10, 14) =~= self.signer_bumps);
        assert(b.subrange(15, 17) =~= u16_le(self.data_length));
        assert(b.subrange(17, 19) =~= u16_le(self.data_offset));
        assert(b.subrange(19, 51) =~= self.data_hash);
        assert(b.subrange(53, 73) =~= self.condition_data);
    }

    /// Reading stored bytes and storing what was read gives the same bytes.
    pub proof fn lemma_encode_decode(bytes: Seq<u8>)
        requires
            bytes.len() == ConfigBase::LEN,
        ensures
            ConfigBaseView::decode(bytes) is Some,
            ConfigBaseView::decode(bytes)->Some_0.wf(),
            ConfigBaseView::decode(bytes)->Some_0.encode() == bytes,
    {
        let v = ConfigBaseView::decode(bytes)->Some_0;
        lemma_u16_bytes_round_trip(bytes.subrange(15, 17));
        lemma_u16_bytes_round_trip(bytes.subrange(17, 19));
        assert(v.encode() =~= bytes);
    }
}

impl View for ConfigBase {
    type V = ConfigBaseView;

    open spec fn view(&self) -> ConfigBaseView {
        ConfigBaseView {
            account_count: self.account_count@[0],
            account_indices: self.account_indices@,
            signer_count: self.signer_count@[0],
            signer_bumps: self.signer_bumps@,
            commit_type: self.instruction_data_commit_type.commit_type@[0],
            data_length: u16_from_le(self.instruction_data_length@),
            data_offset: u16_from_le(self.instruction_data_offset@),
            data_hash: self.instruction_data_hash@,
            commit_bump: self.commit_bump@[0],
            condition_tag: self.condition.tag,
            condition_data: self.condition.data@,
        }
    }
}

/// Appends `src` to `out`.
pub fn push_all(out: &mut Vec<u8>, src: &[u8])
    ensures
        final(out)@ == old(out)@ + src@,
{
    let mut i: usize = 0;
    while i < src.len()
        invariant
            i <= src@.len(),
            out@ == old(out)@ + src@.subrange(0, i as int),
        decreases src@.len() - i,
    {
        out.push(src[i]);
        assert(out@ =~= old(out)@ + src@.subrange(0, i + 1));
        i += 1;
    }
    assert(src@.subrange(0, src@.len() as int) =~= src@);
}

/// The bytes that a list of seeds holds, given slice by slice.
pub proof fn lemma_seeds_view(seeds: &[&[u8]], expected: Seq<Seq<u8>>)
    requires
        seeds@.len() == expected.len(),
        forall|i: int| 0 <= i < expected.len() ==> (#[trigger] seeds@[i])@ == expected[i],
    ensures
        seeds.deep_view() == expected,
{
    assert(seeds.deep_view() =~~= expected);
}

impl ConfigBase {
    /// Stored size of the committed fields.
    pub const LEN: usize = 73;

    /// Two records with the same plain fields are the same record.
    pub proof fn lemma_view_injective(self, other: ConfigBase)
        requires
            self@ == other@,
        ensures
            self == other,
    {
        lemma_u16_bytes_round_trip(self.instruction_data_length@);
        lemma_u16_bytes_round_trip(other.instruction_data_length@);
        lemma_u16_bytes_round_trip(self.instruction_data_offset@);
        lemma_u16_bytes_round_trip(other.instruction_data_offset@);
        assert(self.account_count =~= other.account_count);
        assert(self.account_indices =~= other.account_indices);
        assert(self.signer_count =~= other.signer_count);
        assert(self.signer_bumps =~= other.signer_bumps);
        assert(self.instruction_data_commit_type.commit_type
            =~= other.instruction_data_commit_type.commit_type);
        assert(self.instruction_data_length =~= other.instruction_data_length);
        assert(self.instruction_data_offset =~= other.instruction_data_offset);
        assert(self.instruction_data_hash =~= other.instruction_data_hash);
        assert(self.commit_bump =~= other.commit_bump);
        assert(self.condition.data =~= other.condition.data);
    }

    /// Reads the committed fields from their stored form. Fails closed: any
    /// width but the exact one gives nothing.
    pub fn from_bytes(data: &[u8]) -> (r: Option<ConfigBase>)
        ensures
            match r {
                Some(base) => ConfigBaseView::decode(data@) == Some(base@) && base@.encode()
                    == data@,
                None => ConfigBaseView::decode(data@) is None,
            },
    {
        if data.len() != Self::LEN {
            return None;
        }
        proof {
            ConfigBaseView::lemma_encode_decode(data@);
        }
        let base = ConfigBase {
            account_count: array_from_slice::<1>(data, 0),
            account_indices: array_from_slice::<CONFIG_MAX_ACCOUNTS>(data, 1),
            signer_count: array_from_slice::<1>(data, 9),
            signer_bumps: array_from_slice::<CONFIG_MAX_SIGNERS>(data, 10),
            instruction_data_commit_type: DataCommitType {
                commit_type: array_from_slice::<1>(data, 14),
            },
            instruction_data_length: array_from_slice::<2>(data, 15),
            instruction_data_offset: array_from_slice::<2>(data, 17),
            instruction_data_hash: array_from_slice::<HASH_LENGTH>(data, 19),
            commit_bump: array_from_slice::<1>(data, 51),
            condition: CommitCondition {
                tag: data[52],
                data: array_from_slice::<COMMIT_CONDITION_DATA_SIZE>(data, 53),
            },
        };
        Some(base)
    }

    /// The stored form of the committed fields.
    pub fn to_bytes(&self) -> (r: Vec<u8>)
        ensures
            r@ == self@.encode(),
            r@.len() == Self::LEN,
            self@.wf(),
            ConfigBaseView::decode(r@) == Some(self@),
    {
        proof {
            self@.lemma_decode_encode();
        }
        let mut out: Vec<u8> = Vec::new();
        push_all(&mut out, self.account_count.as_slice());
        push_all(&mut out, self.account_indices.as_slice());
        push_all(&mut out, self.signer_count.as_slice());
        push_all(&mut out, self.signer_bumps.as_slice());
        push_all(&mut out, self.instruction_data_commit_type.commit_type.as_slice());
        push_all(&mut out, self.instruction_data_length.as_slice());
        push_all(&mut out, self.instruction_data_offset.as_slice());
        push_all(&mut out, self.instruction_data_hash.as_slice());
        push_all(&mut out, self.commit_bump.as_slice());
        out.push(self.condition.tag);
        push_all(&mut out, self.condition.data.as_slice());
        proof {
            lemma_u16_bytes_round_trip(self.instruction_data_length@);
            lemma_u16_bytes_round_trip(self.instruction_data_offset@);
            assert(self.account_count@ =~= seq![self.account_count@[0]]);
            assert(self.signer_count@ =~= seq![self.signer_count@[0]]);
            assert(self.commit_bump@ =~= seq![self.commit_bump@[0]]);
            assert(self.instruction_data_commit_type.commit_type@
                =~= seq![self.instruction_data_commit_type.commit_type@[0]]);
            assert(out@ =~= self@.encode());
        }
        out
    }

    /// Checks whether a payload of `length` bytes can satisfy the commitment:
    /// none at all where no payload is committed, any where every payload is
    /// accepted, exactly the committed length where a range is committed. A
    /// record whose way of binding is unknown accepts nothing.
    pub fn length_matches_commit_type(&self, length: usize) -> (r: bool)
        ensures
            r == self@.length_matches_commit_type(length as int),
    {
        let commit_type = DataCommitTypeEnum::try_from(self.instruction_data_commit_type);
        let committed_length = u16_from_le_bytes(&self.instruction_data_length) as usize;
        match commit_type {
            Ok(DataCommitTypeEnum::NoData) => length == 0,
            Ok(DataCommitTypeEnum::AnyData) => true,
            Ok(DataCommitTypeEnum::Data) => length == committed_length,
            Err(_) => false,
        }
    }

    /// Evaluates the condition for a trigger at `now` and stores what the
    /// trigger used up; a refusal leaves the record as it was.
    #[inline(always)]
    pub fn update_condition(&mut self, now: i64) -> (r: Result<(), ProgramError>)
        ensures
            match update_payload(old(self)@.condition_tag, old(self)@.condition_data, now) {
                Ok(payload) => r is Ok && final(self)@ == old(self)@.with_condition_data(payload),
                Err(e) => r == Err::<(), ProgramError>(e) && *final(self) == *old(self),
            },
    {
        self.condition.update(now)
    }

    /// Compares the hash `computed` over the committed range of a payload
    /// with the committed one.
    pub fn check_data_hash(&self, computed: &HashType) -> (r: Result<(), ProgramError>)
        ensures
            r == self@.check_data_hash(computed@),
    {
        if !crate::pubkey::are_keys_equal(computed, &self.instruction_data_hash) {
            return Err(ProgramError::InvalidInstructionData);
        }
        Ok(())
    }

    /// Checks a payload against the commitment: nothing where no payload is
    /// committed, anything where any is accepted, and where a range is
    /// committed, a payload that reaches the end of the range and whose bytes
    /// in the range hash to the committed hash.
    pub fn check_data(&self, data: &[u8]) -> (r: Result<(), ProgramError>)
        ensures
            r == self@.check_data(data@),
    {
        match DataCommitTypeEnum::try_from(self.instruction_data_commit_type) {
            Err(e) => Err(ProgramError::from(e)),
            Ok(DataCommitTypeEnum::Data) => {
                let instruction_data_offset = u16_from_le_bytes(
                    &self.instruction_data_offset,
                ) as usize;
                let instruction_data_length = u16_from_le_bytes(
                    &self.instruction_data_length,
                ) as usize;
                if data.len() < instruction_data_offset + instruction_data_length {
                    return Err(ProgramError::InvalidInstructionData);
                }
                let committed = vstd::slice::slice_subrange(
                    data,
                    instruction_data_offset,
                    instruction_data_offset + instruction_data_length,
                );
                let commit_instruction_data: [&[u8]; 1] = [committed];
                let commit_instruction_data = commit_instruction_data.as_slice();
                let mut instruction_data_hash: [u8; HASH_LENGTH] = [0;HASH_LENGTH];
                proof {
                    lemma_seeds_view(commit_instruction_data, seq![committed@]);
                }
                hashv(commit_instruction_data, &mut instruction_data_hash);
                self.check_data_hash(&instruction_data_hash)
            },
            Ok(DataCommitTypeEnum::NoData) => {
                if data.len() != 0 {
                    return Err(ProgramError::InvalidInstructionData);
                }
                Ok(())
            },
            Ok(DataCommitTypeEnum::AnyData) => Ok(()),
        }
    }

    /// Gives the seeds of the record's address for the committed accounts
    /// whose hash is `commit_accounts_hash`. Where a payload is handed in, it
    /// is first checked against the commitment, and a payload that does not
    /// satisfy it is refused; where none is handed in, nothing is checked.
    pub fn get_commit_seeds<'a, 'b>(
        &'a self,
        commit_accounts_hash: &'b [u8],
        maybe_data: Option<&[u8]>,
    ) -> (r: Result<[&'b [u8]; COMMIT_SEEDS_LEN], ProgramError>) where 'a: 'b
        ensures
            match self@.get_commit_seeds(
                commit_accounts_hash@,
                match maybe_data {
                    Some(data) => Some(data@),
                    None => None,
                },
            ) {
                Ok(seeds) => r is Ok && r->Ok_0@.len() == COMMIT_SEEDS_LEN && forall|i: int|
                    0 <= i < COMMIT_SEEDS_LEN ==> (#[trigger] r->Ok_0@[i])@ == seeds[i],
                Err(e) => r == Err::<[&'b [u8]; COMMIT_SEEDS_LEN], ProgramError>(e),
            },
    {
        match maybe_data {
            Some(data) => {
                match self.check_data(data) {
                    Err(e) => {
                        return Err(e);
                    },
                    Ok(()) => {},
                }
            },
            None => {},
        }
        proof {
            lemma_u16_bytes_round_trip(self.instruction_data_offset@);
            assert(self.signer_count@ =~= seq![self.signer_count@[0]]);
            assert(self.commit_bump@ =~= seq![self.commit_bump@[0]]);
            assert(self.instruction_data_commit_type.commit_type@
                =~= seq![self.instruction_data_commit_type.commit_type@[0]]);
        }
        let commit_seeds: [&[u8]; COMMIT_SEEDS_LEN] = [
            self.account_indices.as_slice(),
            self.signer_count.as_slice(),
            commit_accounts_hash,
            self.instruction_data_commit_type.commit_type.as_slice(),
            self.instruction_data_offset.as_slice(),
            self.instruction_data_hash.as_slice(),
            self.commit_bump.as_slice(),
        ];
        Ok(commit_seeds)
    }
}

/// The whole record: the committed fields, who may trigger, and the
/// authorities.
#[derive(Debug, Clone, Copy)]
pub struct Config {
    pub base: ConfigBase,
    pub starter_key: Pubkey,
    pub signer_keys: [Pubkey; CONFIG_MAX_SIGNERS],
}

/// A record as plain values.
pub struct ConfigView {
    pub base: ConfigBaseView,
    pub starter_key: Seq<u8>,
    pub signer_keys: Seq<Seq<u8>>,
}

impl ConfigView {
    /// Every list has the width of its field.
    pub open spec fn wf(self) -> bool {
        &&& self.base.wf()
        &&& self.starter_key.len() == 32
        &&& self.signer_keys.len() == CONFIG_MAX_SIGNERS
        &&& forall|i: int|
            0 <= i < CONFIG_MAX_SIGNERS ==> (#[trigger] self.signer_keys[i]).len() == 32
    }

    /// The stored form: the committed fields, the starter's key, then the
    /// four authority keys.
    pub open spec fn encode(self) -> Seq<u8> {
        self.base.encode() + self.starter_key + self.signer_keys[0] + self.signer_keys[1]
            + self.signer_keys[2] + self.signer_keys[3]
    }

    /// The record that `bytes` store; none unless the width is exact.
    pub open spec fn decode(bytes: Seq<u8>) -> Option<ConfigView> {
        if bytes.len() != Config::LEN {
            None
        } else {
            Some(
                ConfigView {
                    base: ConfigBaseView::decode(bytes.subrange(0, 73))->Some_0,
                    starter_key: bytes.subrange(73, 105),
                    signer_keys: seq![
                        bytes.subrange(105, 137),
                        bytes.subrange(137, 169),
                        bytes.subrange(169, 201),
                        bytes.subrange(201, 233),
                    ],
                },
            )
        }
    }

    /// Storing a record and reading it back gives the same record.
    pub proof fn lemma_decode_encode(self)
        requires
            self.wf(),
        ensures
            self.encode().len() == Config::LEN,
            ConfigView::decode(self.encode()) == Some(self),
    {
        self.base.lemma_decode_encode();
        let b = self.encode();
        assert(b.subrange(0, 73) =~= self.base.encode());
        assert(b.subrange(73, 105) =~= self.starter_key);
        assert(b.subrange(105, 137) =~= self.signer_keys[0]);
        assert(b.subrange(137, 169) =~= self.signer_keys[1]);
        assert(b.subrange(169, 201) =~= self.signer_keys[2]);
        assert(b.subrange(201, 233) =~= self.signer_keys[3]);
        assert(ConfigView::decode(b)->Some_0.signer_keys =~= self.signer_keys);
    }

    /// Reading stored bytes and storing what was read gives the same bytes.
    pub proof fn lemma_encode_decode(bytes: Seq<u8>)
        requires
            bytes.len() == Config::LEN,
        ensures
            ConfigView::decode(bytes) is Some,
            ConfigView::decode(bytes)->Some_0.wf(),
            ConfigView::decode(bytes)->Some_0.encode() == bytes,
    {
        ConfigBaseView::lemma_encode_decode(bytes.subrange(0, 73));
        let v = ConfigView::decode(bytes)->Some_0;
        assert(v.encode() =~= bytes);
    }
}

impl View for Config {
    type V = ConfigView;

    open spec fn view(&self) -> ConfigView {
        ConfigView {
            base: self.base@,
            starter_key: self.starter_key@,
            signer_keys: seq![
                self.signer_keys@[0]@,
                self.signer_keys@[1]@,
                self.signer_keys@[2]@,
                self.signer_keys@[3]@,
            ],
        }
    }
}

impl Config {
    /// Stored size of a record.
    pub const LEN: usize = 233;

    /// Two records with the same plain fields are the same record.
    pub proof fn lemma_view_injective(self, other: Config)
        requires
            self@ == other@,
        ensures
            self == other,
    {
        self.base.lemma_view_injective(other.base);
        assert(self.starter_key =~= other.starter_key);
        assert(self@.signer_keys[0] == other@.signer_keys[0]);
        assert(self@.signer_keys[1] == other@.signer_keys[1]);
        assert(self@.signer_keys[2] == other@.signer_keys[2]);
        assert(self@.signer_keys[3] == other@.signer_keys[3]);
        assert(self.signer_keys@[0] =~= other.signer_keys@[0]);
        assert(self.signer_keys@[1] =~= other.signer_keys@[1]);
        assert(self.signer_keys@[2] =~= other.signer_keys@[2]);
        assert(self.signer_keys@[3] =~= other.signer_keys@[3]);
        assert(self.signer_keys =~= other.signer_keys);
    }

    /// Reads a record from its stored form. Fails closed: any width but the
    /// exact one gives nothing.
    pub fn from_bytes(data: &[u8]) -> (r: Option<Config>)
        ensures
            match r {
                Some(config) => ConfigView::decode(data@) == Some(config@) && config@.encode()
                    == data@,
                None => ConfigView::decode(data@) is None,
            },
    {
        if data.len() != Self::LEN {
            return None;
        }
        proof {
            ConfigView::lemma_encode_decode(data@);
        }
        let head = vstd::slice::slice_subrange(data, 0, ConfigBase::LEN);
        let base = match ConfigBase::from_bytes(head) {
            Some(base) => base,
            None => {
                return None;
            },
        };
        let config = Config {
            base,
            starter_key: array_from_slice::<32>(data, 73),
            signer_keys: [
                array_from_slice::<32>(data, 105),
                array_from_slice::<32>(data, 137),
                array_from_slice::<32>(data, 169),
                array_from_slice::<32>(data, 201),
            ],
        };
        proof {
            assert(config@.signer_keys =~= ConfigView::decode(data@)->Some_0.signer_keys);
        }
        Some(config)
    }

    /// The stored form of the record.
    pub fn to_bytes(&self) -> (r: Vec<u8>)
        ensures
            r@ == self@.encode(),
            r@.len() == Self::LEN,
            self@.wf(),
            ConfigView::decode(r@) == Some(self@),
    {
        proof {
            assert(self.base@.wf());
            assert(self@.wf());
            self@.lemma_decode_encode();
        }
        let mut out = self.base.to_bytes();
        push_all(&mut out, self.starter_key.as_slice());
        push_all(&mut out, self.signer_keys[0].as_slice());
        push_all(&mut out, self.signer_keys[1].as_slice());
        push_all(&mut out, self.signer_keys[2].as_slice());
        push_all(&mut out, self.signer_keys[3].as_slice());
        out
    }
}

} // verus!
