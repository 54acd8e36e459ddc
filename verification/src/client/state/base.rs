//! What every builder shares: the committed accounts, the positions at which
//! a trigger will present them, how the payload is bound, and the derivation
//! of the proxies' and the record's addresses.

use vstd::prelude::*;

use crate::account::AccountMeta;
use crate::client::state::constants::{
    CONFIG_MAX_ACCOUNTS, CONFIG_MAX_SIGNERS, CONFIG_MIN_ACCOUNTS, PROGRAM_ID, SYSTEM_PROGRAM_ID,
};
use crate::client::state::error::CustomError;
use crate::codec::{i16_le, i16_to_le_bytes};
use crate::program::helpers::utils::{hashv, sha256};
use crate::program::state::config::lemma_seeds_view;
use crate::pubkey::{canonical_address, find_program_address, Pubkey};

verus! {

/// How a commitment binds the payload of the instruction it commits to.
#[derive(Debug, Clone)]
pub enum DataCommitType {
    /// The instruction carries no payload.
    NoData,
    /// Any payload is accepted.
    AnyData,
    /// The payload holds exactly these bytes from this offset on.
    Data(i16, Vec<u8>),
}

impl Default for DataCommitType {
    fn default() -> (r: Self)
        ensures
            r is NoData,
    {
        DataCommitType::NoData
    }
}

/// Thirty-two zero bytes.
pub open spec fn zero_hash() -> Seq<u8> {
    Seq::new(32, |i: int| 0u8)
}

impl DataCommitType {
    /// The byte that the record stores for this way of binding.
    pub open spec fn spec_commit_type(&self) -> u8 {
        match self {
            DataCommitType::NoData => 0,
            DataCommitType::Data(_, _) => 1,
            DataCommitType::AnyData => 2,
        }
    }

    /// The stored offset: minus one where no payload is committed, zero
    /// where any is accepted.
    pub open spec fn spec_offset(&self) -> i16 {
        match self {
            DataCommitType::NoData => -1i16,
            DataCommitType::AnyData => 0i16,
            DataCommitType::Data(offset, _) => *offset,
        }
    }

    /// The stored hash: that of the committed bytes, zero where there are
    /// none.
    pub open spec fn spec_data_hash(&self) -> Seq<u8> {
        match self {
            DataCommitType::Data(_, data) => sha256(seq![data@]),
            _ => zero_hash(),
        }
    }

    /// The number of committed bytes.
    pub open spec fn spec_length(&self) -> int {
        match self {
            DataCommitType::Data(_, data) => data@.len() as int,
            _ => 0,
        }
    }

    /// The byte that the record stores for this way of binding.
    pub fn commit_type(&self) -> (r: u8)
        ensures
            r == self.spec_commit_type(),
    {
        match self {
            DataCommitType::NoData => 0,
            DataCommitType::Data(_, _) => 1,
            DataCommitType::AnyData => 2,
        }
    }

    /// The stored offset.
    pub fn offset(&self) -> (r: i16)
        ensures
            r == self.spec_offset(),
    {
        match self {
            DataCommitType::NoData => -1,
            DataCommitType::AnyData => 0,
            DataCommitType::Data(offset, _) => *offset,
        }
    }
}

/// The state that every builder starts from.
#[derive(Debug, Clone)]
pub struct Base {
    /// The program that the committed instruction addresses.
    pub program_id: Pubkey,
    pub non_signer_commit_account_keys: Vec<Pubkey>,
    /// The authorities.
    pub signer_commit_account_keys: Vec<Pubkey>,
    pub starter_account_key: Option<Pubkey>,
    /// The number of accounts of the committed instruction, which is also
    /// the position of the addressed program among the accounts of a trigger.
    pub total_accounts_count: u8,
    /// The positions of the committed accounts among the accounts of a
    /// trigger: those of the non-signers, then those of the signers.
    pub acct_indices: Vec<u8>,
    pub instruction_data_meta: DataCommitType,
    /// The bumps of the proxies, once derived.
    pub signer_bumps: Vec<u8>,
    /// The hash of the committed bytes, once computed.
    pub instruction_data_hash: [u8; 32],
    /// The bump of the record's address, once derived.
    pub commit_account_bump: u8,
}

/// The keys in `keys`, as bytes.
pub open spec fn key_bytes(keys: Seq<Pubkey>) -> Seq<Seq<u8>> {
    Seq::new(keys.len(), |i: int| keys[i]@)
}

/// The proxy that stands for `signer`, with its bump, if there is one.
pub open spec fn spec_proxy(signer: Pubkey) -> Option<(Seq<u8>, u8)> {
    canonical_address(seq![signer@], PROGRAM_ID@)
}

impl Base {
    /// The number of committed accounts: the non-signers, the addressed
    /// program, and one proxy for each authority.
    pub open spec fn spec_accounts_count(&self) -> int {
        (self.signer_commit_account_keys@.len() + self.non_signer_commit_account_keys@.len()
            + 1) as int
    }

    /// The counts are in range, there is one position for each committed
    /// account but the addressed program, and every position is one of the
    /// committed instruction's.
    pub open spec fn wf(&self) -> bool {
        &&& 1 <= self.signer_commit_account_keys@.len() <= CONFIG_MAX_SIGNERS
        &&& CONFIG_MIN_ACCOUNTS <= self.spec_accounts_count() <= CONFIG_MAX_ACCOUNTS
        &&& self.acct_indices@.len() == self.spec_accounts_count() - 1
        &&& forall|i: int|
            0 <= i < self.acct_indices@.len() ==> self.acct_indices@[i] < self.total_accounts_count
        &&& self.spec_accounts_count() - 1 <= self.total_accounts_count
    }

    /// What `new` gives for these counts, positions and number of accounts.
    pub open spec fn spec_new_checks(
        signers_count: int,
        non_signers_count: int,
        total_accounts_count: u8,
        acct_indices: Seq<u8>,
    ) -> Result<(), CustomError> {
        let accounts_count = signers_count + non_signers_count + 1;
        if signers_count == 0 || signers_count > CONFIG_MAX_SIGNERS {
            Err(CustomError::InvalidSignerCount)
        } else if accounts_count < CONFIG_MIN_ACCOUNTS || accounts_count > CONFIG_MAX_ACCOUNTS {
            Err(CustomError::InvalidAccountCount)
        } else if acct_indices.len() != accounts_count - 1 {
            Err(CustomError::InvalidAccountKeysCount)
        } else if exists|i: int|
            0 <= i < acct_indices.len() && acct_indices[i] >= total_accounts_count {
            Err(CustomError::InvalidAccountIndex)
        } else if accounts_count - 1 > total_accounts_count {
            Err(CustomError::InvalidAccountCount)
        } else {
            Ok(())
        }
    }

    /// Checks the counts and the positions, in this order: one to four
    /// signers; three to eight committed accounts, the addressed program and
    /// the proxies counted in; one position for each of them but the
    /// addressed program; every position below the number of accounts of the
    /// committed instruction; and no more positions than that number.
    pub fn new(
        program_id: Pubkey,
        signer_commit_account_keys: Vec<Pubkey>,
        non_signer_commit_account_keys: Vec<Pubkey>,
        starter_account_key: Option<Pubkey>,
        total_accounts_count: u8,
        acct_indices: Vec<u8>,
        instruction_data_meta: DataCommitType,
    ) -> (r: Result<Self, CustomError>)
        ensures
            match Self::spec_new_checks(
                signer_commit_account_keys@.len() as int,
                non_signer_commit_account_keys@.len() as int,
                total_accounts_count,
                acct_indices@,
            ) {
                Err(e) => r matches Err(err) && err == e,
                Ok(()) => r matches Ok(base) && base.wf() && base.program_id == program_id
                    && base.signer_commit_account_keys == signer_commit_account_keys
                    && base.non_signer_commit_account_keys == non_signer_commit_account_keys
                    && base.starter_account_key == starter_account_key
                    && base.total_accounts_count == total_accounts_count && base.acct_indices
                    == acct_indices && base.instruction_data_meta == instruction_data_meta
                    && base.signer_bumps@.len() == 0 && base.instruction_data_hash@ == zero_hash()
                    && base.commit_account_bump == 0,
            },
    {
        let signers_count = signer_commit_account_keys.len();
        if signers_count == 0 || signers_count > CONFIG_MAX_SIGNERS {
            return Err(CustomError::InvalidSignerCount);
        }
        if non_signer_commit_account_keys.len() > CONFIG_MAX_ACCOUNTS {
            return Err(CustomError::InvalidAccountCount);
        }
        let accounts_count = signers_count + non_signer_commit_account_keys.len() + 1;
        if accounts_count < CONFIG_MIN_ACCOUNTS || accounts_count > CONFIG_MAX_ACCOUNTS {
            return Err(CustomError::InvalidAccountCount);
        }
        if acct_indices.len() != accounts_count - 1 {
            return Err(CustomError::InvalidAccountKeysCount);
        }
        let mut i: usize = 0;
        while i < acct_indices.len()
            invariant
                i <= acct_indices@.len(),
                signers_count == signer_commit_account_keys@.len(),
                1 <= signers_count <= CONFIG_MAX_SIGNERS,
                accounts_count == signers_count + non_signer_commit_account_keys@.len() + 1,
                CONFIG_MIN_ACCOUNTS <= accounts_count <= CONFIG_MAX_ACCOUNTS,
                acct_indices@.len() == accounts_count - 1,
                forall|j: int| 0 <= j < i ==> acct_indices@[j] < total_accounts_count,
            decreases acct_indices@.len() - i,
        {
            if acct_indices[i] >= total_accounts_count {
                assert(acct_indices@[i as int] >= total_accounts_count);
                return Err(CustomError::InvalidAccountIndex);
            }
            i += 1;
        }
        if accounts_count - 1 > total_accounts_count as usize {
            return Err(CustomError::InvalidAccountCount);
        }
        let zero: [u8; 32] = [0u8;32];
        assert(zero@ =~= zero_hash());
        Ok(
            Self {
                program_id,
                signer_commit_account_keys,
                non_signer_commit_account_keys,
                starter_account_key,
                total_accounts_count,
                acct_indices,
                instruction_data_meta,
                signer_bumps: Vec::new(),
                instruction_data_hash: zero,
                commit_account_bump: 0,
            },
        )
    }

    /// The index layout that the record stores: the positions of the
    /// non-signers, the position of the addressed program, the positions of
    /// the signers, and zeros up to eight bytes.
    pub open spec fn spec_account_indices(&self) -> Seq<u8> {
        let n = self.non_signer_commit_account_keys@.len() as int;
        self.acct_indices@.subrange(0, n) + seq![self.total_accounts_count]
            + self.acct_indices@.subrange(n, self.acct_indices@.len() as int) + Seq::new(
            (CONFIG_MAX_ACCOUNTS - self.spec_accounts_count()) as nat,
            |i: int| 0u8,
        )
    }

    /// The keys of the committed accounts in the order in which they are
    /// hashed: the non-signers, the addressed program, the proxies.
    pub open spec fn spec_commit_keys(&self, program_signer_keys: Seq<Seq<u8>>) -> Seq<Seq<u8>> {
        key_bytes(self.non_signer_commit_account_keys@) + seq![self.program_id@]
            + program_signer_keys
    }

    /// The seeds that the record's bump is searched for.
    pub open spec fn spec_search_seeds(&self, program_signer_keys: Seq<Seq<u8>>) -> Seq<Seq<u8>> {
        seq![
            self.spec_account_indices(),
            seq![self.signer_commit_account_keys@.len() as u8],
            sha256(self.spec_commit_keys(program_signer_keys)),
            seq![self.instruction_data_meta.spec_commit_type()],
            i16_le(self.instruction_data_meta.spec_offset()),
            self.instruction_data_meta.spec_data_hash(),
        ]
    }

    /// The record's address and its bump for the proxies
    /// `program_signer_keys`, if there is one.
    pub open spec fn spec_commit_account(&self, program_signer_keys: Seq<Seq<u8>>) -> Option<
        (Seq<u8>, u8),
    > {
        canonical_address(self.spec_search_seeds(program_signer_keys), PROGRAM_ID@)
    }

    /// Whether `other` holds what the caller gave this state.
    pub open spec fn same_inputs(&self, other: &Base) -> bool {
        &&& self.program_id == other.program_id
        &&& self.non_signer_commit_account_keys == other.non_signer_commit_account_keys
        &&& self.signer_commit_account_keys == other.signer_commit_account_keys
        &&& self.starter_account_key == other.starter_account_key
        &&& self.total_accounts_count == other.total_accounts_count
        &&& self.acct_indices == other.acct_indices
        &&& self.instruction_data_meta == other.instruction_data_meta
    }

    /// The index layout that the record stores.
    pub fn account_indices(&self) -> (r: [u8; CONFIG_MAX_ACCOUNTS])
        requires
            self.wf(),
        ensures
            r@ == self.spec_account_indices(),
    {
        let n = self.non_signer_commit_account_keys.len();
        let mut r = [0u8;CONFIG_MAX_ACCOUNTS];
        let mut i: usize = 0;
        while i < n
            invariant
                self.wf(),
                n == self.non_signer_commit_account_keys@.len(),
                i <= n,
                forall|j: int| 0 <= j < i ==> r@[j] == self.acct_indices@[j],
                forall|j: int| i <= j < CONFIG_MAX_ACCOUNTS ==> r@[j] == 0,
            decreases n - i,
        {
            r[i] = self.acct_indices[i];
            i += 1;
        }
        r[n] = self.total_accounts_count;
        let mut i: usize = n;
        while i < self.acct_indices.len()
            invariant
                self.wf(),
                n == self.non_signer_commit_account_keys@.len(),
                n <= i <= self.acct_indices@.len(),
                forall|j: int| 0 <= j < n ==> r@[j] == self.acct_indices@[j],
                r@[n as int] == self.total_accounts_count,
                forall|j: int| n <= j < i ==> r@[j + 1] == self.acct_indices@[j],
                forall|j: int| i + 1 <= j < CONFIG_MAX_ACCOUNTS ==> r@[j] == 0,
            decreases self.acct_indices@.len() - i,
        {
            r[i + 1] = self.acct_indices[i];
            i += 1;
        }
        assert(r@ =~= self.spec_account_indices());
        r
    }

    /// Derives the record's address for the proxies `program_signer_keys`
    /// and remembers the hash of the committed bytes. The seeds are, in
    /// their fixed order: the index layout, the signer count, the hash over
    /// the keys of the committed accounts, the way of binding the payload,
    /// the offset of the committed bytes, and their hash; the bump found for
    /// them comes last.
    pub fn get_commit_account(&mut self, program_signer_keys: Vec<Pubkey>) -> (r: Result<
        (Pubkey, u8),
        CustomError,
    >)
        requires
            old(self).wf(),
        ensures
            final(self).same_inputs(old(self)),
            final(self).signer_bumps == old(self).signer_bumps,
            final(self).commit_account_bump == old(self).commit_account_bump,
            final(self).instruction_data_hash@ == old(self).instruction_data_meta.spec_data_hash(),
            match old(self).spec_commit_account(key_bytes(program_signer_keys@)) {
                Some((address, bump)) => r matches Ok(found) && found.0@ == address && found.1
                    == bump,
                None => r matches Err(e) && e == CustomError::InvalidConfiguration,
            },
    {
        let temp_account_indices = self.account_indices();
        let signer_count_bytes: [u8; 1] = [self.signer_commit_account_keys.len() as u8];

        let mut keys_slice_vec: Vec<&[u8]> = Vec::new();
        let mut i: usize = 0;
        while i < self.non_signer_commit_account_keys.len()
            invariant
                i <= self.non_signer_commit_account_keys@.len(),
                keys_slice_vec@.len() == i,
                forall|j: int|
                    0 <= j < i ==> (#[trigger] keys_slice_vec@[j])@
                        == self.non_signer_commit_account_keys@[j]@,
            decreases self.non_signer_commit_account_keys@.len() - i,
        {
            keys_slice_vec.push(self.non_signer_commit_account_keys[i].as_slice());
            i += 1;
        }
        keys_slice_vec.push(self.program_id.as_slice());
        let n = self.non_signer_commit_account_keys.len();
        let mut i: usize = 0;
        while i < program_signer_keys.len()
            invariant
                n == self.non_signer_commit_account_keys@.len(),
                i <= program_signer_keys@.len(),
                keys_slice_vec@.len() == n + 1 + i,
                forall|j: int|
                    0 <= j < n ==> (#[trigger] keys_slice_vec@[j])@
                        == self.non_signer_commit_account_keys@[j]@,
                keys_slice_vec@[n as int]@ == self.program_id@,
                forall|j: int|
                    0 <= j < i ==> (#[trigger] keys_slice_vec@[n + 1 + j])@
                        == program_signer_keys@[j]@,
            decreases program_signer_keys@.len() - i,
        {
            keys_slice_vec.push(program_signer_keys[i].as_slice());
            i += 1;
        }
        let keys_slice = keys_slice_vec.as_slice();
        let mut keys_hash: [u8; 32] = [0u8;32];
        proof {
            let expected = self.spec_commit_keys(key_bytes(program_signer_keys@));
            assert forall|j: int| 0 <= j < expected.len() implies (#[trigger] keys_slice@[j])@
                == expected[j] by {
                if j > n {
                    assert(keys_slice@[n + 1 + (j - n - 1)]@ == program_signer_keys@[j - n - 1]@);
                }
            }
            lemma_seeds_view(keys_slice, expected);
        }
        hashv(keys_slice, &mut keys_hash);

        let commit_type: [u8; 1] = [self.instruction_data_meta.commit_type()];
        let data_offset_bytes = i16_to_le_bytes(self.instruction_data_meta.offset());
        let mut data_hash: [u8; 32] = [0u8;32];
        match &self.instruction_data_meta {
            DataCommitType::Data(_, data) => {
                let committed: [&[u8]; 1] = [data.as_slice()];
                let committed = committed.as_slice();
                proof {
                    lemma_seeds_view(committed, seq![data@]);
                }
                hashv(committed, &mut data_hash);
            },
            _ => {
                assert(data_hash@ =~= zero_hash());
            },
        }
        let commit_seeds: [&[u8]; 6] = [
            temp_account_indices.as_slice(),
            signer_count_bytes.as_slice(),
            keys_hash.as_slice(),
            commit_type.as_slice(),
            data_offset_bytes.as_slice(),
            data_hash.as_slice(),
        ];
        let commit_seeds = commit_seeds.as_slice();
        proof {
            let expected = self.spec_search_seeds(key_bytes(program_signer_keys@));
            assert(signer_count_bytes@ =~= seq![self.signer_commit_account_keys@.len() as u8]);
            assert(commit_type@ =~= seq![self.instruction_data_meta.spec_commit_type()]);
            assert(commit_seeds@[0]@ == expected[0]);
            assert(commit_seeds@[1]@ == expected[1]);
            assert(commit_seeds@[2]@ == expected[2]);
            assert(commit_seeds@[3]@ == expected[3]);
            assert(commit_seeds@[4]@ == expected[4]);
            assert(commit_seeds@[5]@ == expected[5]);
            lemma_seeds_view(commit_seeds, expected);
        }
        let found = find_program_address(commit_seeds, &PROGRAM_ID);
        self.instruction_data_hash = data_hash;
        match found {
            Some((commit_account, commit_account_bump)) => Ok(
                (commit_account, commit_account_bump),
            ),
            None => Err(CustomError::InvalidConfiguration),
        }
    }

    /// Derives the proxy that stands for `signer`, and its bump.
    pub fn find_proxy(signer: &Pubkey) -> (r: Option<(Pubkey, u8)>)
        ensures
            match r {
                Some((address, bump)) => spec_proxy(*signer) == Some((address@, bump)),
                None => spec_proxy(*signer) is None,
            },
    {
        let seeds: [&[u8]; 1] = [signer.as_slice()];
        let seeds = seeds.as_slice();
        proof {
            assert(seeds@[0]@ == signer@);
            lemma_seeds_view(seeds, seq![signer@]);
        }
        find_program_address(seeds, &PROGRAM_ID)
    }

    /// Whether every authority has a proxy.
    pub open spec fn spec_proxies_exist(&self) -> bool {
        forall|i: int|
            0 <= i < self.signer_commit_account_keys@.len() ==> spec_proxy(
                #[trigger] self.signer_commit_account_keys@[i],
            ) is Some
    }

    /// The addresses of the proxies of the authorities, in order.
    pub open spec fn spec_proxy_keys(&self) -> Seq<Seq<u8>> {
        Seq::new(
            self.signer_commit_account_keys@.len(),
            |i: int| spec_proxy(self.signer_commit_account_keys@[i])->Some_0.0,
        )
    }

    /// The bumps of the proxies of the authorities, in order.
    pub open spec fn spec_proxy_bumps(&self) -> Seq<u8> {
        Seq::new(
            self.signer_commit_account_keys@.len(),
            |i: int| spec_proxy(self.signer_commit_account_keys@[i])->Some_0.1,
        )
    }

    /// Derives the proxies of all authorities, in order, with their bumps.
    pub fn find_proxies(&self) -> (r: Result<(Vec<Pubkey>, Vec<u8>), CustomError>)
        ensures
            self.spec_proxies_exist() ==> (r matches Ok(found) && key_bytes(found.0@)
                == self.spec_proxy_keys() && found.1@ == self.spec_proxy_bumps()),
            !self.spec_proxies_exist() ==> (r matches Err(e) && e
                == CustomError::InvalidSignerSeeds),
    {
        let mut keys: Vec<Pubkey> = Vec::new();
        let mut bumps: Vec<u8> = Vec::new();
        let mut i: usize = 0;
        while i < self.signer_commit_account_keys.len()
            invariant
                i <= self.signer_commit_account_keys@.len(),
                keys@.len() == i,
                bumps@.len() == i,
                forall|j: int|
                    0 <= j < i ==> spec_proxy(#[trigger] self.signer_commit_account_keys@[j])
                        == Some((keys@[j]@, bumps@[j])),
            decreases self.signer_commit_account_keys@.len() - i,
        {
            match Self::find_proxy(&self.signer_commit_account_keys[i]) {
                Some((key, bump)) => {
                    keys.push(key);
                    bumps.push(bump);
                },
                None => {
                    assert(spec_proxy(self.signer_commit_account_keys@[i as int]) is None);
                    return Err(CustomError::InvalidSignerSeeds);
                },
            }
            i += 1;
        }
        proof {
            assert(key_bytes(keys@) =~= self.spec_proxy_keys());
            assert(bumps@ =~= self.spec_proxy_bumps());
        }
        Ok((keys, bumps))
    }

    /// What the derivations of a creation give: the record's address and
    /// its bump, or the refusal where an authority has no proxy, where no
    /// starter is given, or where the record has no address.
    pub open spec fn spec_creation(&self) -> Result<(Seq<u8>, u8), CustomError> {
        if !self.spec_proxies_exist() {
            Err(CustomError::InvalidSignerSeeds)
        } else if self.starter_account_key is None {
            Err(CustomError::StarterKeyNotProvided)
        } else {
            match self.spec_commit_account(self.spec_proxy_keys()) {
                None => Err(CustomError::InvalidConfiguration),
                Some(found) => Ok(found),
            }
        }
    }

    /// The bumps of the proxies that the state holds once the derivations of
    /// a creation were tried: the derived ones, unless an authority has no
    /// proxy.
    pub open spec fn spec_bumps_after_creation(&self) -> Seq<u8> {
        if self.spec_proxies_exist() {
            self.spec_proxy_bumps()
        } else {
            self.signer_bumps@
        }
    }

    /// The hash of the committed bytes that the state holds once the
    /// derivations of a creation were tried: the computed one, unless they
    /// ended before the record's address was derived.
    pub open spec fn spec_hash_after_creation(&self) -> Seq<u8> {
        if self.spec_proxies_exist() && self.starter_account_key is Some {
            self.instruction_data_meta.spec_data_hash()
        } else {
            self.instruction_data_hash@
        }
    }

    /// The bump of the record's address that the state holds once the
    /// derivations of a creation were tried: the derived one, unless they
    /// were refused.
    pub open spec fn spec_bump_after_creation(&self) -> u8 {
        match self.spec_creation() {
            Ok((_, bump)) => bump,
            Err(_) => self.commit_account_bump,
        }
    }

    /// Whether `accounts` is the account list of a creation: the
    /// non-signers, the addressed program, the proxies `proxies`, the
    /// authorities as signers, the starter with the given flags, the system
    /// program, and the record's account `commit_account`, writable.
    pub open spec fn spec_is_creation_list(
        &self,
        accounts: Seq<AccountMeta>,
        proxies: Seq<Seq<u8>>,
        commit_account: Seq<u8>,
        payer_writing: bool,
        payer_signing: bool,
    ) -> bool {
        let n = self.non_signer_commit_account_keys@.len() as int;
        let s = self.signer_commit_account_keys@.len() as int;
        &&& accounts.len() == n + 1 + s + s + 3
        &&& forall|i: int|
            0 <= i < n ==> #[trigger] accounts[i] == (AccountMeta {
                pubkey: self.non_signer_commit_account_keys@[i],
                is_signer: false,
                is_writable: false,
            })
        &&& accounts[n] == (AccountMeta {
            pubkey: self.program_id,
            is_signer: false,
            is_writable: false,
        })
        &&& forall|i: int|
            0 <= i < s ==> (#[trigger] accounts[n + 1 + i]).pubkey@ == proxies[i] && !accounts[n
                + 1 + i].is_signer && !accounts[n + 1 + i].is_writable
        &&& forall|i: int|
            0 <= i < s ==> #[trigger] accounts[n + 1 + s + i] == (AccountMeta {
                pubkey: self.signer_commit_account_keys@[i],
                is_signer: true,
                is_writable: false,
            })
        &&& self.starter_account_key matches Some(starter) && accounts[n + 1 + s + s]
            == (AccountMeta {
            pubkey: starter,
            is_signer: payer_signing,
            is_writable: payer_writing,
        })
        &&& accounts[n + 1 + s + s + 1] == (AccountMeta {
            pubkey: SYSTEM_PROGRAM_ID,
            is_signer: false,
            is_writable: false,
        })
        &&& accounts[n + 1 + s + s + 2].pubkey@ == commit_account
        &&& !accounts[n + 1 + s + s + 2].is_signer
        &&& accounts[n + 1 + s + s + 2].is_writable
    }

    /// Builds the account list of a creation and remembers what was derived
    /// on the way: the bumps of the proxies, the hash of the committed bytes
    /// and the bump of the record's address. Refused where an authority has
    /// no proxy, where no starter is given, or where the record has no
    /// address.
    pub fn get_accounts_and_mid_state(&mut self, payer_writing: bool, payer_signing: bool) -> (r:
        Result<Vec<AccountMeta>, CustomError>)
        requires
            old(self).wf(),
        ensures
            final(self).same_inputs(old(self)),
            final(self).signer_bumps@ == old(self).spec_bumps_after_creation(),
            final(self).instruction_data_hash@ == old(self).spec_hash_after_creation(),
            final(self).commit_account_bump == old(self).spec_bump_after_creation(),
            match old(self).spec_creation() {
                Err(e) => r matches Err(err) && err == e,
                Ok((commit_account, bump)) => r matches Ok(accounts) && old(self)
                    .spec_is_creation_list(
                    accounts@,
                    old(self).spec_proxy_keys(),
                    commit_account,
                    payer_writing,
                    payer_signing,
                ),
            },
    {
        let signers_count = self.signer_commit_account_keys.len();
        let accounts_count = signers_count + self.non_signer_commit_account_keys.len() + 1;
        if accounts_count > 8 {
            return Err(CustomError::InvalidAccountCount);
        }
        if signers_count == 0 {
            return Err(CustomError::InvalidSignerCount);
        }
        if signers_count > 4 {
            return Err(CustomError::InvalidSignerCount);
        }
        let mut accounts: Vec<AccountMeta> = Vec::new();
        let n = self.non_signer_commit_account_keys.len();
        let mut i: usize = 0;
        while i < n
            invariant
                n == self.non_signer_commit_account_keys@.len(),
                i <= n,
                accounts@.len() == i,
                forall|j: int|
                    0 <= j < i ==> #[trigger] accounts@[j] == (AccountMeta {
                        pubkey: self.non_signer_commit_account_keys@[j],
                        is_signer: false,
                        is_writable: false,
                    }),
            decreases n - i,
        {
            accounts.push(AccountMeta::new_readonly(self.non_signer_commit_account_keys[i], false));
            i += 1;
        }
        accounts.push(AccountMeta { pubkey: self.program_id, is_signer: false, is_writable: false });

        let (program_signer_keys, signer_bumps) = match self.find_proxies() {
            Ok(found) => found,
            Err(e) => {
                return Err(e);
            },
        };
        self.signer_bumps = signer_bumps;
        let mut i: usize = 0;
        while i < signers_count
            invariant
                n == self.non_signer_commit_account_keys@.len(),
                signers_count == program_signer_keys@.len(),
                i <= signers_count,
                accounts@.len() == n + 1 + i,
                forall|j: int|
                    0 <= j < n ==> #[trigger] accounts@[j] == (AccountMeta {
                        pubkey: self.non_signer_commit_account_keys@[j],
                        is_signer: false,
                        is_writable: false,
                    }),
                accounts@[n as int] == (AccountMeta {
                    pubkey: self.program_id,
                    is_signer: false,
                    is_writable: false,
                }),
                forall|j: int|
                    0 <= j < i ==> #[trigger] accounts@[n + 1 + j] == (AccountMeta {
                        pubkey: program_signer_keys@[j],
                        is_signer: false,
                        is_writable: false,
                    }),
            decreases signers_count - i,
        {
            accounts.push(AccountMeta::new_readonly(program_signer_keys[i], false));
            i += 1;
        }
        let mut i: usize = 0;
        while i < signers_count
            invariant
                n == self.non_signer_commit_account_keys@.len(),
                signers_count == program_signer_keys@.len(),
                signers_count == self.signer_commit_account_keys@.len(),
                i <= signers_count,
                accounts@.len() == n + 1 + signers_count + i,
                forall|j: int|
                    0 <= j < n ==> #[trigger] accounts@[j] == (AccountMeta {
                        pubkey: self.non_signer_commit_account_keys@[j],
                        is_signer: false,
                        is_writable: false,
                    }),
                accounts@[n as int] == (AccountMeta {
                    pubkey: self.program_id,
                    is_signer: false,
                    is_writable: false,
                }),
                forall|j: int|
                    0 <= j < signers_count ==> #[trigger] accounts@[n + 1 + j] == (AccountMeta {
                        pubkey: program_signer_keys@[j],
                        is_signer: false,
                        is_writable: false,
                    }),
                forall|j: int|
                    0 <= j < i ==> #[trigger] accounts@[n + 1 + signers_count + j]
                        == (AccountMeta {
                        pubkey: self.signer_commit_account_keys@[j],
                        is_signer: true,
                        is_writable: false,
                    }),
            decreases signers_count - i,
        {
            accounts.push(AccountMeta::new_readonly(self.signer_commit_account_keys[i], true));
            i += 1;
        }
        let starter = match self.starter_account_key {
            Some(starter) => starter,
            None => {
                return Err(CustomError::StarterKeyNotProvided);
            },
        };
        accounts.push(
            AccountMeta { pubkey: starter, is_signer: payer_signing, is_writable: payer_writing },
        );
        accounts.push(
            AccountMeta { pubkey: SYSTEM_PROGRAM_ID, is_signer: false, is_writable: false },
        );
        let ghost before = *self;
        let ghost proxies = old(self).spec_proxy_keys();
        let (commit_account, commit_account_bump) = match self.get_commit_account(
            program_signer_keys,
        ) {
            Ok(found) => found,
            Err(e) => {
                proof {
                    assert(before.spec_search_seeds(proxies) == old(self).spec_search_seeds(
                        proxies,
                    ));
                }
                return Err(e);
            },
        };
        self.commit_account_bump = commit_account_bump;
        accounts.push(AccountMeta { pubkey: commit_account, is_signer: false, is_writable: true });
        proof {
            assert(before.spec_search_seeds(proxies) == old(self).spec_search_seeds(proxies));
            assert(old(self).spec_is_creation_list(
                accounts@,
                old(self).spec_proxy_keys(),
                commit_account@,
                payer_writing,
                payer_signing,
            ));
        }
        Ok(accounts)
    }
}

} // verus!
