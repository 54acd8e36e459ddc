//! What the two sides agree on: what the builders build, the program takes.

use vstd::prelude::*;

use crate::account::{AccountInfo, AccountMeta, MetaView};
use crate::client::state::base::{spec_proxy, Base};
use crate::client::state::condition::{condition_of, CommitCondition};
use crate::client::state::constants::PROGRAM_ID;
use crate::codec::i16_bits;
use crate::program::constants::{ID, MAX_INSTRUCTION_ACCOUNTS};
use crate::program::handlers::entry::{
    indexed_keys, indices_in_range, meta_of, spec_entry, spec_entry_checks, spec_entry_record,
    spec_trigger_seeds,
};
use crate::program::state::condition::update_payload;
use crate::program::handlers::change_commit_condition::{spec_change_checks, spec_changed_record};
use crate::program::handlers::close_commit::spec_close_checks;
use crate::program::handlers::create_commit::{
    account_keys, spec_create, spec_create_checks, spec_record, spec_search_seeds,
};
use crate::program::helpers::utils::{
    program_signer_seeds, spec_authorities_signed, spec_is_program_account, spec_verify_signer,
    spec_verify_signers, spec_verify_signers_from,
};
use crate::program::state::config::{Config, ConfigBaseView, ConfigView};
use crate::program::state::error::ProgramError;
use crate::pubkey::{lemma_canonical_address_is_canonical, with_bump};

verus! {

/// Whether the ledger presents to the program the accounts that an
/// instruction names, each with the key it is named by and as a signer where
/// it is named as one.
pub open spec fn presents(accounts: Seq<AccountInfo>, named: Seq<AccountMeta>) -> bool {
    &&& accounts.len() == named.len()
    &&& forall|i: int|
        0 <= i < named.len() ==> (#[trigger] accounts[i]).key == named[i].pubkey
            && accounts[i].is_signer == named[i].is_signer
}

/// The builders and the program know the program by the same address.
pub proof fn lemma_same_program()
    ensures
        ID@ == PROGRAM_ID@,
{
    assert(ID@ =~= PROGRAM_ID@);
}

/// Authorities that have signed, each with its proxy and its proxy's bump,
/// pass the check of the signers from any place on.
proof fn lemma_proxies_verify(
    signers: Seq<AccountInfo>,
    program_signers: Seq<AccountInfo>,
    signer_bumps: Seq<u8>,
    from: int,
)
    requires
        0 <= from <= signers.len(),
        signers.len() == program_signers.len(),
        signers.len() <= signer_bumps.len(),
        forall|i: int|
            0 <= i < signers.len() ==> (#[trigger] signers[i]).is_signer && spec_proxy(
                signers[i].key,
            ) == Some((program_signers[i].key@, signer_bumps[i])),
    ensures
        spec_verify_signers_from(signers, program_signers, signer_bumps, from) == Ok::<
            (),
            ProgramError,
        >(()),
    decreases signers.len() - from,
{
    if from < signers.len() {
        let signer = signers[from];
        lemma_same_program();
        lemma_canonical_address_is_canonical(seq![signer.key@], PROGRAM_ID@);
        assert(with_bump(seq![signer.key@], signer_bumps[from]) =~= program_signer_seeds(
            signer.key,
            signer_bumps[from],
        ));
        assert(spec_verify_signer(signer, program_signers[from], signer_bumps[from]) == Ok::<
            (),
            ProgramError,
        >(()));
        lemma_proxies_verify(signers, program_signers, signer_bumps, from + 1);
    }
}

/// The program takes the creation that the builder builds. Where the
/// builder gives an instruction for a state within its limits, and the
/// ledger presents the accounts that the instruction names, signed as named,
/// the program stores the very fields that the instruction carries, under
/// the bump that the builder found, with the starter and the authorities
/// that the builder named, at the address that the builder derived.
pub proof fn lemma_built_creation_is_taken(
    base: Base,
    condition: CommitCondition,
    named: Seq<AccountMeta>,
    accounts: Seq<AccountInfo>,
)
    requires
        base.wf(),
        base.spec_create_instruction(condition) is Ok,
        base.spec_create_instruction(condition)->Ok_0.1.wf(),
        base.spec_is_creation_list(
            named,
            base.spec_proxy_keys(),
            base.spec_create_instruction(condition)->Ok_0.0,
            true,
            true,
        ),
        presents(accounts, named),
    ensures
        ({
            let commit_account = base.spec_create_instruction(condition)->Ok_0.0;
            let fields = base.spec_create_instruction(condition)->Ok_0.1;
            let n = base.non_signer_commit_account_keys@.len() as int;
            let s = base.signer_commit_account_keys@.len() as int;
            &&& accounts[accounts.len() - 1].key@ == commit_account
            &&& spec_create(accounts, fields.encode()) == Ok::<(u8, ConfigView), ProgramError>(
                (
                    fields.commit_bump,
                    ConfigView {
                        base: fields,
                        starter_key: base.starter_account_key->Some_0@,
                        signer_keys: spec_record(
                            fields,
                            base.starter_account_key->Some_0@,
                            accounts.subrange(n + 1 + s, n + 1 + s + s),
                            fields.commit_bump,
                        ).signer_keys,
                    },
                ),
            )
        }),
{
    let commit_account = base.spec_create_instruction(condition)->Ok_0.0;
    let fields = base.spec_create_instruction(condition)->Ok_0.1;
    let data = fields.encode();
    let n = base.non_signer_commit_account_keys@.len() as int;
    let s = base.signer_commit_account_keys@.len() as int;
    let count = n + 1 + s;
    let proxies = base.spec_proxy_keys();
    let bumps = base.spec_proxy_bumps();

    fields.lemma_decode_encode();
    condition.lemma_round_trip();
    assert(ConfigBaseView::decode(data) == Some(fields));
    assert(fields.account_count == count);
    assert(fields.signer_count == s);

    // The authorities stand behind their proxies.
    let signers = accounts.subrange(count, count + s);
    let program_signers = accounts.subrange(count - s, count);
    assert forall|i: int| 0 <= i < s implies (#[trigger] signers[i]).is_signer && spec_proxy(
        signers[i].key,
    ) == Some((program_signers[i].key@, fields.signer_bumps[i])) by {
        assert(accounts[n + 1 + s + i].key == named[n + 1 + s + i].pubkey);
        assert(accounts[n + 1 + i].key == named[n + 1 + i].pubkey);
        assert(signers[i].key == base.signer_commit_account_keys@[i]);
        assert(program_signers[i].key@ == proxies[i]);
        assert(fields.signer_bumps[i] == bumps[i]);
        assert(spec_proxy(base.signer_commit_account_keys@[i]) is Some);
    }
    lemma_proxies_verify(signers, program_signers, fields.signer_bumps, 0);
    assert(spec_verify_signers(signers, program_signers, fields.signer_bumps) == Ok::<
        (),
        ProgramError,
    >(()));
    assert(accounts[n + 1 + s + s].is_signer == named[n + 1 + s + s].is_signer);
    assert(spec_create_checks(accounts, data) == Ok::<(), ProgramError>(()));

    // Both sides search the bump of the same seeds.
    let commit_accounts = accounts.subrange(0, count);
    assert(account_keys(commit_accounts) =~= base.spec_commit_keys(proxies)) by {
        assert forall|i: int| 0 <= i < count implies account_keys(commit_accounts)[i]
            == base.spec_commit_keys(proxies)[i] by {
            assert(accounts[i].key == named[i].pubkey);
            if i < n {
                assert(named[i].pubkey == base.non_signer_commit_account_keys@[i]);
            } else if i > n {
                assert(named[n + 1 + (i - n - 1)].pubkey@ == proxies[i - n - 1]);
            }
        }
    }
    lemma_same_program();
    assert(spec_search_seeds(commit_accounts, fields) =~= base.spec_search_seeds(proxies));
    assert(accounts[accounts.len() - 1].key == named[n + 1 + s + s + 2].pubkey);
}

/// Whether `account` is the account of the record `record`, as the program
/// left it: it has a balance, belongs to the program, and holds the record.
pub open spec fn holds_record(account: AccountInfo, record: ConfigView) -> bool {
    &&& account.lamports > 0
    &&& account.owner == ID
    &&& record.wf()
    &&& account.data@ == record.encode()
}

/// Whether `record` counts and names the authorities of `base`, in order.
pub open spec fn names_authorities(record: ConfigView, base: Base) -> bool {
    &&& record.base.signer_count == base.signer_commit_account_keys@.len()
    &&& forall|i: int|
        0 <= i < base.signer_commit_account_keys@.len() ==> record.signer_keys[i]
            == (#[trigger] base.signer_commit_account_keys@[i])@
}

/// The program takes the change of condition that the builder builds. Where
/// the instruction names the authorities of a record and then the record's
/// account, and the ledger presents these accounts, signed as named, the
/// program stores the record with the condition that the instruction
/// carries, and with nothing else changed.
pub proof fn lemma_built_change_is_taken(
    base: Base,
    condition: CommitCondition,
    named: Seq<AccountMeta>,
    accounts: Seq<AccountInfo>,
    record: ConfigView,
)
    requires
        base.wf(),
        named.len() == base.signer_commit_account_keys@.len() + 1,
        base.spec_starts_with_signers(named),
        presents(accounts, named),
        holds_record(accounts[accounts.len() - 1], record),
        names_authorities(record, base),
    ensures
        spec_change_checks(accounts, condition.spec_bytes()) == Ok::<(), ProgramError>(()),
        spec_changed_record(accounts, condition.spec_bytes()) == (ConfigView {
            base: record.base.with_condition(condition.spec_tag(), condition.spec_data()),
            ..record
        }),
        condition_of(
            spec_changed_record(accounts, condition.spec_bytes()).base.condition_tag,
            spec_changed_record(accounts, condition.spec_bytes()).base.condition_data,
        ) == Some(condition),
{
    let data = condition.spec_bytes();
    let commit_account = accounts[accounts.len() - 1];
    let signers = accounts.subrange(0, accounts.len() - 1);
    record.lemma_decode_encode();
    condition.lemma_round_trip();
    assert(spec_is_program_account(commit_account, Config::LEN, ID) == Ok::<(), ProgramError>(()));
    assert forall|i: int| 0 <= i < signers.len() && i < record.signer_keys.len() implies (
    #[trigger] signers[i]).is_signer && signers[i].key@ == record.signer_keys[i] by {
        assert(accounts[i].key == named[i].pubkey);
        assert(named[i].pubkey == base.signer_commit_account_keys@[i]);
    }
    assert(spec_authorities_signed(signers, record.signer_keys));
    assert(data.subrange(1, 21) =~= condition.spec_data());
}

/// The program takes the closing that the builder builds. Where the
/// instruction names the authorities of a record, then a recipient, then
/// the record's account, and the ledger presents these accounts, signed as
/// named, the program passes the closing.
pub proof fn lemma_built_closing_is_taken(
    base: Base,
    named: Seq<AccountMeta>,
    accounts: Seq<AccountInfo>,
    record: ConfigView,
)
    requires
        base.wf(),
        named.len() == base.signer_commit_account_keys@.len() + 2,
        base.spec_starts_with_signers(named),
        presents(accounts, named),
        holds_record(accounts[accounts.len() - 1], record),
        names_authorities(record, base),
    ensures
        spec_close_checks(accounts) == Ok::<(), ProgramError>(()),
{
    let commit_account = accounts[accounts.len() - 1];
    let signers = accounts.subrange(0, accounts.len() - 2);
    record.lemma_decode_encode();
    assert(spec_is_program_account(commit_account, Config::LEN, ID) == Ok::<(), ProgramError>(()));
    assert forall|i: int| 0 <= i < signers.len() && i < record.signer_keys.len() implies (
    #[trigger] signers[i]).is_signer && signers[i].key@ == record.signer_keys[i] by {
        assert(accounts[i].key == named[i].pubkey);
        assert(named[i].pubkey == base.signer_commit_account_keys@[i]);
    }
    assert(spec_authorities_signed(signers, record.signer_keys));
}

/// Whether the positions of `base` are all different.
pub open spec fn positions_differ(base: Base) -> bool {
    forall|i: int, j: int|
        0 <= i < j < base.acct_indices@.len() ==> base.acct_indices@[i] != base.acct_indices@[j]
}

/// Whether the committed instruction with the accounts `given` is the one
/// that `base` speaks of: it has as many accounts as `base` counts, and names
/// the non-signers at their positions.
pub open spec fn is_committed_instruction(base: Base, given: Seq<MetaView>) -> bool {
    &&& given.len() == base.total_accounts_count
    &&& forall|i: int|
        0 <= i < base.non_signer_commit_account_keys@.len() ==> given[base.acct_indices@[i] as int].0
            == (#[trigger] base.non_signer_commit_account_keys@[i])@
}

/// Whether `record` is a record that a creation built from `base` stored,
/// whatever its condition has become since.
pub open spec fn is_record_of(record: ConfigView, base: Base) -> bool {
    let meta = base.instruction_data_meta;
    &&& record.base.account_count == base.spec_accounts_count()
    &&& record.base.account_indices == base.spec_account_indices()
    &&& forall|i: int|
        0 <= i < base.signer_commit_account_keys@.len() ==> #[trigger] record.base.signer_bumps[i]
            == base.spec_proxy_bumps()[i]
    &&& record.base.commit_type == meta.spec_commit_type()
    &&& record.base.data_offset == i16_bits(meta.spec_offset())
    &&& record.base.data_hash == meta.spec_data_hash()
    &&& base.spec_commit_account(base.spec_proxy_keys()) matches Some(found)
        && record.base.commit_bump == found.1
    &&& base.starter_account_key matches Some(starter) && record.starter_key == starter@
    &&& names_authorities(record, base)
}

/// Whether the ledger presents to the program the accounts that a trigger
/// names, each with the key and the flags it is named with.
pub open spec fn presents_trigger(accounts: Seq<AccountInfo>, named: Seq<MetaView>) -> bool {
    &&& accounts.len() == named.len()
    &&& forall|i: int|
        0 <= i < named.len() ==> (#[trigger] accounts[i]).key@ == named[i].0
            && accounts[i].is_signer == named[i].1 && accounts[i].is_writable == named[i].2
}

/// Once the first `upto` authorities have given their places to their
/// proxies, the proxies stand at the authorities' positions, and every other
/// account is as it was given.
proof fn lemma_substituted(base: Base, given: Seq<MetaView>, upto: int)
    requires
        base.wf(),
        base.spec_proxies_exist(),
        positions_differ(base),
        given.len() == base.total_accounts_count,
        0 <= upto <= base.signer_commit_account_keys@.len(),
    ensures
        base.spec_substituted(given, upto) is Ok,
        ({
            let n = base.non_signer_commit_account_keys@.len() as int;
            let after = base.spec_substituted(given, upto)->Ok_0;
            &&& after.len() == given.len()
            &&& forall|j: int|
                0 <= j < upto ==> after[(#[trigger] base.acct_indices@[n + j]) as int] == (
                    base.spec_proxy_keys()[j],
                    given[base.acct_indices@[n + j] as int].1,
                    given[base.acct_indices@[n + j] as int].2,
                )
            &&& forall|p: int|
                0 <= p < given.len() && (forall|j: int|
                    0 <= j < upto ==> (#[trigger] base.acct_indices@[n + j]) != p)
                    ==> #[trigger] after[p] == given[p]
        }),
    decreases upto,
{
    if upto > 0 {
        lemma_substituted(base, given, upto - 1);
        let n = base.non_signer_commit_account_keys@.len() as int;
        let before = base.spec_substituted(given, upto - 1)->Ok_0;
        let index = base.acct_indices@[n + upto - 1] as int;
        let signer = base.signer_commit_account_keys@[upto - 1];
        assert(spec_proxy(signer) is Some);
        assert(index < before.len());
        assert forall|j: int| 0 <= j < upto - 1 implies (#[trigger] base.acct_indices@[n + j])
            != index by {
            assert(base.acct_indices@[n + j] != base.acct_indices@[n + upto - 1]);
        }
        assert(before[index] == given[index]);
        let after = base.spec_substituted(given, upto)->Ok_0;
        assert(after == before.update(
            index,
            (spec_proxy(signer)->Some_0.0, before[index].1, before[index].2),
        ));
        assert forall|j: int| 0 <= j < upto implies after[(#[trigger] base.acct_indices@[n
            + j]) as int] == (
            base.spec_proxy_keys()[j],
            given[base.acct_indices@[n + j] as int].1,
            given[base.acct_indices@[n + j] as int].2,
        ) by {
            if j < upto - 1 {
                assert(base.acct_indices@[n + j] != index);
            }
        }
        assert forall|p: int|
            0 <= p < given.len() && (forall|j: int|
                0 <= j < upto ==> (#[trigger] base.acct_indices@[n + j]) != p) implies (
        #[trigger] after[p]) == given[p] by {
            assert(base.acct_indices@[n + upto - 1] != p);
            assert forall|j: int| 0 <= j < upto - 1 implies (#[trigger] base.acct_indices@[n + j])
                != p by {}
        }
    }
}

/// The program takes the trigger that the builder builds. Where a record
/// was stored for the state of the builder, the committed instruction is
/// the one that the state speaks of, with all positions different and few
/// enough accounts to hand on, the ledger presents the accounts that the
/// trigger names, the payload satisfies the commitment and the condition
/// lets a trigger at `now` through, the program hands on the committed
/// instruction: addressed to its program, with its payload, naming its
/// accounts with the proxies in the places of the authorities, and signed by
/// the proxies; and it stores the record with its condition advanced.
pub proof fn lemma_built_trigger_is_taken(
    base: Base,
    given: Seq<MetaView>,
    accounts: Seq<AccountInfo>,
    record: ConfigView,
    payload: Seq<u8>,
    now: i64,
)
    requires
        base.wf(),
        base.spec_proxies_exist(),
        positions_differ(base),
        is_committed_instruction(base, given),
        base.total_accounts_count < MAX_INSTRUCTION_ACCOUNTS,
        is_record_of(record, base),
        base.spec_trigger_accounts(given, base.program_id@) is Ok,
        presents_trigger(accounts, base.spec_trigger_accounts(given, base.program_id@)->Ok_0),
        holds_record(accounts[accounts.len() - 1], record),
        record.base.length_matches_commit_type(payload.len() as int),
        record.base.check_data(payload) is Ok,
        update_payload(record.base.condition_tag, record.base.condition_data, now) is Ok,
    ensures
        spec_entry(accounts, payload, now) is Ok,
        ({
            let named = base.spec_trigger_accounts(given, base.program_id@)->Ok_0;
            let handed_on = spec_entry(accounts, payload, now)->Ok_0.0;
            let stored = spec_entry(accounts, payload, now)->Ok_0.1;
            &&& handed_on.program_id == base.program_id@
            &&& handed_on.data == payload
            &&& handed_on.accounts.len() == given.len()
            &&& forall|i: int|
                0 <= i < given.len() ==> #[trigger] handed_on.accounts[i] == meta_of(accounts[i])
            &&& handed_on.signers.len() == base.signer_commit_account_keys@.len()
            &&& forall|i: int|
                0 <= i < handed_on.signers.len() ==> #[trigger] handed_on.signers[i] == (
                    base.signer_commit_account_keys@[i]@,
                    base.spec_proxy_bumps()[i],
                )
            &&& stored == (ConfigView {
                base: record.base.with_condition_data(
                    update_payload(
                        record.base.condition_tag,
                        record.base.condition_data,
                        now,
                    )->Ok_0,
                ),
                ..record
            })
        }),
{
    let n = base.non_signer_commit_account_keys@.len() as int;
    let s = base.signer_commit_account_keys@.len() as int;
    let count = n + 1 + s;
    let total = base.total_accounts_count as int;
    let proxies = base.spec_proxy_keys();
    let named = base.spec_trigger_accounts(given, base.program_id@)->Ok_0;
    let found = base.spec_commit_account(proxies)->Some_0;
    lemma_substituted(base, given, s);
    let substituted = base.spec_substituted(given, s)->Ok_0;
    assert(named == substituted + seq![
        (base.program_id@, false, false),
        (base.starter_account_key->Some_0@, true, false),
        (found.0, true, true),
    ]);
    assert(named.len() == total + 3);
    assert(named[total] == (base.program_id@, false, false));
    assert(named[total + 1] == (base.starter_account_key->Some_0@, true, false));
    assert(named[total + 2] == (found.0, true, true));

    // The first checks pass.
    record.lemma_decode_encode();
    let commit_account = accounts[accounts.len() - 1];
    let starter_account = accounts[accounts.len() - 2];
    assert(spec_is_program_account(commit_account, Config::LEN, ID) == Ok::<(), ProgramError>(()));
    assert(starter_account.key@ == named[total + 1].0);
    assert(spec_entry_checks(accounts, payload, now) == Ok::<(), ProgramError>(()));
    let stored = spec_entry_record(accounts, now);

    // The accounts handed on hold the committed accounts at the stored
    // positions.
    let program_accounts = accounts.subrange(0, accounts.len() - 2);
    let indices = record.base.account_indices;
    assert(indices == base.spec_account_indices());
    assert forall|k: int| 0 <= k < count implies (#[trigger] indices[k]) < program_accounts.len()
        && program_accounts[indices[k] as int].key@ == base.spec_commit_keys(proxies)[k] by {
        if k < n {
            let p = base.acct_indices@[k] as int;
            assert(indices[k] == base.acct_indices@[k]);
            assert forall|j: int| 0 <= j < s implies (#[trigger] base.acct_indices@[n + j])
                != p by {
                assert(base.acct_indices@[k] != base.acct_indices@[n + j]);
            }
            assert(substituted[p] == given[p]);
            assert(accounts[p].key@ == named[p].0);
            assert(given[p].0 == base.non_signer_commit_account_keys@[k]@);
        } else if k == n {
            assert(indices[k] == base.total_accounts_count);
            assert(accounts[total].key@ == named[total].0);
        } else {
            let j = k - n - 1;
            assert(indices[k] == base.acct_indices@[n + j]);
            let p = base.acct_indices@[n + j] as int;
            assert(substituted[p].0 == proxies[j]);
            assert(accounts[p].key@ == named[p].0);
        }
    }
    assert(indices_in_range(program_accounts, indices, count));
    assert(indexed_keys(program_accounts, indices, count) =~= base.spec_commit_keys(proxies));

    // The address derived anew is the record's.
    lemma_same_program();
    lemma_canonical_address_is_canonical(base.spec_search_seeds(proxies), PROGRAM_ID@);
    let seeds = spec_trigger_seeds(program_accounts, payload, stored.base)->Ok_0;
    assert(seeds =~= with_bump(base.spec_search_seeds(proxies), found.1));
    assert(commit_account.key@ == named[total + 2].0);

    let handed_on = spec_entry(accounts, payload, now)->Ok_0.0;
    assert forall|i: int| 0 <= i < handed_on.signers.len() implies #[trigger] handed_on.signers[i]
        == (base.signer_commit_account_keys@[i]@, base.spec_proxy_bumps()[i]) by {
        assert(record.base.signer_bumps[i] == base.spec_proxy_bumps()[i]);
        assert(record.signer_keys[i] == base.signer_commit_account_keys@[i]@);
    }
}

} // verus!
