//! Replacing the condition of a record.

use vstd::prelude::*;

use crate::account::AccountInfo;
use crate::program::constants::ID;
use crate::program::helpers::utils::{
    is_program_account, spec_authorities_signed, spec_is_program_account, verify_authorities,
};
use crate::program::state::condition::{tag_of, CommitCondition};
use crate::program::state::config::{Config, ConfigView};
use crate::program::state::error::{custom, ProgramError, ProgramResult, WrapperError};

verus! {

/// The state of a change of condition that has passed its checks.
pub struct ChangeCommit<'a> {
    /// The authorities.
    pub signers: &'a [AccountInfo],
    /// The record's account.
    pub commit_account: &'a AccountInfo,
    /// The record; once `process` has run, the record to store.
    pub config_data: Config,
    /// The condition to put in place.
    pub new_condition: CommitCondition,
}

/// The checks of `ChangeCommit::try_from`, in their order.
pub open spec fn spec_change_checks(accounts: Seq<AccountInfo>, data: Seq<u8>) -> Result<
    (),
    ProgramError,
> {
    if accounts.len() < 1 {
        Err(ProgramError::NotEnoughAccountKeys)
    } else {
        let commit_account = accounts[accounts.len() - 1];
        let signers = accounts.subrange(0, accounts.len() - 1);
        match spec_is_program_account(commit_account, Config::LEN, ID) {
            Err(e) => Err(e),
            Ok(()) => {
                let config = ConfigView::decode(commit_account.data@)->Some_0;
                if data.len() != CommitCondition::LEN {
                    Err(ProgramError::InvalidInstructionData)
                } else if signers.len() != config.base.signer_count {
                    Err(custom(WrapperError::InvalidAccountKeysCount))
                } else if !spec_authorities_signed(signers, config.signer_keys) {
                    Err(ProgramError::MissingRequiredSignature)
                } else {
                    match tag_of(data[0]) {
                        Err(e) => Err(custom(e)),
                        Ok(_) => Ok(()),
                    }
                }
            },
        }
    }
}

/// The record that a change of condition leaves: the stored one with the
/// condition that `data` packs, and nothing else changed.
pub open spec fn spec_changed_record(accounts: Seq<AccountInfo>, data: Seq<u8>) -> ConfigView {
    let config = ConfigView::decode(accounts[accounts.len() - 1].data@)->Some_0;
    ConfigView {
        base: config.base.with_condition(data[0], data.subrange(1, CommitCondition::LEN as int)),
        ..config
    }
}

impl<'a> ChangeCommit<'a> {
    /// Takes the accounts `[signers.., record]` and the packed new
    /// condition, and checks, in this order: that the record's account
    /// exists, has the size of a record and belongs to this program; that the
    /// new condition has the width of a condition; that the signers are as
    /// many as the record's authorities; that each, in the stored order, has
    /// signed and is the stored authority; and that the new condition's tag
    /// names a rule.
    pub fn try_from(value: (&'a [AccountInfo], &[u8])) -> (r: Result<Self, ProgramError>)
        ensures
            match spec_change_checks(value.0@, value.1@) {
                Err(e) => r matches Err(err) && err == e,
                Ok(()) => r matches Ok(change) && change.signers@ == value.0@.subrange(
                    0,
                    value.0@.len() - 1,
                ) && *change.commit_account == value.0@[value.0@.len() - 1] && Some(
                    change.config_data@,
                ) == ConfigView::decode(value.0@[value.0@.len() - 1].data@)
                    && change.new_condition.tag == value.1@[0] && change.new_condition.data@
                    == value.1@.subrange(1, CommitCondition::LEN as int),
            },
    {
        let accounts = value.0;
        if accounts.len() < 1 {
            return Err(ProgramError::NotEnoughAccountKeys);
        }
        let signers = vstd::slice::slice_subrange(accounts, 0, accounts.len() - 1);
        let commit_account = &accounts[accounts.len() - 1];
        let data = value.1;

        match is_program_account(commit_account, Config::LEN, &ID) {
            Err(e) => {
                return Err(e);
            },
            Ok(()) => {},
        }
        let new_condition = match CommitCondition::from_bytes(data) {
            Some(condition) => condition,
            None => {
                return Err(ProgramError::InvalidInstructionData);
            },
        };
        let config_data = match Config::from_bytes(commit_account.data.as_slice()) {
            Some(config) => config,
            None => {
                return Err(ProgramError::InvalidAccountData);
            },
        };
        match verify_authorities(signers, &config_data) {
            Err(e) => {
                return Err(e);
            },
            Ok(()) => {},
        }
        match new_condition.is_valid() {
            Err(e) => {
                return Err(ProgramError::from(e));
            },
            Ok(_) => {},
        }
        Ok(ChangeCommit { signers, commit_account, config_data, new_condition })
    }

    /// Puts the new condition in the place of the record's condition; no
    /// other field changes.
    #[inline(always)]
    pub fn process(&mut self) -> (r: ProgramResult)
        ensures
            r is Ok,
            final(self).config_data@ == (ConfigView {
                base: old(self).config_data@.base.with_condition(
                    old(self).new_condition.tag,
                    old(self).new_condition.data@,
                ),
                ..old(self).config_data@
            }),
            final(self).signers == old(self).signers,
            final(self).commit_account == old(self).commit_account,
            final(self).new_condition == old(self).new_condition,
    {
        self.config_data.base.condition = self.new_condition;
        Ok(())
    }
}

} // verus!
