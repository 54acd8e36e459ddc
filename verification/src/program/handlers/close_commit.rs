//! Closing a record.

use vstd::prelude::*;

use crate::account::AccountInfo;
use crate::program::constants::{ID, SYSTEM_PROGRAM_ID};
use crate::program::helpers::utils::{
    is_program_account, spec_authorities_signed, spec_is_program_account, verify_authorities,
};
use crate::program::state::config::{Config, ConfigView};
use crate::program::state::error::{custom, ProgramError, WrapperError};
use crate::pubkey::Pubkey;

verus! {

/// The state of a closing that has passed its checks.
pub struct CloseCommit<'a> {
    /// The record's account.
    pub commit_account: &'a AccountInfo,
    /// Who receives the balance of the record's account.
    pub recipient_account: &'a AccountInfo,
}

/// What a closing leaves to be done on the ledger: the balances, the size
/// and the owner to set. The record ceases to exist.
#[derive(Debug, Clone, Copy, PartialEq, Eq)]
pub struct ClosedCommit {
    /// The recipient's balance after the sweep: what it had and all that the
    /// record's account had.
    pub recipient_lamports: u64,
    /// The balance of the record's account after the sweep: nothing.
    pub commit_lamports: u64,
    /// The size of the record's account after the closing: nothing.
    pub commit_space: usize,
    /// The owner of the record's account after the closing: the system
    /// program, as of an account that was never set up.
    pub commit_owner: Pubkey,
}

/// The checks of `CloseCommit::try_from`, in their order.
pub open spec fn spec_close_checks(accounts: Seq<AccountInfo>) -> Result<(), ProgramError> {
    if accounts.len() < 2 {
        Err(ProgramError::NotEnoughAccountKeys)
    } else {
        let commit_account = accounts[accounts.len() - 1];
        let signers = accounts.subrange(0, accounts.len() - 2);
        match spec_is_program_account(commit_account, Config::LEN, ID) {
            Err(e) => Err(e),
            Ok(()) => {
                let config = ConfigView::decode(commit_account.data@)->Some_0;
                if signers.len() != config.base.signer_count {
                    Err(custom(WrapperError::InvalidAccountKeysCount))
                } else if !spec_authorities_signed(signers, config.signer_keys) {
                    Err(ProgramError::MissingRequiredSignature)
                } else {
                    Ok(())
                }
            },
        }
    }
}

/// What a closing gives once its checks have passed: the recipient's new
/// balance, or the refusal where the sum does not fit.
pub open spec fn spec_sweep(recipient_lamports: u64, commit_lamports: u64) -> Result<
    ClosedCommit,
    ProgramError,
> {
    if recipient_lamports + commit_lamports > u64::MAX {
        Err(ProgramError::ArithmeticOverflow)
    } else {
        Ok(
            ClosedCommit {
                recipient_lamports: (recipient_lamports + commit_lamports) as u64,
                commit_lamports: 0,
                commit_space: 0,
                commit_owner: SYSTEM_PROGRAM_ID,
            },
        )
    }
}

impl<'a> CloseCommit<'a> {
    /// Takes the accounts `[signers.., recipient, record]` and checks, in
    /// this order: that the record's account exists, has the size of a
    /// record and belongs to this program; that the signers are as many as
    /// the record's authorities; and that each, in the stored order, has
    /// signed and is the stored authority.
    pub fn try_from(value: &'a [AccountInfo]) -> (r: Result<Self, ProgramError>)
        ensures
            match spec_close_checks(value@) {
                Err(e) => r matches Err(err) && err == e,
                Ok(()) => r matches Ok(close) && *close.commit_account == value@[value@.len() - 1]
                    && *close.recipient_account == value@[value@.len() - 2],
            },
    {
        if value.len() < 2 {
            return Err(ProgramError::NotEnoughAccountKeys);
        }
        let signers = vstd::slice::slice_subrange(value, 0, value.len() - 2);
        let recipient_account = &value[value.len() - 2];
        let commit_account = &value[value.len() - 1];

        match is_program_account(commit_account, Config::LEN, &ID) {
            Err(e) => {
                return Err(e);
            },
            Ok(()) => {},
        }
        let config_data = match Config::from_bytes(commit_account.data.as_slice()) {
            Some(config) => config,
            None => {
                return Err(ProgramError::InvalidAccountData);
            },
        };
        match verify_authorities(signers, &config_data) {
            Err(e) => {
                return Err(e);
            },
            Ok(()) => {},
        }
        Ok(CloseCommit { recipient_account, commit_account })
    }

    /// Sweeps the whole balance of the record's account to the recipient.
    #[inline(always)]
    pub fn process(&self) -> (r: Result<ClosedCommit, ProgramError>)
        ensures
            r == spec_sweep(self.recipient_account.lamports, self.commit_account.lamports),
    {
        match self.recipient_account.lamports().checked_add(self.commit_account.lamports()) {
            Some(recipient_lamports) => Ok(
                ClosedCommit {
                    recipient_lamports,
                    commit_lamports: 0,
                    commit_space: 0,
                    commit_owner: SYSTEM_PROGRAM_ID,
                },
            ),
            None => Err(ProgramError::ArithmeticOverflow),
        }
    }
}

} // verus!
