//! Moving a native balance back from a proxy to its authority.

use vstd::prelude::*;

use crate::account::{AccountInfo, ProxySigner};
use crate::codec::{u64_from_le, u64_from_le_slice};
use crate::program::constants::ID;
use crate::program::helpers::utils::{
    check_proxy_with, program_signer_seeds, spec_check_proxy_with,
};
use crate::program::state::config::lemma_seeds_view;
use crate::program::state::error::ProgramError;
use crate::pubkey::{create_program_address, program_address, Pubkey};

verus! {

/// The state of a native withdrawal that has passed its checks.
pub struct WithdrawNative<'a> {
    /// The authority that owns the balance.
    pub signer: &'a AccountInfo,
    /// The proxy that holds it.
    pub program_signer: &'a AccountInfo,
    pub amount: u64,
    pub bump: [u8; 1],
}

/// What a native withdrawal leaves to be done on the ledger: a transfer,
/// signed for by the proxy.
#[derive(Debug, Clone, Copy)]
pub struct NativeTransfer {
    pub from: Pubkey,
    pub to: Pubkey,
    pub lamports: u64,
    pub signer: ProxySigner,
}

/// The checks of `WithdrawNative::try_from`, in their order. The amount is
/// the first eight bytes of the payload, the bump its last byte.
pub open spec fn spec_withdraw_native_checks(accounts: Seq<AccountInfo>, data: Seq<u8>) -> Result<
    (),
    ProgramError,
> {
    if accounts.len() != 3 {
        Err(ProgramError::NotEnoughAccountKeys)
    } else if data.len() < 9 {
        Err(ProgramError::InvalidInstructionData)
    } else if !accounts[0].is_signer {
        Err(ProgramError::MissingRequiredSignature)
    } else {
        spec_check_proxy_with(
            program_address(program_signer_seeds(accounts[0].key, data[data.len() - 1]), ID@),
            accounts[1].key@,
        )
    }
}

impl<'a> WithdrawNative<'a> {
    /// Takes the accounts `[authority, proxy, system program]` and a payload
    /// of an amount and a bump, and checks, in this order: that there are
    /// exactly three accounts; that the payload holds nine bytes at least;
    /// that the authority has signed; and that the proxy's address is the one
    /// derived from the authority's key and the bump.
    pub fn try_from(value: (&'a [AccountInfo], &'a [u8])) -> (r: Result<Self, ProgramError>)
        ensures
            match spec_withdraw_native_checks(value.0@, value.1@) {
                Err(e) => r matches Err(err) && err == e,
                Ok(()) => r matches Ok(withdraw) && *withdraw.signer == value.0@[0]
                    && *withdraw.program_signer == value.0@[1] && withdraw.amount == u64_from_le(
                    value.1@.subrange(0, 8),
                ) && withdraw.bump@ == seq![value.1@[value.1@.len() - 1]],
            },
    {
        let accounts = value.0;
        if accounts.len() != 3 {
            return Err(ProgramError::NotEnoughAccountKeys);
        }
        let signer = &accounts[0];
        let program_signer = &accounts[1];
        let data = value.1;
        if data.len() < 9 {
            return Err(ProgramError::InvalidInstructionData);
        }
        let amount = u64_from_le_slice(data, 0);
        let bump = data[data.len() - 1];
        if !signer.is_signer() {
            return Err(ProgramError::MissingRequiredSignature);
        }
        let bump_seed: [u8; 1] = [bump];
        let seeds: [&[u8]; 2] = [signer.key().as_slice(), bump_seed.as_slice()];
        let seeds = seeds.as_slice();
        proof {
            assert(bump_seed@ =~= seq![bump]);
            assert(seeds@[0]@ == signer.key@);
            assert(seeds@[1]@ == seq![bump]);
            lemma_seeds_view(seeds, program_signer_seeds(signer.key, bump));
        }
        let derived = create_program_address(seeds, &ID);
        match check_proxy_with(derived, program_signer.key()) {
            Err(e) => {
                return Err(e);
            },
            Ok(()) => {},
        }
        let withdraw = WithdrawNative { signer, program_signer, amount, bump: [bump] };
        assert(withdraw.bump@ =~= seq![bump]);
        Ok(withdraw)
    }

    /// The transfer of the amount from the proxy back to its authority.
    pub fn process(&self) -> (r: Result<NativeTransfer, ProgramError>)
        ensures
            r matches Ok(transfer) && transfer.from == self.program_signer.key && transfer.to
                == self.signer.key && transfer.lamports == self.amount
                && transfer.signer.signer_key == self.signer.key && transfer.signer.bump
                == self.bump@[0],
    {
        Ok(
            NativeTransfer {
                from: *self.program_signer.key(),
                to: *self.signer.key(),
                lamports: self.amount,
                signer: ProxySigner { signer_key: *self.signer.key(), bump: self.bump[0] },
            },
        )
    }
}

} // verus!
