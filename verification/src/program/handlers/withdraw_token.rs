//! Moving tokens back from a proxy's token account to its authority's.

use vstd::prelude::*;

use crate::account::{AccountInfo, ProxySigner};
use crate::codec::{u64_from_le, u64_from_le_slice};
use crate::program::constants::ID;
use crate::program::helpers::utils::{
    check_proxy_with, program_signer_seeds, spec_check_proxy_with,
};
use crate::program::state::config::lemma_seeds_view;
use crate::program::state::error::ProgramError;
use crate::pubkey::{create_program_address, program_address, Pubkey};

verus! {

/// The state of a token withdrawal that has passed its checks.
pub struct WithdrawToken<'a> {
    /// The authority that owns the tokens.
    pub signer: &'a AccountInfo,
    /// The proxy that holds them.
    pub program_signer: &'a AccountInfo,
    pub mint: &'a AccountInfo,
    /// The proxy's token account.
    pub program_signer_ata: &'a AccountInfo,
    /// The authority's token account.
    pub signer_ata: &'a AccountInfo,
    pub amount: u64,
    pub decimals: u8,
    pub bump: [u8; 1],
}

/// What a token withdrawal leaves to be done on the ledger: a checked
/// transfer, signed for by the proxy.
#[derive(Debug, Clone, Copy)]
pub struct TokenTransfer {
    pub from: Pubkey,
    pub mint: Pubkey,
    pub to: Pubkey,
    pub authority: Pubkey,
    pub amount: u64,
    pub decimals: u8,
    pub signer: ProxySigner,
}

/// The checks of `WithdrawToken::try_from`, in their order. The amount is
/// the first eight bytes of the payload, the decimals the next byte, the
/// bump the one after.
pub open spec fn spec_withdraw_token_checks(accounts: Seq<AccountInfo>, data: Seq<u8>) -> Result<
    (),
    ProgramError,
> {
    if accounts.len() != 5 {
        Err(ProgramError::NotEnoughAccountKeys)
    } else if data.len() < 10 {
        Err(ProgramError::InvalidInstructionData)
    } else if !accounts[0].is_signer {
        Err(ProgramError::MissingRequiredSignature)
    } else {
        spec_check_proxy_with(
            program_address(program_signer_seeds(accounts[0].key, data[9]), ID@),
            accounts[1].key@,
        )
    }
}

impl<'a> WithdrawToken<'a> {
    /// Takes the accounts `[authority, proxy, mint, proxy's token account,
    /// authority's token account]` and a payload of an amount, the decimals
    /// and a bump, and checks, in this order: that there are exactly five
    /// accounts; that the payload holds ten bytes at least; that the
    /// authority has signed; and that the proxy's address is the one derived
    /// from the authority's key and the bump.
    pub fn try_from(value: (&'a [AccountInfo], &'a [u8])) -> (r: Result<Self, ProgramError>)
        ensures
            match spec_withdraw_token_checks(value.0@, value.1@) {
                Err(e) => r matches Err(err) && err == e,
                Ok(()) => r matches Ok(withdraw) && *withdraw.signer == value.0@[0]
                    && *withdraw.program_signer == value.0@[1] && *withdraw.mint == value.0@[2]
                    && *withdraw.program_signer_ata == value.0@[3] && *withdraw.signer_ata
                    == value.0@[4] && withdraw.amount == u64_from_le(value.1@.subrange(0, 8))
                    && withdraw.decimals == value.1@[8] && withdraw.bump@ == seq![value.1@[9]],
            },
    {
        let accounts = value.0;
        if accounts.len() != 5 {
            return Err(ProgramError::NotEnoughAccountKeys);
        }
        let signer = &accounts[0];
        let program_signer = &accounts[1];
        let mint = &accounts[2];
        let program_signer_ata = &accounts[3];
        let signer_ata = &accounts[4];
        let data = value.1;
        if data.len() < 10 {
            return Err(ProgramError::InvalidInstructionData);
        }
        let amount = u64_from_le_slice(data, 0);
        let decimals = data[8];
        let bump = data[9];
        if !signer.is_signer() {
            return Err(ProgramError::MissingRequiredSignature);
        }
        let bump_seed: [u8; 1] = [bump];
        let seeds: [&[u8]; 2] = [signer.key().as_slice(), bump_seed.as_slice()];
        let seeds = seeds.as_slice();
        proof {
            assert(bump_seed@ =~= seq![bump]);
            assert(seeds@[0]@ == signer.key@);
            assert(seeds@[1]@ == seq![bump]);
            lemma_seeds_view(seeds, program_signer_seeds(signer.key, bump));
        }
        let derived = create_program_address(seeds, &ID);
        match check_proxy_with(derived, program_signer.key()) {
            Err(e) => {
                return Err(e);
            },
            Ok(()) => {},
        }
        let withdraw = WithdrawToken {
            signer,
            program_signer,
            mint,
            program_signer_ata,
            signer_ata,
            amount,
            decimals,
            bump: [bump],
        };
        assert(withdraw.bump@ =~= seq![bump]);
        Ok(withdraw)
    }

    /// The checked transfer of the amount from the proxy's token account to
    /// the authority's.
    pub fn process(&self) -> (r: Result<TokenTransfer, ProgramError>)
        ensures
            r matches Ok(transfer) && transfer.from == self.program_signer_ata.key
                && transfer.mint == self.mint.key && transfer.to == self.signer_ata.key
                && transfer.authority == self.program_signer.key && transfer.amount == self.amount
                && transfer.decimals == self.decimals && transfer.signer.signer_key
                == self.signer.key && transfer.signer.bump == self.bump@[0],
    {
        Ok(
            TokenTransfer {
                from: *self.program_signer_ata.key(),
                mint: *self.mint.key(),
                to: *self.signer_ata.key(),
                authority: *self.program_signer.key(),
                amount: self.amount,
                decimals: self.decimals,
                signer: ProxySigner { signer_key: *self.signer.key(), bump: self.bump[0] },
            },
        )
    }
}

} // verus!
