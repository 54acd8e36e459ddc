//! Building the instruction that moves tokens back from a proxy.

use vstd::prelude::*;

use crate::account::{AccountMeta, Instruction};
use crate::client::state::constants::PROGRAM_ID;
use crate::client::state::error::CustomError;
use crate::codec::{u64_le, u64_to_le_bytes};
use crate::program::state::config::push_all;
use crate::pubkey::Pubkey;

verus! {

/// The payload of a token withdrawal.
#[derive(Debug, Clone, Copy, PartialEq, Eq, Structural)]
pub struct WithdrawTokenData {
    pub amount: u64,
    pub bump: u8,
    pub decimals: u8,
}

impl WithdrawTokenData {
    /// The packed form: the amount, little-endian, then the bump, then the
    /// decimals.
    pub open spec fn spec_bytes(&self) -> Seq<u8> {
        u64_le(self.amount) + seq![self.bump, self.decimals]
    }

    /// The packed form.
    pub fn to_bytes(&self) -> (r: Vec<u8>)
        ensures
            r@ == self.spec_bytes(),
    {
        let mut data: Vec<u8> = Vec::new();
        let amount = u64_to_le_bytes(self.amount);
        push_all(&mut data, amount.as_slice());
        data.push(self.bump);
        data.push(self.decimals);
        assert(data@ =~= self.spec_bytes());
        data
    }
}

/// The builder of a token withdrawal.
#[derive(Debug, Clone, Copy)]
pub struct WithdrawToken {
    pub signer: Pubkey,
    pub program_signer: Pubkey,
    pub mint: Pubkey,
    pub program_signer_ata: Pubkey,
    pub token_program: Pubkey,
    pub data: WithdrawTokenData,
}

impl WithdrawToken {
    pub fn new(
        signer: Pubkey,
        program_signer: Pubkey,
        mint: Pubkey,
        program_signer_ata: Pubkey,
        token_program: Pubkey,
        amount: u64,
        bump: u8,
        decimals: u8,
    ) -> (r: Self)
        ensures
            r.signer == signer,
            r.program_signer == program_signer,
            r.mint == mint,
            r.program_signer_ata == program_signer_ata,
            r.token_program == token_program,
            r.data == (WithdrawTokenData { amount, bump, decimals }),
    {
        Self {
            signer,
            program_signer,
            mint,
            program_signer_ata,
            token_program,
            data: WithdrawTokenData { amount, bump, decimals },
        }
    }

    /// Builds the instruction: addressed to the program, naming the
    /// authority as a writable signer, the proxy and the mint, read-only,
    /// the proxy's token account, writable, and the token program, and
    /// carrying the packed payload.
    pub fn to_instruction(&self) -> (r: Result<Instruction, CustomError>)
        ensures
            r matches Ok(instruction) && instruction.program_id == PROGRAM_ID
                && instruction.accounts@ == seq![
                AccountMeta { pubkey: self.signer, is_signer: true, is_writable: true },
                AccountMeta { pubkey: self.program_signer, is_signer: false, is_writable: false },
                AccountMeta { pubkey: self.mint, is_signer: false, is_writable: false },
                AccountMeta { pubkey: self.program_signer_ata, is_signer: false, is_writable: true },
                AccountMeta { pubkey: self.token_program, is_signer: false, is_writable: false },
            ] && instruction.data@ == self.data.spec_bytes(),
    {
        let mut accounts: Vec<AccountMeta> = Vec::new();
        accounts.push(AccountMeta::new(self.signer, true));
        accounts.push(AccountMeta::new_readonly(self.program_signer, false));
        accounts.push(AccountMeta::new_readonly(self.mint, false));
        accounts.push(AccountMeta::new(self.program_signer_ata, false));
        accounts.push(AccountMeta::new_readonly(self.token_program, false));
        let data = self.data.to_bytes();
        proof {
            assert(accounts@ =~= seq![
                AccountMeta { pubkey: self.signer, is_signer: true, is_writable: true },
                AccountMeta { pubkey: self.program_signer, is_signer: false, is_writable: false },
                AccountMeta { pubkey: self.mint, is_signer: false, is_writable: false },
                AccountMeta { pubkey: self.program_signer_ata, is_signer: false, is_writable: true },
                AccountMeta { pubkey: self.token_program, is_signer: false, is_writable: false },
            ]);
        }
        Ok(Instruction { program_id: PROGRAM_ID, accounts, data })
    }
}

} // verus!
