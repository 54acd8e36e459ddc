//! Building the instruction that moves a native balance back from a proxy.

use vstd::prelude::*;

use crate::account::{AccountMeta, Instruction};
use crate::client::state::constants::PROGRAM_ID;
use crate::client::state::error::CustomError;
use crate::codec::{u64_le, u64_to_le_bytes};
use crate::program::state::config::push_all;
use crate::pubkey::Pubkey;

verus! {

/// The payload of a native withdrawal.
#[derive(Debug, Clone, Copy, PartialEq, Eq, Structural)]
pub struct WithdrawNativeData {
    pub amount: u64,
    pub bump: u8,
}

impl WithdrawNativeData {
    /// The packed form: the amount, little-endian, then the bump.
    pub open spec fn spec_bytes(&self) -> Seq<u8> {
        u64_le(self.amount) + seq![self.bump]
    }

    /// The packed form.
    pub fn to_bytes(&self) -> (r: Vec<u8>)
        ensures
            r@ == self.spec_bytes(),
    {
        let mut data: Vec<u8> = Vec::new();
        let amount = u64_to_le_bytes(self.amount);
        push_all(&mut data, amount.as_slice());
        data.push(self.bump);
        data
    }
}

/// The builder of a native withdrawal.
#[derive(Debug, Clone, Copy)]
pub struct WithdrawNative {
    pub signer: Pubkey,
    pub program_signer: Pubkey,
    pub system_program: Pubkey,
    pub data: WithdrawNativeData,
}

impl WithdrawNative {
    pub fn new(
        signer: Pubkey,
        program_signer: Pubkey,
        system_program: Pubkey,
        amount: u64,
        bump: u8,
    ) -> (r: Self)
        ensures
            r.signer == signer,
            r.program_signer == program_signer,
            r.system_program == system_program,
            r.data == (WithdrawNativeData { amount, bump }),
    {
        Self { signer, program_signer, system_program, data: WithdrawNativeData { amount, bump } }
    }

    /// Builds the instruction: addressed to the program, naming the
    /// authority as a writable signer, the proxy, writable, and the system
    /// program, and carrying the packed payload.
    pub fn to_instruction(&self) -> (r: Result<Instruction, CustomError>)
        ensures
            r matches Ok(instruction) && instruction.program_id == PROGRAM_ID
                && instruction.accounts@ == seq![
                AccountMeta { pubkey: self.signer, is_signer: true, is_writable: true },
                AccountMeta { pubkey: self.program_signer, is_signer: false, is_writable: true },
                AccountMeta { pubkey: self.system_program, is_signer: false, is_writable: false },
            ] && instruction.data@ == self.data.spec_bytes(),
    {
        let mut accounts: Vec<AccountMeta> = Vec::new();
        accounts.push(AccountMeta::new(self.signer, true));
        accounts.push(AccountMeta::new(self.program_signer, false));
        accounts.push(AccountMeta::new_readonly(self.system_program, false));
        let data = self.data.to_bytes();
        proof {
            assert(accounts@ =~= seq![
                AccountMeta { pubkey: self.signer, is_signer: true, is_writable: true },
                AccountMeta { pubkey: self.program_signer, is_signer: false, is_writable: true },
                AccountMeta { pubkey: self.system_program, is_signer: false, is_writable: false },
            ]);
        }
        Ok(Instruction { program_id: PROGRAM_ID, accounts, data })
    }
}

} // verus!
