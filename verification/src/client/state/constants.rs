use vstd::prelude::*;

use crate::pubkey::Pubkey;

verus! {

/// The address under which the program is deployed
/// (`GQnJT5HuuV4FUqQu5WS2WisHHSWLosC3WBtJS7fcVMTM`).
pub const PROGRAM_ID: Pubkey = [
    228, 246, 226, 100, 82, 184, 93, 233, 66, 157, 118, 50, 181, 145, 214, 45, 243, 240, 49, 101,
    189, 253, 107, 199, 222, 130, 237, 193, 83, 105, 3, 24,
];

/// The address of the ledger's system program.
pub const SYSTEM_PROGRAM_ID: Pubkey = [
    0, 0, 0, 0, 0, 0, 0, 0, 0, 0, 0, 0, 0, 0, 0, 0, 0, 0, 0, 0, 0, 0, 0, 0, 0, 0, 0, 0, 0, 0, 0, 0,
];

pub const HASH_LENGTH: usize = 32;

pub const CONFIG_MAX_SIGNERS: usize = 4;

pub const CONFIG_MAX_ACCOUNTS: usize = 8;

pub const CONFIG_MIN_ACCOUNTS: usize = 3;

} // verus!
