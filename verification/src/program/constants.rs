use vstd::prelude::*;

use crate::pubkey::Pubkey;

verus! {

/// The address under which this program is deployed
/// (`GQnJT5HuuV4FUqQu5WS2WisHHSWLosC3WBtJS7fcVMTM`).
pub const ID: Pubkey = [
    228, 246, 226, 100, 82, 184, 93, 233, 66, 157, 118, 50, 181, 145, 214, 45, 243, 240, 49, 101,
    189, 253, 107, 199, 222, 130, 237, 193, 83, 105, 3, 24,
];

/// The address of the ledger's system program.
pub const SYSTEM_PROGRAM_ID: Pubkey = [
    0, 0, 0, 0, 0, 0, 0, 0, 0, 0, 0, 0, 0, 0, 0, 0, 0, 0, 0, 0, 0, 0, 0, 0, 0, 0, 0, 0, 0, 0, 0, 0,
];

/// Width of a SHA-256 digest.
pub const HASH_LENGTH: usize = 32;

/// Most authorities one record can delegate for.
pub const CONFIG_MAX_SIGNERS: usize = 4;

/// Most accounts one record can commit to.
pub const CONFIG_MAX_ACCOUNTS: usize = 8;

/// Fewest accounts one record can commit to.
pub const CONFIG_MIN_ACCOUNTS: usize = 3;

/// Number of seeds a record's address is derived from, the bump included.
pub const COMMIT_SEEDS_LEN: usize = 7;

/// Most accounts a forwarded instruction can name.
pub const MAX_INSTRUCTION_ACCOUNTS: usize = 64;

} // verus!
