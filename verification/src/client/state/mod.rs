pub mod base;
pub mod change_commit;
pub mod close_commit;
pub mod condition;
pub mod constants;
pub mod create_commit;
pub mod entry;
pub mod error;
pub mod withdraw_native;
pub mod withdraw_tokens;
