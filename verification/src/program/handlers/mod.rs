pub mod change_commit_condition;
pub mod close_commit;
pub mod create_commit;
pub mod entry;
pub mod lifecycle;
pub mod withdraw_native;
pub mod withdraw_token;
