pub mod check_token_amount;
pub mod errors;
pub mod init_snipe;
pub mod state;
