pub mod user;
pub mod init_bank;
pub mod deposit;
pub mod withdraw;
pub mod director;
