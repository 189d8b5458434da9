pub mod grant_permission;
pub mod update_bank;
pub mod withdraw_role_based;
