pub mod donate;
pub mod initialize_config;
pub mod set_admin;
pub mod set_paused;
pub mod set_treasury;
pub mod update_profile;
