//! Wire-model record types kept alongside the state manager.

pub mod stubs_period_verification_period_code;
pub mod user_settings_period_social;
