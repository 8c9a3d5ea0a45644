//! Records of payers, their payments and guild settings.

pub mod forms;
pub mod guild_settings;
pub mod mynt;
pub mod payer;
pub mod payment;
pub mod phone;
pub mod queries;
pub mod records;
