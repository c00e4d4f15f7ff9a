//! Transactional core of a crowdfunding ledger: a platform registry with a fee
//! rate and a campaign counter, and per-campaign records with donation
//! accounting, withdrawal gating and soft deletion.
pub mod constants;
pub mod errors;
pub mod state;
pub mod initialize_platform;
pub mod create_campaign;
pub mod donate;
pub mod withdraw;
pub mod update_campaign;
pub mod delete_campaign;
pub mod update_platform_settings;
pub mod salina_hive;
pub mod laws;
