//! Verified configuration generation and status parsing for DRBD high-availability clusters.

pub mod text;
pub mod option_map;
pub mod config_gen;
pub mod drbd_status;
pub mod reactor_config;
pub mod nodes;
pub mod ha_ops;
pub mod dispatch;
pub mod profile_toml;
pub mod resource_agents;
pub mod profile_status;
pub mod profiles;
pub mod profile_create;
pub mod profile_delete;
pub mod vip;
pub mod profile_control;
pub mod dashboard;
pub mod profile_details;
pub mod promoter_readback;
pub mod resource_readback;
pub mod start_array;
pub mod create_flow;
pub mod activation_flow;
pub mod delete_flow;
pub mod details_flow;
