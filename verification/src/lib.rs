//! Verified core of the Sovereign Reddit off-chain services: request
//! validation, error mapping, vote bookkeeping, cache keys, event routing
//! and the database schema plan.

pub mod text;
pub mod state_change;
pub mod cache_keys;
pub mod http_status;
pub mod db_error;
pub mod post_error;
pub mod requests;
pub mod votes;
pub mod ids_and_time;
pub mod models;
pub mod db_handlers;
pub mod rollup;
pub mod json;
pub mod relay;
pub mod user_events;
pub mod migrations;
pub mod config_types;
