//! Core state, access-control and billing logic of the Formation state service:
//! roles and permissions, project resource access, API keys and their rate
//! limits, accounts and their credit rules, subscriptions and usage tracking.

pub mod text;
pub mod kv;
pub mod ordered;
pub mod clock;
pub mod auth;
pub mod billing;
pub mod api_keys;
pub mod accounts;
pub mod api;
pub mod db;
pub mod helpers;
pub mod agent;
pub mod stores;
