//! The decisions behind the HTTP handlers: who may change an account or an
//! agent, and the requests and answers that agents exchange.

pub mod account;
pub mod agent;
pub mod agent_request;
pub mod agent_response;
pub mod api_key_handlers;
pub mod agent_gateway;
