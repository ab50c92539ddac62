//! Verified core of the upgo services: the authentication domain (sessions,
//! tokens, passwords, e-mail verification, account deletion), the decision
//! logic of the authentication application service, and the pure parts of
//! the configuration, file and gateway services.

pub mod text;
pub mod error;
pub mod session;
pub mod time;
pub mod ids;
pub mod password;
pub mod email_verification;
pub mod account_deletion;
pub mod jwt;
pub mod jwt_service;
pub mod events;
pub mod digest;
pub mod account_client;
pub mod mail;
pub mod flow;
pub mod login_flow;
pub mod sessions_flow;
pub mod account_flow;
pub mod refresh_flow;
pub mod cleanup_flow;
pub mod config_mgr;
pub mod config_cache;
pub mod frs;
pub mod gateway;
pub mod middleware;
pub mod grpc;
