//! Authentication core of a chat homeserver: signed bearer and session
//! tokens, the interactive (multi-stage) authentication engine, and the
//! decisions of the request authentication layer.

pub mod auth;
pub mod auth_checker;
pub mod claims;
pub mod config;
pub mod error;
pub mod handlers;
pub mod ids;
pub mod json;
pub mod mock_store;
pub mod registration;
pub mod store;
pub mod text;
pub mod token;
pub mod uia;
