//! Verified core of a self-hosted update service.

pub mod error;
pub mod migration;
pub mod text;
pub mod range;
pub mod codec;
pub mod secret;
pub mod validate;
pub mod storage;
pub mod release;
pub mod auth;
pub mod page;
pub mod config;
pub mod upload;
