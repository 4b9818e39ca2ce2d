//! Session security for an HTTP API that serves browser and native clients:
//! signed access and refresh tokens, their delivery by cookie or by response
//! body, anti-forgery double-submit checks and the password policy.

pub mod auth;
pub mod client;
pub mod config;
pub mod cookies;
pub mod csrf;
pub mod decimal;
pub mod error;
pub mod headers;
pub mod health;
pub mod jwt;
pub mod password;
pub mod text;
pub mod users;
