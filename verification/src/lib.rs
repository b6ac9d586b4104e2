//! Authentication and account-recovery core: credential hashing, signed
//! session tokens, login lockout, one-time-code password reset, the request
//! access control and a request throttle, with their contracts.

pub mod access;
pub mod config;
pub mod cookies;
pub mod cors;
pub mod guard;
pub mod hash;
pub mod hex;
pub mod ids;
pub mod login;
pub mod models;
pub mod otp;
pub mod rate_limit;
pub mod reply;
pub mod reset;
pub mod security;
pub mod signup;
pub mod store_model;
pub mod text;
pub mod token;
pub mod validation;
