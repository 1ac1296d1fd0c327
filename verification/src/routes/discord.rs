//! The login with the identity provider, and what the gateway tells a user
//! who is logged in.

pub mod auth;
pub mod login;
pub mod user_info;
