//! The core of a gateway between a browser dashboard and the GearBot worker.
//!
//! The crate holds the decisions of the gateway and none of its sockets: the
//! table that matches replies to calls, the session protocol of a dashboard
//! connection, the handlers behind it and the HTTP edge's rules. A caller
//! performs the actions that the functions here hand out and reports back
//! what happened.

pub mod config;
pub mod digest;
pub mod error;
pub mod models;
pub mod redis;
pub mod routes;
pub mod text;
pub mod util;
