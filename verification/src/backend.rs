//! The server side: authentication, the relay, the request models and the
//! settings of the server's database.

pub mod models;
pub mod auth;
pub mod middleware;
pub mod relay;
pub mod database;
pub mod repositories;
