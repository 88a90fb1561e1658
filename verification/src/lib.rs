//! Payment-session coordination: sessions, their payments and totals, and the
//! registry that owns them.

pub mod api;
pub mod clock;
pub mod config;
pub mod decimal;
pub mod ident;
pub mod json;
pub mod models;
pub mod services;
pub mod text;
pub mod utils;
