//! The data that the service keeps.

pub mod session;
