//! The services that act on the data.

pub mod ens;
pub mod lifi;
pub mod reply;
pub mod session;
