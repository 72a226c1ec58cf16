//! The domain records the endpoints decode to.

pub mod client;
pub mod common;
pub mod device;
pub mod site;
pub mod statistics;
