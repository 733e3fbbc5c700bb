//! Control-plane request layer of a VPN client: request descriptors and their
//! factory, the bookkeeping of the request-execution actor, outcome
//! classification, response validation and the API address refresh schedule.

pub mod error;
pub mod service;
pub mod outcome;
pub mod request;
pub mod factory;
pub mod response;
pub mod refresh;
