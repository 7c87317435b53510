//! A tiny router information page: configuration, peer address
//! classification, page rendering, the HTTP response and the decisions of
//! the service installation, each with its contract.

pub mod text;
pub mod remote;
pub mod config;
pub mod page;
pub mod http;
pub mod install;
