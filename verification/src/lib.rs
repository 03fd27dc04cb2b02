//! A verified translation layer between a calling application and the `helm`
//! command line tool: repository registration, chart discovery, release
//! install and uninstall, and value inspection, each mapped onto one or more
//! external invocations whose argument order and decoded results are stated
//! in contracts.

pub mod api;
pub mod chart;
pub mod cmd;
pub mod data;
pub mod decode;
pub mod executor;
pub mod json;
pub mod laws;
pub mod store;
pub mod text;
