//! Configuration parsing, validation and reporting for the MXC container
//! executor: a JSON request becomes an `ExecutionRequest` (one-shot) or a
//! `ParsedStateAwareRequest` (state-aware), with every field default,
//! alias and cross-field rule stated and proved.

pub mod text;
pub mod json;
pub mod models;
pub mod errors;
pub mod raw;
pub mod encoding;
pub mod state_aware;
pub mod network;
pub mod schema;
pub mod experimental;
pub mod config_parser;
pub mod telemetry;
pub mod driver;
pub mod runner;
pub mod lxc_driver;
pub mod e2e;
pub mod laws;
