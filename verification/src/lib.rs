//! Order-admission logic of an agricultural futures instrument: broker
//! authentication, request screening, position and margin checks, and the
//! configuration the instrument runs with.

pub mod auth;
pub mod brokers;
pub mod config;
pub mod connection;
pub mod flow;
pub mod flow_laws;
pub mod order;
pub mod outcome;
pub mod run_laws;
pub mod step_laws;
