//! A gateway between a tool-calling host and the DataLens RPC API: it turns
//! a tool call into the request to send, and the answer into a result or a
//! structured failure.
pub mod args;
pub mod catalog;
pub mod config;
pub mod engine;
pub mod fields;
pub mod gateway;
pub mod json;
pub mod outcome;
pub mod startup;
pub mod text;
pub mod tools;
