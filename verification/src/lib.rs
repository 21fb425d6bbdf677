//! Checks of query results against the expectations that database test suites declare,
//! and the bookkeeping of a test run.

pub mod text;
pub mod dto;
pub mod query;
pub mod messages;
pub mod output;
pub mod bus;
pub mod application;
pub mod validate;
pub mod error;
pub mod config;
pub mod filter;
pub mod read;
pub mod worker;
