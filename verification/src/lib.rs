//! Verified core of a file-open event recorder: path filtering, query
//! building, framing of the query protocol and time conversions.

pub mod capture;
pub mod cli;
pub mod common;
pub mod config;
pub mod db;
pub mod filter;
pub mod frame;
pub mod session;
pub mod sql;
pub mod store;
pub mod text;
pub mod time;
