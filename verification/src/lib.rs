//! Verified core of a small paste-bin service: the rules that decide what a
//! request is answered, how shared documents are named, cached and expired,
//! and how configuration values are read.

pub mod access_log;
pub mod cache;
pub mod config;
pub mod document;
pub mod env;
pub mod error;
pub mod highlight;
pub mod json;
pub mod paste;
pub mod store;
pub mod text;
pub mod time;
pub mod tls;
