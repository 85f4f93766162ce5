//! The accounts kept on this machine, and their secrets.

pub mod accounts;
pub mod config;
pub mod platform;
