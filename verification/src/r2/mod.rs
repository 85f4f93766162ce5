//! Object storage: keys and folders, requests, replies.

pub mod client;
pub mod keys;
pub mod listing;
pub mod sdk;
pub mod types;
pub mod wire;
