//! The core of a desktop explorer for an S3-compatible object store: it
//! presents the store's flat key space as folders, describes every remote
//! request as plain data, interprets the replies, and keeps the accounts of
//! several tenants with their secrets in the operating system's keyring.
//!
//! Nothing here performs network or file I/O. A caller sends the requests this
//! crate describes and hands the replies back.

pub mod commands;
pub mod r2;
pub mod storage;
