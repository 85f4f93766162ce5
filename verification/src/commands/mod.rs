//! What the commands of the user interface decide between the account store
//! and the object storage client.

pub mod account;
pub mod file;
pub mod session;
