//! The decisions of each command. Reading files, talking to the remote and
//! printing are left to the caller, which hands in what it read and carries out
//! what is returned.

pub mod add;
pub mod branches;
pub mod changes;
pub mod checkout;
pub mod init;
pub mod login;
pub mod pull;
pub mod push;
pub mod remove;
pub mod repos;
pub mod session;
pub mod status;
pub mod user;
