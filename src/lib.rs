//! A registry of memes: a museum with fixed owners, self-service
//! contributors, and memes that are each provisioned as a sub-account.
//!
//! The library holds the registry state and the decisions of the
//! provisioning workflow. The host runtime hands in what it knows (the
//! caller, the attached deposit, the outcome of a remote call) and carries
//! out the remote operations that the library plans.

pub mod account;
pub mod contract;
pub mod museum;
