//! Resolution of a logical secret key into a fully-qualified 1Password
//! secret reference, and normalization of what the `op` agent prints for it.

pub mod reference;
pub mod retrieval;
