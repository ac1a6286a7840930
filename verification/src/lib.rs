//! Ownership of a contract by a governance: who owns it, who has been
//! proposed to take it over and until when, and the rules by which the
//! owner proposes a transfer or renounces, and the pending owner accepts.
pub mod expiration;
pub mod governance;
pub mod laws;
pub mod outcomes;
pub mod ownership;
