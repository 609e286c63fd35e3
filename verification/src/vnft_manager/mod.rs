//! The ticket manager: a registry that mints each ticket as a token of its
//! own and sells tickets on against payment.

pub mod laws;
pub mod services;
pub mod states;
