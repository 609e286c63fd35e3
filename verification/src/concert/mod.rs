//! The ticket registry: events, tickets, roles, primary sale and resale.

pub mod laws;
pub mod rules;
pub mod service;
pub mod types;
