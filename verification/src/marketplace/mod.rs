//! The marketplace: tickets on offer, and their sale.

pub mod laws;
pub mod rules;
pub mod service;
pub mod types;
