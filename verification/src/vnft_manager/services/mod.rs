//! What the ticket manager does.

pub mod ticket_service;
