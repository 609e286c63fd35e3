//! What the ticket manager holds.

pub mod ticket_state;
