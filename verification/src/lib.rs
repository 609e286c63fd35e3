//! Ticket lifecycle and marketplace settlement.
//!
//! Three services keep the books of a ticketing platform, and the verifier
//! checks each of their operations against a statement of what it returns
//! and what it changes:
//!
//! - [`concert`]: the ticket registry, which owns events and tickets, mints
//!   tickets in batches, sells them on under the rules of their event and
//!   marks them used;
//! - [`marketplace`]: the listings of tickets on offer, which are checked
//!   against the registry when they are made and again when they are bought;
//! - [`vnft_manager`]: a registry that mints each ticket as a token of its
//!   own and sells tickets on against payment.
//!
//! Under them stand the commission engine ([`commission`]), the reentrancy
//! guard ([`guard`]), tables keyed by 256-bit numbers ([`table`], over the
//! hash index of [`index`]), and the numbers and identities themselves
//! ([`num`], [`actor`]).
//!
//! A service never sends a message and never reads the clock. The caller's
//! identity and the time are arguments; what is to be told to observers is
//! returned; and where another program has to be asked, the operation
//! returns the call to make and goes on when it is handed the answer.

pub mod actor;
pub mod commission;
pub mod concert;
pub mod guard;
pub mod index;
pub mod marketplace;
pub mod num;
pub mod table;
pub mod vnft_manager;
