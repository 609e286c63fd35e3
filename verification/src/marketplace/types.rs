//! The data of the marketplace.

use vstd::prelude::*;
use crate::actor::ActorId;
use crate::num::U256;

pub use crate::concert::types::{EventConfig, Ticket};

verus! {

/// The resale configuration of an event, as the registry reports it.
pub type ResaleConfigTicket = crate::concert::types::ResaleConfig;

/// The commission configuration of an event, as the registry reports it.
pub type CommissionConfigTicket = crate::concert::types::CommissionConfig;

/// A ticket on offer. A ticket has at most one listing at a time.
#[derive(Clone, Copy, Debug, PartialEq, Eq, Structural)]
pub struct Listing {
    pub ticket_id: U256,
    pub seller: ActorId,
    pub price: U256,
    pub listed_at: u64,
    /// The ticket's event, as the registry reported it when the ticket was
    /// listed.
    pub event_id: U256,
}

/// What the marketplace needs to know of a ticket.
#[derive(Clone, Copy, Debug, PartialEq, Eq, Structural)]
pub struct TicketInfo {
    pub ticket_id: U256,
    pub event_id: U256,
    pub current_owner: ActorId,
    pub used: bool,
}

/// What the marketplace needs to know of an event.
#[derive(Clone, Copy, Debug, PartialEq, Eq)]
pub struct EventInfo {
    pub event_id: U256,
    pub organizer: ActorId,
    pub resale_enabled: bool,
    pub max_price: Option<U256>,
    pub resale_start_time: Option<u64>,
    pub resale_end_time: Option<u64>,
    pub seller_percentage: u16,
    pub organizer_percentage: u16,
    pub platform_percentage: u16,
}

/// A call that the marketplace asks its host to make to the registry. Every
/// call goes to the registry that the marketplace names at that time, which
/// its storage tells (`ticket_contract_id`); the host hands the registry's
/// answer back through `MarketplaceService::resume`.
#[derive(Clone, Copy, Debug, PartialEq, Eq, Structural)]
pub enum TicketContractMessage {
    GetTicketAsync { ticket_id: U256 },
    GetEventAsync { event_id: U256 },
    ResellTicket { ticket_id: U256, buyer: ActorId, price: U256 },
    TransferFromMarketplace { ticket_id: U256, buyer: ActorId, seller: ActorId, price: U256 },
}

/// What the registry answers. A call that could not be made, or an answer
/// that could not be read, counts as `Error`.
#[derive(Debug, PartialEq, Eq)]
pub enum TicketContractReply {
    Ticket(Option<Ticket>),
    Event(Option<EventConfig>),
    Success,
    Error(String),
}

/// What the marketplace reports to its observers.
#[derive(Clone, Copy, Debug, PartialEq, Eq, Structural)]
pub enum Event {
    TicketListed { ticket_id: U256, event_id: U256, seller: ActorId, price: U256 },
    TicketSold {
        ticket_id: U256,
        event_id: U256,
        seller: ActorId,
        buyer: ActorId,
        price: U256,
        seller_share: U256,
        organizer_share: U256,
        platform_share: U256,
    },
    ListingCancelled { ticket_id: U256, event_id: U256, seller: ActorId },
}

/// Why the marketplace refused an operation.
#[derive(Clone, Copy, Debug, PartialEq, Eq, Structural)]
pub enum MarketplaceError {
    Unauthorized,
    TicketNotFound,
    TicketAlreadyListed,
    ListingNotFound,
    TicketNotOwned,
    TicketAlreadyUsed,
    ResaleDisabled,
    PriceExceedsMaximum,
    ResaleWindowClosed,
    InvalidPrice,
    InvalidInput,
    ReentrancyDetected,
    PurchaseFailed,
    TransferFailed,
}

/// How an operation goes on after an answer of the registry.
#[derive(Clone, Copy, Debug, PartialEq, Eq, Structural)]
pub enum Step {
    /// The host is to make this call next, and to hand its answer back.
    Call(TicketContractMessage),
    /// The operation is through, and this is its report.
    Done(Event),
}

/// Everything the marketplace holds, the listings as an ordered list.
#[derive(Debug, PartialEq, Eq)]
pub struct State {
    pub admin: ActorId,
    pub platform_fee_recipient: ActorId,
    pub ticket_contract_id: ActorId,
    pub listings: Vec<(U256, Listing)>,
}

} // verus!
