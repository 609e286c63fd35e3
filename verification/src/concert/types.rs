//! The data of the ticket registry.

use vstd::prelude::*;
use crate::actor::ActorId;
use crate::num::U256;

verus! {

/// When and at what price the tickets of an event may be sold on.
#[derive(Clone, Copy, Debug, PartialEq, Eq)]
pub struct ResaleConfig {
    /// Whether tickets may be sold on at all.
    pub enabled: bool,
    /// The highest price allowed; `None` for no limit.
    pub max_price: Option<U256>,
    /// The start of the resale window; `None` where it is open from the start.
    pub resale_start_time: Option<u64>,
    /// The end of the resale window, which is no part of it; `None` where it
    /// never closes.
    pub resale_end_time: Option<u64>,
}

/// How the price of a resale is divided, in basis points.
#[derive(Clone, Copy, Debug, PartialEq, Eq, Structural)]
pub struct CommissionConfig {
    pub seller_percentage: u16,
    pub organizer_percentage: u16,
    pub platform_percentage: u16,
}

/// An event and the state of its sale.
#[derive(Clone, Copy, Debug, PartialEq, Eq)]
pub struct EventConfig {
    pub event_id: U256,
    pub organizer: ActorId,
    /// The fingerprint of the event's description, which is kept elsewhere.
    pub metadata_hash: [u8; 32],
    pub event_start_time: u64,
    pub tickets_minted: U256,
    pub tickets_total: U256,
    pub resale_config: ResaleConfig,
    pub commission_config: CommissionConfig,
    /// An event is never deleted, only switched off.
    pub active: bool,
}

/// A ticket.
#[derive(Debug, PartialEq, Eq)]
pub struct Ticket {
    pub ticket_id: U256,
    pub event_id: U256,
    /// Zone or seat, where the ticket names one.
    pub zone: Option<String>,
    /// Who the ticket was minted for.
    pub original_buyer: ActorId,
    pub current_owner: ActorId,
    /// Set once, at the entrance, and never cleared.
    pub used: bool,
    pub minted_at: u64,
}

/// A copy of an optional label.
pub fn copy_label(label: &Option<String>) -> (copy: Option<String>)
    ensures
        copy == *label,
{
    match label {
        Some(text) => Some(text.clone()),
        None => None,
    }
}

impl Clone for Ticket {
    fn clone(&self) -> (copy: Ticket)
        ensures
            copy == *self,
    {
        Ticket {
            ticket_id: self.ticket_id,
            event_id: self.event_id,
            zone: copy_label(&self.zone),
            original_buyer: self.original_buyer,
            current_owner: self.current_owner,
            used: self.used,
            minted_at: self.minted_at,
        }
    }
}

/// What the registry reports to its observers.
#[derive(Debug, PartialEq, Eq)]
pub enum Event {
    EventCreated { event_id: U256, organizer: ActorId, metadata_hash: [u8; 32], event_start_time: u64 },
    TicketsMinted { event_id: U256, ticket_ids: Vec<U256>, buyer: ActorId, amount: U256 },
    TicketResold {
        ticket_id: U256,
        event_id: U256,
        seller: ActorId,
        buyer: ActorId,
        price: U256,
        seller_share: U256,
        organizer_share: U256,
        platform_share: U256,
    },
    TicketUsed { ticket_id: U256, event_id: U256, scanner: ActorId },
    OrganizerAdded { organizer: ActorId },
    OrganizerRemoved { organizer: ActorId },
    ScannerAdded { scanner: ActorId },
    ScannerRemoved { scanner: ActorId },
    EventConfigUpdated { event_id: U256 },
}

/// Why the registry refused an operation.
#[derive(Clone, Copy, Debug, PartialEq, Eq, Structural)]
pub enum TicketError {
    Unauthorized,
    EventNotFound,
    TicketNotFound,
    TicketAlreadyUsed,
    TicketNotOwned,
    InvalidResaleConfig,
    InvalidCommissionConfig,
    ResaleDisabled,
    ResaleWindowClosed,
    PriceExceedsMaximum,
    InvalidAmount,
    ReentrancyDetected,
    InvalidInput,
    NotEnoughTickets,
    EventNotActive,
    TransferFailed,
}

/// A call that the registry asks its host to make to the asset service. The
/// host hands the outcome back through `TicketService::settle`.
#[derive(Debug, PartialEq, Eq)]
pub enum AssetCall {
    /// Mint one token for each identifier, all or none.
    MintBatch { contract: ActorId, to: ActorId, token_ids: Vec<U256>, amounts: Vec<U256> },
    /// Move one token from its owner to another.
    TransferFrom { contract: ActorId, from: ActorId, to: ActorId, token_id: U256, amount: U256 },
}

/// The sale of an event in numbers.
#[derive(Clone, Copy, Debug, PartialEq, Eq)]
pub struct EventStats {
    pub event_id: U256,
    pub tickets_total: U256,
    pub tickets_minted: U256,
    pub tickets_used: u64,
    pub active: bool,
}

/// Everything the registry holds, as ordered lists.
#[derive(Debug, PartialEq, Eq)]
pub struct State {
    pub admin: ActorId,
    pub platform_fee_recipient: ActorId,
    pub vmt_contract_id: ActorId,
    pub event_id_counter: U256,
    pub ticket_id_counter: U256,
    pub events: Vec<(U256, EventConfig)>,
    pub tickets: Vec<(U256, Ticket)>,
    pub event_tickets: Vec<(U256, Vec<U256>)>,
    pub organizers: Vec<ActorId>,
    pub scanners: Vec<ActorId>,
}

} // verus!
