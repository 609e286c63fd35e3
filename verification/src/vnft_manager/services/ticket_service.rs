//! The ticket manager as a service.
//!
//! Every operation takes the caller's identity as an argument, and the
//! time, the payment and the service's own identity where it needs them.
//! An operation that needs the token contract returns the call that the host
//! is to make, together with what the operation has to remember; the host
//! hands both back, with the contract's answer, to the function that goes
//! on from there. The manager has no lock: such operations may overlap.

use vstd::prelude::*;
use crate::actor::ActorId;
use crate::commission::{share, share_of};
use crate::concert::types::copy_label;
use crate::num::U256;
use crate::vnft_manager::states::ticket_state::{
    list_of, CommissionConfig, Event, Ledger, ResaleConfig, Ticket, TicketState,
};

verus! {

/// Why the manager refused an operation.
#[derive(Debug, PartialEq, Eq)]
pub enum TicketErrors {
    Unauthorized,
    AlreadyAdmin,
    AlreadyAuthorized,
    EventNotFound,
    EventInactive,
    TicketNotFound,
    TicketAlreadyUsed,
    InvalidEventStart,
    InvalidCommissionConfig,
    ResaleNotAllowed,
    InsufficientPayment,
    ContractNotApproved,
    CannotBuyOwnTicket,
    VnftContractNotSet,
    /// The token contract did not mint; with its message.
    MintFailed(String),
    /// The token contract did not transfer; with its message.
    TransferFailed(String),
    FailedToGetOwner,
    /// The token contract did not answer a question; with its message.
    QueryFailed(String),
    InsufficientBalance,
    /// The numbers of events, or of tickets, are used up.
    NumbersExhausted,
}

/// What an operation of the manager ends in.
#[derive(Debug, PartialEq, Eq)]
pub enum TicketEvents {
    PlatformAdminAdded(ActorId),
    AuthorizedScannerAdded(ActorId),
    VnftContractSet(ActorId),
    EventCreated(u64),
    ResaleConfigUpdated(u64),
    CommissionConfigUpdated(u64),
    EventDeactivated(u64),
    TicketMinted { ticket_id: U256, event_id: u64, owner: ActorId },
    TicketsBatchMinted { event_id: u64, count: u32, tickets: Vec<(U256, ActorId)> },
    TicketListedForResale { ticket_id: U256, price: u128, seller: ActorId },
    TicketResold {
        ticket_id: U256,
        seller: ActorId,
        buyer: ActorId,
        price: u128,
        organizer_amount: u128,
        platform_amount: u128,
        seller_amount: u128,
    },
    PlatformFundsWithdrawn { amount: u128, to: ActorId },
    TicketMarkedAsUsed(U256),
    TicketsBatchMarkedAsUsed { marked: Vec<U256>, errors: Vec<(U256, String)> },
    Error(TicketErrors),
}

/// What a question to the manager ends in.
#[derive(Debug, PartialEq, Eq)]
pub enum TicketQueryEvents {
    Event(Event),
    Ticket(Ticket),
    EventTickets(Vec<Ticket>),
    UserTickets(Vec<Ticket>),
    TicketOwner(ActorId),
    Error(TicketErrors),
}

/// A call that the manager asks its host to make to the token contract.
#[derive(Clone, Copy, Debug, PartialEq, Eq, Structural)]
pub enum VnftCall {
    /// Mint a token for `to`.
    Mint { contract: ActorId, to: ActorId },
    /// Ask who is approved to move the token.
    GetApproved { contract: ActorId, token_id: U256 },
    /// Ask who owns the token.
    OwnerOf { contract: ActorId, token_id: U256 },
    /// Move the token.
    TransferFrom { contract: ActorId, from: ActorId, to: ActorId, token_id: U256 },
}

/// How an operation goes on: with a call to the token contract, whose answer
/// is to be handed back together with `pending`, or not at all.
#[derive(Debug, PartialEq, Eq)]
pub enum Progress<T> {
    Call { pending: T, call: VnftCall },
    Done(TicketEvents),
}

/// A ticket whose token is being minted.
#[derive(Debug, PartialEq, Eq)]
pub struct PendingMint {
    pub ticket_id: U256,
    pub event_id: u64,
    pub to: ActorId,
    pub zone_seat: Option<String>,
    pub minted_at: u64,
}

/// A batch of tickets, of which the one at `position` is being minted.
#[derive(Debug, PartialEq, Eq)]
pub struct BatchMint {
    pub contract: ActorId,
    pub event_id: u64,
    pub minted_at: u64,
    /// For whom the tickets are, each with its zone or seat.
    pub recipients: Vec<(ActorId, Option<String>)>,
    pub position: usize,
    /// The number of the ticket that is being minted.
    pub ticket_id: U256,
    /// The tickets that are minted, each with its owner.
    pub minted: Vec<(U256, ActorId)>,
}

/// A resale that waits for the token contract to say who may move the
/// ticket and who owns it.
#[derive(Clone, Copy, Debug, PartialEq, Eq, Structural)]
pub struct PendingResale {
    pub contract: ActorId,
    pub ticket_id: U256,
    pub price: u128,
    pub buyer: ActorId,
    /// The manager's own identity, which has to be approved for the ticket.
    pub program_id: ActorId,
    pub commission_config: CommissionConfig,
}

/// A resale whose ticket is being moved from `seller` to `buyer`.
#[derive(Clone, Copy, Debug, PartialEq, Eq, Structural)]
pub struct PendingTransfer {
    pub ticket_id: U256,
    pub price: u128,
    pub buyer: ActorId,
    pub seller: ActorId,
    pub commission_config: CommissionConfig,
}

/// The refusal with the given reason.
pub open spec fn refused(reason: TicketErrors) -> TicketEvents {
    TicketEvents::Error(reason)
}

/// The ticket of a mint that has gone through.
pub open spec fn minted_ticket(
    ticket_id: U256,
    event_id: u64,
    zone_seat: Option<String>,
    to: ActorId,
    minted_at: u64,
) -> Ticket {
    Ticket { ticket_id, event_id, zone_seat, original_buyer: to, used: false, minted_at }
}

/// Of the tickets named by `ids`, those that exist, in that order.
pub open spec fn tickets_among(tickets: Map<U256, Ticket>, ids: Seq<U256>) -> Seq<Ticket>
    decreases ids.len(),
{
    if ids.len() == 0 {
        Seq::empty()
    } else if tickets.contains_key(ids.last()) {
        tickets_among(tickets, ids.drop_last()).push(tickets[ids.last()])
    } else {
        tickets_among(tickets, ids.drop_last())
    }
}

/// The tickets after those named by `ids` were marked used, one after the
/// other.
pub open spec fn marked_all(tickets: Map<U256, Ticket>, ids: Seq<U256>) -> Map<U256, Ticket>
    decreases ids.len(),
{
    if ids.len() == 0 {
        tickets
    } else {
        let before = marked_all(tickets, ids.drop_last());
        if before.contains_key(ids.last()) && !before[ids.last()].used {
            before.insert(
                ids.last(),
                Ticket { used: true, ticket_id: ids.last(), ..before[ids.last()] },
            )
        } else {
            before
        }
    }
}

/// Of the tickets named by `ids`, those that a batch marks used: a ticket
/// that exists and was not used before its turn.
pub open spec fn newly_marked(tickets: Map<U256, Ticket>, ids: Seq<U256>) -> Seq<U256>
    decreases ids.len(),
{
    if ids.len() == 0 {
        Seq::empty()
    } else {
        let before = marked_all(tickets, ids.drop_last());
        let rest = newly_marked(tickets, ids.drop_last());
        if before.contains_key(ids.last()) && !before[ids.last()].used {
            rest.push(ids.last())
        } else {
            rest
        }
    }
}

/// Of the tickets named by `ids`, those that a batch cannot mark, each with
/// whether it exists: it was used before its turn, or there is none.
pub open spec fn not_marked(tickets: Map<U256, Ticket>, ids: Seq<U256>) -> Seq<(U256, bool)>
    decreases ids.len(),
{
    if ids.len() == 0 {
        Seq::empty()
    } else {
        let before = marked_all(tickets, ids.drop_last());
        let rest = not_marked(tickets, ids.drop_last());
        if before.contains_key(ids.last()) && !before[ids.last()].used {
            rest
        } else {
            rest.push((ids.last(), before.contains_key(ids.last())))
        }
    }
}

/// The message for a ticket that a batch cannot mark.
pub open spec fn not_marked_message(exists: bool) -> Seq<char> {
    if exists {
        "Already used"@
    } else {
        "Not found"@
    }
}

/// What the organizer gets of a resale at `price`.
pub open spec fn organizer_amount(config: CommissionConfig, price: u128) -> nat {
    share_of(price as nat, config.organizer_percentage as nat)
}

/// What the platform gets of a resale at `price`.
pub open spec fn platform_amount(config: CommissionConfig, price: u128) -> nat {
    share_of(price as nat, config.platform_percentage as nat)
}

impl Ledger {
    /// Whether `caller` may change the event: the admins and its organizer.
    pub open spec fn manages(self, caller: ActorId, event_id: u64) -> bool {
        self.is_platform_admin(caller) || self.events[event_id].organizer == caller
    }

    /// Why a ticket of the event cannot be minted on `caller`'s behalf, if
    /// it cannot.
    pub open spec fn mint_fault(self, caller: ActorId, event_id: u64) -> Option<TicketErrors> {
        if !self.events.contains_key(event_id) {
            Some(TicketErrors::EventNotFound)
        } else if !self.events[event_id].active {
            Some(TicketErrors::EventInactive)
        } else if !self.manages(caller, event_id) {
            Some(TicketErrors::Unauthorized)
        } else if self.vnft_contract_id is None {
            Some(TicketErrors::VnftContractNotSet)
        } else {
            None
        }
    }

    /// Whether the ticket numbers are used up: they end at 2^256 - 1, which
    /// is never handed out.
    pub open spec fn tickets_exhausted(self) -> bool {
        self.next_ticket_id@ + 1 >= crate::num::limit()
    }

    /// Why the minting of one ticket of the event cannot begin on `caller`'s
    /// behalf, if it cannot: for one of the reasons of `mint_fault`, or,
    /// after them, for want of a number.
    pub open spec fn mint_ticket_fault(self, caller: ActorId, event_id: u64) -> Option<TicketErrors> {
        if self.mint_fault(caller, event_id) is Some {
            self.mint_fault(caller, event_id)
        } else if self.tickets_exhausted() {
            Some(TicketErrors::NumbersExhausted)
        } else {
            None
        }
    }

    /// Why a change to the event is refused, if it is.
    pub open spec fn update_fault(self, caller: ActorId, event_id: u64) -> Option<TicketErrors> {
        if !self.events.contains_key(event_id) {
            Some(TicketErrors::EventNotFound)
        } else if !self.manages(caller, event_id) {
            Some(TicketErrors::Unauthorized)
        } else {
            None
        }
    }

    /// Why the ticket cannot be sold on at `price` at the time `now`, if it
    /// cannot.
    pub open spec fn resale_fault(self, ticket_id: U256, price: u128, now: u64) -> Option<
        TicketErrors,
    > {
        if !self.tickets.contains_key(ticket_id) {
            Some(TicketErrors::TicketNotFound)
        } else if self.tickets[ticket_id].used {
            Some(TicketErrors::TicketAlreadyUsed)
        } else if !self.events.contains_key(self.tickets[ticket_id].event_id) {
            Some(TicketErrors::EventNotFound)
        } else if !self.events[self.tickets[ticket_id].event_id].resale_config.spec_is_resale_allowed(
            now,
            price,
        ) {
            Some(TicketErrors::ResaleNotAllowed)
        } else {
            None
        }
    }

    /// Why a purchase cannot begin, if it cannot.
    pub open spec fn purchase_fault(self, value: u128, ticket_id: U256, price: u128, now: u64) -> Option<
        TicketErrors,
    > {
        if value < price {
            Some(TicketErrors::InsufficientPayment)
        } else if self.resale_fault(ticket_id, price, now) is Some {
            self.resale_fault(ticket_id, price, now)
        } else if self.vnft_contract_id is None {
            Some(TicketErrors::VnftContractNotSet)
        } else {
            None
        }
    }

    /// The state after a ticket was minted: the ticket exists, and stands at
    /// the end of the lists of its event and of its owner.
    pub open spec fn with_minted(self, ticket: Ticket) -> Ledger {
        self.with_ticket(ticket).with_event_ticket(ticket.event_id, ticket.ticket_id).with_user_ticket(
            ticket.original_buyer,
            ticket.ticket_id,
        )
    }

    /// The state with the next ticket number handed out.
    pub open spec fn with_ticket_number_taken(self) -> Ledger {
        Ledger { next_ticket_id: U256::from_nat(self.next_ticket_id@ + 1), ..self }
    }
}

/// The ticket manager.
pub struct TicketService {
    state: TicketState,
}

impl View for TicketService {
    type V = Ledger;

    closed spec fn view(&self) -> Ledger {
        self.state@
    }
}

impl TicketService {
    /// A manager with `admin` as its one admin.
    pub fn seed(admin: ActorId) -> (service: TicketService)
        ensures
            service@ == Ledger::initial(admin),
    {
        TicketService { state: TicketState::new(admin) }
    }

    /// A manager with `admin` as its one admin and the token contract named.
    pub fn seed_with_vnft(admin: ActorId, vnft_contract_id: ActorId) -> (service: TicketService)
        ensures
            service@ == (Ledger { vnft_contract_id: Some(vnft_contract_id), ..Ledger::initial(admin) }),
    {
        TicketService { state: TicketState::new_with_vnft(admin, vnft_contract_id) }
    }

    /// A manager that goes on from `state`.
    pub fn from_state(state: TicketState) -> (service: TicketService)
        ensures
            service@ == state@,
    {
        TicketService { state }
    }

    /// The state, to read.
    pub fn state_ref(&self) -> (state: &TicketState)
        ensures
            state@ == self@,
    {
        &self.state
    }

    // ---- roles --------------------------------------------------------------

    /// Makes `new_admin` an admin of the platform. The caller is an admin.
    pub fn add_platform_admin(&mut self, caller: ActorId, new_admin: ActorId) -> (r: TicketEvents)
        ensures
            !old(self)@.is_platform_admin(caller) ==> r == refused(TicketErrors::Unauthorized)
                && final(self)@ == old(self)@,
            old(self)@.is_platform_admin(caller) && old(self)@.is_platform_admin(new_admin) ==> r
                == refused(TicketErrors::AlreadyAdmin) && final(self)@ == old(self)@,
            old(self)@.is_platform_admin(caller) && !old(self)@.is_platform_admin(new_admin) ==> r
                == TicketEvents::PlatformAdminAdded(new_admin) && final(self)@ == (Ledger {
                platform_admins: old(self)@.platform_admins.push(new_admin),
                ..old(self)@
            }),
    {
        if !self.state.is_platform_admin(&caller) {
            return TicketEvents::Error(TicketErrors::Unauthorized);
        }
        if self.state.is_platform_admin(&new_admin) {
            return TicketEvents::Error(TicketErrors::AlreadyAdmin);
        }
        self.state.platform_admins.push(new_admin);
        assert(self@ =~= (Ledger {
            platform_admins: old(self)@.platform_admins.push(new_admin),
            ..old(self)@
        }));
        TicketEvents::PlatformAdminAdded(new_admin)
    }

    /// Allows `scanner` to mark tickets used. The caller is an admin.
    pub fn add_authorized_scanner(&mut self, caller: ActorId, scanner: ActorId) -> (r: TicketEvents)
        ensures
            !old(self)@.is_platform_admin(caller) ==> r == refused(TicketErrors::Unauthorized)
                && final(self)@ == old(self)@,
            old(self)@.is_platform_admin(caller) && old(self)@.is_authorized_scanner(scanner) ==> r
                == refused(TicketErrors::AlreadyAuthorized) && final(self)@ == old(self)@,
            old(self)@.is_platform_admin(caller) && !old(self)@.is_authorized_scanner(scanner) ==> r
                == TicketEvents::AuthorizedScannerAdded(scanner) && final(self)@ == (Ledger {
                authorized_scanners: old(self)@.authorized_scanners.push(scanner),
                ..old(self)@
            }),
    {
        if !self.state.is_platform_admin(&caller) {
            return TicketEvents::Error(TicketErrors::Unauthorized);
        }
        if self.state.is_authorized_scanner(&scanner) {
            return TicketEvents::Error(TicketErrors::AlreadyAuthorized);
        }
        self.state.authorized_scanners.push(scanner);
        assert(self@ =~= (Ledger {
            authorized_scanners: old(self)@.authorized_scanners.push(scanner),
            ..old(self)@
        }));
        TicketEvents::AuthorizedScannerAdded(scanner)
    }

    /// Names the token contract. The caller is an admin.
    pub fn set_vnft_contract(&mut self, caller: ActorId, vnft_contract_id: ActorId) -> (r:
        TicketEvents)
        ensures
            !old(self)@.is_platform_admin(caller) ==> r == refused(TicketErrors::Unauthorized)
                && final(self)@ == old(self)@,
            old(self)@.is_platform_admin(caller) ==> r == TicketEvents::VnftContractSet(
                vnft_contract_id,
            ) && final(self)@ == (Ledger { vnft_contract_id: Some(vnft_contract_id), ..old(self)@ }),
    {
        if !self.state.is_platform_admin(&caller) {
            return TicketEvents::Error(TicketErrors::Unauthorized);
        }
        self.state.vnft_contract_id = Some(vnft_contract_id);
        assert(self@ =~= (Ledger { vnft_contract_id: Some(vnft_contract_id), ..old(self)@ }));
        TicketEvents::VnftContractSet(vnft_contract_id)
    }

    // ---- events -------------------------------------------------------------

    /// Why `create_event` is refused, if it is. The event numbers end at
    /// `u64::MAX`, which is never handed out: where it is the next, the
    /// numbers are used up.
    pub open spec fn create_event_fault(
        s: Ledger,
        caller: ActorId,
        organizer: ActorId,
        event_start: u64,
        commission_config: CommissionConfig,
        now: u64,
    ) -> Option<TicketErrors> {
        if !s.is_platform_admin(caller) && caller != organizer {
            Some(TicketErrors::Unauthorized)
        } else if !commission_config.spec_validate() {
            Some(TicketErrors::InvalidCommissionConfig)
        } else if event_start <= now {
            Some(TicketErrors::InvalidEventStart)
        } else if s.next_event_id == u64::MAX {
            Some(TicketErrors::NumbersExhausted)
        } else {
            None
        }
    }

    /// Creates an event that starts after `now`. The caller is an admin or
    /// the organizer itself. A refusal changes nothing.
    pub fn create_event(
        &mut self,
        caller: ActorId,
        organizer: ActorId,
        metadata_hash: [u8; 32],
        event_start: u64,
        resale_config: ResaleConfig,
        commission_config: CommissionConfig,
        now: u64,
    ) -> (r: TicketEvents)
        ensures
            match Self::create_event_fault(
                old(self)@,
                caller,
                organizer,
                event_start,
                commission_config,
                now,
            ) {
                Some(fault) => r == refused(fault) && final(self)@ == old(self)@,
                None => r == TicketEvents::EventCreated(old(self)@.next_event_id) && final(self)@ == (
                Ledger {
                    next_event_id: (old(self)@.next_event_id + 1) as u64,
                    events: old(self)@.events.insert(
                        old(self)@.next_event_id,
                        Event {
                            event_id: old(self)@.next_event_id,
                            organizer,
                            metadata_hash,
                            event_start,
                            resale_config,
                            commission_config,
                            active: true,
                        },
                    ),
                    ..old(self)@
                }),
            },
    {
        if !self.state.is_platform_admin(&caller) && !caller.same(&organizer) {
            return TicketEvents::Error(TicketErrors::Unauthorized);
        }
        if !commission_config.validate() {
            return TicketEvents::Error(TicketErrors::InvalidCommissionConfig);
        }
        if event_start <= now {
            return TicketEvents::Error(TicketErrors::InvalidEventStart);
        }
        if self.state.next_event_id == u64::MAX {
            return TicketEvents::Error(TicketErrors::NumbersExhausted);
        }
        let event_id = self.state.generate_event_id();
        self.state.put_event(
            Event {
                event_id,
                organizer,
                metadata_hash,
                event_start,
                resale_config,
                commission_config,
                active: true,
            },
        );
        TicketEvents::EventCreated(event_id)
    }

    /// Gives an event another resale configuration. The caller is an admin
    /// or the event's organizer.
    pub fn update_resale_config(&mut self, caller: ActorId, event_id: u64, resale_config: ResaleConfig) -> (r:
        TicketEvents)
        ensures
            match old(self)@.update_fault(caller, event_id) {
                Some(fault) => r == refused(fault) && final(self)@ == old(self)@,
                None => r == TicketEvents::ResaleConfigUpdated(event_id) && final(self)@ == old(
                    self,
                )@.with_event(Event { resale_config, event_id, ..old(self)@.events[event_id] }),
            },
    {
        let event = match self.state.get_event(event_id) {
            Some(event) => *event,
            None => {
                return TicketEvents::Error(TicketErrors::EventNotFound);
            },
        };
        if !self.state.is_platform_admin(&caller) && !event.organizer.same(&caller) {
            return TicketEvents::Error(TicketErrors::Unauthorized);
        }
        self.state.put_event(
            Event {
                event_id,
                organizer: event.organizer,
                metadata_hash: event.metadata_hash,
                event_start: event.event_start,
                resale_config,
                commission_config: event.commission_config,
                active: event.active,
            },
        );
        TicketEvents::ResaleConfigUpdated(event_id)
    }

    /// Gives an event another commission configuration, whose parts add up
    /// to 10000. The caller is an admin or the event's organizer.
    pub fn update_commission_config(
        &mut self,
        caller: ActorId,
        event_id: u64,
        commission_config: CommissionConfig,
    ) -> (r: TicketEvents)
        ensures
            match old(self)@.update_fault(caller, event_id) {
                Some(fault) => r == refused(fault) && final(self)@ == old(self)@,
                None => if commission_config.spec_validate() {
                    r == TicketEvents::CommissionConfigUpdated(event_id) && final(self)@ == old(
                        self,
                    )@.with_event(
                        Event { commission_config, event_id, ..old(self)@.events[event_id] },
                    )
                } else {
                    r == refused(TicketErrors::InvalidCommissionConfig) && final(self)@ == old(self)@
                },
            },
    {
        let event = match self.state.get_event(event_id) {
            Some(event) => *event,
            None => {
                return TicketEvents::Error(TicketErrors::EventNotFound);
            },
        };
        if !self.state.is_platform_admin(&caller) && !event.organizer.same(&caller) {
            return TicketEvents::Error(TicketErrors::Unauthorized);
        }
        if !commission_config.validate() {
            return TicketEvents::Error(TicketErrors::InvalidCommissionConfig);
        }
        self.state.put_event(
            Event {
                event_id,
                organizer: event.organizer,
                metadata_hash: event.metadata_hash,
                event_start: event.event_start,
                resale_config: event.resale_config,
                commission_config,
                active: event.active,
            },
        );
        TicketEvents::CommissionConfigUpdated(event_id)
    }

    /// Switches an event off. The caller is an admin or the event's
    /// organizer.
    pub fn deactivate_event(&mut self, caller: ActorId, event_id: u64) -> (r: TicketEvents)
        ensures
            match old(self)@.update_fault(caller, event_id) {
                Some(fault) => r == refused(fault) && final(self)@ == old(self)@,
                None => r == TicketEvents::EventDeactivated(event_id) && final(self)@ == old(
                    self,
                )@.with_event(Event { active: false, event_id, ..old(self)@.events[event_id] }),
            },
    {
        let event = match self.state.get_event(event_id) {
            Some(event) => *event,
            None => {
                return TicketEvents::Error(TicketErrors::EventNotFound);
            },
        };
        if !self.state.is_platform_admin(&caller) && !event.organizer.same(&caller) {
            return TicketEvents::Error(TicketErrors::Unauthorized);
        }
        self.state.put_event(
            Event {
                event_id,
                organizer: event.organizer,
                metadata_hash: event.metadata_hash,
                event_start: event.event_start,
                resale_config: event.resale_config,
                commission_config: event.commission_config,
                active: false,
            },
        );
        TicketEvents::EventDeactivated(event_id)
    }

    // ---- minting ------------------------------------------------------------

    /// Whether the ticket numbers are used up.
    fn tickets_exhausted(&self) -> (exhausted: bool)
        ensures
            exhausted == self@.tickets_exhausted(),
    {
        self.state.next_ticket_id.same(&U256::max_value())
    }

    /// Hands out the next ticket number.
    fn take_ticket_number(&mut self) -> (id: U256)
        requires
            old(self)@.next_ticket_id@ + 1 < crate::num::limit(),
        ensures
            id == old(self)@.next_ticket_id,
            final(self)@ == old(self)@.with_ticket_number_taken(),
    {
        let id = self.state.generate_ticket_id();
        proof {
            crate::num::lemma_from_nat(old(self)@.next_ticket_id@ + 1);
            assert(self@ =~= old(self)@.with_ticket_number_taken());
        }
        id
    }

    /// Brings a minted ticket into being.
    fn record_minted(&mut self, ticket: Ticket)
        ensures
            final(self)@ == old(self)@.with_minted(ticket),
    {
        let ticket_id = ticket.ticket_id;
        let event_id = ticket.event_id;
        let to = ticket.original_buyer;
        self.state.put_ticket(ticket);
        self.state.add_ticket_to_event(event_id, ticket_id);
        self.state.add_ticket_to_user(to, ticket_id);
    }


    /// Begins the minting of a ticket of the event for `to`. The caller is
    /// an admin or the event's organizer.
    ///
    /// On success the ticket's number is taken and the result is the call
    /// that the host is to make, with the ticket that waits for it. The
    /// number stays taken whatever the token contract answers. A refusal
    /// changes nothing.
    pub fn mint_ticket(
        &mut self,
        caller: ActorId,
        event_id: u64,
        to: ActorId,
        zone_seat: Option<String>,
        now: u64,
    ) -> (r: Progress<PendingMint>)
        ensures
            match old(self)@.mint_ticket_fault(caller, event_id) {
                Some(fault) => r == Progress::<PendingMint>::Done(refused(fault)) && final(self)@
                    == old(self)@,
                None => {
                    &&& r == (Progress::Call {
                        pending: PendingMint {
                            ticket_id: old(self)@.next_ticket_id,
                            event_id,
                            to,
                            zone_seat,
                            minted_at: now,
                        },
                        call: VnftCall::Mint { contract: old(self)@.vnft_contract_id->0, to },
                    })
                    &&& final(self)@ == old(self)@.with_ticket_number_taken()
                },
            },
    {
        let event = match self.state.get_event(event_id) {
            Some(event) => *event,
            None => {
                return Progress::Done(TicketEvents::Error(TicketErrors::EventNotFound));
            },
        };
        if !event.active {
            return Progress::Done(TicketEvents::Error(TicketErrors::EventInactive));
        }
        if !self.state.is_platform_admin(&caller) && !event.organizer.same(&caller) {
            return Progress::Done(TicketEvents::Error(TicketErrors::Unauthorized));
        }
        let contract = match self.state.vnft_contract_id {
            Some(contract) => contract,
            None => {
                return Progress::Done(TicketEvents::Error(TicketErrors::VnftContractNotSet));
            },
        };
        if self.tickets_exhausted() {
            return Progress::Done(TicketEvents::Error(TicketErrors::NumbersExhausted));
        }
        let ticket_id = self.take_ticket_number();
        Progress::Call {
            pending: PendingMint { ticket_id, event_id, to, zone_seat, minted_at: now },
            call: VnftCall::Mint { contract, to },
        }
    }

    /// Takes the token contract's answer to the minting of `pending`: the
    /// ticket comes into being if the token was minted, and nothing changes
    /// if it was not.
    pub fn mint_ticket_reply(&mut self, pending: PendingMint, outcome: Result<(), String>) -> (r:
        TicketEvents)
        ensures
            match outcome {
                Err(message) => r == refused(TicketErrors::MintFailed(message)) && final(self)@
                    == old(self)@,
                Ok(_) => r == (TicketEvents::TicketMinted {
                    ticket_id: pending.ticket_id,
                    event_id: pending.event_id,
                    owner: pending.to,
                }) && final(self)@ == old(self)@.with_minted(
                    minted_ticket(
                        pending.ticket_id,
                        pending.event_id,
                        pending.zone_seat,
                        pending.to,
                        pending.minted_at,
                    ),
                ),
            },
    {
        if let Err(message) = outcome {
            return TicketEvents::Error(TicketErrors::MintFailed(message));
        }
        let ticket_id = pending.ticket_id;
        let event_id = pending.event_id;
        let to = pending.to;
        self.record_minted(
            Ticket {
                ticket_id,
                event_id,
                zone_seat: pending.zone_seat,
                original_buyer: to,
                used: false,
                minted_at: pending.minted_at,
            },
        );
        TicketEvents::TicketMinted { ticket_id, event_id, owner: to }
    }

    /// Begins the minting of one ticket of the event for each of the
    /// recipients, in their order. The caller is an admin or the event's
    /// organizer.
    ///
    /// Where there are recipients, the number of the first ticket is taken
    /// and the result is the call for it, with the batch that waits; where
    /// the numbers are used up, the batch is refused. A refusal changes
    /// nothing.
    pub fn batch_mint_tickets(
        &mut self,
        caller: ActorId,
        event_id: u64,
        recipients: Vec<(ActorId, Option<String>)>,
        now: u64,
    ) -> (r: Progress<BatchMint>)
        ensures
            match old(self)@.mint_fault(caller, event_id) {
                Some(fault) => r == Progress::<BatchMint>::Done(refused(fault)) && final(self)@
                    == old(self)@,
                None => if recipients@.len() == 0 {
                    &&& r matches Progress::Done(
                        TicketEvents::TicketsBatchMinted { event_id: e, count, tickets },
                    )
                    &&& e == event_id
                    &&& count == 0
                    &&& tickets@.len() == 0
                    &&& final(self)@ == old(self)@
                } else if old(self)@.tickets_exhausted() {
                    r == Progress::<BatchMint>::Done(refused(TicketErrors::NumbersExhausted))
                        && final(self)@ == old(self)@
                } else {
                    &&& r matches Progress::Call { pending, call }
                    &&& call == (VnftCall::Mint {
                        contract: old(self)@.vnft_contract_id->0,
                        to: recipients@[0].0,
                    })
                    &&& pending.contract == old(self)@.vnft_contract_id->0
                    &&& pending.event_id == event_id
                    &&& pending.minted_at == now
                    &&& pending.recipients@ == recipients@
                    &&& pending.position == 0
                    &&& pending.ticket_id == old(self)@.next_ticket_id
                    &&& pending.minted@.len() == 0
                    &&& final(self)@ == old(self)@.with_ticket_number_taken()
                },
            },
    {
        let event = match self.state.get_event(event_id) {
            Some(event) => *event,
            None => {
                return Progress::Done(TicketEvents::Error(TicketErrors::EventNotFound));
            },
        };
        if !event.active {
            return Progress::Done(TicketEvents::Error(TicketErrors::EventInactive));
        }
        if !self.state.is_platform_admin(&caller) && !event.organizer.same(&caller) {
            return Progress::Done(TicketEvents::Error(TicketErrors::Unauthorized));
        }
        let contract = match self.state.vnft_contract_id {
            Some(contract) => contract,
            None => {
                return Progress::Done(TicketEvents::Error(TicketErrors::VnftContractNotSet));
            },
        };
        if recipients.len() == 0 {
            return Progress::Done(
                TicketEvents::TicketsBatchMinted { event_id, count: 0, tickets: Vec::new() },
            );
        }
        if self.tickets_exhausted() {
            return Progress::Done(TicketEvents::Error(TicketErrors::NumbersExhausted));
        }
        let to = recipients[0].0;
        let ticket_id = self.take_ticket_number();
        Progress::Call {
            pending: BatchMint {
                contract,
                event_id,
                minted_at: now,
                recipients,
                position: 0,
                ticket_id,
                minted: Vec::new(),
            },
            call: VnftCall::Mint { contract, to },
        }
    }

    /// The number of tickets of a batch as it is reported: in 32 bits.
    fn count_of(len: usize) -> (count: u32)
        ensures
            count as nat == len as nat % 0x1_0000_0000,
    {
        let wide: u64 = len as u64;
        (wide % 0x1_0000_0000) as u32
    }

    /// Takes the token contract's answer to the minting of the ticket at
    /// which `batch` stands.
    ///
    /// If the token was not minted, the batch ends there: the tickets before
    /// it stay, and the result is the refusal. If it was minted, the ticket
    /// comes into being; then the number of the next ticket is taken and
    /// the result is the call for it, or, after the last ticket, the report
    /// of the batch. Where the numbers are used up before the last ticket,
    /// the batch ends there with the refusal, and the tickets before it
    /// stay. A batch that stands behind its last recipient is reported as
    /// it is, and nothing changes.
    pub fn batch_mint_reply(&mut self, batch: BatchMint, outcome: Result<(), String>) -> (r: Progress<
        BatchMint,
    >)
        ensures
            batch.position >= batch.recipients@.len() ==> {
                &&& r matches Progress::Done(
                    TicketEvents::TicketsBatchMinted { event_id, count, tickets },
                )
                &&& event_id == batch.event_id
                &&& count as nat == batch.minted@.len() % 0x1_0000_0000
                &&& tickets@ == batch.minted@
                &&& final(self)@ == old(self)@
            },
            batch.position < batch.recipients@.len() ==> match outcome {
                Err(message) => r == Progress::<BatchMint>::Done(
                    refused(TicketErrors::MintFailed(message)),
                ) && final(self)@ == old(self)@,
                Ok(_) => {
                    let recipient = batch.recipients@[batch.position as int];
                    let minted = old(self)@.with_minted(
                        minted_ticket(
                            batch.ticket_id,
                            batch.event_id,
                            recipient.1,
                            recipient.0,
                            batch.minted_at,
                        ),
                    );
                    let list = batch.minted@.push((batch.ticket_id, recipient.0));
                    if batch.position + 1 == batch.recipients@.len() {
                        &&& r matches Progress::Done(
                            TicketEvents::TicketsBatchMinted { event_id, count, tickets },
                        )
                        &&& event_id == batch.event_id
                        &&& count as nat == list.len() % 0x1_0000_0000
                        &&& tickets@ == list
                        &&& final(self)@ == minted
                    } else if old(self)@.tickets_exhausted() {
                        r == Progress::<BatchMint>::Done(refused(TicketErrors::NumbersExhausted))
                            && final(self)@ == minted
                    } else {
                        &&& r matches Progress::Call { pending, call }
                        &&& call == (VnftCall::Mint {
                            contract: batch.contract,
                            to: batch.recipients@[batch.position + 1].0,
                        })
                        &&& pending.contract == batch.contract
                        &&& pending.event_id == batch.event_id
                        &&& pending.minted_at == batch.minted_at
                        &&& pending.recipients@ == batch.recipients@
                        &&& pending.position == batch.position + 1
                        &&& pending.ticket_id == old(self)@.next_ticket_id
                        &&& pending.minted@ == list
                        &&& final(self)@ == minted.with_ticket_number_taken()
                    }
                },
            },
    {
        let mut batch = batch;
        if batch.position >= batch.recipients.len() {
            let count = Self::count_of(batch.minted.len());
            return Progress::Done(
                TicketEvents::TicketsBatchMinted {
                    event_id: batch.event_id,
                    count,
                    tickets: batch.minted,
                },
            );
        }
        if let Err(message) = outcome {
            return Progress::Done(TicketEvents::Error(TicketErrors::MintFailed(message)));
        }
        let to = batch.recipients[batch.position].0;
        let zone_seat = copy_label(&batch.recipients[batch.position].1);
        self.record_minted(
            Ticket {
                ticket_id: batch.ticket_id,
                event_id: batch.event_id,
                zone_seat,
                original_buyer: to,
                used: false,
                minted_at: batch.minted_at,
            },
        );
        batch.minted.push((batch.ticket_id, to));
        batch.position = batch.position + 1;
        if batch.position == batch.recipients.len() {
            let count = Self::count_of(batch.minted.len());
            return Progress::Done(
                TicketEvents::TicketsBatchMinted {
                    event_id: batch.event_id,
                    count,
                    tickets: batch.minted,
                },
            );
        }
        if self.tickets_exhausted() {
            return Progress::Done(TicketEvents::Error(TicketErrors::NumbersExhausted));
        }
        let next = batch.recipients[batch.position].0;
        batch.ticket_id = self.take_ticket_number();
        let contract = batch.contract;
        Progress::Call { pending: batch, call: VnftCall::Mint { contract, to: next } }
    }

    // ---- resale -------------------------------------------------------------

    /// Whether the ticket may be offered at `price` at the time `now`. The
    /// manager keeps no listings: a ticket that may be offered is reported
    /// as listed, and nothing changes.
    pub fn list_ticket_for_resale(&self, caller: ActorId, ticket_id: U256, price: u128, now: u64) -> (r:
        TicketEvents)
        ensures
            match self@.resale_fault(ticket_id, price, now) {
                Some(fault) => r == refused(fault),
                None => r == (TicketEvents::TicketListedForResale { ticket_id, price, seller: caller }),
            },
    {
        match self.resale_check(&ticket_id, price, now) {
            Err(fault) => TicketEvents::Error(fault),
            Ok(_) => TicketEvents::TicketListedForResale { ticket_id, price, seller: caller },
        }
    }

    /// Checks that the ticket may be sold on at `price` at the time `now`,
    /// and returns the commission of its event.
    fn resale_check(&self, ticket_id: &U256, price: u128, now: u64) -> (r: Result<
        CommissionConfig,
        TicketErrors,
    >)
        ensures
            match self@.resale_fault(*ticket_id, price, now) {
                Some(fault) => r == Err::<CommissionConfig, TicketErrors>(fault),
                None => r == Ok::<CommissionConfig, TicketErrors>(
                    self@.events[self@.tickets[*ticket_id].event_id].commission_config,
                ),
            },
    {
        let ticket = match self.state.get_ticket(ticket_id) {
            Some(ticket) => ticket,
            None => {
                return Err(TicketErrors::TicketNotFound);
            },
        };
        if ticket.used {
            return Err(TicketErrors::TicketAlreadyUsed);
        }
        let event = match self.state.get_event(ticket.event_id) {
            Some(event) => event,
            None => {
                return Err(TicketErrors::EventNotFound);
            },
        };
        if !event.resale_config.is_resale_allowed(now, price) {
            return Err(TicketErrors::ResaleNotAllowed);
        }
        Ok(event.commission_config)
    }

    /// Begins the purchase of a ticket at `price` by the caller, who has
    /// paid `value`; `program_id` is the manager's own identity.
    ///
    /// On success the result is the question to the token contract who is
    /// approved to move the ticket, with the purchase that waits for the
    /// answer. Nothing changes either way.
    pub fn buy_resale_ticket(
        &self,
        caller: ActorId,
        value: u128,
        ticket_id: U256,
        price: u128,
        now: u64,
        program_id: ActorId,
    ) -> (r: Progress<PendingResale>)
        ensures
            match self@.purchase_fault(value, ticket_id, price, now) {
                Some(fault) => r == Progress::<PendingResale>::Done(refused(fault)),
                None => r == (Progress::Call {
                    pending: PendingResale {
                        contract: self@.vnft_contract_id->0,
                        ticket_id,
                        price,
                        buyer: caller,
                        program_id,
                        commission_config: self@.events[self@.tickets[ticket_id].event_id].commission_config,
                    },
                    call: VnftCall::GetApproved {
                        contract: self@.vnft_contract_id->0,
                        token_id: ticket_id,
                    },
                }),
            },
    {
        if value < price {
            return Progress::Done(TicketEvents::Error(TicketErrors::InsufficientPayment));
        }
        let commission_config = match self.resale_check(&ticket_id, price, now) {
            Ok(config) => config,
            Err(fault) => {
                return Progress::Done(TicketEvents::Error(fault));
            },
        };
        let contract = match self.state.vnft_contract_id {
            Some(contract) => contract,
            None => {
                return Progress::Done(TicketEvents::Error(TicketErrors::VnftContractNotSet));
            },
        };
        Progress::Call {
            pending: PendingResale {
                contract,
                ticket_id,
                price,
                buyer: caller,
                program_id,
                commission_config,
            },
            call: VnftCall::GetApproved { contract, token_id: ticket_id },
        }
    }

    /// Takes the token contract's answer to who is approved to move the
    /// ticket: the purchase goes on, with the question who owns the ticket,
    /// if it is the manager itself, and ends otherwise.
    pub fn buy_resale_approved(pending: PendingResale, approved: Result<ActorId, String>) -> (r:
        Progress<PendingResale>)
        ensures
            approved matches Ok(who) && who == pending.program_id ==> r == (Progress::Call {
                pending,
                call: VnftCall::OwnerOf { contract: pending.contract, token_id: pending.ticket_id },
            }),
            !(approved matches Ok(who) && who == pending.program_id) ==> r == Progress::<
                PendingResale,
            >::Done(refused(TicketErrors::ContractNotApproved)),
    {
        match approved {
            Ok(who) => {
                if who.same(&pending.program_id) {
                    Progress::Call {
                        pending,
                        call: VnftCall::OwnerOf {
                            contract: pending.contract,
                            token_id: pending.ticket_id,
                        },
                    }
                } else {
                    Progress::Done(TicketEvents::Error(TicketErrors::ContractNotApproved))
                }
            },
            Err(_) => Progress::Done(TicketEvents::Error(TicketErrors::ContractNotApproved)),
        }
    }

    /// Takes the token contract's answer to who owns the ticket: the
    /// purchase goes on, with the transfer from the owner to the buyer,
    /// unless the buyer is the owner.
    pub fn buy_resale_owner(pending: PendingResale, owner: Result<ActorId, String>) -> (r: Progress<
        PendingTransfer,
    >)
        ensures
            match owner {
                Err(_) => r == Progress::<PendingTransfer>::Done(
                    refused(TicketErrors::FailedToGetOwner),
                ),
                Ok(seller) => if seller == pending.buyer {
                    r == Progress::<PendingTransfer>::Done(refused(TicketErrors::CannotBuyOwnTicket))
                } else {
                    r == (Progress::Call {
                        pending: PendingTransfer {
                            ticket_id: pending.ticket_id,
                            price: pending.price,
                            buyer: pending.buyer,
                            seller,
                            commission_config: pending.commission_config,
                        },
                        call: VnftCall::TransferFrom {
                            contract: pending.contract,
                            from: seller,
                            to: pending.buyer,
                            token_id: pending.ticket_id,
                        },
                    })
                },
            },
    {
        let seller = match owner {
            Ok(seller) => seller,
            Err(_) => {
                return Progress::Done(TicketEvents::Error(TicketErrors::FailedToGetOwner));
            },
        };
        if seller.same(&pending.buyer) {
            return Progress::Done(TicketEvents::Error(TicketErrors::CannotBuyOwnTicket));
        }
        Progress::Call {
            pending: PendingTransfer {
                ticket_id: pending.ticket_id,
                price: pending.price,
                buyer: pending.buyer,
                seller,
                commission_config: pending.commission_config,
            },
            call: VnftCall::TransferFrom {
                contract: pending.contract,
                from: seller,
                to: pending.buyer,
                token_id: pending.ticket_id,
            },
        }
    }

    /// Takes the token contract's answer to the transfer. If the ticket was
    /// moved, it leaves the seller's list and joins the buyer's, and the
    /// price is divided: organizer and platform get their parts, rounded
    /// down, and the seller gets the rest. A commission whose parts for
    /// organizer and platform exceed the price is refused, and so is a
    /// transfer that failed; neither changes anything.
    pub fn buy_resale_transferred(&mut self, pending: PendingTransfer, outcome: Result<(), String>) -> (r:
        TicketEvents)
        ensures
            match outcome {
                Err(message) => r == refused(TicketErrors::TransferFailed(message)) && final(self)@
                    == old(self)@,
                Ok(_) => if organizer_amount(pending.commission_config, pending.price)
                    + platform_amount(pending.commission_config, pending.price) > pending.price {
                    r == refused(TicketErrors::InvalidCommissionConfig) && final(self)@ == old(self)@
                } else {
                    &&& r == (TicketEvents::TicketResold {
                        ticket_id: pending.ticket_id,
                        seller: pending.seller,
                        buyer: pending.buyer,
                        price: pending.price,
                        organizer_amount: organizer_amount(
                            pending.commission_config,
                            pending.price,
                        ) as u128,
                        platform_amount: platform_amount(
                            pending.commission_config,
                            pending.price,
                        ) as u128,
                        seller_amount: (pending.price - organizer_amount(
                            pending.commission_config,
                            pending.price,
                        ) - platform_amount(pending.commission_config, pending.price)) as u128,
                    })
                    &&& final(self)@ == old(self)@.without_user_ticket(
                        pending.seller,
                        pending.ticket_id,
                    ).with_user_ticket(pending.buyer, pending.ticket_id)
                },
            },
    {
        if let Err(message) = outcome {
            return TicketEvents::Error(TicketErrors::TransferFailed(message));
        }
        let price = U256::from_u128(pending.price);
        let organizer = Self::part(&price, pending.commission_config.organizer_percentage);
        let platform = Self::part(&price, pending.commission_config.platform_percentage);
        let (organizer_amount, platform_amount) = match (organizer, platform) {
            (Some(organizer_amount), Some(platform_amount)) => (organizer_amount, platform_amount),
            _ => {
                return TicketEvents::Error(TicketErrors::InvalidCommissionConfig);
            },
        };
        if organizer_amount > pending.price || platform_amount > pending.price - organizer_amount {
            return TicketEvents::Error(TicketErrors::InvalidCommissionConfig);
        }
        let seller_amount = pending.price - organizer_amount - platform_amount;
        self.state.remove_ticket_from_user(&pending.seller, &pending.ticket_id);
        self.state.add_ticket_to_user(pending.buyer, pending.ticket_id);
        TicketEvents::TicketResold {
            ticket_id: pending.ticket_id,
            seller: pending.seller,
            buyer: pending.buyer,
            price: pending.price,
            organizer_amount,
            platform_amount,
            seller_amount,
        }
    }

    /// The part of `price` that `pct` basis points stand for, where it fits
    /// in 128 bits.
    fn part(price: &U256, pct: u16) -> (r: Option<u128>)
        ensures
            share_of(price@, pct as nat) <= u128::MAX ==> r == Some(
                share_of(price@, pct as nat) as u128,
            ),
            share_of(price@, pct as nat) > u128::MAX ==> r.is_none(),
    {
        match share(price, pct) {
            Some(amount) => amount.to_u128(),
            None => None,
        }
    }

    // ---- use ----------------------------------------------------------------

    /// Why `mark_ticket_as_used` is refused, if it is.
    pub open spec fn mark_fault(s: Ledger, caller: ActorId, ticket_id: U256) -> Option<TicketErrors> {
        if !s.is_platform_admin(caller) && !s.is_authorized_scanner(caller) {
            Some(TicketErrors::Unauthorized)
        } else if !s.tickets.contains_key(ticket_id) {
            Some(TicketErrors::TicketNotFound)
        } else if s.tickets[ticket_id].used {
            Some(TicketErrors::TicketAlreadyUsed)
        } else {
            None
        }
    }

    /// Marks a ticket used. The caller is an admin or an authorized
    /// scanner. The mark is never taken back, and a ticket that bears it is
    /// refused.
    pub fn mark_ticket_as_used(&mut self, caller: ActorId, ticket_id: U256) -> (r: TicketEvents)
        ensures
            match Self::mark_fault(old(self)@, caller, ticket_id) {
                Some(fault) => r == refused(fault) && final(self)@ == old(self)@,
                None => r == TicketEvents::TicketMarkedAsUsed(ticket_id) && final(self)@ == old(
                    self,
                )@.with_ticket(Ticket { used: true, ticket_id, ..old(self)@.tickets[ticket_id] }),
            },
    {
        if !self.state.is_platform_admin(&caller) && !self.state.is_authorized_scanner(&caller) {
            return TicketEvents::Error(TicketErrors::Unauthorized);
        }
        let ticket = match self.state.get_ticket(&ticket_id) {
            Some(ticket) => ticket,
            None => {
                return TicketEvents::Error(TicketErrors::TicketNotFound);
            },
        };
        if ticket.used {
            return TicketEvents::Error(TicketErrors::TicketAlreadyUsed);
        }
        let marked = Ticket {
            ticket_id,
            event_id: ticket.event_id,
            zone_seat: copy_label(&ticket.zone_seat),
            original_buyer: ticket.original_buyer,
            used: true,
            minted_at: ticket.minted_at,
        };
        self.state.put_ticket(marked);
        TicketEvents::TicketMarkedAsUsed(ticket_id)
    }

    /// Marks the tickets used, one after the other. The caller is an admin
    /// or an authorized scanner. The result lists the tickets that were
    /// marked, and those that were not, each with the reason: it was used
    /// already, or there is no such ticket.
    pub fn batch_mark_tickets_as_used(&mut self, caller: ActorId, ticket_ids: Vec<U256>) -> (r:
        TicketEvents)
        ensures
            !old(self)@.is_platform_admin(caller) && !old(self)@.is_authorized_scanner(caller) ==> r
                == refused(TicketErrors::Unauthorized) && final(self)@ == old(self)@,
            old(self)@.is_platform_admin(caller) || old(self)@.is_authorized_scanner(caller) ==> {
                &&& r matches TicketEvents::TicketsBatchMarkedAsUsed { marked, errors }
                &&& marked@ == newly_marked(old(self)@.tickets, ticket_ids@)
                &&& errors@.len() == not_marked(old(self)@.tickets, ticket_ids@).len()
                &&& forall|i: int|
                    0 <= i < errors@.len() ==> (#[trigger] errors@[i]).0 == not_marked(
                        old(self)@.tickets,
                        ticket_ids@,
                    )[i].0 && errors@[i].1@ == not_marked_message(
                        not_marked(old(self)@.tickets, ticket_ids@)[i].1,
                    )
                &&& final(self)@ == (Ledger {
                    tickets: marked_all(old(self)@.tickets, ticket_ids@),
                    ..old(self)@
                })
            },
    {
        if !self.state.is_platform_admin(&caller) && !self.state.is_authorized_scanner(&caller) {
            return TicketEvents::Error(TicketErrors::Unauthorized);
        }
        let mut marked: Vec<U256> = Vec::new();
        let mut errors: Vec<(U256, String)> = Vec::new();
        let mut i: usize = 0;
        assert(self@ =~= (Ledger {
            tickets: marked_all(old(self)@.tickets, ticket_ids@.take(0)),
            ..old(self)@
        }));
        while i < ticket_ids.len()
            invariant
                i <= ticket_ids@.len(),
                marked@ == newly_marked(old(self)@.tickets, ticket_ids@.take(i as int)),
                errors@.len() == not_marked(old(self)@.tickets, ticket_ids@.take(i as int)).len(),
                forall|j: int|
                    0 <= j < errors@.len() ==> (#[trigger] errors@[j]).0 == not_marked(
                        old(self)@.tickets,
                        ticket_ids@.take(i as int),
                    )[j].0 && errors@[j].1@ == not_marked_message(
                        not_marked(old(self)@.tickets, ticket_ids@.take(i as int))[j].1,
                    ),
                self@ == (Ledger {
                    tickets: marked_all(old(self)@.tickets, ticket_ids@.take(i as int)),
                    ..old(self)@
                }),
            decreases ticket_ids@.len() - i,
        {
            let ticket_id = ticket_ids[i];
            proof {
                assert(ticket_ids@.take(i + 1).drop_last() =~= ticket_ids@.take(i as int));
                assert(ticket_ids@.take(i + 1).last() == ticket_id);
            }
            let ghost before = self@;
            let ghost done = ticket_ids@.take(i as int);
            let ghost failed = not_marked(old(self)@.tickets, done);
            let looked = match self.state.get_ticket(&ticket_id) {
                Some(ticket) => Some(
                    (
                        ticket.used,
                        Ticket {
                            ticket_id,
                            event_id: ticket.event_id,
                            zone_seat: copy_label(&ticket.zone_seat),
                            original_buyer: ticket.original_buyer,
                            used: true,
                            minted_at: ticket.minted_at,
                        },
                    ),
                ),
                None => None,
            };
            match looked {
                Some((was_used, ticket)) => {
                    if was_used {
                        errors.push((ticket_id, "Already used".to_owned()));
                        proof {
                            assert(not_marked(old(self)@.tickets, ticket_ids@.take(i + 1))
                                =~= failed.push((ticket_id, true)));
                        }
                    } else {
                        self.state.put_ticket(ticket);
                        marked.push(ticket_id);
                    }
                },
                None => {
                    errors.push((ticket_id, "Not found".to_owned()));
                    proof {
                        assert(not_marked(old(self)@.tickets, ticket_ids@.take(i + 1)) =~= failed.push(
                            (ticket_id, false),
                        ));
                    }
                },
            }
            i += 1;
            assert(self@ =~= (Ledger {
                tickets: marked_all(old(self)@.tickets, ticket_ids@.take(i as int)),
                ..old(self)@
            }));
        }
        assert(ticket_ids@.take(ticket_ids@.len() as int) =~= ticket_ids@);
        TicketEvents::TicketsBatchMarkedAsUsed { marked, errors }
    }

    // ---- funds --------------------------------------------------------------

    /// Reports the withdrawal of `amount` of the platform's funds to `to`.
    /// The caller is an admin. The manager keeps no balance: the payment is
    /// the host's to make.
    pub fn withdraw_platform_funds(&self, caller: ActorId, amount: u128, to: ActorId) -> (r:
        TicketEvents)
        ensures
            !self@.is_platform_admin(caller) ==> r == refused(TicketErrors::Unauthorized),
            self@.is_platform_admin(caller) ==> r == (TicketEvents::PlatformFundsWithdrawn {
                amount,
                to,
            }),
    {
        if !self.state.is_platform_admin(&caller) {
            return TicketEvents::Error(TicketErrors::Unauthorized);
        }
        TicketEvents::PlatformFundsWithdrawn { amount, to }
    }

    // ---- questions ----------------------------------------------------------

    /// The event under `event_id`.
    pub fn get_event(&self, event_id: u64) -> (r: TicketQueryEvents)
        ensures
            self@.events.contains_key(event_id) ==> r == TicketQueryEvents::Event(
                self@.events[event_id],
            ),
            !self@.events.contains_key(event_id) ==> r == TicketQueryEvents::Error(
                TicketErrors::EventNotFound,
            ),
    {
        match self.state.get_event(event_id) {
            Some(event) => TicketQueryEvents::Event(*event),
            None => TicketQueryEvents::Error(TicketErrors::EventNotFound),
        }
    }

    /// The ticket under `ticket_id`.
    pub fn get_ticket(&self, ticket_id: U256) -> (r: TicketQueryEvents)
        ensures
            self@.tickets.contains_key(ticket_id) ==> r == TicketQueryEvents::Ticket(
                self@.tickets[ticket_id],
            ),
            !self@.tickets.contains_key(ticket_id) ==> r == TicketQueryEvents::Error(
                TicketErrors::TicketNotFound,
            ),
    {
        match self.state.get_ticket(&ticket_id) {
            Some(ticket) => TicketQueryEvents::Ticket(ticket.clone()),
            None => TicketQueryEvents::Error(TicketErrors::TicketNotFound),
        }
    }

    /// Copies of the tickets named by `ids` that exist, in that order.
    fn collect(&self, ids: Option<&Vec<U256>>) -> (found: Vec<Ticket>)
        ensures
            ids is Some ==> found@ == tickets_among(self@.tickets, ids->0@),
            ids is None ==> found@ == Seq::<Ticket>::empty(),
    {
        let mut found: Vec<Ticket> = Vec::new();
        if let Some(list) = ids {
            let mut i: usize = 0;
            while i < list.len()
                invariant
                    i <= list@.len(),
                    found@ == tickets_among(self@.tickets, list@.take(i as int)),
                decreases list@.len() - i,
            {
                proof {
                    assert(list@.take(i + 1).drop_last() =~= list@.take(i as int));
                    assert(list@.take(i + 1).last() == list@[i as int]);
                }
                if let Some(ticket) = self.state.get_ticket(&list[i]) {
                    found.push(ticket.clone());
                }
                i += 1;
            }
            assert(list@.take(list@.len() as int) =~= list@);
        }
        found
    }

    /// The tickets of an event, in the order of their minting.
    pub fn get_event_tickets(&self, event_id: u64) -> (r: TicketQueryEvents)
        ensures
            !self@.events.contains_key(event_id) ==> r == TicketQueryEvents::Error(
                TicketErrors::EventNotFound,
            ),
            self@.events.contains_key(event_id) ==> r is EventTickets && r->EventTickets_0@
                == tickets_among(self@.tickets, list_of(self@.event_tickets, event_id)),
    {
        if !self.state.events.contains_key(&event_id) {
            return TicketQueryEvents::Error(TicketErrors::EventNotFound);
        }
        let tickets = self.collect(self.state.event_tickets.get(&event_id));
        TicketQueryEvents::EventTickets(tickets)
    }

    /// The tickets in the list of a user, in the order in which they
    /// joined it.
    pub fn get_user_tickets(&self, user: ActorId) -> (r: TicketQueryEvents)
        ensures
            r is UserTickets,
            r->UserTickets_0@ == tickets_among(self@.tickets, list_of(self@.user_tickets, user)),
    {
        let key = user.value.key();
        let tickets = self.collect(self.state.user_tickets.get(&key));
        TicketQueryEvents::UserTickets(tickets)
    }

    /// Begins the question who owns a ticket: the result is the call to the
    /// token contract, or the refusal where no contract is named.
    pub fn get_ticket_owner(&self, ticket_id: U256) -> (r: Result<VnftCall, TicketQueryEvents>)
        ensures
            self@.vnft_contract_id is Some ==> r == Ok::<VnftCall, TicketQueryEvents>(
                VnftCall::OwnerOf { contract: self@.vnft_contract_id->0, token_id: ticket_id },
            ),
            self@.vnft_contract_id is None ==> r == Err::<VnftCall, TicketQueryEvents>(
                TicketQueryEvents::Error(TicketErrors::VnftContractNotSet),
            ),
    {
        match self.state.vnft_contract_id {
            Some(contract) => Ok(VnftCall::OwnerOf { contract, token_id: ticket_id }),
            None => Err(TicketQueryEvents::Error(TicketErrors::VnftContractNotSet)),
        }
    }

    /// The answer to the question who owns a ticket, from the token
    /// contract's answer.
    pub fn ticket_owner_reply(owner: Result<ActorId, String>) -> (r: TicketQueryEvents)
        ensures
            match owner {
                Ok(who) => r == TicketQueryEvents::TicketOwner(who),
                Err(message) => r == TicketQueryEvents::Error(TicketErrors::QueryFailed(message)),
            },
    {
        match owner {
            Ok(who) => TicketQueryEvents::TicketOwner(who),
            Err(message) => TicketQueryEvents::Error(TicketErrors::QueryFailed(message)),
        }
    }
}

} // verus!
