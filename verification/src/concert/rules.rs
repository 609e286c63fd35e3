//! The rules of the ticket registry, as mathematics.
//!
//! [`Registry`] is what the registry holds, seen as maps and sets. For each
//! operation one function says which error it ends in, if any, and a second
//! one says what the registry holds after it went through. The contracts of
//! the service are stated over these functions, and the laws at the end of
//! this file are proved from them.

use vstd::prelude::*;
use crate::actor::ActorId;
use crate::commission::{distributed, percentages_complete, share_of, Shares};
use crate::concert::types::{CommissionConfig, EventConfig, ResaleConfig, Ticket, TicketError};
use crate::num::U256;

verus! {

/// An operation that waits for the asset service.
pub enum InFlight {
    /// Nothing is waiting: the lock is free.
    Idle,
    /// A batch of tickets is being minted.
    Mint { event_id: U256, buyer: ActorId, amount: U256, zones: Seq<Option<String>>, minted_at: u64 },
    /// A ticket is being handed to its buyer.
    Resale {
        ticket_id: U256,
        event_id: U256,
        seller: ActorId,
        buyer: ActorId,
        price: U256,
        shares: Shares,
    },
}

/// What the registry holds.
#[verifier::ext_equal]
pub struct Registry {
    pub admin: ActorId,
    pub platform_fee_recipient: ActorId,
    pub vmt_contract_id: ActorId,
    /// The number of the event created last.
    pub event_id_counter: nat,
    /// The number of the ticket minted last.
    pub ticket_id_counter: nat,
    pub events: Map<U256, EventConfig>,
    pub tickets: Map<U256, Ticket>,
    /// The tickets of each event, in the order of their minting.
    pub event_tickets: Map<U256, Seq<U256>>,
    pub organizers: Set<ActorId>,
    pub scanners: Set<ActorId>,
    pub in_flight: InFlight,
}

/// A resale window has its start before its end.
pub open spec fn resale_config_valid(config: ResaleConfig) -> bool {
    config.resale_start_time is Some && config.resale_end_time is Some
        ==> config.resale_start_time->0 < config.resale_end_time->0
}

/// The three percentages add up to 10000 basis points.
pub open spec fn commission_config_valid(config: CommissionConfig) -> bool {
    percentages_complete(
        config.seller_percentage as nat,
        config.organizer_percentage as nat,
        config.platform_percentage as nat,
    )
}

/// Whether `now` lies in the resale window, whose end is no part of it.
pub open spec fn resale_window_open(config: ResaleConfig, now: u64) -> bool {
    &&& config.resale_start_time is Some ==> now >= config.resale_start_time->0
    &&& config.resale_end_time is Some ==> now < config.resale_end_time->0
}

/// Whether the price is within the limit, if there is one.
pub open spec fn price_allowed(config: ResaleConfig, price: U256) -> bool {
    config.max_price is Some ==> price@ <= config.max_price->0@
}

/// What the shares of `price` under `config` add up to.
pub open spec fn distributed_under(config: CommissionConfig, price: U256) -> nat {
    distributed(
        price@,
        config.seller_percentage as nat,
        config.organizer_percentage as nat,
        config.platform_percentage as nat,
    )
}

/// Whether `shares` are the shares of `price` under `config`.
pub open spec fn shares_under(shares: Shares, config: CommissionConfig, price: U256) -> bool {
    shares.is_split_of(
        price@,
        config.seller_percentage as nat,
        config.organizer_percentage as nat,
        config.platform_percentage as nat,
    )
}

/// The shares of `price` under `config`.
pub open spec fn split_under(config: CommissionConfig, price: U256) -> Shares {
    Shares {
        seller: U256::from_nat(share_of(price@, config.seller_percentage as nat)),
        organizer: U256::from_nat(share_of(price@, config.organizer_percentage as nat)),
        platform: U256::from_nat(share_of(price@, config.platform_percentage as nat)),
    }
}

/// The identifiers of `count` tickets minted after ticket number `counter`.
pub open spec fn new_ticket_ids(counter: nat, count: nat) -> Seq<U256> {
    Seq::new(count, |i: int| U256::from_nat((counter + 1 + i) as nat))
}

/// The numbers one to `count`: the identifiers of all events, or of all
/// tickets, in the order in which they were handed out.
pub open spec fn numbers_to(count: nat) -> Seq<U256> {
    new_ticket_ids(0, count)
}

/// The numbers handed out so far, and those handed out next, are the
/// numbers handed out then.
pub proof fn lemma_numbers_grow(counter: nat, count: nat)
    ensures
        numbers_to(0) == Seq::<U256>::empty(),
        numbers_to(counter) + new_ticket_ids(counter, count) == numbers_to(counter + count),
        numbers_to(counter).push(U256::from_nat(counter + 1)) == numbers_to(counter + 1),
{
    assert(numbers_to(0) =~= Seq::<U256>::empty());
    assert(numbers_to(counter) + new_ticket_ids(counter, count) =~= numbers_to(counter + count));
    assert(numbers_to(counter).push(U256::from_nat(counter + 1)) =~= numbers_to(counter + 1));
}

/// The label of the `i`-th ticket of a batch: labels are given for all of its
/// tickets or for none.
pub open spec fn label_at(zones: Seq<Option<String>>, i: int) -> Option<String> {
    if 0 <= i < zones.len() {
        zones[i]
    } else {
        None
    }
}

/// A ticket as it is minted.
pub open spec fn fresh_ticket(
    ticket_id: U256,
    event_id: U256,
    zone: Option<String>,
    buyer: ActorId,
    minted_at: u64,
) -> Ticket {
    Ticket {
        ticket_id,
        event_id,
        zone,
        original_buyer: buyer,
        current_owner: buyer,
        used: false,
        minted_at,
    }
}

/// The tickets after a batch was minted: those that were there, and the new
/// ones under the identifiers `base + 1` to `base + count`, each with its
/// label.
pub open spec fn with_minted(
    before: Map<U256, Ticket>,
    base: nat,
    count: nat,
    event_id: U256,
    buyer: ActorId,
    zones: Seq<Option<String>>,
    minted_at: u64,
) -> Map<U256, Ticket> {
    Map::new(
        |k: U256| before.contains_key(k) || base < k@ <= base + count,
        |k: U256|
            if before.contains_key(k) {
                before[k]
            } else {
                fresh_ticket(k, event_id, label_at(zones, k@ - base - 1), buyer, minted_at)
            },
    )
}

impl Registry {
    /// A registry without events and tickets.
    pub open spec fn initial(
        admin: ActorId,
        vmt_contract_id: ActorId,
        platform_fee_recipient: ActorId,
    ) -> Registry {
        Registry {
            admin,
            platform_fee_recipient,
            vmt_contract_id,
            event_id_counter: 0,
            ticket_id_counter: 0,
            events: Map::empty(),
            tickets: Map::empty(),
            event_tickets: Map::empty(),
            organizers: Set::empty(),
            scanners: Set::empty(),
            in_flight: InFlight::Idle,
        }
    }

    /// Whether the reentrancy lock is held.
    pub open spec fn locked(self) -> bool {
        !(self.in_flight is Idle)
    }

    /// Whether `who` is the organizer of an event of the registry.
    pub open spec fn owns_event(self, who: ActorId) -> bool {
        exists|k: U256| #[trigger] self.events.contains_key(k) && self.events[k].organizer == who
    }

    /// Whether `who` may create events: the admin, and who holds the role of
    /// an organizer. The role is held by everybody it was given to and not
    /// taken from again, and by the organizer of every event: an event is
    /// never deleted, so whoever owns one keeps the role.
    pub open spec fn may_organize(self, who: ActorId) -> bool {
        who == self.admin || self.organizers.contains(who) || self.owns_event(who)
    }

    /// Whether `who` may mark tickets used: the admin and the scanners.
    pub open spec fn may_scan(self, who: ActorId) -> bool {
        who == self.admin || self.scanners.contains(who)
    }

    /// Whether `who` may change the event: the admin and its own organizer.
    pub open spec fn manages(self, who: ActorId, event_id: U256) -> bool {
        who == self.admin || who == self.events[event_id].organizer
    }

    /// What holds of the registry at all times.
    pub open spec fn inv(self) -> bool {
        &&& forall|k: U256| #[trigger]
            self.events.contains_key(k) ==> {
                let e = self.events[k];
                &&& e.event_id == k
                &&& 1 <= k@ <= self.event_id_counter
                &&& 0 < e.tickets_total@
                &&& e.tickets_minted@ <= e.tickets_total@
                &&& resale_config_valid(e.resale_config)
                &&& commission_config_valid(e.commission_config)
                &&& self.event_tickets.contains_key(k)
                &&& self.event_tickets[k].len() == e.tickets_minted@
            }
        &&& forall|k: U256| #[trigger]
            self.event_tickets.contains_key(k) ==> self.events.contains_key(k)
        &&& forall|t: U256| #[trigger]
            self.tickets.contains_key(t) ==> {
                &&& self.tickets[t].ticket_id == t
                &&& 1 <= t@ <= self.ticket_id_counter
                &&& self.events.contains_key(self.tickets[t].event_id)
            }
        &&& match self.in_flight {
            InFlight::Idle => true,
            InFlight::Mint { event_id, buyer, amount, zones, minted_at } => {
                &&& self.events.contains_key(event_id)
                &&& 0 < amount@
                &&& self.events[event_id].tickets_minted@ + amount@
                    <= self.events[event_id].tickets_total@
                &&& zones.len() == 0 || zones.len() == amount@
            },
            InFlight::Resale { ticket_id, event_id, seller, buyer, price, shares } => {
                &&& self.tickets.contains_key(ticket_id)
                &&& self.tickets[ticket_id].event_id == event_id
                &&& self.tickets[ticket_id].current_owner == seller
                &&& shares.total() <= price@
            },
        }
    }

    // ---- creating an event ------------------------------------------------

    /// Why `create_event` is refused, if it is.
    pub open spec fn create_event_error(
        self,
        caller: ActorId,
        organizer: ActorId,
        tickets_total: U256,
        resale_config: ResaleConfig,
        commission_config: CommissionConfig,
    ) -> Option<TicketError> {
        if !self.may_organize(caller) {
            Some(TicketError::Unauthorized)
        } else if organizer == ActorId::spec_zero() {
            Some(TicketError::InvalidInput)
        } else if tickets_total@ == 0 {
            Some(TicketError::InvalidAmount)
        } else if !resale_config_valid(resale_config) {
            Some(TicketError::InvalidResaleConfig)
        } else if !commission_config_valid(commission_config) {
            Some(TicketError::InvalidCommissionConfig)
        } else {
            None
        }
    }

    /// The identifier that the next event gets.
    pub open spec fn next_event_id(self) -> U256 {
        U256::from_nat(self.event_id_counter + 1)
    }

    /// The registry after an event was created: the event stands under the
    /// next identifier, nothing is minted yet, and its organizer is one of the
    /// organizers.
    pub open spec fn create_event_next(
        self,
        organizer: ActorId,
        metadata_hash: [u8; 32],
        event_start_time: u64,
        tickets_total: U256,
        resale_config: ResaleConfig,
        commission_config: CommissionConfig,
    ) -> Registry {
        let event_id = self.next_event_id();
        let event = EventConfig {
            event_id,
            organizer,
            metadata_hash,
            event_start_time,
            tickets_minted: U256 { w0: 0, w1: 0, w2: 0, w3: 0 },
            tickets_total,
            resale_config,
            commission_config,
            active: true,
        };
        Registry {
            event_id_counter: self.event_id_counter + 1,
            events: self.events.insert(event_id, event),
            event_tickets: self.event_tickets.insert(event_id, Seq::empty()),
            organizers: self.organizers.insert(organizer),
            ..self
        }
    }

    // ---- minting ----------------------------------------------------------

    /// Why `mint_tickets` is refused, if it is. The last of the checks is
    /// the machine's: the identifiers of a batch are handed out in one list,
    /// and a list holds no more than `usize::MAX` of them.
    pub open spec fn mint_error(
        self,
        caller: ActorId,
        event_id: U256,
        buyer: ActorId,
        amount: U256,
        zones: Seq<Option<String>>,
    ) -> Option<TicketError> {
        if self.locked() {
            Some(TicketError::ReentrancyDetected)
        } else if buyer == ActorId::spec_zero() {
            Some(TicketError::InvalidInput)
        } else if amount@ == 0 {
            Some(TicketError::InvalidAmount)
        } else if !self.events.contains_key(event_id) {
            Some(TicketError::EventNotFound)
        } else if !self.manages(caller, event_id) {
            Some(TicketError::Unauthorized)
        } else if !self.events[event_id].active {
            Some(TicketError::EventNotActive)
        } else if amount@ > self.events[event_id].tickets_total@
            - self.events[event_id].tickets_minted@ {
            Some(TicketError::NotEnoughTickets)
        } else if zones.len() != 0 && zones.len() != amount@ {
            Some(TicketError::InvalidInput)
        } else if amount@ > usize::MAX {
            Some(TicketError::InvalidAmount)
        } else {
            None
        }
    }

    /// The registry while a batch is being minted: the lock is held, and
    /// nothing else has changed.
    pub open spec fn mint_begun(
        self,
        event_id: U256,
        buyer: ActorId,
        amount: U256,
        zones: Seq<Option<String>>,
        now: u64,
    ) -> Registry {
        Registry { in_flight: InFlight::Mint { event_id, buyer, amount, zones, minted_at: now }, ..self }
    }

    /// The registry after the asset service has minted the batch in flight:
    /// the tickets exist, unused and owned by their buyer, the event counts
    /// them, and the lock is free.
    pub open spec fn mint_settled(self) -> Registry
        recommends
            self.in_flight is Mint,
    {
        let event_id = self.in_flight->Mint_event_id;
        let buyer = self.in_flight->Mint_buyer;
        let amount = self.in_flight->amount;
        let zones = self.in_flight->zones;
        let minted_at = self.in_flight->minted_at;
        let counter = self.ticket_id_counter;
        let event = self.events[event_id];
        Registry {
            ticket_id_counter: counter + amount@,
            tickets: with_minted(self.tickets, counter, amount@, event_id, buyer, zones, minted_at),
            events: self.events.insert(
                event_id,
                EventConfig {
                    tickets_minted: U256::from_nat(event.tickets_minted@ + amount@),
                    ..event
                },
            ),
            event_tickets: self.event_tickets.insert(
                event_id,
                self.event_tickets[event_id] + new_ticket_ids(counter, amount@),
            ),
            in_flight: InFlight::Idle,
            ..self
        }
    }

    // ---- resale -----------------------------------------------------------

    /// Why `resell_ticket` is refused, if it is.
    pub open spec fn resell_error(
        self,
        caller: ActorId,
        ticket_id: U256,
        buyer: ActorId,
        price: U256,
        now: u64,
    ) -> Option<TicketError> {
        if self.locked() {
            Some(TicketError::ReentrancyDetected)
        } else if buyer == ActorId::spec_zero() {
            Some(TicketError::InvalidInput)
        } else if price@ == 0 {
            Some(TicketError::InvalidAmount)
        } else if !self.tickets.contains_key(ticket_id) {
            Some(TicketError::TicketNotFound)
        } else if self.tickets[ticket_id].used {
            Some(TicketError::TicketAlreadyUsed)
        } else if self.tickets[ticket_id].current_owner != caller {
            Some(TicketError::TicketNotOwned)
        } else if buyer == self.tickets[ticket_id].current_owner {
            Some(TicketError::InvalidInput)
        } else if !self.events.contains_key(self.tickets[ticket_id].event_id) {
            Some(TicketError::EventNotFound)
        } else {
            let event = self.events[self.tickets[ticket_id].event_id];
            if !event.resale_config.enabled {
                Some(TicketError::ResaleDisabled)
            } else if !price_allowed(event.resale_config, price) {
                Some(TicketError::PriceExceedsMaximum)
            } else if !resale_window_open(event.resale_config, now) {
                Some(TicketError::ResaleWindowClosed)
            } else if distributed_under(event.commission_config, price) > price@ {
                Some(TicketError::InvalidCommissionConfig)
            } else {
                None
            }
        }
    }

    /// The registry while a ticket is being handed over: the lock is held,
    /// and nothing else has changed.
    pub open spec fn resell_begun(self, ticket_id: U256, buyer: ActorId, price: U256) -> Registry {
        let ticket = self.tickets[ticket_id];
        Registry {
            in_flight: InFlight::Resale {
                ticket_id,
                event_id: ticket.event_id,
                seller: ticket.current_owner,
                buyer,
                price,
                shares: split_under(self.events[ticket.event_id].commission_config, price),
            },
            ..self
        }
    }

    /// The registry after the asset service has moved the ticket in flight:
    /// the buyer owns it, and the lock is free.
    pub open spec fn resell_settled(self) -> Registry
        recommends
            self.in_flight is Resale,
    {
        let ticket_id = self.in_flight->ticket_id;
        let buyer = self.in_flight->Resale_buyer;
        Registry {
            tickets: self.tickets.insert(
                ticket_id,
                Ticket { current_owner: buyer, ..self.tickets[ticket_id] },
            ),
            in_flight: InFlight::Idle,
            ..self
        }
    }

    // ---- the asset service answers ------------------------------------------

    /// Why `settle` ends in an error, if it does: nothing was in flight, or
    /// the asset service has failed.
    pub open spec fn settle_error(self, success: bool) -> Option<TicketError> {
        if self.in_flight is Idle {
            Some(TicketError::InvalidInput)
        } else if !success {
            Some(TicketError::TransferFailed)
        } else {
            None
        }
    }

    /// The registry after the asset service has answered. Whatever the
    /// answer, the lock is free afterwards; a failure leaves everything else
    /// as it was before the operation began.
    pub open spec fn settle_next(self, success: bool) -> Registry {
        match self.in_flight {
            InFlight::Idle => self,
            InFlight::Mint { .. } => if success {
                self.mint_settled()
            } else {
                Registry { in_flight: InFlight::Idle, ..self }
            },
            InFlight::Resale { .. } => if success {
                self.resell_settled()
            } else {
                Registry { in_flight: InFlight::Idle, ..self }
            },
        }
    }

    // ---- marking a ticket used ----------------------------------------------

    /// Why `mark_ticket_used` is refused, if it is.
    pub open spec fn mark_used_error(self, caller: ActorId, ticket_id: U256) -> Option<TicketError> {
        if !self.may_scan(caller) {
            Some(TicketError::Unauthorized)
        } else if !self.tickets.contains_key(ticket_id) {
            Some(TicketError::TicketNotFound)
        } else if self.tickets[ticket_id].used {
            Some(TicketError::TicketAlreadyUsed)
        } else {
            None
        }
    }

    /// The registry after the ticket was marked used.
    pub open spec fn mark_used_next(self, ticket_id: U256) -> Registry {
        Registry {
            tickets: self.tickets.insert(ticket_id, Ticket { used: true, ..self.tickets[ticket_id] }),
            ..self
        }
    }

    // ---- roles ------------------------------------------------------------

    /// Why adding an organizer or a scanner is refused, if it is.
    pub open spec fn add_role_error(self, caller: ActorId, who: ActorId) -> Option<TicketError> {
        if caller != self.admin {
            Some(TicketError::Unauthorized)
        } else if who == ActorId::spec_zero() {
            Some(TicketError::InvalidInput)
        } else {
            None
        }
    }

    /// Why removing an organizer or a scanner is refused, if it is.
    pub open spec fn remove_role_error(self, caller: ActorId) -> Option<TicketError> {
        if caller != self.admin {
            Some(TicketError::Unauthorized)
        } else {
            None
        }
    }

    // ---- changing an event --------------------------------------------------

    /// Why a change to an event is refused, if it is; `config_fault` is the
    /// error of a malformed new configuration. An event is changed by the
    /// admin and by its own organizer, whether or not the organizer is still
    /// among those the role was given to.
    pub open spec fn update_error(
        self,
        caller: ActorId,
        event_id: U256,
        config_fault: Option<TicketError>,
    ) -> Option<TicketError> {
        if config_fault is Some {
            config_fault
        } else if !self.events.contains_key(event_id) {
            Some(TicketError::EventNotFound)
        } else if !self.manages(caller, event_id) {
            Some(TicketError::Unauthorized)
        } else {
            None
        }
    }

    /// The error of a malformed resale configuration.
    pub open spec fn resale_fault(config: ResaleConfig) -> Option<TicketError> {
        if resale_config_valid(config) {
            None
        } else {
            Some(TicketError::InvalidResaleConfig)
        }
    }

    /// The error of a malformed commission configuration.
    pub open spec fn commission_fault(config: CommissionConfig) -> Option<TicketError> {
        if commission_config_valid(config) {
            None
        } else {
            Some(TicketError::InvalidCommissionConfig)
        }
    }

    /// The registry with another event under `event_id`.
    pub open spec fn with_event(self, event_id: U256, event: EventConfig) -> Registry {
        Registry { events: self.events.insert(event_id, event), ..self }
    }

    // ---- queries ------------------------------------------------------------

    /// Whether `who` counts as an organizer: the admin, those the role was
    /// given to, and the organizers of the events.
    pub open spec fn is_organizer(self, who: ActorId) -> bool {
        self.may_organize(who)
    }

    /// Whether `who` counts as a scanner: the scanners and the admin.
    pub open spec fn is_scanner(self, who: ActorId) -> bool {
        self.scanners.contains(who) || who == self.admin
    }
}

/// Whether `event` is the report of the operation that is in flight in `s`
/// and has gone through.
pub open spec fn reports_settlement(s: Registry, event: crate::concert::types::Event) -> bool {
    match s.in_flight {
        InFlight::Idle => false,
        InFlight::Mint { event_id, buyer, amount, zones, minted_at } => {
            &&& event is TicketsMinted
            &&& event->TicketsMinted_event_id == event_id
            &&& event->TicketsMinted_buyer == buyer
            &&& event->amount == amount
            &&& event->ticket_ids@ == new_ticket_ids(s.ticket_id_counter, amount@)
        },
        InFlight::Resale { ticket_id, event_id, seller, buyer, price, shares } => {
            event == (crate::concert::types::Event::TicketResold {
                ticket_id,
                event_id,
                seller,
                buyer,
                price,
                seller_share: shares.seller,
                organizer_share: shares.organizer,
                platform_share: shares.platform,
            })
        },
    }
}

/// Of the tickets named by `ids`, those that `user` owns, in that order.
pub open spec fn owned_among(tickets: Map<U256, Ticket>, ids: Seq<U256>, user: ActorId) -> Seq<Ticket>
    decreases ids.len(),
{
    if ids.len() == 0 {
        Seq::empty()
    } else {
        let rest = owned_among(tickets, ids.drop_last(), user);
        if tickets.contains_key(ids.last()) && tickets[ids.last()].current_owner == user {
            rest.push(tickets[ids.last()])
        } else {
            rest
        }
    }
}

/// How many of the tickets named by `ids` exist and are used.
pub open spec fn used_among(tickets: Map<U256, Ticket>, ids: Seq<U256>) -> nat
    decreases ids.len(),
{
    if ids.len() == 0 {
        0
    } else {
        let rest = used_among(tickets, ids.drop_last());
        if tickets.contains_key(ids.last()) && tickets[ids.last()].used {
            rest + 1
        } else {
            rest
        }
    }
}

// ---- the invariant holds at all times ---------------------------------------

/// A registry without events and tickets is in order.
pub proof fn lemma_initial_inv(admin: ActorId, vmt_contract_id: ActorId, platform_fee_recipient: ActorId)
    ensures
        Registry::initial(admin, vmt_contract_id, platform_fee_recipient).inv(),
{
}

/// Creating an event keeps the registry in order.
pub proof fn lemma_create_event_inv(
    s: Registry,
    caller: ActorId,
    organizer: ActorId,
    metadata_hash: [u8; 32],
    event_start_time: u64,
    tickets_total: U256,
    resale_config: ResaleConfig,
    commission_config: CommissionConfig,
)
    requires
        s.inv(),
        s.event_id_counter + 1 < crate::num::limit(),
        s.create_event_error(caller, organizer, tickets_total, resale_config, commission_config)
            is None,
    ensures
        s.create_event_next(
            organizer,
            metadata_hash,
            event_start_time,
            tickets_total,
            resale_config,
            commission_config,
        ).inv(),
        !s.events.contains_key(s.next_event_id()),
        s.next_event_id()@ == s.event_id_counter + 1,
{
    crate::num::lemma_from_nat(s.event_id_counter + 1);
    let next = s.create_event_next(
        organizer,
        metadata_hash,
        event_start_time,
        tickets_total,
        resale_config,
        commission_config,
    );
    let id = s.next_event_id();
    assert forall|k: U256| #[trigger] next.events.contains_key(k) implies {
        let e = next.events[k];
        &&& e.event_id == k
        &&& 1 <= k@ <= next.event_id_counter
        &&& 0 < e.tickets_total@
        &&& e.tickets_minted@ <= e.tickets_total@
        &&& resale_config_valid(e.resale_config)
        &&& commission_config_valid(e.commission_config)
        &&& next.event_tickets.contains_key(k)
        &&& next.event_tickets[k].len() == e.tickets_minted@
    } by {
        if k != id {
            assert(s.events.contains_key(k));
        }
    }
    assert forall|t: U256| #[trigger] next.tickets.contains_key(t) implies next.events.contains_key(
        next.tickets[t].event_id,
    ) by {
        assert(s.tickets.contains_key(t));
    }
    assert forall|k: U256| #[trigger] next.event_tickets.contains_key(k) implies next.events.contains_key(
        k,
    ) by {
        if k != id {
            assert(s.event_tickets.contains_key(k));
        }
    }
}

/// Beginning a mint keeps the registry in order.
pub proof fn lemma_mint_begun_inv(
    s: Registry,
    caller: ActorId,
    event_id: U256,
    buyer: ActorId,
    amount: U256,
    zones: Seq<Option<String>>,
    now: u64,
)
    requires
        s.inv(),
        s.mint_error(caller, event_id, buyer, amount, zones) is None,
    ensures
        s.mint_begun(event_id, buyer, amount, zones, now).inv(),
{
    let next = s.mint_begun(event_id, buyer, amount, zones, now);
    assert forall|k: U256| #[trigger] next.events.contains_key(k) implies s.events.contains_key(
        k,
    ) by {}
}

/// Settling a mint keeps the registry in order, and the new tickets are new.
pub proof fn lemma_mint_settled_inv(s: Registry)
    requires
        s.inv(),
        s.in_flight is Mint,
        s.ticket_id_counter + s.in_flight->amount@ < crate::num::limit(),
    ensures
        s.mint_settled().inv(),
        s.mint_settled().events[s.in_flight->Mint_event_id].tickets_minted@
            == s.events[s.in_flight->Mint_event_id].tickets_minted@ + s.in_flight->amount@,
{
    let next = s.mint_settled();
    let event_id = s.in_flight->Mint_event_id;
    let amount = s.in_flight->amount;
    crate::num::lemma_below_limit(s.events[event_id].tickets_total);
    crate::num::lemma_from_nat(s.events[event_id].tickets_minted@ + amount@);
    assert forall|k: U256| #[trigger] next.events.contains_key(k) implies {
        let e = next.events[k];
        &&& e.event_id == k
        &&& 1 <= k@ <= next.event_id_counter
        &&& 0 < e.tickets_total@
        &&& e.tickets_minted@ <= e.tickets_total@
        &&& resale_config_valid(e.resale_config)
        &&& commission_config_valid(e.commission_config)
        &&& next.event_tickets.contains_key(k)
        &&& next.event_tickets[k].len() == e.tickets_minted@
    } by {
        assert(s.events.contains_key(k));
    }
    assert forall|t: U256| #[trigger] next.tickets.contains_key(t) implies {
        &&& next.tickets[t].ticket_id == t
        &&& 1 <= t@ <= next.ticket_id_counter
        &&& next.events.contains_key(next.tickets[t].event_id)
    } by {
        if s.tickets.contains_key(t) {
            assert(s.events.contains_key(s.tickets[t].event_id));
        }
    }
    assert forall|k: U256| #[trigger] next.event_tickets.contains_key(k) implies next.events.contains_key(
        k,
    ) by {
        if k != event_id {
            assert(s.event_tickets.contains_key(k));
        }
    }
}

/// Beginning a resale keeps the registry in order.
pub proof fn lemma_resell_begun_inv(
    s: Registry,
    caller: ActorId,
    ticket_id: U256,
    buyer: ActorId,
    price: U256,
    now: u64,
)
    requires
        s.inv(),
        s.resell_error(caller, ticket_id, buyer, price, now) is None,
    ensures
        s.resell_begun(ticket_id, buyer, price).inv(),
{
    let next = s.resell_begun(ticket_id, buyer, price);
    lemma_split_under(s.events[s.tickets[ticket_id].event_id].commission_config, price);
    assert forall|k: U256| #[trigger] next.events.contains_key(k) implies s.events.contains_key(
        k,
    ) by {}
}

/// Settling a resale keeps the registry in order.
pub proof fn lemma_resell_settled_inv(s: Registry)
    requires
        s.inv(),
        s.in_flight is Resale,
    ensures
        s.resell_settled().inv(),
{
    let next = s.resell_settled();
    let ticket_id = s.in_flight->ticket_id;
    assert forall|k: U256| #[trigger] next.events.contains_key(k) implies s.events.contains_key(
        k,
    ) by {}
    assert forall|t: U256| #[trigger] next.tickets.contains_key(t) implies {
        &&& next.tickets[t].ticket_id == t
        &&& 1 <= t@ <= next.ticket_id_counter
        &&& next.events.contains_key(next.tickets[t].event_id)
    } by {
        assert(s.tickets.contains_key(t));
        assert(s.tickets.contains_key(ticket_id));
    }
}

/// Giving the lock back keeps the registry in order.
pub proof fn lemma_released_inv(s: Registry)
    requires
        s.inv(),
    ensures
        (Registry { in_flight: InFlight::Idle, ..s }).inv(),
{
    let next = Registry { in_flight: InFlight::Idle, ..s };
    assert forall|k: U256| #[trigger] next.events.contains_key(k) implies s.events.contains_key(
        k,
    ) by {}
}

/// Marking a ticket used keeps the registry in order.
pub proof fn lemma_mark_used_inv(s: Registry, ticket_id: U256)
    requires
        s.inv(),
        s.tickets.contains_key(ticket_id),
    ensures
        s.mark_used_next(ticket_id).inv(),
{
    let next = s.mark_used_next(ticket_id);
    assert forall|k: U256| #[trigger] next.events.contains_key(k) implies s.events.contains_key(
        k,
    ) by {}
    assert forall|t: U256| #[trigger] next.tickets.contains_key(t) implies {
        &&& next.tickets[t].ticket_id == t
        &&& 1 <= t@ <= next.ticket_id_counter
        &&& next.events.contains_key(next.tickets[t].event_id)
    } by {
        assert(s.tickets.contains_key(t));
        assert(s.tickets.contains_key(ticket_id));
    }
}

/// A change of roles keeps the registry in order.
pub proof fn lemma_roles_inv(s: Registry, organizers: Set<ActorId>, scanners: Set<ActorId>)
    requires
        s.inv(),
    ensures
        (Registry { organizers, scanners, ..s }).inv(),
{
    let next = Registry { organizers, scanners, ..s };
    assert forall|k: U256| #[trigger] next.events.contains_key(k) implies s.events.contains_key(
        k,
    ) by {}
}

/// Replacing an event by one that differs in its configuration or in being
/// active keeps the registry in order.
pub proof fn lemma_with_event_inv(s: Registry, event_id: U256, event: EventConfig)
    requires
        s.inv(),
        s.events.contains_key(event_id),
        event.event_id == event_id,
        event.tickets_minted == s.events[event_id].tickets_minted,
        event.tickets_total == s.events[event_id].tickets_total,
        resale_config_valid(event.resale_config),
        commission_config_valid(event.commission_config),
    ensures
        s.with_event(event_id, event).inv(),
{
    let next = s.with_event(event_id, event);
    assert forall|k: U256| #[trigger] next.events.contains_key(k) implies {
        let e = next.events[k];
        &&& e.event_id == k
        &&& 1 <= k@ <= next.event_id_counter
        &&& 0 < e.tickets_total@
        &&& e.tickets_minted@ <= e.tickets_total@
        &&& resale_config_valid(e.resale_config)
        &&& commission_config_valid(e.commission_config)
        &&& next.event_tickets.contains_key(k)
        &&& next.event_tickets[k].len() == e.tickets_minted@
    } by {
        assert(s.events.contains_key(k));
    }
    assert forall|t: U256| #[trigger] next.tickets.contains_key(t) implies next.events.contains_key(
        next.tickets[t].event_id,
    ) by {
        assert(s.tickets.contains_key(t));
    }
}

/// `split_under` gives the shares of the price wherever they fit in the
/// price.
pub proof fn lemma_split_under(config: CommissionConfig, price: U256)
    requires
        distributed_under(config, price) <= price@,
    ensures
        shares_under(split_under(config, price), config, price),
        split_under(config, price).total() == distributed_under(config, price),
{
    crate::num::lemma_below_limit(price);
    crate::num::lemma_from_nat(share_of(price@, config.seller_percentage as nat));
    crate::num::lemma_from_nat(share_of(price@, config.organizer_percentage as nat));
    crate::num::lemma_from_nat(share_of(price@, config.platform_percentage as nat));
}

} // verus!
