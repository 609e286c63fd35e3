//! What holds of the ticket registry whatever is done to it.
//!
//! [`Change`] names every operation of the registry with its arguments, and
//! `step` says what a registry holds after an attempt at one of them. The
//! laws below are proved for every registry that is in order, every caller
//! and every change.

use vstd::prelude::*;
use crate::actor::ActorId;
use crate::commission::lemma_shares_within_price;
use crate::concert::rules::{
    commission_config_valid, lemma_create_event_inv, lemma_mark_used_inv, lemma_mint_begun_inv,
    lemma_mint_settled_inv, lemma_released_inv, lemma_resell_begun_inv, lemma_resell_settled_inv,
    lemma_roles_inv, lemma_split_under, lemma_with_event_inv, reports_settlement,
    resale_config_valid, shares_under, InFlight, Registry,
};
use crate::concert::types::{
    CommissionConfig, Event, EventConfig, ResaleConfig, Ticket, TicketError,
};
use crate::num::{limit, U256};

verus! {

/// An operation of the registry, with its arguments.
pub enum Change {
    CreateEvent {
        organizer: ActorId,
        metadata_hash: [u8; 32],
        event_start_time: u64,
        tickets_total: U256,
        resale_config: ResaleConfig,
        commission_config: CommissionConfig,
    },
    MintTickets { event_id: U256, buyer: ActorId, amount: U256, zones: Seq<Option<String>>, now: u64 },
    ResellTicket { ticket_id: U256, buyer: ActorId, price: U256, now: u64 },
    Settle { success: bool },
    MarkTicketUsed { ticket_id: U256 },
    AddOrganizer { organizer: ActorId },
    RemoveOrganizer { organizer: ActorId },
    AddScanner { scanner: ActorId },
    RemoveScanner { scanner: ActorId },
    UpdateResaleConfig { event_id: U256, resale_config: ResaleConfig },
    UpdateCommissionConfig { event_id: U256, commission_config: CommissionConfig },
    SetEventActive { event_id: U256, active: bool },
}

impl Registry {
    /// The error in which `caller`'s attempt at the change ends, if it ends
    /// in one.
    pub open spec fn refusal(self, caller: ActorId, change: Change) -> Option<TicketError> {
        match change {
            Change::CreateEvent {
                organizer,
                metadata_hash,
                event_start_time,
                tickets_total,
                resale_config,
                commission_config,
            } => self.create_event_error(
                caller,
                organizer,
                tickets_total,
                resale_config,
                commission_config,
            ),
            Change::MintTickets { event_id, buyer, amount, zones, now } => self.mint_error(
                caller,
                event_id,
                buyer,
                amount,
                zones,
            ),
            Change::ResellTicket { ticket_id, buyer, price, now } => self.resell_error(
                caller,
                ticket_id,
                buyer,
                price,
                now,
            ),
            Change::Settle { success } => self.settle_error(success),
            Change::MarkTicketUsed { ticket_id } => self.mark_used_error(caller, ticket_id),
            Change::AddOrganizer { organizer } => self.add_role_error(caller, organizer),
            Change::RemoveOrganizer { organizer } => self.remove_role_error(caller),
            Change::AddScanner { scanner } => self.add_role_error(caller, scanner),
            Change::RemoveScanner { scanner } => self.remove_role_error(caller),
            Change::UpdateResaleConfig { event_id, resale_config } => self.update_error(
                caller,
                event_id,
                Registry::resale_fault(resale_config),
            ),
            Change::UpdateCommissionConfig { event_id, commission_config } => self.update_error(
                caller,
                event_id,
                Registry::commission_fault(commission_config),
            ),
            Change::SetEventActive { event_id, active } => self.update_error(caller, event_id, None),
        }
    }

    /// What the registry holds after a change that went through.
    pub open spec fn changed(self, change: Change) -> Registry {
        match change {
            Change::CreateEvent {
                organizer,
                metadata_hash,
                event_start_time,
                tickets_total,
                resale_config,
                commission_config,
            } => self.create_event_next(
                organizer,
                metadata_hash,
                event_start_time,
                tickets_total,
                resale_config,
                commission_config,
            ),
            Change::MintTickets { event_id, buyer, amount, zones, now } => self.mint_begun(
                event_id,
                buyer,
                amount,
                zones,
                now,
            ),
            Change::ResellTicket { ticket_id, buyer, price, now } => self.resell_begun(
                ticket_id,
                buyer,
                price,
            ),
            Change::Settle { success } => self.settle_next(success),
            Change::MarkTicketUsed { ticket_id } => self.mark_used_next(ticket_id),
            Change::AddOrganizer { organizer } => Registry {
                organizers: self.organizers.insert(organizer),
                ..self
            },
            Change::RemoveOrganizer { organizer } => Registry {
                organizers: self.organizers.remove(organizer),
                ..self
            },
            Change::AddScanner { scanner } => Registry {
                scanners: self.scanners.insert(scanner),
                ..self
            },
            Change::RemoveScanner { scanner } => Registry {
                scanners: self.scanners.remove(scanner),
                ..self
            },
            Change::UpdateResaleConfig { event_id, resale_config } => self.with_event(
                event_id,
                EventConfig { resale_config, ..self.events[event_id] },
            ),
            Change::UpdateCommissionConfig { event_id, commission_config } => self.with_event(
                event_id,
                EventConfig { commission_config, ..self.events[event_id] },
            ),
            Change::SetEventActive { event_id, active } => self.with_event(
                event_id,
                EventConfig { active, ..self.events[event_id] },
            ),
        }
    }

    /// What the registry holds after `caller`'s attempt at the change: a
    /// change that is refused leaves everything as it was, but for the
    /// answer of the asset service, which frees the lock in any case.
    pub open spec fn step(self, caller: ActorId, change: Change) -> Registry {
        if change is Settle || self.refusal(caller, change) is None {
            self.changed(change)
        } else {
            self
        }
    }

    /// The numbers of events and tickets have room for the change: a machine
    /// cannot hold so many that they would not.
    pub open spec fn has_room(self) -> bool {
        &&& self.event_id_counter + 1 < limit()
        &&& self.in_flight matches InFlight::Mint { amount, .. } ==> self.ticket_id_counter
            + amount@ < limit()
    }
}

/// Whether a ticket is the same ticket later on: it has kept its number, its
/// event, its label, its first buyer and the time of its minting, and if it
/// was used, it still is.
pub open spec fn same_ticket_later(before: Ticket, after: Ticket) -> bool {
    &&& after.ticket_id == before.ticket_id
    &&& after.event_id == before.event_id
    &&& after.zone == before.zone
    &&& after.original_buyer == before.original_buyer
    &&& after.minted_at == before.minted_at
    &&& before.used ==> after.used
}

/// Whether an event is the same event later on: it has kept its number, its
/// organizer, its fingerprint, its start and its total, and has no fewer
/// tickets minted.
pub open spec fn same_event_later(before: EventConfig, after: EventConfig) -> bool {
    &&& after.event_id == before.event_id
    &&& after.organizer == before.organizer
    &&& after.metadata_hash == before.metadata_hash
    &&& after.event_start_time == before.event_start_time
    &&& after.tickets_total == before.tickets_total
    &&& before.tickets_minted@ <= after.tickets_minted@
}

/// Every operation keeps the registry in order. In particular, after
/// whatever was done, the percentages of every event add up to 10000, and no
/// event has more tickets minted than it has in total.
pub proof fn lemma_step_keeps_order(s: Registry, caller: ActorId, change: Change)
    requires
        s.inv(),
        s.has_room(),
    ensures
        s.step(caller, change).inv(),
        forall|k: U256| #[trigger]
            s.step(caller, change).events.contains_key(k) ==> {
                let e = s.step(caller, change).events[k];
                &&& e.commission_config.seller_percentage + e.commission_config.organizer_percentage
                    + e.commission_config.platform_percentage == 10000
                &&& e.tickets_minted@ <= e.tickets_total@
            },
{
    if change is Settle || s.refusal(caller, change) is None {
        match change {
            Change::CreateEvent {
                organizer,
                metadata_hash,
                event_start_time,
                tickets_total,
                resale_config,
                commission_config,
            } => {
                lemma_create_event_inv(
                    s,
                    caller,
                    organizer,
                    metadata_hash,
                    event_start_time,
                    tickets_total,
                    resale_config,
                    commission_config,
                );
            },
            Change::MintTickets { event_id, buyer, amount, zones, now } => {
                lemma_mint_begun_inv(s, caller, event_id, buyer, amount, zones, now);
            },
            Change::ResellTicket { ticket_id, buyer, price, now } => {
                lemma_resell_begun_inv(s, caller, ticket_id, buyer, price, now);
            },
            Change::Settle { success } => {
                match s.in_flight {
                    InFlight::Idle => {},
                    InFlight::Mint { .. } => {
                        if success {
                            lemma_mint_settled_inv(s);
                        } else {
                            lemma_released_inv(s);
                        }
                    },
                    InFlight::Resale { .. } => {
                        if success {
                            lemma_resell_settled_inv(s);
                        } else {
                            lemma_released_inv(s);
                        }
                    },
                }
            },
            Change::MarkTicketUsed { ticket_id } => {
                lemma_mark_used_inv(s, ticket_id);
            },
            Change::AddOrganizer { organizer } => {
                lemma_roles_inv(s, s.organizers.insert(organizer), s.scanners);
            },
            Change::RemoveOrganizer { organizer } => {
                lemma_roles_inv(s, s.organizers.remove(organizer), s.scanners);
            },
            Change::AddScanner { scanner } => {
                lemma_roles_inv(s, s.organizers, s.scanners.insert(scanner));
            },
            Change::RemoveScanner { scanner } => {
                lemma_roles_inv(s, s.organizers, s.scanners.remove(scanner));
            },
            Change::UpdateResaleConfig { event_id, resale_config } => {
                lemma_with_event_inv(
                    s,
                    event_id,
                    EventConfig { resale_config, ..s.events[event_id] },
                );
            },
            Change::UpdateCommissionConfig { event_id, commission_config } => {
                lemma_with_event_inv(
                    s,
                    event_id,
                    EventConfig { commission_config, ..s.events[event_id] },
                );
            },
            Change::SetEventActive { event_id, active } => {
                lemma_with_event_inv(s, event_id, EventConfig { active, ..s.events[event_id] });
            },
        }
    }
}

/// No operation loses anything. A ticket stays a ticket: it keeps its
/// number, its event, its label and its first buyer, and once it is used it
/// stays used. An event is never deleted: it keeps its number, its organizer
/// and its total, and its count of minted tickets never goes down. The
/// counters never go down either.
pub proof fn lemma_step_keeps_history(s: Registry, caller: ActorId, change: Change)
    requires
        s.inv(),
        s.has_room(),
    ensures
        forall|t: U256| #[trigger]
            s.tickets.contains_key(t) ==> s.step(caller, change).tickets.contains_key(t)
                && same_ticket_later(s.tickets[t], s.step(caller, change).tickets[t]),
        forall|k: U256| #[trigger]
            s.events.contains_key(k) ==> s.step(caller, change).events.contains_key(k)
                && same_event_later(s.events[k], s.step(caller, change).events[k]),
        s.event_id_counter <= s.step(caller, change).event_id_counter,
        s.ticket_id_counter <= s.step(caller, change).ticket_id_counter,
        s.step(caller, change).admin == s.admin,
{
    let next = s.step(caller, change);
    match change {
        Change::CreateEvent { .. } => {
            if s.refusal(caller, change) is None {
                crate::num::lemma_from_nat(s.event_id_counter + 1);
                assert forall|k: U256| #[trigger] s.events.contains_key(k) implies next.events[k]
                    == s.events[k] by {
                    assert(k@ <= s.event_id_counter);
                }
            }
        },
        Change::Settle { success } => {
            if success && s.in_flight is Mint {
                lemma_mint_settled_inv(s);
            }
        },
        _ => {},
    }
}

/// An event stays its organizer's, whatever is done to the registry and to
/// the roles: after any operation the organizer of an event still holds the
/// role of an organizer, still manages the event, and is not refused a
/// change to it for want of authority.
pub proof fn lemma_event_stays_with_its_organizer(
    s: Registry,
    caller: ActorId,
    change: Change,
    event_id: U256,
)
    requires
        s.inv(),
        s.has_room(),
        s.events.contains_key(event_id),
    ensures
        ({
            let organizer = s.events[event_id].organizer;
            let later = s.step(caller, change);
            &&& later.events.contains_key(event_id)
            &&& later.events[event_id].organizer == organizer
            &&& later.manages(organizer, event_id)
            &&& later.may_organize(organizer)
            &&& later.is_organizer(organizer)
            &&& later.update_error(organizer, event_id, None) is None
        }),
{
    lemma_step_keeps_history(s, caller, change);
    let later = s.step(caller, change);
    assert(later.events.contains_key(event_id));
    assert(later.owns_event(s.events[event_id].organizer));
}

/// A configuration whose percentages do not add up to 10000 is accepted
/// neither when an event is created nor when its commission is updated, and
/// both attempts leave the registry as it was. The update is refused with
/// `InvalidCommissionConfig` whoever asks for it and whatever event is
/// named; the creation is, as soon as the checks that come before the
/// commission have passed.
pub proof fn lemma_incomplete_commission_refused(
    s: Registry,
    caller: ActorId,
    organizer: ActorId,
    metadata_hash: [u8; 32],
    event_start_time: u64,
    event_id: U256,
    tickets_total: U256,
    resale_config: ResaleConfig,
    commission_config: CommissionConfig,
)
    requires
        commission_config.seller_percentage + commission_config.organizer_percentage
            + commission_config.platform_percentage != 10000,
    ensures
        ({
            let create = Change::CreateEvent {
                organizer,
                metadata_hash,
                event_start_time,
                tickets_total,
                resale_config,
                commission_config,
            };
            let update = Change::UpdateCommissionConfig { event_id, commission_config };
            &&& s.refusal(caller, create) is Some
            &&& s.step(caller, create) == s
            &&& s.may_organize(caller) && organizer != ActorId::spec_zero() && tickets_total@ != 0
                && resale_config_valid(resale_config) ==> s.refusal(caller, create) == Some(
                TicketError::InvalidCommissionConfig,
            )
            &&& s.refusal(caller, update) is Some
            &&& s.step(caller, update) == s
            &&& s.refusal(caller, update) == Some(TicketError::InvalidCommissionConfig)
        }),
{
}

/// The shares of a resale that is accepted are the shares of its price
/// under the commission of its event; they add up to at most the price, and
/// to more than the price less three: what is missing is lost to rounding
/// down, and nothing is ever handed out beyond the price.
pub proof fn lemma_resale_shares_within_price(
    s: Registry,
    caller: ActorId,
    ticket_id: U256,
    buyer: ActorId,
    price: U256,
    now: u64,
)
    requires
        s.inv(),
        s.resell_error(caller, ticket_id, buyer, price, now) is None,
    ensures
        ({
            let config = s.events[s.tickets[ticket_id].event_id].commission_config;
            let waiting = s.resell_begun(ticket_id, buyer, price);
            &&& waiting.in_flight is Resale
            &&& shares_under(waiting.in_flight->shares, config, price)
            &&& waiting.in_flight->shares.total() <= price@
            &&& price@ - waiting.in_flight->shares.total() <= 2
        }),
{
    let config = s.events[s.tickets[ticket_id].event_id].commission_config;
    lemma_split_under(config, price);
    lemma_shares_within_price(
        price@,
        config.seller_percentage as nat,
        config.organizer_percentage as nat,
        config.platform_percentage as nat,
    );
}

/// The shares that a resale reports when it has gone through add up to at
/// most its price.
pub proof fn lemma_reported_shares_within_price(s: Registry, report: Event)
    requires
        s.inv(),
        s.in_flight is Resale,
        s.settle_error(true) is None,
        reports_settlement(s, report),
    ensures
        report is TicketResold,
        report->seller_share@ + report->organizer_share@ + report->platform_share@
            <= report->TicketResold_price@,
{
}

/// In a registry that is in order a resale never fails for its commission,
/// nor for want of its event: the percentages of every event add up to
/// 10000, so the shares fit in the price, whatever the price is.
pub proof fn lemma_stored_commission_fits(
    s: Registry,
    caller: ActorId,
    ticket_id: U256,
    buyer: ActorId,
    price: U256,
    now: u64,
)
    requires
        s.inv(),
    ensures
        s.resell_error(caller, ticket_id, buyer, price, now) != Some(
            TicketError::InvalidCommissionConfig,
        ),
        s.resell_error(caller, ticket_id, buyer, price, now) != Some(TicketError::EventNotFound),
{
    if s.tickets.contains_key(ticket_id) {
        let event_id = s.tickets[ticket_id].event_id;
        assert(s.events.contains_key(event_id));
        let config = s.events[event_id].commission_config;
        assert(commission_config_valid(config));
        lemma_shares_within_price(
            price@,
            config.seller_percentage as nat,
            config.organizer_percentage as nat,
            config.platform_percentage as nat,
        );
    }
}

/// A used ticket is neither sold on nor marked used again: both attempts
/// are refused, with `TicketAlreadyUsed` as soon as the checks that come
/// before the ticket is looked at have passed, and leave the registry as it
/// was.
pub proof fn lemma_used_ticket_is_refused(
    s: Registry,
    caller: ActorId,
    ticket_id: U256,
    buyer: ActorId,
    price: U256,
    now: u64,
)
    requires
        s.tickets.contains_key(ticket_id),
        s.tickets[ticket_id].used,
    ensures
        ({
            let resell = Change::ResellTicket { ticket_id, buyer, price, now };
            let mark = Change::MarkTicketUsed { ticket_id };
            &&& s.refusal(caller, resell) is Some
            &&& s.step(caller, resell) == s
            &&& !s.locked() && buyer != ActorId::spec_zero() && price@ != 0 ==> s.refusal(
                caller,
                resell,
            ) == Some(TicketError::TicketAlreadyUsed)
            &&& s.refusal(caller, mark) is Some
            &&& s.step(caller, mark) == s
            &&& s.may_scan(caller) ==> s.refusal(caller, mark) == Some(
                TicketError::TicketAlreadyUsed,
            )
        }),
{
}

/// A mint that asks for more tickets than the event has left is refused,
/// with `NotEnoughTickets` as soon as the lock, the buyer, the amount, the
/// event and the caller have been checked, and not one ticket comes of it:
/// the registry stays as it was.
pub proof fn lemma_mint_beyond_capacity_refused(
    s: Registry,
    caller: ActorId,
    event_id: U256,
    buyer: ActorId,
    amount: U256,
    zones: Seq<Option<String>>,
    now: u64,
)
    requires
        s.inv(),
        s.events.contains_key(event_id),
        s.events[event_id].tickets_minted@ + amount@ > s.events[event_id].tickets_total@,
    ensures
        ({
            let mint = Change::MintTickets { event_id, buyer, amount, zones, now };
            &&& s.refusal(caller, mint) is Some
            &&& s.step(caller, mint) == s
            &&& !s.locked() && buyer != ActorId::spec_zero() && s.manages(caller, event_id)
                && s.events[event_id].active ==> s.refusal(caller, mint) == Some(
                TicketError::NotEnoughTickets,
            )
        }),
{
}

/// Of two calls that overlap, the second is refused. After an operation has
/// taken the lock, and until the asset service has answered, every attempt
/// to mint or to resell ends in `ReentrancyDetected` and changes nothing;
/// the answer frees the lock, whether the call went through or not.
pub proof fn lemma_overlapping_calls_refused(
    s: Registry,
    first_caller: ActorId,
    first: Change,
    second_caller: ActorId,
    event_id: U256,
    ticket_id: U256,
    buyer: ActorId,
    amount: U256,
    zones: Seq<Option<String>>,
    price: U256,
    now: u64,
    success: bool,
)
    requires
        first is MintTickets || first is ResellTicket,
        s.refusal(first_caller, first) is None,
    ensures
        ({
            let waiting = s.step(first_caller, first);
            let mint = Change::MintTickets { event_id, buyer, amount, zones, now };
            let resell = Change::ResellTicket { ticket_id, buyer, price, now };
            &&& waiting.locked()
            &&& waiting.refusal(second_caller, mint) == Some(TicketError::ReentrancyDetected)
            &&& waiting.step(second_caller, mint) == waiting
            &&& waiting.refusal(second_caller, resell) == Some(TicketError::ReentrancyDetected)
            &&& waiting.step(second_caller, resell) == waiting
            &&& !waiting.step(second_caller, Change::Settle { success }).locked()
        }),
{
}

} // verus!
