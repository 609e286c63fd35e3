//! What holds of the ticket manager whatever is done to it.

use vstd::prelude::*;
use crate::actor::ActorId;
use crate::commission::lemma_share_at_most_price;
use crate::num::U256;
use crate::vnft_manager::services::ticket_service::{
    marked_all, organizer_amount, platform_amount, TicketErrors, TicketService,
};
use crate::vnft_manager::states::ticket_state::{CommissionConfig, Ledger, Ticket};

verus! {

/// Under a commission whose parts add up to 10000 a resale is never refused
/// for its commission: organizer and platform together get no more than the
/// price, so that the three amounts, of which the seller's is the rest, are
/// the whole price, to the last unit.
pub proof fn lemma_amounts_are_the_price(config: CommissionConfig, price: u128)
    requires
        config.spec_validate(),
    ensures
        organizer_amount(config, price) + platform_amount(config, price) <= price,
{
    crate::commission::lemma_shares_within_price(
        price as nat,
        config.seller_percentage as nat,
        config.organizer_percentage as nat,
        config.platform_percentage as nat,
    );
}

/// Neither organizer nor platform ever gets more than the price while its
/// part is at most the whole.
pub proof fn lemma_amount_at_most_price(config: CommissionConfig, price: u128)
    requires
        config.organizer_percentage <= 10000,
        config.platform_percentage <= 10000,
    ensures
        organizer_amount(config, price) <= price,
        platform_amount(config, price) <= price,
{
    lemma_share_at_most_price(price as nat, config.organizer_percentage as nat);
    lemma_share_at_most_price(price as nat, config.platform_percentage as nat);
}

/// A commission whose parts do not add up to 10000 is accepted neither when
/// an event is created nor when its commission is updated.
pub proof fn lemma_incomplete_commission_refused(
    s: Ledger,
    caller: ActorId,
    organizer: ActorId,
    event_start: u64,
    config: CommissionConfig,
    now: u64,
)
    requires
        config.organizer_percentage + config.platform_percentage + config.seller_percentage
            != 10000,
    ensures
        TicketService::create_event_fault(s, caller, organizer, event_start, config, now) is Some,
        s.is_platform_admin(caller) || caller == organizer ==> TicketService::create_event_fault(
            s,
            caller,
            organizer,
            event_start,
            config,
            now,
        ) == Some(TicketErrors::InvalidCommissionConfig),
{
}

/// A used ticket is neither offered nor bought nor marked used again: each
/// attempt is refused, with `TicketAlreadyUsed` as soon as the checks that
/// come before the ticket is looked at have passed.
pub proof fn lemma_used_ticket_is_refused(
    s: Ledger,
    caller: ActorId,
    ticket_id: U256,
    value: u128,
    price: u128,
    now: u64,
)
    requires
        s.tickets.contains_key(ticket_id),
        s.tickets[ticket_id].used,
    ensures
        s.resale_fault(ticket_id, price, now) == Some(TicketErrors::TicketAlreadyUsed),
        s.purchase_fault(value, ticket_id, price, now) is Some,
        value >= price ==> s.purchase_fault(value, ticket_id, price, now) == Some(
            TicketErrors::TicketAlreadyUsed,
        ),
        TicketService::mark_fault(s, caller, ticket_id) is Some,
        s.is_platform_admin(caller) || s.is_authorized_scanner(caller) ==> TicketService::mark_fault(
            s,
            caller,
            ticket_id,
        ) == Some(TicketErrors::TicketAlreadyUsed),
{
}

/// Marking tickets used, one or many, loses no ticket and clears no mark.
pub proof fn lemma_marking_keeps_marks(tickets: Map<U256, Ticket>, ids: Seq<U256>, ticket_id: U256)
    requires
        tickets.contains_key(ticket_id),
    ensures
        marked_all(tickets, ids).contains_key(ticket_id),
        tickets[ticket_id].used ==> marked_all(tickets, ids)[ticket_id] == tickets[ticket_id],
        marked_all(tickets, ids)[ticket_id].used == (tickets[ticket_id].used || ids.contains(
            ticket_id,
        )),
        marked_all(tickets, ids)[ticket_id].original_buyer == tickets[ticket_id].original_buyer,
        marked_all(tickets, ids)[ticket_id].event_id == tickets[ticket_id].event_id,
    decreases ids.len(),
{
    if ids.len() > 0 {
        lemma_marking_keeps_marks(tickets, ids.drop_last(), ticket_id);
        assert(ids.drop_last().push(ids.last()) =~= ids);
        if ids.contains(ticket_id) && ids.last() != ticket_id {
            let i = choose|i: int| 0 <= i < ids.len() && ids[i] == ticket_id;
            assert(ids.drop_last()[i] == ticket_id);
        }
        if ids.drop_last().contains(ticket_id) {
            let i = choose|i: int| 0 <= i < ids.drop_last().len() && ids.drop_last()[i] == ticket_id;
            assert(ids[i] == ticket_id);
        }
    }
}

} // verus!
