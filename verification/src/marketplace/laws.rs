//! What holds of the marketplace whatever is done to it.
//!
//! [`Change`] names every operation of the marketplace with its arguments,
//! and `step` says what a marketplace holds after an attempt at one of
//! them. The laws below are proved for every marketplace that is in order,
//! every caller and every change.

use vstd::prelude::*;
use crate::actor::ActorId;
use crate::commission::lemma_shares_within_price;
use crate::marketplace::rules::{
    event_facts, event_fault, lemma_begun_inv, lemma_resume_inv, lemma_split_in, ticket_facts,
    window_open, Market,
};
use crate::marketplace::types::{Event, MarketplaceError, Step, TicketContractReply};
use crate::num::U256;

verus! {

/// An operation of the marketplace, with its arguments.
pub enum Change {
    ListTicket { ticket_id: U256, price: U256 },
    BuyTicket { ticket_id: U256 },
    Resume { reply: TicketContractReply, now: u64 },
    CancelListing { ticket_id: U256 },
    SetAdmin { new_admin: ActorId },
    SetTicketContract { ticket_contract: ActorId },
    SetPlatformFeeRecipient { recipient: ActorId },
}

impl Market {
    /// The error in which `caller`'s attempt at the change ends, if it ends
    /// in one.
    pub open spec fn refusal(self, caller: ActorId, change: Change) -> Option<MarketplaceError> {
        match change {
            Change::ListTicket { ticket_id, price } => self.list_error(caller, ticket_id, price),
            Change::BuyTicket { ticket_id } => self.buy_error(caller, ticket_id),
            Change::Resume { reply, now } => match self.resume_result(reply, now) {
                Ok(_) => None,
                Err(error) => Some(error),
            },
            Change::CancelListing { ticket_id } => self.cancel_error(caller, ticket_id),
            Change::SetAdmin { new_admin } => self.admin_error(caller, new_admin),
            Change::SetTicketContract { ticket_contract } => self.admin_error(caller, ticket_contract),
            Change::SetPlatformFeeRecipient { recipient } => self.admin_error(caller, recipient),
        }
    }

    /// What the marketplace holds after a change that went through.
    pub open spec fn changed(self, caller: ActorId, change: Change) -> Market {
        match change {
            Change::ListTicket { ticket_id, price } => self.list_begun(caller, ticket_id, price),
            Change::BuyTicket { ticket_id } => self.buy_begun(caller, ticket_id),
            Change::Resume { reply, now } => self.resume_next(reply, now),
            Change::CancelListing { ticket_id } => self.cancel_next(ticket_id),
            Change::SetAdmin { new_admin } => Market { admin: new_admin, ..self },
            Change::SetTicketContract { ticket_contract } => Market {
                ticket_contract_id: ticket_contract,
                ..self
            },
            Change::SetPlatformFeeRecipient { recipient } => Market {
                platform_fee_recipient: recipient,
                ..self
            },
        }
    }

    /// What the marketplace holds after `caller`'s attempt at the change: a
    /// change that is refused leaves everything as it was, but for an
    /// answer of the registry that ends the operation in flight, which
    /// frees the lock and puts a listing back that was taken out.
    pub open spec fn step(self, caller: ActorId, change: Change) -> Market {
        if change is Resume || self.refusal(caller, change) is None {
            self.changed(caller, change)
        } else {
            self
        }
    }
}

/// Whether an answer of the registry leads to another question.
pub open spec fn asks_again(result: Result<Step, MarketplaceError>) -> bool {
    result is Ok && result->Ok_0 is Call
}

/// Every operation keeps the marketplace in order: every listing stands
/// under its own ticket, so that a ticket never has two.
pub proof fn lemma_step_keeps_order(s: Market, caller: ActorId, change: Change)
    requires
        s.inv(),
    ensures
        s.step(caller, change).inv(),
{
    match change {
        Change::Resume { reply, now } => {
            lemma_resume_inv(s, reply, now);
        },
        Change::ListTicket { ticket_id, price } => {
            lemma_begun_inv(s, caller, ticket_id, price);
        },
        Change::BuyTicket { ticket_id } => {
            lemma_begun_inv(s, caller, ticket_id, ticket_id);
        },
        Change::CancelListing { ticket_id } => {
            lemma_begun_inv(s, caller, ticket_id, ticket_id);
        },
        _ => {},
    }
}

/// A listing comes into the book and leaves it in three ways only. It
/// comes in when its listing is through, and comes back when its transfer
/// has failed. It leaves when its seller cancels it, and when its purchase
/// has passed every check and the transfer is asked for. Nothing else
/// touches the book, and no listing in it is ever altered.
pub proof fn lemma_listing_lifecycle(s: Market, caller: ActorId, change: Change, ticket_id: U256)
    requires
        s.inv(),
    ensures
        ({
            let next = s.step(caller, change);
            &&& s.listings.contains_key(ticket_id) && next.listings.contains_key(ticket_id)
                ==> next.listings[ticket_id] == s.listings[ticket_id]
            &&& !s.listings.contains_key(ticket_id) && next.listings.contains_key(ticket_id) ==> {
                &&& change is Resume
                &&& (s.stage is ListEvent && s.stage->ListEvent_ticket_id == ticket_id && s.refusal(
                    caller,
                    change,
                ) is None) || (s.stage is BuyTransfer && s.stage->BuyTransfer_listing.ticket_id
                    == ticket_id && s.refusal(caller, change) == Some(
                    MarketplaceError::TransferFailed,
                ))
            }
            &&& s.listings.contains_key(ticket_id) && !next.listings.contains_key(ticket_id) ==> {
                ||| change is CancelListing && change->CancelListing_ticket_id == ticket_id
                    && s.listings[ticket_id].seller == caller
                ||| change is Resume && s.stage is BuyEvent && s.stage->BuyEvent_listing.ticket_id
                    == ticket_id && next.stage is BuyTransfer
            }
        }),
{
}

/// The shares that a sale reports add up to at most its price, whatever
/// percentages the registry has reported.
pub proof fn lemma_sale_shares_within_price(s: Market, caller: ActorId, reply: TicketContractReply, now: u64)
    requires
        s.inv(),
        s.resume_result(reply, now) matches Ok(Step::Done(Event::TicketSold { .. })),
    ensures
        ({
            let report = s.resume_result(reply, now)->Ok_0->Done_0;
            report->seller_share@ + report->organizer_share@ + report->platform_share@
                <= report->TicketSold_price@
        }),
{
}

/// Where the percentages that the registry reports add up to 10000, a
/// purchase is not refused for its price, and its shares fall short of the
/// price by less than three units.
pub proof fn lemma_complete_percentages_sell(s: Market, reply: TicketContractReply, now: u64)
    requires
        s.stage is BuyEvent,
        event_fault(event_facts(reply), s.stage->BuyEvent_listing.price, now) is None,
        event_facts(reply)->0.seller_percentage + event_facts(reply)->0.organizer_percentage
            + event_facts(reply)->0.platform_percentage == 10000,
    ensures
        s.resume_result(reply, now) is Ok,
        ({
            let price = s.stage->BuyEvent_listing.price;
            let shares = s.resume_next(reply, now).stage->shares;
            shares.total() <= price@ && price@ - shares.total() <= 2
        }),
{
    let event = event_facts(reply)->0;
    let price = s.stage->BuyEvent_listing.price;
    lemma_shares_within_price(
        price@,
        event.seller_percentage as nat,
        event.organizer_percentage as nat,
        event.platform_percentage as nat,
    );
    lemma_split_in(event, price);
}

/// A used ticket is neither listed nor sold: the answer that reports it
/// used ends the operation with `TicketAlreadyUsed`, frees the lock, and
/// leaves the listings as they were.
pub proof fn lemma_used_ticket_is_refused(s: Market, caller: ActorId, reply: TicketContractReply, now: u64)
    requires
        s.stage is ListTicket || s.stage is BuyTicket,
        ticket_facts(reply) is Some,
        ticket_facts(reply)->0.used,
    ensures
        s.refusal(caller, Change::Resume { reply, now }) == Some(MarketplaceError::TicketAlreadyUsed),
        s.step(caller, Change::Resume { reply, now }) == s.released(),
{
}

/// Of two calls that overlap, the second is refused. While an operation
/// waits for the registry, every attempt to list or to buy ends in
/// `ReentrancyDetected` and changes nothing. An operation that asks another
/// question keeps the lock; one that has ended, in whatever way, has given
/// it back.
pub proof fn lemma_overlapping_calls_refused(
    s: Market,
    first_caller: ActorId,
    first: Change,
    second_caller: ActorId,
    ticket_id: U256,
    price: U256,
    reply: TicketContractReply,
    now: u64,
)
    requires
        first is ListTicket || first is BuyTicket,
        s.refusal(first_caller, first) is None,
    ensures
        ({
            let waiting = s.step(first_caller, first);
            let list = Change::ListTicket { ticket_id, price };
            let buy = Change::BuyTicket { ticket_id };
            let answer = Change::Resume { reply, now };
            &&& waiting.locked()
            &&& waiting.refusal(second_caller, list) == Some(MarketplaceError::ReentrancyDetected)
            &&& waiting.step(second_caller, list) == waiting
            &&& waiting.refusal(second_caller, buy) == Some(MarketplaceError::ReentrancyDetected)
            &&& waiting.step(second_caller, buy) == waiting
            &&& waiting.step(second_caller, answer).locked() <==> asks_again(
                waiting.resume_result(reply, now),
            )
        }),
        s.locked() ==> (s.step(second_caller, Change::Resume { reply, now }).locked() <==> asks_again(
            s.resume_result(reply, now),
        )),
{
}

/// A purchase whose listing exceeds the price limit that the registry
/// reports now is refused with `PriceExceedsMaximum`, and the listing stays
/// in the book as it was.
pub proof fn lemma_lowered_limit_keeps_listing(
    s: Market,
    caller: ActorId,
    reply: TicketContractReply,
    now: u64,
)
    requires
        s.stage is BuyEvent,
        event_facts(reply) is Some,
        event_facts(reply)->0.resale_enabled,
        window_open(event_facts(reply)->0, now),
        event_facts(reply)->0.max_price is Some,
        s.stage->BuyEvent_listing.price@ > event_facts(reply)->0.max_price->0@,
    ensures
        s.refusal(caller, Change::Resume { reply, now }) == Some(
            MarketplaceError::PriceExceedsMaximum,
        ),
        s.step(caller, Change::Resume { reply, now }).listings == s.listings,
        !s.step(caller, Change::Resume { reply, now }).locked(),
{
}

/// After a purchase has gone through, its ticket has no listing, and the
/// next attempt to buy it is refused with `ListingNotFound`.
pub proof fn lemma_sold_ticket_is_gone(
    s: Market,
    caller: ActorId,
    reply: TicketContractReply,
    now: u64,
    later_caller: ActorId,
)
    requires
        s.inv(),
        s.stage is BuyEvent,
        s.refusal(caller, Change::Resume { reply, now }) is None,
        later_caller != ActorId::spec_zero(),
    ensures
        ({
            let ticket_id = s.stage->BuyEvent_listing.ticket_id;
            let transferring = s.step(caller, Change::Resume { reply, now });
            let sold = transferring.step(
                caller,
                Change::Resume { reply: TicketContractReply::Success, now },
            );
            &&& transferring.stage is BuyTransfer
            &&& !transferring.listings.contains_key(ticket_id)
            &&& transferring.refusal(caller, Change::Resume { reply: TicketContractReply::Success, now })
                is None
            &&& !sold.listings.contains_key(ticket_id)
            &&& sold.refusal(later_caller, Change::BuyTicket { ticket_id }) == Some(
                MarketplaceError::ListingNotFound,
            )
        }),
{
}

} // verus!
