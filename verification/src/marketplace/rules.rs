//! The rules of the marketplace, as mathematics.
//!
//! [`Market`] is what the marketplace holds, seen as a map of listings and
//! the stage of the operation in flight. Listing and buying go through
//! several stages, one for each question to the registry; `resume_result`
//! and `resume_next` say how an answer moves an operation on.

use vstd::prelude::*;
use crate::actor::ActorId;
use crate::commission::{distributed, share_of, Shares};
use crate::marketplace::types::{
    Event, EventInfo, Listing, MarketplaceError, Step, TicketContractMessage, TicketContractReply,
    TicketInfo,
};
use crate::num::U256;

verus! {

/// Where the operation in flight stands.
#[derive(Clone, Copy, Debug, PartialEq, Eq, Structural)]
pub enum Stage {
    /// Nothing is in flight: the lock is free.
    Idle,
    /// A listing waits for the facts of its ticket.
    ListTicket { ticket_id: U256, seller: ActorId, price: U256 },
    /// A listing waits for the facts of its event.
    ListEvent { ticket_id: U256, seller: ActorId, price: U256, event_id: U256 },
    /// A purchase waits for the facts of its ticket.
    BuyTicket { listing: Listing, buyer: ActorId },
    /// A purchase waits for the facts of its event.
    BuyEvent { listing: Listing, buyer: ActorId },
    /// A purchase waits for the transfer; its listing is out of the book.
    BuyTransfer { listing: Listing, buyer: ActorId, shares: Shares },
}

/// What the marketplace holds.
#[verifier::ext_equal]
pub struct Market {
    pub admin: ActorId,
    pub platform_fee_recipient: ActorId,
    pub ticket_contract_id: ActorId,
    pub listings: Map<U256, Listing>,
    pub stage: Stage,
}

/// The facts of a ticket in an answer of the registry, if it holds any.
pub open spec fn ticket_facts(reply: TicketContractReply) -> Option<TicketInfo> {
    match reply {
        TicketContractReply::Ticket(Some(ticket)) => Some(
            TicketInfo {
                ticket_id: ticket.ticket_id,
                event_id: ticket.event_id,
                current_owner: ticket.current_owner,
                used: ticket.used,
            },
        ),
        _ => None,
    }
}

/// The facts of an event in an answer of the registry, if it holds any.
pub open spec fn event_facts(reply: TicketContractReply) -> Option<EventInfo> {
    match reply {
        TicketContractReply::Event(Some(event)) => Some(
            EventInfo {
                event_id: event.event_id,
                organizer: event.organizer,
                resale_enabled: event.resale_config.enabled,
                max_price: event.resale_config.max_price,
                resale_start_time: event.resale_config.resale_start_time,
                resale_end_time: event.resale_config.resale_end_time,
                seller_percentage: event.commission_config.seller_percentage,
                organizer_percentage: event.commission_config.organizer_percentage,
                platform_percentage: event.commission_config.platform_percentage,
            },
        ),
        _ => None,
    }
}

/// What speaks against offering or selling a ticket of which the registry
/// reports `facts`, for `seller`.
pub open spec fn ticket_fault(facts: Option<TicketInfo>, seller: ActorId) -> Option<
    MarketplaceError,
> {
    match facts {
        None => Some(MarketplaceError::TicketNotFound),
        Some(ticket) => if ticket.used {
            Some(MarketplaceError::TicketAlreadyUsed)
        } else if ticket.current_owner != seller {
            Some(MarketplaceError::TicketNotOwned)
        } else {
            None
        },
    }
}

/// Whether `now` lies in the resale window of the event, whose end is no
/// part of it.
pub open spec fn window_open(event: EventInfo, now: u64) -> bool {
    &&& event.resale_start_time is Some ==> now >= event.resale_start_time->0
    &&& event.resale_end_time is Some ==> now < event.resale_end_time->0
}

/// What speaks against offering or selling a ticket at `price` at the time
/// `now`, in an event of which the registry reports `facts`.
pub open spec fn event_fault(facts: Option<EventInfo>, price: U256, now: u64) -> Option<
    MarketplaceError,
> {
    match facts {
        None => Some(MarketplaceError::TicketNotFound),
        Some(event) => if !event.resale_enabled {
            Some(MarketplaceError::ResaleDisabled)
        } else if !window_open(event, now) {
            Some(MarketplaceError::ResaleWindowClosed)
        } else if event.max_price is Some && price@ > event.max_price->0@ {
            Some(MarketplaceError::PriceExceedsMaximum)
        } else {
            None
        },
    }
}

/// What the shares of `price` in the event add up to.
pub open spec fn distributed_in(event: EventInfo, price: U256) -> nat {
    distributed(
        price@,
        event.seller_percentage as nat,
        event.organizer_percentage as nat,
        event.platform_percentage as nat,
    )
}

/// The shares of `price` in the event.
pub open spec fn split_in(event: EventInfo, price: U256) -> Shares {
    Shares {
        seller: U256::from_nat(share_of(price@, event.seller_percentage as nat)),
        organizer: U256::from_nat(share_of(price@, event.organizer_percentage as nat)),
        platform: U256::from_nat(share_of(price@, event.platform_percentage as nat)),
    }
}

/// `split_in` gives the shares of the price wherever they fit in the price.
pub proof fn lemma_split_in(event: EventInfo, price: U256)
    requires
        distributed_in(event, price) <= price@,
    ensures
        split_in(event, price).is_split_of(
            price@,
            event.seller_percentage as nat,
            event.organizer_percentage as nat,
            event.platform_percentage as nat,
        ),
        split_in(event, price).total() == distributed_in(event, price),
        split_in(event, price).total() <= price@,
{
    crate::num::lemma_below_limit(price);
    crate::num::lemma_from_nat(share_of(price@, event.seller_percentage as nat));
    crate::num::lemma_from_nat(share_of(price@, event.organizer_percentage as nat));
    crate::num::lemma_from_nat(share_of(price@, event.platform_percentage as nat));
}

/// The report of a sale.
pub open spec fn sold(listing: Listing, buyer: ActorId, shares: Shares) -> Event {
    Event::TicketSold {
        ticket_id: listing.ticket_id,
        event_id: listing.event_id,
        seller: listing.seller,
        buyer,
        price: listing.price,
        seller_share: shares.seller,
        organizer_share: shares.organizer,
        platform_share: shares.platform,
    }
}

impl Market {
    /// A marketplace without listings.
    pub open spec fn initial(
        admin: ActorId,
        ticket_contract_id: ActorId,
        platform_fee_recipient: ActorId,
    ) -> Market {
        Market {
            admin,
            platform_fee_recipient,
            ticket_contract_id,
            listings: Map::empty(),
            stage: Stage::Idle,
        }
    }

    /// Whether the reentrancy lock is held.
    pub open spec fn locked(self) -> bool {
        !(self.stage is Idle)
    }

    /// What holds of the marketplace at all times: every listing stands
    /// under its ticket; a ticket that is being listed, or whose transfer is
    /// asked for, has no listing in the book; and the shares of a sale in
    /// flight are within its price.
    pub open spec fn inv(self) -> bool {
        &&& forall|k: U256| #[trigger]
            self.listings.contains_key(k) ==> self.listings[k].ticket_id == k
        &&& match self.stage {
            Stage::ListTicket { ticket_id, .. } => !self.listings.contains_key(ticket_id),
            Stage::ListEvent { ticket_id, .. } => !self.listings.contains_key(ticket_id),
            Stage::BuyTransfer { listing, buyer, shares } => {
                &&& !self.listings.contains_key(listing.ticket_id)
                &&& shares.total() <= listing.price@
            },
            _ => true,
        }
    }

    /// The marketplace with the lock free.
    pub open spec fn released(self) -> Market {
        Market { stage: Stage::Idle, ..self }
    }

    // ---- listing ------------------------------------------------------------

    /// Why `list_ticket` is refused at once, if it is.
    pub open spec fn list_error(self, caller: ActorId, ticket_id: U256, price: U256) -> Option<
        MarketplaceError,
    > {
        if self.locked() {
            Some(MarketplaceError::ReentrancyDetected)
        } else if price@ == 0 {
            Some(MarketplaceError::InvalidPrice)
        } else if caller == ActorId::spec_zero() {
            Some(MarketplaceError::InvalidInput)
        } else if self.listings.contains_key(ticket_id) {
            Some(MarketplaceError::TicketAlreadyListed)
        } else {
            None
        }
    }

    /// The marketplace while a listing waits for the facts of its ticket.
    pub open spec fn list_begun(self, caller: ActorId, ticket_id: U256, price: U256) -> Market {
        Market { stage: Stage::ListTicket { ticket_id, seller: caller, price }, ..self }
    }

    // ---- buying -------------------------------------------------------------

    /// Why `buy_ticket` is refused at once, if it is.
    pub open spec fn buy_error(self, caller: ActorId, ticket_id: U256) -> Option<MarketplaceError> {
        if self.locked() {
            Some(MarketplaceError::ReentrancyDetected)
        } else if caller == ActorId::spec_zero() {
            Some(MarketplaceError::InvalidInput)
        } else if !self.listings.contains_key(ticket_id) {
            Some(MarketplaceError::ListingNotFound)
        } else if caller == self.listings[ticket_id].seller {
            Some(MarketplaceError::InvalidInput)
        } else {
            None
        }
    }

    /// The marketplace while a purchase waits for the facts of its ticket.
    pub open spec fn buy_begun(self, caller: ActorId, ticket_id: U256) -> Market {
        Market { stage: Stage::BuyTicket { listing: self.listings[ticket_id], buyer: caller }, ..self }
    }

    // ---- the registry answers -----------------------------------------------

    /// How the operation in flight goes on after the registry has answered
    /// with `reply` at the time `now`: the next call, the report of the
    /// finished operation, or the error that ends it.
    pub open spec fn resume_result(self, reply: TicketContractReply, now: u64) -> Result<
        Step,
        MarketplaceError,
    > {
        match self.stage {
            Stage::Idle => Err(MarketplaceError::InvalidInput),
            Stage::ListTicket { ticket_id, seller, price } => {
                match ticket_fault(ticket_facts(reply), seller) {
                    Some(fault) => Err(fault),
                    None => Ok(
                        Step::Call(
                            TicketContractMessage::GetEventAsync {
                                event_id: ticket_facts(reply)->0.event_id,
                            },
                        ),
                    ),
                }
            },
            Stage::ListEvent { ticket_id, seller, price, event_id } => {
                match event_fault(event_facts(reply), price, now) {
                    Some(fault) => Err(fault),
                    None => Ok(Step::Done(Event::TicketListed { ticket_id, event_id, seller, price })),
                }
            },
            Stage::BuyTicket { listing, buyer } => {
                match ticket_fault(ticket_facts(reply), listing.seller) {
                    Some(fault) => Err(fault),
                    None => Ok(
                        Step::Call(
                            TicketContractMessage::GetEventAsync {
                                event_id: ticket_facts(reply)->0.event_id,
                            },
                        ),
                    ),
                }
            },
            Stage::BuyEvent { listing, buyer } => {
                match event_fault(event_facts(reply), listing.price, now) {
                    Some(fault) => Err(fault),
                    None => if distributed_in(event_facts(reply)->0, listing.price)
                        > listing.price@ {
                        Err(MarketplaceError::InvalidPrice)
                    } else {
                        Ok(
                            Step::Call(
                                TicketContractMessage::TransferFromMarketplace {
                                    ticket_id: listing.ticket_id,
                                    buyer,
                                    seller: listing.seller,
                                    price: listing.price,
                                },
                            ),
                        )
                    },
                }
            },
            Stage::BuyTransfer { listing, buyer, shares } => {
                if reply is Success {
                    Ok(Step::Done(sold(listing, buyer, shares)))
                } else {
                    Err(MarketplaceError::TransferFailed)
                }
            },
        }
    }

    /// The marketplace after the registry has answered. An error ends the
    /// operation and frees the lock; it leaves the listings as they were
    /// before the operation began, which for a failed transfer means that
    /// the listing goes back into the book.
    pub open spec fn resume_next(self, reply: TicketContractReply, now: u64) -> Market {
        match self.stage {
            Stage::Idle => self,
            Stage::ListTicket { ticket_id, seller, price } => {
                if self.resume_result(reply, now) is Ok {
                    Market {
                        stage: Stage::ListEvent {
                            ticket_id,
                            seller,
                            price,
                            event_id: ticket_facts(reply)->0.event_id,
                        },
                        ..self
                    }
                } else {
                    self.released()
                }
            },
            Stage::ListEvent { ticket_id, seller, price, event_id } => {
                if self.resume_result(reply, now) is Ok {
                    Market {
                        listings: self.listings.insert(
                            ticket_id,
                            Listing { ticket_id, seller, price, listed_at: now, event_id },
                        ),
                        stage: Stage::Idle,
                        ..self
                    }
                } else {
                    self.released()
                }
            },
            Stage::BuyTicket { listing, buyer } => {
                if self.resume_result(reply, now) is Ok {
                    Market { stage: Stage::BuyEvent { listing, buyer }, ..self }
                } else {
                    self.released()
                }
            },
            Stage::BuyEvent { listing, buyer } => {
                if self.resume_result(reply, now) is Ok {
                    Market {
                        listings: self.listings.remove(listing.ticket_id),
                        stage: Stage::BuyTransfer {
                            listing,
                            buyer,
                            shares: split_in(event_facts(reply)->0, listing.price),
                        },
                        ..self
                    }
                } else {
                    self.released()
                }
            },
            Stage::BuyTransfer { listing, buyer, shares } => {
                if reply is Success {
                    self.released()
                } else {
                    Market {
                        listings: self.listings.insert(listing.ticket_id, listing),
                        stage: Stage::Idle,
                        ..self
                    }
                }
            },
        }
    }

    // ---- cancelling ---------------------------------------------------------

    /// Why `cancel_listing` is refused, if it is.
    pub open spec fn cancel_error(self, caller: ActorId, ticket_id: U256) -> Option<
        MarketplaceError,
    > {
        if !self.listings.contains_key(ticket_id) {
            Some(MarketplaceError::ListingNotFound)
        } else if self.listings[ticket_id].seller != caller {
            Some(MarketplaceError::TicketNotOwned)
        } else {
            None
        }
    }

    /// The marketplace without the listing of the ticket.
    pub open spec fn cancel_next(self, ticket_id: U256) -> Market {
        Market { listings: self.listings.remove(ticket_id), ..self }
    }

    // ---- administration -----------------------------------------------------

    /// Why a change of the marketplace's settings is refused, if it is.
    pub open spec fn admin_error(self, caller: ActorId, value: ActorId) -> Option<MarketplaceError> {
        if caller != self.admin {
            Some(MarketplaceError::Unauthorized)
        } else if value == ActorId::spec_zero() {
            Some(MarketplaceError::InvalidInput)
        } else {
            None
        }
    }
}

/// Whether a listing is wanted: every listing, or those of one seller.
pub open spec fn wanted(listing: Listing, seller: Option<ActorId>) -> bool {
    seller is None || listing.seller == seller->0
}

/// Whether `list` holds the listings of the book that are wanted, every one
/// of them and each once.
pub open spec fn lists_the_book(
    list: Seq<Listing>,
    listings: Map<U256, Listing>,
    seller: Option<ActorId>,
) -> bool {
    &&& forall|i: int|
        0 <= i < list.len() ==> listings.contains_key((#[trigger] list[i]).ticket_id)
            && listings[list[i].ticket_id] == list[i] && wanted(list[i], seller)
    &&& forall|i: int, j: int|
        0 <= i < j < list.len() ==> (#[trigger] list[i]).ticket_id != (#[trigger] list[j]).ticket_id
    &&& forall|k: U256| #[trigger]
        listings.contains_key(k) && wanted(listings[k], seller) ==> list.contains(listings[k])
}

/// The listings of a list of pairs of ticket and listing.
pub open spec fn listings_of(pairs: Seq<(U256, Listing)>) -> Seq<Listing> {
    pairs.map_values(|pair: (U256, Listing)| pair.1)
}

/// Of the listings named by `ids`, in that order, those that are wanted.
pub open spec fn listed_among(listings: Map<U256, Listing>, ids: Seq<U256>, seller: Option<ActorId>) -> Seq<
    Listing,
>
    decreases ids.len(),
{
    if ids.len() == 0 {
        Seq::empty()
    } else {
        let rest = listed_among(listings, ids.drop_last(), seller);
        if listings.contains_key(ids.last()) && wanted(listings[ids.last()], seller) {
            rest.push(listings[ids.last()])
        } else {
            rest
        }
    }
}

/// The listings picked by the identifiers are listings of the book under
/// identifiers among those given, and where no identifier is given twice, no
/// listing is picked twice.
pub proof fn lemma_listed_among(listings: Map<U256, Listing>, ids: Seq<U256>, seller: Option<ActorId>)
    requires
        ids.no_duplicates(),
        forall|k: U256| #[trigger] listings.contains_key(k) ==> listings[k].ticket_id == k,
    ensures
        forall|i: int|
            0 <= i < listed_among(listings, ids, seller).len() ==> {
                let listing = #[trigger] listed_among(listings, ids, seller)[i];
                &&& ids.contains(listing.ticket_id)
                &&& listings.contains_key(listing.ticket_id)
                &&& listings[listing.ticket_id] == listing
                &&& wanted(listing, seller)
            },
        forall|i: int, j: int|
            0 <= i < j < listed_among(listings, ids, seller).len() ==> (#[trigger] listed_among(
                listings,
                ids,
                seller,
            )[i]).ticket_id != (#[trigger] listed_among(listings, ids, seller)[j]).ticket_id,
        forall|n: int|
            0 <= n < ids.len() && listings.contains_key(#[trigger] ids[n]) && wanted(
                listings[ids[n]],
                seller,
            ) ==> listed_among(listings, ids, seller).contains(listings[ids[n]]),
    decreases ids.len(),
{
    if ids.len() > 0 {
        let front = ids.drop_last();
        let rest = listed_among(listings, front, seller);
        let all = listed_among(listings, ids, seller);
        lemma_listed_among(listings, front, seller);
        assert forall|i: int| 0 <= i < all.len() implies {
            let listing = #[trigger] all[i];
            &&& ids.contains(listing.ticket_id)
            &&& listings.contains_key(listing.ticket_id)
            &&& listings[listing.ticket_id] == listing
            &&& wanted(listing, seller)
        } by {
            if i < rest.len() {
                assert(all[i] == rest[i]);
                assert(front.contains(rest[i].ticket_id));
                let n = choose|n: int| 0 <= n < front.len() && front[n] == rest[i].ticket_id;
                assert(ids[n] == rest[i].ticket_id);
            } else {
                assert(all[i] == listings[ids.last()]);
                assert(ids[ids.len() - 1] == ids.last());
            }
        }
        assert forall|i: int, j: int| 0 <= i < j < all.len() implies (#[trigger] all[i]).ticket_id
            != (#[trigger] all[j]).ticket_id by {
            if j < rest.len() {
                assert(all[i] == rest[i] && all[j] == rest[j]);
            } else {
                assert(all[i] == rest[i]);
                assert(front.contains(rest[i].ticket_id));
                let n = choose|n: int| 0 <= n < front.len() && front[n] == rest[i].ticket_id;
                assert(ids[n] == rest[i].ticket_id);
                assert(all[j].ticket_id == ids[ids.len() - 1]);
            }
        }
        assert forall|n: int|
            0 <= n < ids.len() && listings.contains_key(#[trigger] ids[n]) && wanted(
                listings[ids[n]],
                seller,
            ) implies all.contains(listings[ids[n]]) by {
            if n < front.len() {
                assert(front[n] == ids[n]);
                assert(rest.contains(listings[front[n]]));
                let i = choose|i: int| 0 <= i < rest.len() && rest[i] == listings[front[n]];
                assert(all[i] == listings[ids[n]]);
            } else {
                assert(all[all.len() - 1] == listings[ids[n]]);
            }
        }
    }
}

// ---- the invariant holds at all times ---------------------------------------

/// Beginning to list or to buy, cancelling, and giving the lock back keep
/// the marketplace in order.
pub proof fn lemma_begun_inv(s: Market, caller: ActorId, ticket_id: U256, price: U256)
    requires
        s.inv(),
    ensures
        s.list_error(caller, ticket_id, price) is None ==> s.list_begun(caller, ticket_id, price).inv(),
        s.buy_begun(caller, ticket_id).inv(),
        s.released().inv(),
        s.cancel_next(ticket_id).inv(),
{
}

/// The registry's answer keeps the marketplace in order.
pub proof fn lemma_resume_inv(s: Market, reply: TicketContractReply, now: u64)
    requires
        s.inv(),
    ensures
        s.resume_next(reply, now).inv(),
{
    match s.stage {
        Stage::BuyEvent { listing, buyer } => {
            if s.resume_result(reply, now) is Ok {
                lemma_split_in(event_facts(reply)->0, listing.price);
            }
        },
        _ => {},
    }
}

} // verus!
