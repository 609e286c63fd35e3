//! The marketplace as a service.
//!
//! The marketplace holds the listings and nothing else: what it needs to
//! know of a ticket or an event it asks the registry, each time anew.
//! `list_ticket` and `buy_ticket` take the lock and return the first
//! question; `resume` takes the registry's answer and returns the next
//! question, or ends the operation and gives the lock back.

use vstd::prelude::*;
use crate::actor::ActorId;
use crate::commission::split;
use crate::guard::ReentrancyGuard;
use crate::marketplace::rules::{
    event_facts, event_fault, lemma_begun_inv, lemma_listed_among, lemma_resume_inv, lemma_split_in,
    listed_among, listings_of, lists_the_book, sold, split_in, ticket_facts, ticket_fault, wanted,
    Market, Stage,
};
use crate::marketplace::types::{
    Event, EventInfo, Listing, MarketplaceError, State, Step, TicketContractMessage,
    TicketContractReply, TicketInfo,
};
use crate::num::U256;
use crate::table::Table;

verus! {

/// Everything the marketplace holds.
pub struct Storage {
    admin: ActorId,
    platform_fee_recipient: ActorId,
    ticket_contract_id: ActorId,
    listings: Table<Listing>,
    guard: ReentrancyGuard,
    stage: Stage,
}

impl View for Storage {
    type V = Market;

    closed spec fn view(&self) -> Market {
        Market {
            admin: self.admin,
            platform_fee_recipient: self.platform_fee_recipient,
            ticket_contract_id: self.ticket_contract_id,
            listings: self.listings.entries(),
            stage: self.stage,
        }
    }
}

impl Storage {
    /// The table is in order, the invariant of the marketplace holds, and
    /// the guard is held exactly while an operation is in flight.
    pub closed spec fn wf(&self) -> bool {
        &&& self.listings.wf()
        &&& self@.inv()
        &&& self.guard@ == self@.locked()
    }

    /// A storage that is in order holds a marketplace that is in order: the
    /// laws of the marketplace hold of it.
    pub proof fn lemma_wf_inv(&self)
        requires
            self.wf(),
        ensures
            self@.inv(),
    {
    }

    /// The admin.
    pub fn admin(&self) -> (r: ActorId)
        ensures
            r == self@.admin,
    {
        self.admin
    }

    /// Who receives the platform's share.
    pub fn platform_fee_recipient(&self) -> (r: ActorId)
        ensures
            r == self@.platform_fee_recipient,
    {
        self.platform_fee_recipient
    }

    /// The registry.
    pub fn ticket_contract_id(&self) -> (r: ActorId)
        ensures
            r == self@.ticket_contract_id,
    {
        self.ticket_contract_id
    }

    /// Whether an operation is waiting for the registry.
    pub fn is_locked(&self) -> (r: bool)
        requires
            self.wf(),
        ensures
            r == self@.locked(),
    {
        self.guard.is_locked()
    }
}

/// The facts of a ticket in an answer of the registry, if it holds any.
pub fn get_ticket_info(reply: &TicketContractReply) -> (info: Option<TicketInfo>)
    ensures
        info == ticket_facts(*reply),
{
    match reply {
        TicketContractReply::Ticket(Some(ticket)) => Some(
            TicketInfo {
                ticket_id: ticket.ticket_id,
                event_id: ticket.event_id,
                current_owner: ticket.current_owner,
                used: ticket.used,
            },
        ),
        _ => None,
    }
}

/// The facts of an event in an answer of the registry, if it holds any.
pub fn get_event_info(reply: &TicketContractReply) -> (info: Option<EventInfo>)
    ensures
        info == event_facts(*reply),
{
    match reply {
        TicketContractReply::Event(Some(event)) => Some(
            EventInfo {
                event_id: event.event_id,
                organizer: event.organizer,
                resale_enabled: event.resale_config.enabled,
                max_price: event.resale_config.max_price,
                resale_start_time: event.resale_config.resale_start_time,
                resale_end_time: event.resale_config.resale_end_time,
                seller_percentage: event.commission_config.seller_percentage,
                organizer_percentage: event.commission_config.organizer_percentage,
                platform_percentage: event.commission_config.platform_percentage,
            },
        ),
        _ => None,
    }
}

/// Checks the facts of a ticket that is to be offered or sold for `seller`:
/// the ticket exists, is not used, and is the seller's.
pub fn validate_ticket_for_listing(info: Option<TicketInfo>, seller: ActorId) -> (r: Result<
    TicketInfo,
    MarketplaceError,
>)
    ensures
        match r {
            Ok(ticket) => ticket_fault(info, seller) is None && info == Some(ticket),
            Err(e) => ticket_fault(info, seller) == Some(e),
        },
{
    let ticket = match info {
        Some(ticket) => ticket,
        None => {
            return Err(MarketplaceError::TicketNotFound);
        },
    };
    if ticket.used {
        return Err(MarketplaceError::TicketAlreadyUsed);
    }
    if !ticket.current_owner.same(&seller) {
        return Err(MarketplaceError::TicketNotOwned);
    }
    Ok(ticket)
}

/// Checks the facts of the event of a ticket that is to be offered or sold
/// at `price` at the time `now`: the event exists, allows resale, its
/// window is open, and the price is within its limit.
pub fn validate_event_for_listing(info: Option<EventInfo>, price: &U256, now: u64) -> (r: Result<
    EventInfo,
    MarketplaceError,
>)
    ensures
        match r {
            Ok(event) => event_fault(info, *price, now) is None && info == Some(event),
            Err(e) => event_fault(info, *price, now) == Some(e),
        },
{
    let event = match info {
        Some(event) => event,
        None => {
            return Err(MarketplaceError::TicketNotFound);
        },
    };
    if !event.resale_enabled {
        return Err(MarketplaceError::ResaleDisabled);
    }
    if let Some(start) = event.resale_start_time {
        if now < start {
            return Err(MarketplaceError::ResaleWindowClosed);
        }
    }
    if let Some(end) = event.resale_end_time {
        if now >= end {
            return Err(MarketplaceError::ResaleWindowClosed);
        }
    }
    if let Some(max_price) = event.max_price {
        if price.gt(&max_price) {
            return Err(MarketplaceError::PriceExceedsMaximum);
        }
    }
    Ok(event)
}

/// Whether the registry has answered that the transfer went through.
pub fn transfer_ticket(reply: &TicketContractReply) -> (r: Result<(), MarketplaceError>)
    ensures
        r is Ok <==> *reply is Success,
        r is Err ==> r == Err::<(), MarketplaceError>(MarketplaceError::TransferFailed),
{
    match reply {
        TicketContractReply::Success => Ok(()),
        _ => Err(MarketplaceError::TransferFailed),
    }
}

/// The marketplace.
pub struct MarketplaceService {
    storage: Storage,
}

impl View for MarketplaceService {
    type V = Market;

    closed spec fn view(&self) -> Market {
        self.storage@
    }
}

impl MarketplaceService {
    /// The marketplace's storage is in order.
    pub closed spec fn wf(&self) -> bool {
        self.storage.wf()
    }

    /// The storage that the service works on.
    pub closed spec fn storage(&self) -> Storage {
        self.storage
    }

    /// A service that is in order holds a marketplace that is in order: the
    /// laws of the marketplace hold of it.
    pub proof fn lemma_wf_inv(&self)
        requires
            self.wf(),
        ensures
            self@.inv(),
    {
        self.storage.lemma_wf_inv();
    }

    /// A marketplace without listings.
    pub fn init(admin: ActorId, ticket_contract: ActorId, platform_fee_recipient: ActorId) -> (service:
        MarketplaceService)
        ensures
            service.wf(),
            service@ == Market::initial(admin, ticket_contract, platform_fee_recipient),
    {
        let service = MarketplaceService {
            storage: Storage {
                admin,
                platform_fee_recipient,
                ticket_contract_id: ticket_contract,
                listings: Table::new(),
                guard: ReentrancyGuard::new(),
                stage: Stage::Idle,
            },
        };
        assert(service@ =~= Market::initial(admin, ticket_contract, platform_fee_recipient));
        service
    }

    /// The storage, to read.
    pub fn get(&self) -> (storage: &Storage)
        ensures
            *storage == self.storage(),
            storage@ == self@,
            self.wf() ==> storage.wf(),
    {
        &self.storage
    }

    /// Whether the caller is the admin.
    fn require_admin(&self, caller: &ActorId) -> (allowed: bool)
        ensures
            allowed == (*caller == self@.admin),
    {
        caller.same(&self.storage.admin)
    }

    /// Ends the operation in flight with `error` and gives the lock back.
    fn refuse<T>(&mut self, error: MarketplaceError) -> (r: Result<T, MarketplaceError>)
        requires
            old(self).storage.listings.wf(),
            old(self)@.inv(),
        ensures
            final(self).wf(),
            final(self)@ == old(self)@.released(),
            r == Err::<T, MarketplaceError>(error),
    {
        self.storage.stage = Stage::Idle;
        self.storage.guard.release();
        proof {
            lemma_begun_inv(old(self)@, ActorId::spec_zero(), U256::from_nat(0), U256::from_nat(0));
            assert(self@ =~= old(self)@.released());
        }
        Err(error)
    }

    /// Begins to offer a ticket at `price`; the caller is its seller.
    ///
    /// On success the lock is held and the result is the first question to
    /// the registry. A refusal changes nothing.
    pub fn list_ticket(&mut self, caller: ActorId, ticket_id: U256, price: U256) -> (r: Result<
        TicketContractMessage,
        MarketplaceError,
    >)
        requires
            old(self).wf(),
        ensures
            final(self).wf(),
            match r {
                Ok(call) => {
                    &&& old(self)@.list_error(caller, ticket_id, price) is None
                    &&& final(self)@ == old(self)@.list_begun(caller, ticket_id, price)
                    &&& call == (TicketContractMessage::GetTicketAsync { ticket_id })
                },
                Err(e) => {
                    &&& old(self)@.list_error(caller, ticket_id, price) == Some(e)
                    &&& final(self)@ == old(self)@
                },
            },
    {
        if !self.storage.guard.acquire() {
            return Err(MarketplaceError::ReentrancyDetected);
        }
        if price.is_zero() {
            return self.refuse(MarketplaceError::InvalidPrice);
        }
        if caller.is_zero() {
            return self.refuse(MarketplaceError::InvalidInput);
        }
        if self.storage.listings.contains_key(&ticket_id) {
            return self.refuse(MarketplaceError::TicketAlreadyListed);
        }
        self.storage.stage = Stage::ListTicket { ticket_id, seller: caller, price };
        proof {
            lemma_begun_inv(old(self)@, caller, ticket_id, price);
            assert(self@ =~= old(self)@.list_begun(caller, ticket_id, price));
        }
        Ok(TicketContractMessage::GetTicketAsync { ticket_id })
    }

    /// Begins to buy the ticket on offer; the caller is the buyer.
    ///
    /// On success the lock is held and the result is the first question to
    /// the registry. A refusal changes nothing.
    pub fn buy_ticket(&mut self, caller: ActorId, ticket_id: U256) -> (r: Result<
        TicketContractMessage,
        MarketplaceError,
    >)
        requires
            old(self).wf(),
        ensures
            final(self).wf(),
            match r {
                Ok(call) => {
                    &&& old(self)@.buy_error(caller, ticket_id) is None
                    &&& final(self)@ == old(self)@.buy_begun(caller, ticket_id)
                    &&& call == (TicketContractMessage::GetTicketAsync { ticket_id })
                },
                Err(e) => {
                    &&& old(self)@.buy_error(caller, ticket_id) == Some(e)
                    &&& final(self)@ == old(self)@
                },
            },
    {
        if !self.storage.guard.acquire() {
            return Err(MarketplaceError::ReentrancyDetected);
        }
        if caller.is_zero() {
            return self.refuse(MarketplaceError::InvalidInput);
        }
        let listing = match self.storage.listings.get(&ticket_id) {
            Some(listing) => *listing,
            None => {
                return self.refuse(MarketplaceError::ListingNotFound);
            },
        };
        if caller.same(&listing.seller) {
            return self.refuse(MarketplaceError::InvalidInput);
        }
        self.storage.stage = Stage::BuyTicket { listing, buyer: caller };
        proof {
            lemma_begun_inv(old(self)@, caller, ticket_id, ticket_id);
            assert(self@ =~= old(self)@.buy_begun(caller, ticket_id));
        }
        Ok(TicketContractMessage::GetTicketAsync { ticket_id })
    }

    /// Takes the registry's answer to the question that was returned last,
    /// at the time `now`, and moves the operation in flight on.
    ///
    /// The result is the next question, or the report of the operation, which
    /// is through then, or the error that ends it. An operation that has
    /// ended, in either way, has given the lock back. Before the transfer is
    /// asked for, the listing is taken out of the book; if the transfer
    /// fails, it is put back.
    pub fn resume(&mut self, reply: TicketContractReply, now: u64) -> (r: Result<
        Step,
        MarketplaceError,
    >)
        requires
            old(self).wf(),
        ensures
            final(self).wf(),
            r == old(self)@.resume_result(reply, now),
            final(self)@ == old(self)@.resume_next(reply, now),
    {
        proof {
            lemma_resume_inv(old(self)@, reply, now);
        }
        match self.storage.stage {
            Stage::Idle => Err(MarketplaceError::InvalidInput),
            Stage::ListTicket { ticket_id, seller, price } => {
                match validate_ticket_for_listing(get_ticket_info(&reply), seller) {
                    Err(fault) => self.refuse(fault),
                    Ok(ticket) => {
                        self.storage.stage = Stage::ListEvent {
                            ticket_id,
                            seller,
                            price,
                            event_id: ticket.event_id,
                        };
                        assert(self@ =~= old(self)@.resume_next(reply, now));
                        Ok(
                            Step::Call(
                                TicketContractMessage::GetEventAsync { event_id: ticket.event_id },
                            ),
                        )
                    },
                }
            },
            Stage::ListEvent { ticket_id, seller, price, event_id } => {
                match validate_event_for_listing(get_event_info(&reply), &price, now) {
                    Err(fault) => self.refuse(fault),
                    Ok(_) => {
                        self.storage.listings.insert(
                            ticket_id,
                            Listing { ticket_id, seller, price, listed_at: now, event_id },
                        );
                        self.storage.stage = Stage::Idle;
                        self.storage.guard.release();
                        assert(self@ =~= old(self)@.resume_next(reply, now));
                        Ok(Step::Done(Event::TicketListed { ticket_id, event_id, seller, price }))
                    },
                }
            },
            Stage::BuyTicket { listing, buyer } => {
                match validate_ticket_for_listing(get_ticket_info(&reply), listing.seller) {
                    Err(fault) => self.refuse(fault),
                    Ok(ticket) => {
                        self.storage.stage = Stage::BuyEvent { listing, buyer };
                        assert(self@ =~= old(self)@.resume_next(reply, now));
                        Ok(
                            Step::Call(
                                TicketContractMessage::GetEventAsync { event_id: ticket.event_id },
                            ),
                        )
                    },
                }
            },
            Stage::BuyEvent { listing, buyer } => {
                let event = match validate_event_for_listing(
                    get_event_info(&reply),
                    &listing.price,
                    now,
                ) {
                    Err(fault) => {
                        return self.refuse(fault);
                    },
                    Ok(event) => event,
                };
                let shares = match split(
                    &listing.price,
                    event.seller_percentage,
                    event.organizer_percentage,
                    event.platform_percentage,
                ) {
                    None => {
                        return self.refuse(MarketplaceError::InvalidPrice);
                    },
                    Some(shares) => shares,
                };
                proof {
                    lemma_split_in(event, listing.price);
                    crate::commission::lemma_split_unique(
                        shares,
                        listing.price@,
                        event.seller_percentage as nat,
                        event.organizer_percentage as nat,
                        event.platform_percentage as nat,
                    );
                    assert(shares == split_in(event, listing.price));
                }
                let _ = self.storage.listings.remove(&listing.ticket_id);
                self.storage.stage = Stage::BuyTransfer { listing, buyer, shares };
                assert(self@ =~= old(self)@.resume_next(reply, now));
                Ok(
                    Step::Call(
                        TicketContractMessage::TransferFromMarketplace {
                            ticket_id: listing.ticket_id,
                            buyer,
                            seller: listing.seller,
                            price: listing.price,
                        },
                    ),
                )
            },
            Stage::BuyTransfer { listing, buyer, shares } => {
                match transfer_ticket(&reply) {
                    Ok(_) => {
                        self.storage.stage = Stage::Idle;
                        self.storage.guard.release();
                        assert(self@ =~= old(self)@.resume_next(reply, now));
                        Ok(
                            Step::Done(
                                Event::TicketSold {
                                    ticket_id: listing.ticket_id,
                                    event_id: listing.event_id,
                                    seller: listing.seller,
                                    buyer,
                                    price: listing.price,
                                    seller_share: shares.seller,
                                    organizer_share: shares.organizer,
                                    platform_share: shares.platform,
                                },
                            ),
                        )
                    },
                    Err(fault) => {
                        self.storage.listings.insert(listing.ticket_id, listing);
                        self.storage.stage = Stage::Idle;
                        self.storage.guard.release();
                        assert(self@ =~= old(self)@.resume_next(reply, now));
                        Err(fault)
                    },
                }
            },
        }
    }

    /// Takes a listing out of the book; the caller is its seller.
    pub fn cancel_listing(&mut self, caller: ActorId, ticket_id: U256) -> (r: Result<
        Event,
        MarketplaceError,
    >)
        requires
            old(self).wf(),
        ensures
            final(self).wf(),
            match r {
                Ok(event) => {
                    &&& old(self)@.cancel_error(caller, ticket_id) is None
                    &&& final(self)@ == old(self)@.cancel_next(ticket_id)
                    &&& event == (Event::ListingCancelled {
                        ticket_id,
                        event_id: old(self)@.listings[ticket_id].event_id,
                        seller: caller,
                    })
                },
                Err(e) => {
                    &&& old(self)@.cancel_error(caller, ticket_id) == Some(e)
                    &&& final(self)@ == old(self)@
                },
            },
    {
        let listing = match self.storage.listings.get(&ticket_id) {
            Some(listing) => *listing,
            None => {
                return Err(MarketplaceError::ListingNotFound);
            },
        };
        if !listing.seller.same(&caller) {
            return Err(MarketplaceError::TicketNotOwned);
        }
        let _ = self.storage.listings.remove(&ticket_id);
        proof {
            lemma_begun_inv(old(self)@, caller, ticket_id, ticket_id);
            assert(self@ =~= old(self)@.cancel_next(ticket_id));
        }
        Ok(Event::ListingCancelled { ticket_id, event_id: listing.event_id, seller: caller })
    }

    /// The listing of a ticket, if it is on offer.
    pub fn get_listing(&self, ticket_id: U256) -> (r: Option<Listing>)
        requires
            self.wf(),
        ensures
            self@.listings.contains_key(ticket_id) ==> r == Some(self@.listings[ticket_id]),
            !self@.listings.contains_key(ticket_id) ==> r.is_none(),
    {
        match self.storage.listings.get(&ticket_id) {
            Some(listing) => Some(*listing),
            None => None,
        }
    }

    /// The listings of the book, all of them or those of one seller, each
    /// once.
    fn collect_listings(&self, seller: Option<ActorId>) -> (r: Vec<Listing>)
        requires
            self.wf(),
        ensures
            lists_the_book(r@, self@.listings, seller),
    {
        let count = self.storage.listings.len();
        let ghost order = self.storage.listings.order();
        let mut found: Vec<Listing> = Vec::new();
        let mut i: usize = 0;
        while i < count
            invariant
                self.wf(),
                count == order.len(),
                order == self.storage.listings.order(),
                i <= count,
                found@ == listed_among(self@.listings, order.take(i as int), seller),
            decreases count - i,
        {
            let listing = self.storage.listings.row_at(i);
            proof {
                assert(order.take(i + 1).drop_last() =~= order.take(i as int));
                assert(order.take(i + 1).last() == order[i as int]);
            }
            let wanted = match seller {
                Some(who) => listing.seller.same(&who),
                None => true,
            };
            if wanted {
                found.push(*listing);
            }
            i += 1;
        }
        assert(order.take(count as int) =~= order);
        proof {
            self.storage.listings.lemma_order();
            lemma_listed_among(self@.listings, order, seller);
            assert forall|k: U256| #[trigger]
                self@.listings.contains_key(k) && wanted(self@.listings[k], seller) implies found@.contains(
                self@.listings[k],
            ) by {
                assert(order.contains(k));
                let n = choose|n: int| 0 <= n < order.len() && order[n] == k;
                assert(self@.listings.contains_key(order[n]));
            }
        }
        found
    }

    /// All listings, each once.
    pub fn get_all_listings(&self) -> (r: Vec<Listing>)
        requires
            self.wf(),
        ensures
            lists_the_book(r@, self@.listings, None),
    {
        self.collect_listings(None)
    }

    /// The listings of one seller, each once.
    pub fn get_seller_listings(&self, seller: ActorId) -> (r: Vec<Listing>)
        requires
            self.wf(),
        ensures
            lists_the_book(r@, self@.listings, Some(seller)),
    {
        self.collect_listings(Some(seller))
    }

    /// Everything the marketplace holds, the listings as a list of pairs of
    /// ticket and listing, each listing once.
    pub fn get_storage(&self) -> (state: State)
        requires
            self.wf(),
        ensures
            state.admin == self@.admin,
            state.platform_fee_recipient == self@.platform_fee_recipient,
            state.ticket_contract_id == self@.ticket_contract_id,
            forall|i: int|
                0 <= i < state.listings@.len() ==> (#[trigger] state.listings@[i]).0
                    == state.listings@[i].1.ticket_id,
            lists_the_book(listings_of(state.listings@), self@.listings, None),
    {
        let all = self.collect_listings(None);
        let mut listings: Vec<(U256, Listing)> = Vec::new();
        let mut i: usize = 0;
        while i < all.len()
            invariant
                i <= all@.len(),
                listings@.len() == i,
                forall|j: int|
                    0 <= j < i ==> #[trigger] listings@[j] == (all@[j].ticket_id, all@[j]),
            decreases all@.len() - i,
        {
            listings.push((all[i].ticket_id, all[i]));
            i += 1;
        }
        assert(listings_of(listings@) =~= all@);
        State {
            admin: self.storage.admin,
            platform_fee_recipient: self.storage.platform_fee_recipient,
            ticket_contract_id: self.storage.ticket_contract_id,
            listings,
        }
    }

    /// Hands the administration over to `new_admin`. The caller is the
    /// admin.
    pub fn set_admin(&mut self, caller: ActorId, new_admin: ActorId) -> (r: Result<
        (),
        MarketplaceError,
    >)
        requires
            old(self).wf(),
        ensures
            final(self).wf(),
            match r {
                Ok(_) => old(self)@.admin_error(caller, new_admin) is None && final(self)@ == (Market {
                    admin: new_admin,
                    ..old(self)@
                }),
                Err(e) => old(self)@.admin_error(caller, new_admin) == Some(e) && final(self)@ == old(
                    self,
                )@,
            },
    {
        if !self.require_admin(&caller) {
            return Err(MarketplaceError::Unauthorized);
        }
        if new_admin.is_zero() {
            return Err(MarketplaceError::InvalidInput);
        }
        self.storage.admin = new_admin;
        assert(self@ =~= (Market { admin: new_admin, ..old(self)@ }));
        Ok(())
    }

    /// Names another registry. The caller is the admin.
    pub fn set_ticket_contract(&mut self, caller: ActorId, ticket_contract: ActorId) -> (r: Result<
        (),
        MarketplaceError,
    >)
        requires
            old(self).wf(),
        ensures
            final(self).wf(),
            match r {
                Ok(_) => old(self)@.admin_error(caller, ticket_contract) is None && final(self)@ == (
                Market { ticket_contract_id: ticket_contract, ..old(self)@ }),
                Err(e) => old(self)@.admin_error(caller, ticket_contract) == Some(e) && final(self)@
                    == old(self)@,
            },
    {
        if !self.require_admin(&caller) {
            return Err(MarketplaceError::Unauthorized);
        }
        if ticket_contract.is_zero() {
            return Err(MarketplaceError::InvalidInput);
        }
        self.storage.ticket_contract_id = ticket_contract;
        assert(self@ =~= (Market { ticket_contract_id: ticket_contract, ..old(self)@ }));
        Ok(())
    }

    /// Names another receiver of the platform's share. The caller is the
    /// admin.
    pub fn set_platform_fee_recipient(&mut self, caller: ActorId, recipient: ActorId) -> (r: Result<
        (),
        MarketplaceError,
    >)
        requires
            old(self).wf(),
        ensures
            final(self).wf(),
            match r {
                Ok(_) => old(self)@.admin_error(caller, recipient) is None && final(self)@ == (Market {
                    platform_fee_recipient: recipient,
                    ..old(self)@
                }),
                Err(e) => old(self)@.admin_error(caller, recipient) == Some(e) && final(self)@ == old(
                    self,
                )@,
            },
    {
        if !self.require_admin(&caller) {
            return Err(MarketplaceError::Unauthorized);
        }
        if recipient.is_zero() {
            return Err(MarketplaceError::InvalidInput);
        }
        self.storage.platform_fee_recipient = recipient;
        assert(self@ =~= (Market { platform_fee_recipient: recipient, ..old(self)@ }));
        Ok(())
    }
}

} // verus!
