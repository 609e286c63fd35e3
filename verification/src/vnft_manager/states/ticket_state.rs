//! The state of the ticket manager.
//!
//! The maps are the ordered maps of the standard library. Tickets and users
//! are found by the words of their 256-bit identifiers, most significant
//! first, so that the maps keep them in the order of the numbers. [`Ledger`]
//! is the state seen as mathematical maps, keyed by the identifiers
//! themselves.

use std::collections::BTreeMap;
use vstd::prelude::*;
use crate::actor::ActorId;
use crate::num::{Key, U256};

verus! {

/// How the price of a resale is divided, in basis points.
#[derive(Clone, Copy, Debug, PartialEq, Eq, Structural)]
pub struct CommissionConfig {
    /// The organizer's part.
    pub organizer_percentage: u16,
    /// The platform's part.
    pub platform_percentage: u16,
    /// The seller's part: what the other two leave of 10000.
    pub seller_percentage: u16,
}

/// The message of a commission that claims more than the whole.
pub open spec fn commission_message() -> Seq<char> {
    "La suma de porcentajes no puede exceder 100%"@
}

/// The message of a resale window that ends before it starts.
pub open spec fn window_message() -> Seq<char> {
    "La fecha de inicio debe ser anterior a la fecha de fin"@
}

impl CommissionConfig {
    /// Whether the three parts add up to 10000 basis points.
    pub open spec fn spec_validate(&self) -> bool {
        self.organizer_percentage + self.platform_percentage + self.seller_percentage == 10000
    }

    /// The configuration in which the seller gets what organizer and platform
    /// leave; refused where the two claim more than the whole.
    pub fn new(organizer_percentage: u16, platform_percentage: u16) -> (r: Result<
        CommissionConfig,
        String,
    >)
        ensures
            organizer_percentage + platform_percentage <= 10000 ==> r == Ok::<
                CommissionConfig,
                String,
            >(
                CommissionConfig {
                    organizer_percentage,
                    platform_percentage,
                    seller_percentage: (10000 - organizer_percentage - platform_percentage) as u16,
                },
            ),
            organizer_percentage + platform_percentage > 10000 ==> r is Err && r->Err_0@
                == commission_message(),
            r is Ok ==> r->Ok_0.spec_validate(),
    {
        let claimed: u32 = organizer_percentage as u32 + platform_percentage as u32;
        if claimed > 10000 {
            return Err("La suma de porcentajes no puede exceder 100%".to_owned());
        }
        let seller_percentage: u16 = (10000 - claimed) as u16;
        Ok(CommissionConfig { organizer_percentage, platform_percentage, seller_percentage })
    }

    /// Whether the three parts add up to 10000 basis points.
    pub fn validate(&self) -> (valid: bool)
        ensures
            valid == self.spec_validate(),
    {
        let total: u32 = self.organizer_percentage as u32 + self.platform_percentage as u32
            + self.seller_percentage as u32;
        total == 10000
    }
}

/// When and at what price the tickets of an event may be sold on.
#[derive(Clone, Copy, Debug, PartialEq, Eq)]
pub struct ResaleConfig {
    /// Whether tickets may be sold on at all.
    pub enabled: bool,
    /// The highest price allowed; `None` for no limit.
    pub max_price: Option<u128>,
    /// The start of the resale window; `None` where it is open from the start.
    pub resale_start: Option<u64>,
    /// The end of the resale window, which is no part of it; `None` where it
    /// never closes.
    pub resale_end: Option<u64>,
}

impl ResaleConfig {
    /// Whether a resale at `price` is allowed at the time `current_time`:
    /// resale is enabled, the time lies in the window, and the price is
    /// within the limit.
    pub open spec fn spec_is_resale_allowed(&self, current_time: u64, price: u128) -> bool {
        &&& self.enabled
        &&& self.resale_start is Some ==> current_time >= self.resale_start->0
        &&& self.resale_end is Some ==> current_time < self.resale_end->0
        &&& self.max_price is Some ==> price <= self.max_price->0
    }

    /// A resale configuration; refused where the window does not start
    /// before it ends.
    pub fn new(
        enabled: bool,
        max_price: Option<u128>,
        resale_start: Option<u64>,
        resale_end: Option<u64>,
    ) -> (r: Result<ResaleConfig, String>)
        ensures
            resale_start is Some && resale_end is Some && resale_start->0 >= resale_end->0 ==> r
                is Err && r->Err_0@ == window_message(),
            !(resale_start is Some && resale_end is Some && resale_start->0 >= resale_end->0) ==> r
                == Ok::<ResaleConfig, String>(
                ResaleConfig { enabled, max_price, resale_start, resale_end },
            ),
    {
        if let (Some(start), Some(end)) = (resale_start, resale_end) {
            if start >= end {
                return Err("La fecha de inicio debe ser anterior a la fecha de fin".to_owned());
            }
        }
        Ok(ResaleConfig { enabled, max_price, resale_start, resale_end })
    }

    /// Whether a resale at `price` is allowed at the time `current_time`.
    pub fn is_resale_allowed(&self, current_time: u64, price: u128) -> (allowed: bool)
        ensures
            allowed == self.spec_is_resale_allowed(current_time, price),
    {
        if !self.enabled {
            return false;
        }
        if let Some(start) = self.resale_start {
            if current_time < start {
                return false;
            }
        }
        if let Some(end) = self.resale_end {
            if current_time >= end {
                return false;
            }
        }
        if let Some(max) = self.max_price {
            if price > max {
                return false;
            }
        }
        true
    }
}

/// An event.
#[derive(Clone, Copy, Debug, PartialEq, Eq)]
pub struct Event {
    pub event_id: u64,
    pub organizer: ActorId,
    /// The fingerprint of the event's description, which is kept elsewhere.
    pub metadata_hash: [u8; 32],
    pub event_start: u64,
    pub resale_config: ResaleConfig,
    pub commission_config: CommissionConfig,
    pub active: bool,
}

/// A ticket. Who owns it at present is known to the token contract alone.
#[derive(Debug, PartialEq, Eq)]
pub struct Ticket {
    /// The number of the ticket, which is the number of its token.
    pub ticket_id: U256,
    pub event_id: u64,
    /// Zone or seat, where the ticket names one.
    pub zone_seat: Option<String>,
    /// Who the ticket was minted for.
    pub original_buyer: ActorId,
    /// Set once, at the entrance, and never cleared.
    pub used: bool,
    pub minted_at: u64,
}

impl Clone for Ticket {
    fn clone(&self) -> (copy: Ticket)
        ensures
            copy == *self,
    {
        Ticket {
            ticket_id: self.ticket_id,
            event_id: self.event_id,
            zone_seat: crate::concert::types::copy_label(&self.zone_seat),
            original_buyer: self.original_buyer,
            used: self.used,
            minted_at: self.minted_at,
        }
    }
}

/// Everything the ticket manager holds.
pub struct TicketState {
    /// The admins of the platform.
    pub platform_admins: Vec<ActorId>,
    pub events: BTreeMap<u64, Event>,
    /// The tickets, by the words of their number.
    pub tickets: BTreeMap<Key, Ticket>,
    /// The tickets of each event, in the order of their minting.
    pub event_tickets: BTreeMap<u64, Vec<U256>>,
    /// The tickets of each user, by the words of the user's identity.
    pub user_tickets: BTreeMap<Key, Vec<U256>>,
    /// The number that the next event gets.
    pub next_event_id: u64,
    /// The number that the next ticket gets.
    pub next_ticket_id: U256,
    /// Who may mark tickets used.
    pub authorized_scanners: Vec<ActorId>,
    /// The token contract, once it is named.
    pub vnft_contract_id: Option<ActorId>,
}

/// The state of the ticket manager as mathematics.
#[verifier::ext_equal]
pub struct Ledger {
    pub platform_admins: Seq<ActorId>,
    pub events: Map<u64, Event>,
    pub tickets: Map<U256, Ticket>,
    pub event_tickets: Map<u64, Seq<U256>>,
    pub user_tickets: Map<ActorId, Seq<U256>>,
    pub next_event_id: u64,
    pub next_ticket_id: U256,
    pub authorized_scanners: Seq<ActorId>,
    pub vnft_contract_id: Option<ActorId>,
}

impl View for TicketState {
    type V = Ledger;

    open spec fn view(&self) -> Ledger {
        Ledger {
            platform_admins: self.platform_admins@,
            events: self.events@,
            tickets: Map::new(
                |id: U256| self.tickets@.contains_key(id.spec_key()),
                |id: U256| self.tickets@[id.spec_key()],
            ),
            event_tickets: Map::new(
                |id: u64| self.event_tickets@.contains_key(id),
                |id: u64| self.event_tickets@[id]@,
            ),
            user_tickets: Map::new(
                |user: ActorId| self.user_tickets@.contains_key(user.value.spec_key()),
                |user: ActorId| self.user_tickets@[user.value.spec_key()]@,
            ),
            next_event_id: self.next_event_id,
            next_ticket_id: self.next_ticket_id,
            authorized_scanners: self.authorized_scanners@,
            vnft_contract_id: self.vnft_contract_id,
        }
    }
}

/// The list of a key in a map of lists; the empty list where the map has
/// no such key.
pub open spec fn list_of<K>(lists: Map<K, Seq<U256>>, key: K) -> Seq<U256> {
    if lists.contains_key(key) {
        lists[key]
    } else {
        Seq::empty()
    }
}

/// A list without every occurrence of `ticket_id`.
pub open spec fn without(list: Seq<U256>, ticket_id: U256) -> Seq<U256>
    decreases list.len(),
{
    if list.len() == 0 {
        Seq::empty()
    } else if list.last() == ticket_id {
        without(list.drop_last(), ticket_id)
    } else {
        without(list.drop_last(), ticket_id).push(list.last())
    }
}

impl Ledger {
    /// The state with which the manager starts: one admin, no token
    /// contract, and the numbers of events and tickets beginning at one.
    pub open spec fn initial(admin: ActorId) -> Ledger {
        Ledger {
            platform_admins: seq![admin],
            events: Map::empty(),
            tickets: Map::empty(),
            event_tickets: Map::empty(),
            user_tickets: Map::empty(),
            next_event_id: 1,
            next_ticket_id: U256 { w0: 1, w1: 0, w2: 0, w3: 0 },
            authorized_scanners: Seq::empty(),
            vnft_contract_id: None,
        }
    }

    /// Whether `address` is an admin of the platform.
    pub open spec fn is_platform_admin(self, address: ActorId) -> bool {
        self.platform_admins.contains(address)
    }

    /// Whether `address` may mark tickets used.
    pub open spec fn is_authorized_scanner(self, address: ActorId) -> bool {
        self.authorized_scanners.contains(address)
    }

    /// Whether the event exists and `address` is its organizer.
    pub open spec fn is_event_organizer(self, event_id: u64, address: ActorId) -> bool {
        self.events.contains_key(event_id) && self.events[event_id].organizer == address
    }

    /// The state with `ticket_id` at the end of the event's list.
    pub open spec fn with_event_ticket(self, event_id: u64, ticket_id: U256) -> Ledger {
        Ledger {
            event_tickets: self.event_tickets.insert(
                event_id,
                list_of(self.event_tickets, event_id).push(ticket_id),
            ),
            ..self
        }
    }

    /// The state with `ticket_id` at the end of the user's list.
    pub open spec fn with_user_ticket(self, user: ActorId, ticket_id: U256) -> Ledger {
        Ledger {
            user_tickets: self.user_tickets.insert(
                user,
                list_of(self.user_tickets, user).push(ticket_id),
            ),
            ..self
        }
    }

    /// The state with `ticket_id` taken out of the user's list; a list that
    /// this leaves empty is dropped.
    pub open spec fn without_user_ticket(self, user: ActorId, ticket_id: U256) -> Ledger {
        if !self.user_tickets.contains_key(user) {
            self
        } else if without(self.user_tickets[user], ticket_id).len() == 0 {
            Ledger { user_tickets: self.user_tickets.remove(user), ..self }
        } else {
            Ledger {
                user_tickets: self.user_tickets.insert(
                    user,
                    without(self.user_tickets[user], ticket_id),
                ),
                ..self
            }
        }
    }

    /// The state with `ticket` under its number.
    pub open spec fn with_ticket(self, ticket: Ticket) -> Ledger {
        Ledger { tickets: self.tickets.insert(ticket.ticket_id, ticket), ..self }
    }

    /// The state with `event` under its number.
    pub open spec fn with_event(self, event: Event) -> Ledger {
        Ledger { events: self.events.insert(event.event_id, event), ..self }
    }
}

/// Whether the list holds the identity.
pub fn holds(list: &Vec<ActorId>, address: &ActorId) -> (found: bool)
    ensures
        found == list@.contains(*address),
{
    let mut i: usize = 0;
    while i < list.len()
        invariant
            i <= list@.len(),
            forall|j: int| 0 <= j < i ==> list@[j] != *address,
        decreases list@.len() - i,
    {
        if list[i].same(address) {
            return true;
        }
        i += 1;
    }
    false
}

/// A copy of the list with `ticket_id` at its end.
fn pushed(list: Option<&Vec<U256>>, ticket_id: U256) -> (longer: Vec<U256>)
    ensures
        list is Some ==> longer@ == list->0@.push(ticket_id),
        list is None ==> longer@ == Seq::<U256>::empty().push(ticket_id),
{
    let mut longer: Vec<U256> = Vec::new();
    if let Some(current) = list {
        let mut i: usize = 0;
        while i < current.len()
            invariant
                i <= current@.len(),
                longer@ == current@.take(i as int),
            decreases current@.len() - i,
        {
            longer.push(current[i]);
            i += 1;
            assert(longer@ =~= current@.take(i as int));
        }
        assert(current@.take(current@.len() as int) =~= current@);
    }
    longer.push(ticket_id);
    longer
}

/// A copy of the list without every occurrence of `ticket_id`.
fn filtered(list: &Vec<U256>, ticket_id: &U256) -> (shorter: Vec<U256>)
    ensures
        shorter@ == without(list@, *ticket_id),
{
    let mut shorter: Vec<U256> = Vec::new();
    let mut i: usize = 0;
    while i < list.len()
        invariant
            i <= list@.len(),
            shorter@ == without(list@.take(i as int), *ticket_id),
        decreases list@.len() - i,
    {
        proof {
            assert(list@.take(i + 1).drop_last() =~= list@.take(i as int));
            assert(list@.take(i + 1).last() == list@[i as int]);
        }
        if !list[i].same(ticket_id) {
            shorter.push(list[i]);
        }
        i += 1;
    }
    assert(list@.take(list@.len() as int) =~= list@);
    shorter
}

impl TicketState {
    /// The state with which the manager starts, with `admin` as its one
    /// admin.
    pub fn new(admin: ActorId) -> (state: TicketState)
        ensures
            state@ == Ledger::initial(admin),
    {
        let mut platform_admins: Vec<ActorId> = Vec::new();
        platform_admins.push(admin);
        let state = TicketState {
            platform_admins,
            events: BTreeMap::new(),
            tickets: BTreeMap::new(),
            event_tickets: BTreeMap::new(),
            user_tickets: BTreeMap::new(),
            next_event_id: 1,
            next_ticket_id: U256::one(),
            authorized_scanners: Vec::new(),
            vnft_contract_id: None,
        };
        proof {
            assert(state@.platform_admins =~= seq![admin]);
            crate::num::lemma_value_injective(
                state.next_ticket_id,
                U256 { w0: 1, w1: 0, w2: 0, w3: 0 },
            );
            assert(state@ =~= Ledger::initial(admin));
        }
        state
    }

    /// The starting state with the token contract named.
    pub fn new_with_vnft(admin: ActorId, vnft_contract_id: ActorId) -> (state: TicketState)
        ensures
            state@ == (Ledger { vnft_contract_id: Some(vnft_contract_id), ..Ledger::initial(admin) }),
    {
        let mut state = Self::new(admin);
        state.vnft_contract_id = Some(vnft_contract_id);
        assert(state@ =~= (Ledger {
            vnft_contract_id: Some(vnft_contract_id),
            ..Ledger::initial(admin)
        }));
        state
    }

    /// Whether `address` is an admin of the platform.
    pub fn is_platform_admin(&self, address: &ActorId) -> (r: bool)
        ensures
            r == self@.is_platform_admin(*address),
    {
        holds(&self.platform_admins, address)
    }

    /// Whether the event exists and `address` is its organizer.
    pub fn is_event_organizer(&self, event_id: u64, address: &ActorId) -> (r: bool)
        ensures
            r == self@.is_event_organizer(event_id, *address),
    {
        match self.events.get(&event_id) {
            Some(event) => event.organizer.same(address),
            None => false,
        }
    }

    /// Whether `address` may mark tickets used.
    pub fn is_authorized_scanner(&self, address: &ActorId) -> (r: bool)
        ensures
            r == self@.is_authorized_scanner(*address),
    {
        holds(&self.authorized_scanners, address)
    }

    /// The event under `event_id`, if there is one.
    pub fn get_event(&self, event_id: u64) -> (r: Option<&Event>)
        ensures
            self@.events.contains_key(event_id) ==> r == Some(&self@.events[event_id]),
            !self@.events.contains_key(event_id) ==> r.is_none(),
    {
        self.events.get(&event_id)
    }

    /// The ticket under `ticket_id`, if there is one.
    pub fn get_ticket(&self, ticket_id: &U256) -> (r: Option<&Ticket>)
        ensures
            self@.tickets.contains_key(*ticket_id) ==> r == Some(&self@.tickets[*ticket_id]),
            !self@.tickets.contains_key(*ticket_id) ==> r.is_none(),
    {
        let key = ticket_id.key();
        self.tickets.get(&key)
    }

    /// Puts `ticket` under its number, in the place of the ticket that was
    /// there, if any.
    pub fn put_ticket(&mut self, ticket: Ticket)
        ensures
            final(self)@ == old(self)@.with_ticket(ticket),
    {
        let key = ticket.ticket_id.key();
        self.tickets.insert(key, ticket);
        assert(self@.tickets =~= old(self)@.with_ticket(ticket).tickets);
        assert(self@ =~= old(self)@.with_ticket(ticket));
    }

    /// Puts `event` under its number, in the place of the event that was
    /// there, if any.
    pub fn put_event(&mut self, event: Event)
        ensures
            final(self)@ == old(self)@.with_event(event),
    {
        self.events.insert(event.event_id, event);
        assert(self@ =~= old(self)@.with_event(event));
    }

    /// Puts `ticket_id` at the end of the event's list, which is begun where
    /// the event had none.
    pub fn add_ticket_to_event(&mut self, event_id: u64, ticket_id: U256)
        ensures
            final(self)@ == old(self)@.with_event_ticket(event_id, ticket_id),
    {
        let longer = pushed(self.event_tickets.get(&event_id), ticket_id);
        self.event_tickets.insert(event_id, longer);
        assert(self@.event_tickets =~= old(self)@.with_event_ticket(
            event_id,
            ticket_id,
        ).event_tickets);
        assert(self@ =~= old(self)@.with_event_ticket(event_id, ticket_id));
    }

    /// Puts `ticket_id` at the end of the user's list, which is begun where
    /// the user had none.
    pub fn add_ticket_to_user(&mut self, user: ActorId, ticket_id: U256)
        ensures
            final(self)@ == old(self)@.with_user_ticket(user, ticket_id),
    {
        let key = user.value.key();
        let longer = pushed(self.user_tickets.get(&key), ticket_id);
        self.user_tickets.insert(key, longer);
        assert(self@.user_tickets =~= old(self)@.with_user_ticket(user, ticket_id).user_tickets);
        assert(self@ =~= old(self)@.with_user_ticket(user, ticket_id));
    }

    /// Takes `ticket_id` out of the user's list, and drops the list where
    /// this leaves it empty.
    pub fn remove_ticket_from_user(&mut self, user: &ActorId, ticket_id: &U256)
        ensures
            final(self)@ == old(self)@.without_user_ticket(*user, *ticket_id),
    {
        let key = user.value.key();
        let shorter = match self.user_tickets.get(&key) {
            Some(list) => filtered(list, ticket_id),
            None => {
                assert(self@ =~= old(self)@.without_user_ticket(*user, *ticket_id));
                return ;
            },
        };
        if shorter.len() == 0 {
            self.user_tickets.remove(&key);
        } else {
            self.user_tickets.insert(key, shorter);
        }
        assert(self@.user_tickets =~= old(self)@.without_user_ticket(
            *user,
            *ticket_id,
        ).user_tickets);
        assert(self@ =~= old(self)@.without_user_ticket(*user, *ticket_id));
    }

    /// Hands out the next event number. The numbers end at `u64::MAX`, which
    /// is never handed out.
    pub fn generate_event_id(&mut self) -> (id: u64)
        requires
            old(self).next_event_id < u64::MAX,
        ensures
            id == old(self)@.next_event_id,
            final(self)@ == (Ledger { next_event_id: (id + 1) as u64, ..old(self)@ }),
    {
        let id = self.next_event_id;
        self.next_event_id = id + 1;
        assert(self@ =~= (Ledger { next_event_id: (id + 1) as u64, ..old(self)@ }));
        id
    }

    /// Hands out the next ticket number. The numbers end at 2^256 - 1, which
    /// is never handed out.
    pub fn generate_ticket_id(&mut self) -> (id: U256)
        requires
            old(self).next_ticket_id@ + 1 < crate::num::limit(),
        ensures
            id == old(self)@.next_ticket_id,
            final(self)@.next_ticket_id@ == id@ + 1,
            final(self)@ == (Ledger { next_ticket_id: final(self)@.next_ticket_id, ..old(self)@ }),
    {
        let id = self.next_ticket_id;
        self.next_ticket_id = id.checked_add(&U256::one()).unwrap();
        assert(self@ =~= (Ledger { next_ticket_id: self@.next_ticket_id, ..old(self)@ }));
        id
    }
}

} // verus!
