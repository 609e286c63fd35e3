//! The ticket registry as a service.
//!
//! Every operation takes the caller's identity, and the time where it needs
//! it, as arguments. The two operations that need the asset service,
//! `mint_tickets` and `resell_ticket`, take the lock and return the call that
//! the host is to make; `settle` takes the outcome of that call, finishes or
//! abandons the operation, and gives the lock back.

use vstd::prelude::*;
use crate::actor::{ActorId, ActorSet};
use crate::commission::{split, Shares};
use crate::concert::rules::{
    commission_config_valid, label_at, lemma_create_event_inv, lemma_initial_inv,
    lemma_mark_used_inv, lemma_mint_begun_inv, lemma_mint_settled_inv, lemma_released_inv,
    lemma_resell_begun_inv, lemma_resell_settled_inv, lemma_roles_inv, lemma_split_under,
    lemma_numbers_grow, lemma_with_event_inv, new_ticket_ids,
    numbers_to, owned_among, price_allowed, reports_settlement, resale_config_valid,
    resale_window_open,
    split_under, used_among, with_minted, InFlight, Registry,
};
use crate::concert::types::{
    copy_label, AssetCall, CommissionConfig, Event, EventConfig, EventStats, ResaleConfig, State,
    Ticket, TicketError,
};
use crate::guard::ReentrancyGuard;
use crate::num::{lemma_from_nat, lemma_value_injective, U256};
use crate::table::Table;

verus! {

/// What an operation in flight has to remember until the asset service
/// answers.
enum Pending {
    Idle,
    Mint { event_id: U256, buyer: ActorId, amount: U256, zones: Vec<Option<String>>, minted_at: u64 },
    Resale {
        ticket_id: U256,
        event_id: U256,
        seller: ActorId,
        buyer: ActorId,
        price: U256,
        shares: Shares,
    },
}

impl Pending {
    spec fn view(&self) -> InFlight {
        match *self {
            Pending::Idle => InFlight::Idle,
            Pending::Mint { event_id, buyer, amount, zones, minted_at } => InFlight::Mint {
                event_id,
                buyer,
                amount,
                zones: zones@,
                minted_at,
            },
            Pending::Resale { ticket_id, event_id, seller, buyer, price, shares } => InFlight::Resale {
                ticket_id,
                event_id,
                seller,
                buyer,
                price,
                shares,
            },
        }
    }
}

/// Everything the registry holds.
pub struct Storage {
    admin: ActorId,
    platform_fee_recipient: ActorId,
    vmt_contract_id: ActorId,
    event_id_counter: U256,
    ticket_id_counter: U256,
    events: Table<EventConfig>,
    tickets: Table<Ticket>,
    event_tickets: Table<Vec<U256>>,
    organizers: ActorSet,
    scanners: ActorSet,
    guard: ReentrancyGuard,
    pending: Pending,
}

impl View for Storage {
    type V = Registry;

    closed spec fn view(&self) -> Registry {
        Registry {
            admin: self.admin,
            platform_fee_recipient: self.platform_fee_recipient,
            vmt_contract_id: self.vmt_contract_id,
            event_id_counter: self.event_id_counter@,
            ticket_id_counter: self.ticket_id_counter@,
            events: self.events.entries(),
            tickets: self.tickets.entries(),
            event_tickets: Map::new(
                |k: U256| self.event_tickets.entries().contains_key(k),
                |k: U256| self.event_tickets.entries()[k]@,
            ),
            organizers: self.organizers.members(),
            scanners: self.scanners.members(),
            in_flight: self.pending.view(),
        }
    }
}

impl Storage {
    /// The tables are in order, the invariant of the registry holds, and the
    /// counters count the rows.
    pub closed spec fn wf(&self) -> bool {
        &&& self.wf_but_lock()
        &&& self.guard@ == self@.locked()
    }

    /// All of `wf` but that the guard agrees with what is in flight: this is
    /// what holds between taking the lock and deciding on the operation.
    spec fn wf_but_lock(&self) -> bool {
        &&& self.events.wf()
        &&& self.tickets.wf()
        &&& self.event_tickets.wf()
        &&& self.organizers.wf()
        &&& self.scanners.wf()
        &&& self@.inv()
        &&& self.event_id_counter@ == self.events.order().len()
        &&& self.ticket_id_counter@ == self.tickets.order().len()
        &&& self.event_tickets.order() == self.events.order()
        &&& self.events.order() == numbers_to(self.event_id_counter@)
        &&& self.tickets.order() == numbers_to(self.ticket_id_counter@)
        &&& self.pending matches Pending::Mint { amount, .. } ==> amount@ <= usize::MAX
    }

    /// A storage that is in order holds a registry that is in order, with
    /// room for the numbers that the next operation takes: the laws of the
    /// registry hold of it.
    pub proof fn lemma_wf_inv(&self)
        requires
            self.wf(),
        ensures
            self@.inv(),
            self@.has_room(),
    {
        self.events.lemma_order();
        self.tickets.lemma_order();
    }

    /// The admin.
    pub fn admin(&self) -> (r: ActorId)
        ensures
            r == self@.admin,
    {
        self.admin
    }

    /// Who receives the platform's share.
    pub fn platform_fee_recipient(&self) -> (r: ActorId)
        ensures
            r == self@.platform_fee_recipient,
    {
        self.platform_fee_recipient
    }

    /// The asset service.
    pub fn vmt_contract_id(&self) -> (r: ActorId)
        ensures
            r == self@.vmt_contract_id,
    {
        self.vmt_contract_id
    }

    /// Whether an operation is waiting for the asset service.
    pub fn is_locked(&self) -> (r: bool)
        requires
            self.wf(),
        ensures
            r == self@.locked(),
    {
        self.guard.is_locked()
    }
}

/// Whether a resale window has its start before its end.
pub fn validate_resale_config(config: &ResaleConfig) -> (valid: bool)
    ensures
        valid == resale_config_valid(*config),
{
    match (config.resale_start_time, config.resale_end_time) {
        (Some(start), Some(end)) => start < end,
        _ => true,
    }
}

/// Whether three percentages add up to 10000 basis points.
pub fn validate_commission_config(config: &CommissionConfig) -> (valid: bool)
    ensures
        valid == commission_config_valid(*config),
{
    let total: u32 = config.seller_percentage as u32 + config.organizer_percentage as u32
        + config.platform_percentage as u32;
    total == 10000
}

/// Whether `now` lies in the resale window.
pub fn window_open(config: &ResaleConfig, now: u64) -> (open: bool)
    ensures
        open == resale_window_open(*config, now),
{
    let started = match config.resale_start_time {
        Some(start) => now >= start,
        None => true,
    };
    let running = match config.resale_end_time {
        Some(end) => now < end,
        None => true,
    };
    started && running
}

/// Whether `price` is within the limit of the configuration.
pub fn within_max_price(config: &ResaleConfig, price: &U256) -> (allowed: bool)
    ensures
        allowed == price_allowed(*config, *price),
{
    match config.max_price {
        Some(max_price) => price.le(&max_price),
        None => true,
    }
}

/// The identifiers `base + 1` to `base + count`.
fn ticket_ids_after(base: &U256, count: usize) -> (ids: Vec<U256>)
    requires
        base@ <= usize::MAX,
    ensures
        ids@ == new_ticket_ids(base@, count as nat),
{
    let mut ids: Vec<U256> = Vec::new();
    let mut i: usize = 0;
    while i < count
        invariant
            i <= count,
            base@ <= usize::MAX,
            ids@ == new_ticket_ids(base@, i as nat),
        decreases count - i,
    {
        let id = base.checked_add(&U256::from_usize(i + 1)).unwrap();
        proof {
            lemma_from_nat(base@ + 1 + i as nat);
        }
        ids.push(id);
        i += 1;
        assert(ids@ =~= new_ticket_ids(base@, i as nat));
    }
    ids
}

/// `count` times the number one.
fn ones(count: usize) -> (amounts: Vec<U256>)
    ensures
        amounts@.len() == count,
        forall|i: int| 0 <= i < count ==> (#[trigger] amounts@[i])@ == 1,
{
    let mut amounts: Vec<U256> = Vec::new();
    let mut i: usize = 0;
    while i < count
        invariant
            i <= count,
            amounts@.len() == i,
            forall|j: int| 0 <= j < i ==> (#[trigger] amounts@[j])@ == 1,
        decreases count - i,
    {
        amounts.push(U256::one());
        i += 1;
    }
    amounts
}

/// Puts the tickets of a batch into the table.
fn mint_into(
    tickets: &mut Table<Ticket>,
    ids: &Vec<U256>,
    base: &U256,
    event_id: U256,
    buyer: ActorId,
    zones: &Vec<Option<String>>,
    minted_at: u64,
)
    requires
        old(tickets).wf(),
        ids@ == new_ticket_ids(base@, ids@.len()),
        base@ + ids@.len() < crate::num::limit(),
        base@ == old(tickets).order().len(),
        forall|k: U256| #[trigger] old(tickets).entries().contains_key(k) ==> k@ <= base@,
        zones@.len() == 0 || zones@.len() == ids@.len(),
    ensures
        final(tickets).wf(),
        final(tickets).entries() == with_minted(
            old(tickets).entries(),
            base@,
            ids@.len(),
            event_id,
            buyer,
            zones@,
            minted_at,
        ),
        final(tickets).order() == old(tickets).order() + ids@,
{
    let count = ids.len();
    let labelled = zones.len() > 0;
    let mut i: usize = 0;
    while i < count
        invariant
            i <= count,
            count == ids@.len(),
            labelled == (zones@.len() > 0),
            tickets.wf(),
            ids@ == new_ticket_ids(base@, ids@.len()),
            base@ + ids@.len() < crate::num::limit(),
            zones@.len() == 0 || zones@.len() == ids@.len(),
            forall|k: U256| #[trigger] old(tickets).entries().contains_key(k) ==> k@ <= base@,
            tickets.entries() == with_minted(
                old(tickets).entries(),
                base@,
                i as nat,
                event_id,
                buyer,
                zones@,
                minted_at,
            ),
            tickets.order() == old(tickets).order() + ids@.take(i as int),
        decreases count - i,
    {
        let id = ids[i];
        let zone = if labelled {
            copy_label(&zones[i])
        } else {
            None
        };
        proof {
            lemma_from_nat(base@ + 1 + i as nat);
            assert(id@ == base@ + 1 + i);
            assert(label_at(zones@, id@ - base@ - 1) == zone);
            assert(!tickets.entries().contains_key(id));
        }
        let ghost before = tickets.entries();
        tickets.insert(
            id,
            Ticket {
                ticket_id: id,
                event_id,
                zone,
                original_buyer: buyer,
                current_owner: buyer,
                used: false,
                minted_at,
            },
        );
        i += 1;
        proof {
            let target = with_minted(
                old(tickets).entries(),
                base@,
                i as nat,
                event_id,
                buyer,
                zones@,
                minted_at,
            );
            assert forall|k: U256| target.contains_key(k) implies tickets.entries().contains_key(
                k,
            ) by {
                if !before.contains_key(k) {
                    assert(k@ == base@ + i);
                    lemma_value_injective(k, id);
                }
            }
            assert(tickets.entries() =~= target);
            assert(tickets.order() =~= old(tickets).order() + ids@.take(i as int));
        }
    }
    assert(ids@.take(count as int) =~= ids@);
}

/// A copy of a list of identifiers.
fn copy_ids(ids: &Vec<U256>) -> (copy: Vec<U256>)
    ensures
        copy@ == ids@,
{
    let mut copy: Vec<U256> = Vec::new();
    let mut i: usize = 0;
    while i < ids.len()
        invariant
            i <= ids@.len(),
            copy@ == ids@.take(i as int),
        decreases ids@.len() - i,
    {
        copy.push(ids[i]);
        i += 1;
        assert(copy@ =~= ids@.take(i as int));
    }
    assert(ids@.take(ids@.len() as int) =~= ids@);
    copy
}

/// Appends `ids` to the list kept under `event_id`.
fn append_ids(index: &mut Table<Vec<U256>>, event_id: &U256, ids: &Vec<U256>)
    requires
        old(index).wf(),
        old(index).entries().contains_key(*event_id),
    ensures
        final(index).wf(),
        final(index).entries().dom() == old(index).entries().dom(),
        forall|k: U256|
            k != *event_id && old(index).entries().contains_key(k)
                ==> #[trigger] final(index).entries()[k] == old(index).entries()[k],
        final(index).entries()[*event_id]@ == old(index).entries()[*event_id]@ + ids@,
        final(index).order() == old(index).order(),
{
    let current = index.get(event_id).unwrap();
    let mut list = copy_ids(current);
    let mut j: usize = 0;
    while j < ids.len()
        invariant
            j <= ids@.len(),
            list@ == current@ + ids@.take(j as int),
        decreases ids@.len() - j,
    {
        list.push(ids[j]);
        j += 1;
        assert(list@ =~= current@ + ids@.take(j as int));
    }
    assert(ids@.take(ids@.len() as int) =~= ids@);
    index.insert(*event_id, list);
    assert(index.entries().dom() =~= old(index).entries().dom());
}

/// The members of a set as a list, in the order in which they stand.
fn list_members(set: &ActorSet) -> (members: Vec<ActorId>)
    requires
        set.wf(),
    ensures
        members@ == set.order(),
{
    let mut members: Vec<ActorId> = Vec::new();
    let count = set.len();
    let mut i: usize = 0;
    while i < count
        invariant
            set.wf(),
            count == set.order().len(),
            i <= count,
            members@ == set.order().take(i as int),
        decreases count - i,
    {
        members.push(set.at(i));
        i += 1;
        assert(members@ =~= set.order().take(i as int));
    }
    assert(set.order().take(count as int) =~= set.order());
    members
}

/// The ticket registry.
pub struct TicketService {
    storage: Storage,
}

impl View for TicketService {
    type V = Registry;

    closed spec fn view(&self) -> Registry {
        self.storage@
    }
}

impl TicketService {
    /// The registry's storage is in order.
    pub closed spec fn wf(&self) -> bool {
        self.storage.wf()
    }

    /// The storage that the service works on.
    pub closed spec fn storage(&self) -> Storage {
        self.storage
    }

    /// A service that is in order holds a registry that is in order, with
    /// room for the numbers that the next operation takes: the laws of the
    /// registry hold of it.
    pub proof fn lemma_wf_inv(&self)
        requires
            self.wf(),
        ensures
            self@.inv(),
            self@.has_room(),
    {
        self.storage.lemma_wf_inv();
    }

    /// A registry without events and tickets.
    pub fn init(admin: ActorId, vmt_contract: ActorId, platform_fee_recipient: ActorId) -> (service:
        TicketService)
        ensures
            service.wf(),
            service@ == Registry::initial(admin, vmt_contract, platform_fee_recipient),
    {
        let service = TicketService {
            storage: Storage {
                admin,
                platform_fee_recipient,
                vmt_contract_id: vmt_contract,
                event_id_counter: U256::zero(),
                ticket_id_counter: U256::zero(),
                events: Table::new(),
                tickets: Table::new(),
                event_tickets: Table::new(),
                organizers: ActorSet::new(),
                scanners: ActorSet::new(),
                guard: ReentrancyGuard::new(),
                pending: Pending::Idle,
            },
        };
        proof {
            lemma_initial_inv(admin, vmt_contract, platform_fee_recipient);
            lemma_numbers_grow(0, 0);
            assert(service@ =~= Registry::initial(admin, vmt_contract, platform_fee_recipient));
        }
        service
    }

    /// The storage, to read.
    pub fn get(&self) -> (storage: &Storage)
        ensures
            *storage == self.storage(),
            storage@ == self@,
            self.wf() ==> storage.wf(),
    {
        &self.storage
    }

    /// Whether the caller is the admin.
    fn require_admin(&self, caller: &ActorId) -> (allowed: bool)
        ensures
            allowed == (*caller == self@.admin),
    {
        caller.same(&self.storage.admin)
    }

    /// Whether `who` is the organizer of an event.
    fn owns_event(&self, who: &ActorId) -> (owns: bool)
        requires
            self.wf(),
        ensures
            owns == self@.owns_event(*who),
    {
        let count = self.storage.events.len();
        let ghost order = self.storage.events.order();
        let mut i: usize = 0;
        while i < count
            invariant
                self.wf(),
                order == self.storage.events.order(),
                count == order.len(),
                i <= count,
                forall|j: int| 0 <= j < i ==> self@.events[#[trigger] order[j]].organizer != *who,
            decreases count - i,
        {
            let event = self.storage.events.row_at(i);
            if event.organizer.same(who) {
                assert(self@.events.contains_key(order[i as int]));
                return true;
            }
            i += 1;
        }
        proof {
            self.storage.events.lemma_order();
            assert forall|k: U256| #[trigger] self@.events.contains_key(k) implies self@.events[k].organizer
                != *who by {
                assert(order.contains(k));
                let j = choose|j: int| 0 <= j < order.len() && order[j] == k;
                assert(self@.events[order[j]].organizer != *who);
            }
        }
        false
    }

    /// Whether the caller is the admin or holds the role of an organizer.
    fn require_organizer(&self, caller: &ActorId) -> (allowed: bool)
        requires
            self.wf(),
        ensures
            allowed == self@.may_organize(*caller),
    {
        caller.same(&self.storage.admin) || self.storage.organizers.contains(caller)
            || self.owns_event(caller)
    }

    /// Whether the caller is the admin or a scanner.
    fn require_scanner(&self, caller: &ActorId) -> (allowed: bool)
        requires
            self.wf(),
        ensures
            allowed == self@.may_scan(*caller),
    {
        caller.same(&self.storage.admin) || self.storage.scanners.contains(caller)
    }

    /// Creates an event. The caller is the admin or an organizer; the new
    /// event gets the next identifier, and its organizer joins the
    /// organizers.
    pub fn create_event(
        &mut self,
        caller: ActorId,
        organizer: ActorId,
        metadata_hash: [u8; 32],
        event_start_time: u64,
        tickets_total: U256,
        resale_config: ResaleConfig,
        commission_config: CommissionConfig,
    ) -> (r: Result<Event, TicketError>)
        requires
            old(self).wf(),
        ensures
            final(self).wf(),
            match r {
                Ok(event) => {
                    &&& old(self)@.create_event_error(
                        caller,
                        organizer,
                        tickets_total,
                        resale_config,
                        commission_config,
                    ) is None
                    &&& final(self)@ == old(self)@.create_event_next(
                        organizer,
                        metadata_hash,
                        event_start_time,
                        tickets_total,
                        resale_config,
                        commission_config,
                    )
                    &&& event == (Event::EventCreated {
                        event_id: old(self)@.next_event_id(),
                        organizer,
                        metadata_hash,
                        event_start_time,
                    })
                },
                Err(e) => {
                    &&& old(self)@.create_event_error(
                        caller,
                        organizer,
                        tickets_total,
                        resale_config,
                        commission_config,
                    ) == Some(e)
                    &&& final(self)@ == old(self)@
                },
            },
    {
        if !self.require_organizer(&caller) {
            return Err(TicketError::Unauthorized);
        }
        if organizer.is_zero() {
            return Err(TicketError::InvalidInput);
        }
        if tickets_total.is_zero() {
            return Err(TicketError::InvalidAmount);
        }
        if !validate_resale_config(&resale_config) {
            return Err(TicketError::InvalidResaleConfig);
        }
        if !validate_commission_config(&commission_config) {
            return Err(TicketError::InvalidCommissionConfig);
        }
        let _ = self.storage.events.len();
        proof {
            lemma_create_event_inv(
                old(self)@,
                caller,
                organizer,
                metadata_hash,
                event_start_time,
                tickets_total,
                resale_config,
                commission_config,
            );
            lemma_from_nat(old(self)@.event_id_counter + 1);
        }
        let event_id = self.storage.event_id_counter.checked_add(&U256::one()).unwrap();
        proof {
            assert(event_id == old(self)@.next_event_id());
            if self.storage.event_tickets.entries().contains_key(event_id) {
                assert(old(self)@.event_tickets.contains_key(event_id));
            }
        }
        self.storage.event_id_counter = event_id;
        self.storage.events.insert(
            event_id,
            EventConfig {
                event_id,
                organizer,
                metadata_hash,
                event_start_time,
                tickets_minted: U256::zero(),
                tickets_total,
                resale_config,
                commission_config,
                active: true,
            },
        );
        self.storage.event_tickets.insert(event_id, Vec::new());
        self.storage.organizers.insert(organizer);
        proof {
            let next = old(self)@.create_event_next(
                organizer,
                metadata_hash,
                event_start_time,
                tickets_total,
                resale_config,
                commission_config,
            );
            assert(self@.event_tickets =~= next.event_tickets);
            assert(self@ =~= next);
            lemma_numbers_grow(old(self)@.event_id_counter, 0);
        }
        Ok(Event::EventCreated { event_id, organizer, metadata_hash, event_start_time })
    }

    /// Gives the lock back and refuses with `error`.
    fn refuse<T>(&mut self, error: TicketError) -> (r: Result<T, TicketError>)
        requires
            old(self).storage.pending is Idle,
            old(self).storage.wf_but_lock(),
        ensures
            final(self).wf(),
            final(self)@ == old(self)@,
            r == Err::<T, TicketError>(error),
    {
        self.storage.guard.release();
        Err(error)
    }

    /// Begins the minting of `amount` tickets of an event for `buyer`. The
    /// caller is the admin or the event's organizer. Labels are given for
    /// every ticket or for none.
    ///
    /// On success the lock is held and the result is the call that the host
    /// is to make to the asset service: one token for each new ticket. The
    /// tickets come into being when `settle` is told that the call went
    /// through. A refusal changes nothing.
    ///
    /// The identifiers are handed out in one vector: a batch of more
    /// tickets than a vector holds is refused with `InvalidAmount`, after
    /// every other check.
    pub fn mint_tickets(
        &mut self,
        caller: ActorId,
        event_id: U256,
        buyer: ActorId,
        amount: U256,
        zones: Vec<Option<String>>,
        now: u64,
    ) -> (r: Result<AssetCall, TicketError>)
        requires
            old(self).wf(),
        ensures
            final(self).wf(),
            match r {
                Ok(call) => {
                    &&& old(self)@.mint_error(caller, event_id, buyer, amount, zones@) is None
                    &&& final(self)@ == old(self)@.mint_begun(event_id, buyer, amount, zones@, now)
                    &&& call matches AssetCall::MintBatch { contract, to, token_ids, amounts }
                    &&& contract == old(self)@.vmt_contract_id
                    &&& to == buyer
                    &&& token_ids@ == new_ticket_ids(old(self)@.ticket_id_counter, amount@)
                    &&& amounts@.len() == amount@
                    &&& forall|i: int| 0 <= i < amounts@.len() ==> (#[trigger] amounts@[i])@ == 1
                },
                Err(e) => {
                    &&& old(self)@.mint_error(caller, event_id, buyer, amount, zones@) == Some(e)
                    &&& final(self)@ == old(self)@
                },
            },
    {
        if !self.storage.guard.acquire() {
            return Err(TicketError::ReentrancyDetected);
        }
        if buyer.is_zero() {
            return self.refuse(TicketError::InvalidInput);
        }
        if amount.is_zero() {
            return self.refuse(TicketError::InvalidAmount);
        }
        let event = match self.storage.events.get(&event_id) {
            Some(event) => *event,
            None => {
                return self.refuse(TicketError::EventNotFound);
            },
        };
        if !caller.same(&self.storage.admin) && !caller.same(&event.organizer) {
            return self.refuse(TicketError::Unauthorized);
        }
        if !event.active {
            return self.refuse(TicketError::EventNotActive);
        }
        let available = event.tickets_total.checked_sub(&event.tickets_minted).unwrap();
        if amount.gt(&available) {
            return self.refuse(TicketError::NotEnoughTickets);
        }
        if zones.len() > 0 && !U256::from_usize(zones.len()).same(&amount) {
            return self.refuse(TicketError::InvalidInput);
        }
        let count = match amount.to_usize() {
            Some(count) => count,
            None => {
                return self.refuse(TicketError::InvalidAmount);
            },
        };
        let _ = self.storage.tickets.len();
        let token_ids = ticket_ids_after(&self.storage.ticket_id_counter, count);
        let amounts = ones(count);
        proof {
            lemma_mint_begun_inv(old(self)@, caller, event_id, buyer, amount, zones@, now);
        }
        self.storage.pending = Pending::Mint { event_id, buyer, amount, zones, minted_at: now };
        Ok(
            AssetCall::MintBatch {
                contract: self.storage.vmt_contract_id,
                to: buyer,
                token_ids,
                amounts,
            },
        )
    }

    /// Begins the resale of a ticket to `buyer` at `price`. The caller is
    /// the ticket's owner.
    ///
    /// On success the lock is held and the result is the call that the host
    /// is to make to the asset service. The ticket changes hands when
    /// `settle` is told that the call went through. A refusal changes
    /// nothing.
    pub fn resell_ticket(
        &mut self,
        caller: ActorId,
        ticket_id: U256,
        buyer: ActorId,
        price: U256,
        now: u64,
    ) -> (r: Result<AssetCall, TicketError>)
        requires
            old(self).wf(),
        ensures
            final(self).wf(),
            match r {
                Ok(call) => {
                    &&& old(self)@.resell_error(caller, ticket_id, buyer, price, now) is None
                    &&& final(self)@ == old(self)@.resell_begun(ticket_id, buyer, price)
                    &&& call == (AssetCall::TransferFrom {
                        contract: old(self)@.vmt_contract_id,
                        from: caller,
                        to: buyer,
                        token_id: ticket_id,
                        amount: U256 { w0: 1, w1: 0, w2: 0, w3: 0 },
                    })
                },
                Err(e) => {
                    &&& old(self)@.resell_error(caller, ticket_id, buyer, price, now) == Some(e)
                    &&& final(self)@ == old(self)@
                },
            },
    {
        if !self.storage.guard.acquire() {
            return Err(TicketError::ReentrancyDetected);
        }
        if buyer.is_zero() {
            return self.refuse(TicketError::InvalidInput);
        }
        if price.is_zero() {
            return self.refuse(TicketError::InvalidAmount);
        }
        let (used, owner, event_id) = match self.storage.tickets.get(&ticket_id) {
            Some(ticket) => (ticket.used, ticket.current_owner, ticket.event_id),
            None => {
                return self.refuse(TicketError::TicketNotFound);
            },
        };
        if used {
            return self.refuse(TicketError::TicketAlreadyUsed);
        }
        if !owner.same(&caller) {
            return self.refuse(TicketError::TicketNotOwned);
        }
        if buyer.same(&owner) {
            return self.refuse(TicketError::InvalidInput);
        }
        let event = match self.storage.events.get(&event_id) {
            Some(event) => *event,
            None => {
                return self.refuse(TicketError::EventNotFound);
            },
        };
        if !event.resale_config.enabled {
            return self.refuse(TicketError::ResaleDisabled);
        }
        if !within_max_price(&event.resale_config, &price) {
            return self.refuse(TicketError::PriceExceedsMaximum);
        }
        if !window_open(&event.resale_config, now) {
            return self.refuse(TicketError::ResaleWindowClosed);
        }
        let shares = match split(
            &price,
            event.commission_config.seller_percentage,
            event.commission_config.organizer_percentage,
            event.commission_config.platform_percentage,
        ) {
            Some(shares) => shares,
            None => {
                return self.refuse(TicketError::InvalidCommissionConfig);
            },
        };
        proof {
            lemma_resell_begun_inv(old(self)@, caller, ticket_id, buyer, price, now);
            lemma_split_under(event.commission_config, price);
            crate::commission::lemma_split_unique(
                shares,
                price@,
                event.commission_config.seller_percentage as nat,
                event.commission_config.organizer_percentage as nat,
                event.commission_config.platform_percentage as nat,
            );
            assert(shares == split_under(event.commission_config, price));
        }
        self.storage.pending = Pending::Resale {
            ticket_id,
            event_id,
            seller: owner,
            buyer,
            price,
            shares,
        };
        Ok(
            AssetCall::TransferFrom {
                contract: self.storage.vmt_contract_id,
                from: owner,
                to: buyer,
                token_id: ticket_id,
                amount: U256::one(),
            },
        )
    }

    /// Takes the answer of the asset service to the call that `mint_tickets`
    /// or `resell_ticket` has returned, and gives the lock back.
    ///
    /// After a success the tickets of the batch exist, or the ticket belongs
    /// to its buyer, and the result is the report of it. After a failure
    /// nothing has changed but that the lock is free again, and the result is
    /// `TransferFailed`. Where nothing was in flight, nothing changes and the
    /// result is `InvalidInput`.
    pub fn settle(&mut self, success: bool) -> (r: Result<Event, TicketError>)
        requires
            old(self).wf(),
        ensures
            final(self).wf(),
            final(self)@ == old(self)@.settle_next(success),
            match r {
                Ok(event) => old(self)@.settle_error(success) is None && reports_settlement(
                    old(self)@,
                    event,
                ),
                Err(e) => old(self)@.settle_error(success) == Some(e),
            },
    {
        let mut pending = Pending::Idle;
        core::mem::swap(&mut self.storage.pending, &mut pending);
        match pending {
            Pending::Idle => Err(TicketError::InvalidInput),
            Pending::Mint { event_id, buyer, amount, zones, minted_at } => {
                self.storage.guard.release();
                proof {
                    lemma_released_inv(old(self)@);
                }
                if !success {
                    return Err(TicketError::TransferFailed);
                }
                let count = amount.to_usize().unwrap();
                let base = self.storage.ticket_id_counter;
                let _ = self.storage.tickets.len();
                let ids = ticket_ids_after(&base, count);
                proof {
                    lemma_mint_settled_inv(old(self)@);
                }
                mint_into(&mut self.storage.tickets, &ids, &base, event_id, buyer, &zones, minted_at);
                append_ids(&mut self.storage.event_tickets, &event_id, &ids);
                let event = *self.storage.events.get(&event_id).unwrap();
                let minted = event.tickets_minted.checked_add(&amount).unwrap();
                proof {
                    lemma_from_nat(event.tickets_minted@ + amount@);
                }
                self.storage.events.insert(
                    event_id,
                    EventConfig {
                        event_id: event.event_id,
                        organizer: event.organizer,
                        metadata_hash: event.metadata_hash,
                        event_start_time: event.event_start_time,
                        tickets_minted: minted,
                        tickets_total: event.tickets_total,
                        resale_config: event.resale_config,
                        commission_config: event.commission_config,
                        active: event.active,
                    },
                );
                self.storage.ticket_id_counter = base.checked_add(&amount).unwrap();
                proof {
                    let next = old(self)@.mint_settled();
                    lemma_numbers_grow(old(self)@.ticket_id_counter, amount@);
                    assert(self@.tickets =~= next.tickets);
                    assert(self@.events =~= next.events);
                    assert(self@.event_tickets =~= next.event_tickets);
                    assert(self@ =~= next);
                }
                Ok(Event::TicketsMinted { event_id, ticket_ids: ids, buyer, amount })
            },
            Pending::Resale { ticket_id, event_id, seller, buyer, price, shares } => {
                self.storage.guard.release();
                proof {
                    lemma_released_inv(old(self)@);
                }
                if !success {
                    return Err(TicketError::TransferFailed);
                }
                let ticket = self.storage.tickets.get(&ticket_id).unwrap();
                let updated = Ticket {
                    ticket_id: ticket.ticket_id,
                    event_id: ticket.event_id,
                    zone: copy_label(&ticket.zone),
                    original_buyer: ticket.original_buyer,
                    current_owner: buyer,
                    used: ticket.used,
                    minted_at: ticket.minted_at,
                };
                self.storage.tickets.insert(ticket_id, updated);
                proof {
                    lemma_resell_settled_inv(old(self)@);
                    assert(self@ =~= old(self)@.resell_settled());
                }
                Ok(
                    Event::TicketResold {
                        ticket_id,
                        event_id,
                        seller,
                        buyer,
                        price,
                        seller_share: shares.seller,
                        organizer_share: shares.organizer,
                        platform_share: shares.platform,
                    },
                )
            },
        }
    }

    /// Marks a ticket used. The caller is the admin or a scanner. The mark
    /// is never taken back, and a ticket that bears it is refused.
    pub fn mark_ticket_used(&mut self, caller: ActorId, ticket_id: U256) -> (r: Result<
        Event,
        TicketError,
    >)
        requires
            old(self).wf(),
        ensures
            final(self).wf(),
            match r {
                Ok(event) => {
                    &&& old(self)@.mark_used_error(caller, ticket_id) is None
                    &&& final(self)@ == old(self)@.mark_used_next(ticket_id)
                    &&& event == (Event::TicketUsed {
                        ticket_id,
                        event_id: old(self)@.tickets[ticket_id].event_id,
                        scanner: caller,
                    })
                },
                Err(e) => {
                    &&& old(self)@.mark_used_error(caller, ticket_id) == Some(e)
                    &&& final(self)@ == old(self)@
                },
            },
    {
        if !self.require_scanner(&caller) {
            return Err(TicketError::Unauthorized);
        }
        let ticket = match self.storage.tickets.get(&ticket_id) {
            Some(ticket) => ticket,
            None => {
                return Err(TicketError::TicketNotFound);
            },
        };
        if ticket.used {
            return Err(TicketError::TicketAlreadyUsed);
        }
        let event_id = ticket.event_id;
        let updated = Ticket {
            ticket_id: ticket.ticket_id,
            event_id: ticket.event_id,
            zone: copy_label(&ticket.zone),
            original_buyer: ticket.original_buyer,
            current_owner: ticket.current_owner,
            used: true,
            minted_at: ticket.minted_at,
        };
        self.storage.tickets.insert(ticket_id, updated);
        proof {
            lemma_mark_used_inv(old(self)@, ticket_id);
            assert(self@ =~= old(self)@.mark_used_next(ticket_id));
        }
        Ok(Event::TicketUsed { ticket_id, event_id, scanner: caller })
    }

    /// Makes `organizer` an organizer. The caller is the admin.
    pub fn add_organizer(&mut self, caller: ActorId, organizer: ActorId) -> (r: Result<
        Event,
        TicketError,
    >)
        requires
            old(self).wf(),
        ensures
            final(self).wf(),
            match r {
                Ok(event) => {
                    &&& old(self)@.add_role_error(caller, organizer) is None
                    &&& final(self)@ == (Registry {
                        organizers: old(self)@.organizers.insert(organizer),
                        ..old(self)@
                    })
                    &&& event == (Event::OrganizerAdded { organizer })
                },
                Err(e) => {
                    &&& old(self)@.add_role_error(caller, organizer) == Some(e)
                    &&& final(self)@ == old(self)@
                },
            },
    {
        if !self.require_admin(&caller) {
            return Err(TicketError::Unauthorized);
        }
        if organizer.is_zero() {
            return Err(TicketError::InvalidInput);
        }
        self.storage.organizers.insert(organizer);
        proof {
            lemma_roles_inv(old(self)@, self@.organizers, self@.scanners);
            assert(self@ =~= (Registry {
                organizers: old(self)@.organizers.insert(organizer),
                ..old(self)@
            }));
        }
        Ok(Event::OrganizerAdded { organizer })
    }

    /// Takes `organizer` out of the organizers; nothing changes where it was
    /// none. The caller is the admin.
    pub fn remove_organizer(&mut self, caller: ActorId, organizer: ActorId) -> (r: Result<
        Event,
        TicketError,
    >)
        requires
            old(self).wf(),
        ensures
            final(self).wf(),
            match r {
                Ok(event) => {
                    &&& old(self)@.remove_role_error(caller) is None
                    &&& final(self)@ == (Registry {
                        organizers: old(self)@.organizers.remove(organizer),
                        ..old(self)@
                    })
                    &&& event == (Event::OrganizerRemoved { organizer })
                },
                Err(e) => {
                    &&& old(self)@.remove_role_error(caller) == Some(e)
                    &&& final(self)@ == old(self)@
                },
            },
    {
        if !self.require_admin(&caller) {
            return Err(TicketError::Unauthorized);
        }
        self.storage.organizers.remove(&organizer);
        proof {
            lemma_roles_inv(old(self)@, self@.organizers, self@.scanners);
            assert(self@ =~= (Registry {
                organizers: old(self)@.organizers.remove(organizer),
                ..old(self)@
            }));
        }
        Ok(Event::OrganizerRemoved { organizer })
    }

    /// Makes `scanner` a scanner. The caller is the admin.
    pub fn add_scanner(&mut self, caller: ActorId, scanner: ActorId) -> (r: Result<
        Event,
        TicketError,
    >)
        requires
            old(self).wf(),
        ensures
            final(self).wf(),
            match r {
                Ok(event) => {
                    &&& old(self)@.add_role_error(caller, scanner) is None
                    &&& final(self)@ == (Registry {
                        scanners: old(self)@.scanners.insert(scanner),
                        ..old(self)@
                    })
                    &&& event == (Event::ScannerAdded { scanner })
                },
                Err(e) => {
                    &&& old(self)@.add_role_error(caller, scanner) == Some(e)
                    &&& final(self)@ == old(self)@
                },
            },
    {
        if !self.require_admin(&caller) {
            return Err(TicketError::Unauthorized);
        }
        if scanner.is_zero() {
            return Err(TicketError::InvalidInput);
        }
        self.storage.scanners.insert(scanner);
        proof {
            lemma_roles_inv(old(self)@, self@.organizers, self@.scanners);
            assert(self@ =~= (Registry {
                scanners: old(self)@.scanners.insert(scanner),
                ..old(self)@
            }));
        }
        Ok(Event::ScannerAdded { scanner })
    }

    /// Takes `scanner` out of the scanners; nothing changes where it was
    /// none. The caller is the admin.
    pub fn remove_scanner(&mut self, caller: ActorId, scanner: ActorId) -> (r: Result<
        Event,
        TicketError,
    >)
        requires
            old(self).wf(),
        ensures
            final(self).wf(),
            match r {
                Ok(event) => {
                    &&& old(self)@.remove_role_error(caller) is None
                    &&& final(self)@ == (Registry {
                        scanners: old(self)@.scanners.remove(scanner),
                        ..old(self)@
                    })
                    &&& event == (Event::ScannerRemoved { scanner })
                },
                Err(e) => {
                    &&& old(self)@.remove_role_error(caller) == Some(e)
                    &&& final(self)@ == old(self)@
                },
            },
    {
        if !self.require_admin(&caller) {
            return Err(TicketError::Unauthorized);
        }
        self.storage.scanners.remove(&scanner);
        proof {
            lemma_roles_inv(old(self)@, self@.organizers, self@.scanners);
            assert(self@ =~= (Registry {
                scanners: old(self)@.scanners.remove(scanner),
                ..old(self)@
            }));
        }
        Ok(Event::ScannerRemoved { scanner })
    }

    /// Puts `event` in the place of the event that stands under its
    /// identifier.
    fn replace_event(&mut self, event: EventConfig)
        requires
            old(self).wf(),
            old(self)@.events.contains_key(event.event_id),
            event.tickets_minted == old(self)@.events[event.event_id].tickets_minted,
            event.tickets_total == old(self)@.events[event.event_id].tickets_total,
            resale_config_valid(event.resale_config),
            commission_config_valid(event.commission_config),
        ensures
            final(self).wf(),
            final(self)@ == old(self)@.with_event(event.event_id, event),
    {
        self.storage.events.insert(event.event_id, event);
        proof {
            lemma_with_event_inv(old(self)@, event.event_id, event);
            assert(self@ =~= old(self)@.with_event(event.event_id, event));
        }
    }

    /// Gives an event another resale configuration. The caller is the admin
    /// or the event's organizer.
    pub fn update_resale_config(
        &mut self,
        caller: ActorId,
        event_id: U256,
        resale_config: ResaleConfig,
    ) -> (r: Result<Event, TicketError>)
        requires
            old(self).wf(),
        ensures
            final(self).wf(),
            match r {
                Ok(event) => {
                    &&& old(self)@.update_error(
                        caller,
                        event_id,
                        Registry::resale_fault(resale_config),
                    ) is None
                    &&& final(self)@ == old(self)@.with_event(
                        event_id,
                        EventConfig { resale_config, ..old(self)@.events[event_id] },
                    )
                    &&& event == (Event::EventConfigUpdated { event_id })
                },
                Err(e) => {
                    &&& old(self)@.update_error(
                        caller,
                        event_id,
                        Registry::resale_fault(resale_config),
                    ) == Some(e)
                    &&& final(self)@ == old(self)@
                },
            },
    {
        if !validate_resale_config(&resale_config) {
            return Err(TicketError::InvalidResaleConfig);
        }
        let event = match self.storage.events.get(&event_id) {
            Some(event) => *event,
            None => {
                return Err(TicketError::EventNotFound);
            },
        };
        if !caller.same(&self.storage.admin) && !caller.same(&event.organizer) {
            return Err(TicketError::Unauthorized);
        }
        self.replace_event(
            EventConfig {
                event_id: event.event_id,
                organizer: event.organizer,
                metadata_hash: event.metadata_hash,
                event_start_time: event.event_start_time,
                tickets_minted: event.tickets_minted,
                tickets_total: event.tickets_total,
                resale_config,
                commission_config: event.commission_config,
                active: event.active,
            },
        );
        Ok(Event::EventConfigUpdated { event_id })
    }

    /// Gives an event another commission configuration. The caller is the
    /// admin or the event's organizer.
    pub fn update_commission_config(
        &mut self,
        caller: ActorId,
        event_id: U256,
        commission_config: CommissionConfig,
    ) -> (r: Result<Event, TicketError>)
        requires
            old(self).wf(),
        ensures
            final(self).wf(),
            match r {
                Ok(event) => {
                    &&& old(self)@.update_error(
                        caller,
                        event_id,
                        Registry::commission_fault(commission_config),
                    ) is None
                    &&& final(self)@ == old(self)@.with_event(
                        event_id,
                        EventConfig { commission_config, ..old(self)@.events[event_id] },
                    )
                    &&& event == (Event::EventConfigUpdated { event_id })
                },
                Err(e) => {
                    &&& old(self)@.update_error(
                        caller,
                        event_id,
                        Registry::commission_fault(commission_config),
                    ) == Some(e)
                    &&& final(self)@ == old(self)@
                },
            },
    {
        if !validate_commission_config(&commission_config) {
            return Err(TicketError::InvalidCommissionConfig);
        }
        let event = match self.storage.events.get(&event_id) {
            Some(event) => *event,
            None => {
                return Err(TicketError::EventNotFound);
            },
        };
        if !caller.same(&self.storage.admin) && !caller.same(&event.organizer) {
            return Err(TicketError::Unauthorized);
        }
        self.replace_event(
            EventConfig {
                event_id: event.event_id,
                organizer: event.organizer,
                metadata_hash: event.metadata_hash,
                event_start_time: event.event_start_time,
                tickets_minted: event.tickets_minted,
                tickets_total: event.tickets_total,
                resale_config: event.resale_config,
                commission_config,
                active: event.active,
            },
        );
        Ok(Event::EventConfigUpdated { event_id })
    }

    /// Switches an event on or off. The caller is the admin or the event's
    /// organizer.
    pub fn set_event_active(&mut self, caller: ActorId, event_id: U256, active: bool) -> (r: Result<
        Event,
        TicketError,
    >)
        requires
            old(self).wf(),
        ensures
            final(self).wf(),
            match r {
                Ok(event) => {
                    &&& old(self)@.update_error(caller, event_id, None) is None
                    &&& final(self)@ == old(self)@.with_event(
                        event_id,
                        EventConfig { active, ..old(self)@.events[event_id] },
                    )
                    &&& event == (Event::EventConfigUpdated { event_id })
                },
                Err(e) => {
                    &&& old(self)@.update_error(caller, event_id, None) == Some(e)
                    &&& final(self)@ == old(self)@
                },
            },
    {
        let event = match self.storage.events.get(&event_id) {
            Some(event) => *event,
            None => {
                return Err(TicketError::EventNotFound);
            },
        };
        if !caller.same(&self.storage.admin) && !caller.same(&event.organizer) {
            return Err(TicketError::Unauthorized);
        }
        self.replace_event(
            EventConfig {
                event_id: event.event_id,
                organizer: event.organizer,
                metadata_hash: event.metadata_hash,
                event_start_time: event.event_start_time,
                tickets_minted: event.tickets_minted,
                tickets_total: event.tickets_total,
                resale_config: event.resale_config,
                commission_config: event.commission_config,
                active,
            },
        );
        Ok(Event::EventConfigUpdated { event_id })
    }

    /// The ticket under `ticket_id`, if there is one.
    pub fn get_ticket(&self, ticket_id: U256) -> (r: Option<Ticket>)
        requires
            self.wf(),
        ensures
            self@.tickets.contains_key(ticket_id) ==> r == Some(self@.tickets[ticket_id]),
            !self@.tickets.contains_key(ticket_id) ==> r.is_none(),
    {
        match self.storage.tickets.get(&ticket_id) {
            Some(ticket) => Some(ticket.clone()),
            None => None,
        }
    }

    /// The event under `event_id`, if there is one.
    pub fn get_event(&self, event_id: U256) -> (r: Option<EventConfig>)
        requires
            self.wf(),
        ensures
            self@.events.contains_key(event_id) ==> r == Some(self@.events[event_id]),
            !self@.events.contains_key(event_id) ==> r.is_none(),
    {
        match self.storage.events.get(&event_id) {
            Some(event) => Some(*event),
            None => None,
        }
    }

    /// The tickets of an event in the order of their minting; none for an
    /// event that does not exist.
    pub fn get_event_tickets(&self, event_id: U256) -> (r: Vec<U256>)
        requires
            self.wf(),
        ensures
            self@.event_tickets.contains_key(event_id) ==> r@ == self@.event_tickets[event_id],
            !self@.event_tickets.contains_key(event_id) ==> r@ == Seq::<U256>::empty(),
    {
        match self.storage.event_tickets.get(&event_id) {
            Some(ids) => copy_ids(ids),
            None => Vec::new(),
        }
    }

    /// The tickets that `user` owns, in the order of their minting.
    pub fn get_user_tickets(&self, user: ActorId) -> (r: Vec<Ticket>)
        requires
            self.wf(),
        ensures
            r@ == owned_among(self@.tickets, numbers_to(self@.ticket_id_counter), user),
    {
        let count = self.storage.tickets.len();
        let ghost order = self.storage.tickets.order();
        let mut owned: Vec<Ticket> = Vec::new();
        let mut i: usize = 0;
        while i < count
            invariant
                self.wf(),
                count == order.len(),
                order == self.storage.tickets.order(),
                i <= count,
                owned@ == owned_among(self@.tickets, order.take(i as int), user),
            decreases count - i,
        {
            let ticket = self.storage.tickets.row_at(i);
            proof {
                assert(order.take(i + 1).drop_last() =~= order.take(i as int));
                assert(order.take(i + 1).last() == order[i as int]);
            }
            if ticket.current_owner.same(&user) {
                owned.push(ticket.clone());
            }
            i += 1;
        }
        assert(order.take(count as int) =~= order);
        owned
    }

    /// Whether `address` counts as an organizer: the admin, those the role
    /// was given to and not taken from again, and the organizers of the
    /// events.
    pub fn is_organizer(&self, address: ActorId) -> (r: bool)
        requires
            self.wf(),
        ensures
            r == self@.is_organizer(address),
    {
        self.require_organizer(&address)
    }

    /// Whether `address` counts as a scanner: the scanners and the admin.
    pub fn is_scanner(&self, address: ActorId) -> (r: bool)
        requires
            self.wf(),
        ensures
            r == self@.is_scanner(address),
    {
        self.storage.scanners.contains(&address) || address.same(&self.storage.admin)
    }

    /// The sale of an event in numbers, if the event exists.
    pub fn get_event_stats(&self, event_id: U256) -> (r: Option<EventStats>)
        requires
            self.wf(),
        ensures
            self@.events.contains_key(event_id) ==> r == Some(
                EventStats {
                    event_id,
                    tickets_total: self@.events[event_id].tickets_total,
                    tickets_minted: self@.events[event_id].tickets_minted,
                    tickets_used: used_among(self@.tickets, self@.event_tickets[event_id]) as u64,
                    active: self@.events[event_id].active,
                },
            ),
            !self@.events.contains_key(event_id) ==> r.is_none(),
    {
        let event = match self.storage.events.get(&event_id) {
            Some(event) => *event,
            None => {
                return None;
            },
        };
        let ids = match self.storage.event_tickets.get(&event_id) {
            Some(ids) => ids,
            None => {
                return None;
            },
        };
        let mut used: u64 = 0;
        let mut i: usize = 0;
        while i < ids.len()
            invariant
                self.wf(),
                i <= ids@.len(),
                used == used_among(self@.tickets, ids@.take(i as int)),
                used <= i,
            decreases ids@.len() - i,
        {
            proof {
                assert(ids@.take(i + 1).drop_last() =~= ids@.take(i as int));
                assert(ids@.take(i + 1).last() == ids@[i as int]);
            }
            match self.storage.tickets.get(&ids[i]) {
                Some(ticket) => {
                    if ticket.used {
                        used += 1;
                    }
                },
                None => {},
            }
            i += 1;
        }
        assert(ids@.take(ids@.len() as int) =~= ids@);
        Some(
            EventStats {
                event_id,
                tickets_total: event.tickets_total,
                tickets_minted: event.tickets_minted,
                tickets_used: used,
                active: event.active,
            },
        )
    }

    /// Everything the registry holds, each table as a list in the order of
    /// its rows.
    pub fn get_storage(&self) -> (state: State)
        requires
            self.wf(),
        ensures
            state.admin == self@.admin,
            state.platform_fee_recipient == self@.platform_fee_recipient,
            state.vmt_contract_id == self@.vmt_contract_id,
            state.event_id_counter@ == self@.event_id_counter,
            state.ticket_id_counter@ == self@.ticket_id_counter,
            state.events@.len() == self@.event_id_counter,
            forall|i: int|
                0 <= i < state.events@.len() ==> #[trigger] state.events@[i] == (
                    numbers_to(self@.event_id_counter)[i],
                    self@.events[numbers_to(self@.event_id_counter)[i]],
                ),
            state.tickets@.len() == self@.ticket_id_counter,
            forall|i: int|
                0 <= i < state.tickets@.len() ==> #[trigger] state.tickets@[i] == (
                    numbers_to(self@.ticket_id_counter)[i],
                    self@.tickets[numbers_to(self@.ticket_id_counter)[i]],
                ),
            state.event_tickets@.len() == self@.event_id_counter,
            forall|i: int|
                0 <= i < state.event_tickets@.len() ==> (#[trigger] state.event_tickets@[i]).0
                    == numbers_to(self@.event_id_counter)[i] && state.event_tickets@[i].1@
                    == self@.event_tickets[numbers_to(self@.event_id_counter)[i]],
            state.organizers@.no_duplicates(),
            forall|a: ActorId| state.organizers@.contains(a) <==> self@.organizers.contains(a),
            state.scanners@.no_duplicates(),
            forall|a: ActorId| state.scanners@.contains(a) <==> self@.scanners.contains(a),
    {
        let mut events: Vec<(U256, EventConfig)> = Vec::new();
        let mut event_tickets: Vec<(U256, Vec<U256>)> = Vec::new();
        let event_count = self.storage.events.len();
        let ghost event_order = self.storage.events.order();
        let mut i: usize = 0;
        while i < event_count
            invariant
                self.wf(),
                event_order == self.storage.events.order(),
                event_count == event_order.len(),
                i <= event_count,
                events@.len() == i,
                event_tickets@.len() == i,
                forall|j: int|
                    0 <= j < i ==> #[trigger] events@[j] == (
                        event_order[j],
                        self@.events[event_order[j]],
                    ),
                forall|j: int|
                    0 <= j < i ==> (#[trigger] event_tickets@[j]).0 == event_order[j]
                        && event_tickets@[j].1@ == self@.event_tickets[event_order[j]],
            decreases event_count - i,
        {
            let key = self.storage.events.key_at(i);
            let event = *self.storage.events.row_at(i);
            events.push((key, event));
            let ids = copy_ids(self.storage.event_tickets.row_at(i));
            event_tickets.push((key, ids));
            i += 1;
        }
        let mut tickets: Vec<(U256, Ticket)> = Vec::new();
        let ticket_count = self.storage.tickets.len();
        let ghost ticket_order = self.storage.tickets.order();
        let mut i: usize = 0;
        while i < ticket_count
            invariant
                self.wf(),
                ticket_order == self.storage.tickets.order(),
                ticket_count == ticket_order.len(),
                i <= ticket_count,
                tickets@.len() == i,
                forall|j: int|
                    0 <= j < i ==> #[trigger] tickets@[j] == (
                        ticket_order[j],
                        self@.tickets[ticket_order[j]],
                    ),
            decreases ticket_count - i,
        {
            let key = self.storage.tickets.key_at(i);
            let ticket = self.storage.tickets.row_at(i).clone();
            tickets.push((key, ticket));
            i += 1;
        }
        let organizers = list_members(&self.storage.organizers);
        let scanners = list_members(&self.storage.scanners);
        proof {
            self.storage.organizers.lemma_order();
            self.storage.scanners.lemma_order();
        }
        State {
            admin: self.storage.admin,
            platform_fee_recipient: self.storage.platform_fee_recipient,
            vmt_contract_id: self.storage.vmt_contract_id,
            event_id_counter: self.storage.event_id_counter,
            ticket_id_counter: self.storage.ticket_id_counter,
            events,
            tickets,
            event_tickets,
            organizers,
            scanners,
        }
    }
}

} // verus!
