use ticketing::actor::ActorId;
use ticketing::num::U256;
use ticketing::vnft_manager::services::ticket_service::{
    BatchMint, PendingMint, PendingResale, PendingTransfer, Progress, TicketErrors, TicketEvents,
    TicketQueryEvents, TicketService, VnftCall,
};
use ticketing::vnft_manager::states::ticket_state::{
    CommissionConfig, Event, ResaleConfig, Ticket, TicketState,
};

fn id(v: u64) -> ActorId {
    ActorId::new(U256::from_u64(v))
}

fn num(v: u64) -> U256 {
    U256::from_u64(v)
}

const ADMIN: u64 = 1;
const VNFT: u64 = 2;
const PROGRAM: u64 = 3;
const ORGANIZER: u64 = 10;
const ALICE: u64 = 20;
const BOB: u64 = 21;
const SCANNER: u64 = 30;

fn refused(reason: TicketErrors) -> TicketEvents {
    TicketEvents::Error(reason)
}

fn commission() -> CommissionConfig {
    CommissionConfig::new(1000, 500).unwrap()
}

fn resale() -> ResaleConfig {
    ResaleConfig::new(true, Some(1_000_000_000_000), Some(100), Some(200)).unwrap()
}

fn manager() -> TicketService {
    let mut svc = TicketService::seed_with_vnft(id(ADMIN), id(VNFT));
    assert_eq!(
        svc.create_event(id(ADMIN), id(ORGANIZER), [9; 32], 1_000, resale(), commission(), 10),
        TicketEvents::EventCreated(1)
    );
    svc
}

fn mint(svc: &mut TicketService, to: u64) -> U256 {
    match svc.mint_ticket(id(ORGANIZER), 1, id(to), None, 50) {
        Progress::Call { pending, .. } => {
            let ticket_id = pending.ticket_id;
            assert_eq!(
                svc.mint_ticket_reply(pending, Ok(())),
                TicketEvents::TicketMinted { ticket_id, event_id: 1, owner: id(to) }
            );
            ticket_id
        }
        other => panic!("unexpected {:?}", other),
    }
}

#[test]
fn commission_config_new_leaves_the_rest_to_the_seller() {
    assert_eq!(
        CommissionConfig::new(1000, 500),
        Ok(CommissionConfig { organizer_percentage: 1000, platform_percentage: 500, seller_percentage: 8500 })
    );
    assert_eq!(
        CommissionConfig::new(10000, 0),
        Ok(CommissionConfig { organizer_percentage: 10000, platform_percentage: 0, seller_percentage: 0 })
    );
    assert_eq!(
        CommissionConfig::new(6000, 4001),
        Err(String::from("La suma de porcentajes no puede exceder 100%"))
    );
    assert_eq!(
        CommissionConfig::new(65535, 65535),
        Err(String::from("La suma de porcentajes no puede exceder 100%"))
    );
    assert!(commission().validate());
    let short = CommissionConfig { organizer_percentage: 1, platform_percentage: 2, seller_percentage: 3 };
    assert!(!short.validate());
    let wrapping =
        CommissionConfig { organizer_percentage: 65535, platform_percentage: 10001, seller_percentage: 0 };
    assert!(!wrapping.validate());
}

#[test]
fn resale_config_new_wants_a_window_that_starts_before_it_ends() {
    assert_eq!(
        ResaleConfig::new(true, None, Some(5), Some(5)),
        Err(String::from("La fecha de inicio debe ser anterior a la fecha de fin"))
    );
    assert_eq!(
        ResaleConfig::new(true, None, Some(6), Some(5)),
        Err(String::from("La fecha de inicio debe ser anterior a la fecha de fin"))
    );
    assert_eq!(
        ResaleConfig::new(false, Some(7), Some(4), None),
        Ok(ResaleConfig { enabled: false, max_price: Some(7), resale_start: Some(4), resale_end: None })
    );
}

#[test]
fn is_resale_allowed_checks_switch_window_and_price() {
    let config = resale();
    assert!(config.is_resale_allowed(100, 1_000_000_000_000));
    assert!(config.is_resale_allowed(199, 1));
    assert!(!config.is_resale_allowed(99, 1));
    // the end of the window is no part of it
    assert!(!config.is_resale_allowed(200, 1));
    assert!(!config.is_resale_allowed(150, 1_000_000_000_001));
    let off = ResaleConfig { enabled: false, ..config };
    assert!(!off.is_resale_allowed(150, 1));
    let open = ResaleConfig { enabled: true, max_price: None, resale_start: None, resale_end: None };
    assert!(open.is_resale_allowed(0, u128::MAX));
}

#[test]
fn ticket_state_starts_with_one_admin() {
    let state = TicketState::new(id(ADMIN));
    assert_eq!(state.platform_admins, vec![id(ADMIN)]);
    assert_eq!(state.next_event_id, 1);
    assert_eq!(state.next_ticket_id, num(1));
    assert_eq!(state.vnft_contract_id, None);
    assert!(state.is_platform_admin(&id(ADMIN)));
    assert!(!state.is_platform_admin(&id(BOB)));
    assert!(!state.is_authorized_scanner(&id(ADMIN)));
    assert!(!state.is_event_organizer(1, &id(ADMIN)));
    assert!(state.get_event(1).is_none());
    assert!(state.get_ticket(&num(1)).is_none());
    let named = TicketState::new_with_vnft(id(ADMIN), id(VNFT));
    assert_eq!(named.vnft_contract_id, Some(id(VNFT)));
    assert_eq!(named.platform_admins, vec![id(ADMIN)]);
}

#[test]
fn ticket_state_hands_out_numbers_in_order() {
    let mut state = TicketState::new(id(ADMIN));
    assert_eq!(state.generate_event_id(), 1);
    assert_eq!(state.generate_event_id(), 2);
    assert_eq!(state.next_event_id, 3);
    assert_eq!(state.generate_ticket_id(), num(1));
    assert_eq!(state.generate_ticket_id(), num(2));
    assert_eq!(state.next_ticket_id, num(3));
    state.next_ticket_id = U256::from_u128(u64::MAX as u128);
    assert_eq!(state.generate_ticket_id(), U256::from_u128(u64::MAX as u128));
    assert_eq!(state.next_ticket_id, U256::from_u128(u64::MAX as u128 + 1));
}

#[test]
fn ticket_state_keeps_lists_per_event_and_user() {
    let mut state = TicketState::new(id(ADMIN));
    state.add_ticket_to_event(1, num(5));
    state.add_ticket_to_event(1, num(6));
    state.add_ticket_to_event(2, num(7));
    assert_eq!(state.event_tickets.get(&1), Some(&vec![num(5), num(6)]));
    assert_eq!(state.event_tickets.get(&2), Some(&vec![num(7)]));
    state.add_ticket_to_user(id(ALICE), num(5));
    state.add_ticket_to_user(id(ALICE), num(6));
    state.add_ticket_to_user(id(ALICE), num(5));
    state.add_ticket_to_user(id(BOB), num(7));
    let alice = id(ALICE).value.key();
    let bob = id(BOB).value.key();
    assert_eq!(state.user_tickets.get(&alice), Some(&vec![num(5), num(6), num(5)]));
    // every occurrence leaves
    state.remove_ticket_from_user(&id(ALICE), &num(5));
    assert_eq!(state.user_tickets.get(&alice), Some(&vec![num(6)]));
    // a ticket that is not in the list changes nothing
    state.remove_ticket_from_user(&id(ALICE), &num(9));
    assert_eq!(state.user_tickets.get(&alice), Some(&vec![num(6)]));
    // a list that becomes empty is dropped
    state.remove_ticket_from_user(&id(BOB), &num(7));
    assert_eq!(state.user_tickets.get(&bob), None);
    // a user without a list stays without
    state.remove_ticket_from_user(&id(SCANNER), &num(7));
    assert_eq!(state.user_tickets.len(), 1);
}

#[test]
fn ticket_state_puts_events_and_tickets_under_their_numbers() {
    let mut state = TicketState::new(id(ADMIN));
    let event = Event {
        event_id: 4,
        organizer: id(ORGANIZER),
        metadata_hash: [1; 32],
        event_start: 99,
        resale_config: resale(),
        commission_config: commission(),
        active: true,
    };
    state.put_event(event);
    assert_eq!(state.get_event(4), Some(&event));
    assert!(state.is_event_organizer(4, &id(ORGANIZER)));
    assert!(!state.is_event_organizer(4, &id(ADMIN)));
    assert!(!state.is_event_organizer(5, &id(ORGANIZER)));
    let big = U256 { w0: 1, w1: 2, w2: 3, w3: 4 };
    let ticket = Ticket {
        ticket_id: big,
        event_id: 4,
        zone_seat: Some(String::from("B7")),
        original_buyer: id(ALICE),
        used: false,
        minted_at: 3,
    };
    state.put_ticket(ticket.clone());
    assert_eq!(state.get_ticket(&big), Some(&ticket));
    assert_eq!(state.get_ticket(&U256 { w0: 4, w1: 3, w2: 2, w3: 1 }), None);
}

#[test]
fn roles_of_the_manager() {
    let mut svc = TicketService::seed(id(ADMIN));
    assert_eq!(svc.add_platform_admin(id(BOB), id(BOB)), refused(TicketErrors::Unauthorized));
    assert_eq!(svc.add_platform_admin(id(ADMIN), id(ADMIN)), refused(TicketErrors::AlreadyAdmin));
    assert_eq!(svc.add_platform_admin(id(ADMIN), id(BOB)), TicketEvents::PlatformAdminAdded(id(BOB)));
    assert_eq!(svc.state_ref().platform_admins, vec![id(ADMIN), id(BOB)]);
    assert_eq!(svc.add_authorized_scanner(id(ALICE), id(SCANNER)), refused(TicketErrors::Unauthorized));
    assert_eq!(
        svc.add_authorized_scanner(id(BOB), id(SCANNER)),
        TicketEvents::AuthorizedScannerAdded(id(SCANNER))
    );
    assert_eq!(
        svc.add_authorized_scanner(id(ADMIN), id(SCANNER)),
        refused(TicketErrors::AlreadyAuthorized)
    );
    assert_eq!(svc.set_vnft_contract(id(ALICE), id(VNFT)), refused(TicketErrors::Unauthorized));
    assert_eq!(svc.state_ref().vnft_contract_id, None);
    assert_eq!(svc.set_vnft_contract(id(ADMIN), id(VNFT)), TicketEvents::VnftContractSet(id(VNFT)));
    assert_eq!(svc.state_ref().vnft_contract_id, Some(id(VNFT)));
    assert_eq!(svc.withdraw_platform_funds(id(ALICE), 5, id(ALICE)), refused(TicketErrors::Unauthorized));
    assert_eq!(
        svc.withdraw_platform_funds(id(ADMIN), 5, id(ALICE)),
        TicketEvents::PlatformFundsWithdrawn { amount: 5, to: id(ALICE) }
    );
}

#[test]
fn events_of_the_manager() {
    let mut svc = TicketService::seed(id(ADMIN));
    let bad = CommissionConfig { organizer_percentage: 1, platform_percentage: 2, seller_percentage: 3 };
    assert_eq!(
        svc.create_event(id(ALICE), id(ORGANIZER), [0; 32], 5, resale(), bad, 10),
        refused(TicketErrors::Unauthorized)
    );
    assert_eq!(
        svc.create_event(id(ORGANIZER), id(ORGANIZER), [0; 32], 5, resale(), bad, 10),
        refused(TicketErrors::InvalidCommissionConfig)
    );
    assert_eq!(
        svc.create_event(id(ORGANIZER), id(ORGANIZER), [0; 32], 10, resale(), commission(), 10),
        refused(TicketErrors::InvalidEventStart)
    );
    // a refusal takes no number
    assert_eq!(svc.state_ref().next_event_id, 1);
    assert_eq!(
        svc.create_event(id(ORGANIZER), id(ORGANIZER), [0; 32], 11, resale(), commission(), 10),
        TicketEvents::EventCreated(1)
    );
    assert_eq!(
        svc.create_event(id(ADMIN), id(ORGANIZER), [0; 32], 11, resale(), commission(), 10),
        TicketEvents::EventCreated(2)
    );
    let open = ResaleConfig { enabled: true, max_price: None, resale_start: None, resale_end: None };
    assert_eq!(svc.update_resale_config(id(ADMIN), 7, open), refused(TicketErrors::EventNotFound));
    assert_eq!(svc.update_resale_config(id(ALICE), 1, open), refused(TicketErrors::Unauthorized));
    assert_eq!(svc.update_resale_config(id(ORGANIZER), 1, open), TicketEvents::ResaleConfigUpdated(1));
    assert_eq!(svc.update_commission_config(id(ADMIN), 7, bad), refused(TicketErrors::EventNotFound));
    assert_eq!(svc.update_commission_config(id(ALICE), 1, bad), refused(TicketErrors::Unauthorized));
    assert_eq!(
        svc.update_commission_config(id(ADMIN), 1, bad),
        refused(TicketErrors::InvalidCommissionConfig)
    );
    let other = CommissionConfig::new(2000, 1000).unwrap();
    assert_eq!(
        svc.update_commission_config(id(ADMIN), 1, other),
        TicketEvents::CommissionConfigUpdated(1)
    );
    assert_eq!(svc.deactivate_event(id(ADMIN), 7), refused(TicketErrors::EventNotFound));
    assert_eq!(svc.deactivate_event(id(ALICE), 2), refused(TicketErrors::Unauthorized));
    assert_eq!(svc.deactivate_event(id(ORGANIZER), 2), TicketEvents::EventDeactivated(2));
    match svc.get_event(1) {
        TicketQueryEvents::Event(event) => {
            assert_eq!(event.resale_config, open);
            assert_eq!(event.commission_config, other);
            assert!(event.active);
            assert_eq!(event.event_start, 11);
        }
        other => panic!("unexpected {:?}", other),
    }
    match svc.get_event(2) {
        TicketQueryEvents::Event(event) => assert!(!event.active),
        other => panic!("unexpected {:?}", other),
    }
    assert_eq!(svc.get_event(3), TicketQueryEvents::Error(TicketErrors::EventNotFound));
}

#[test]
fn mint_ticket_takes_a_number_and_waits() {
    let mut svc = manager();
    assert_eq!(
        svc.mint_ticket(id(ORGANIZER), 9, id(ALICE), None, 50),
        Progress::Done(refused(TicketErrors::EventNotFound))
    );
    assert_eq!(
        svc.mint_ticket(id(ALICE), 1, id(ALICE), None, 50),
        Progress::Done(refused(TicketErrors::Unauthorized))
    );
    assert_eq!(svc.state_ref().next_ticket_id, num(1));
    let begun = svc.mint_ticket(id(ORGANIZER), 1, id(ALICE), Some(String::from("A1")), 50);
    let pending = PendingMint {
        ticket_id: num(1),
        event_id: 1,
        to: id(ALICE),
        zone_seat: Some(String::from("A1")),
        minted_at: 50,
    };
    assert_eq!(
        begun,
        Progress::Call { pending, call: VnftCall::Mint { contract: id(VNFT), to: id(ALICE) } }
    );
    assert_eq!(svc.state_ref().next_ticket_id, num(2));
    assert_eq!(svc.get_ticket(num(1)), TicketQueryEvents::Error(TicketErrors::TicketNotFound));
    let pending = match begun {
        Progress::Call { pending, .. } => pending,
        _ => unreachable!(),
    };
    assert_eq!(
        svc.mint_ticket_reply(pending, Ok(())),
        TicketEvents::TicketMinted { ticket_id: num(1), event_id: 1, owner: id(ALICE) }
    );
    let ticket = Ticket {
        ticket_id: num(1),
        event_id: 1,
        zone_seat: Some(String::from("A1")),
        original_buyer: id(ALICE),
        used: false,
        minted_at: 50,
    };
    assert_eq!(svc.get_ticket(num(1)), TicketQueryEvents::Ticket(ticket.clone()));
    assert_eq!(svc.get_event_tickets(1), TicketQueryEvents::EventTickets(vec![ticket.clone()]));
    assert_eq!(svc.get_user_tickets(id(ALICE)), TicketQueryEvents::UserTickets(vec![ticket]));
    assert_eq!(svc.get_user_tickets(id(BOB)), TicketQueryEvents::UserTickets(vec![]));
    assert_eq!(svc.get_event_tickets(2), TicketQueryEvents::Error(TicketErrors::EventNotFound));
}

#[test]
fn failed_mint_keeps_the_number_and_makes_no_ticket() {
    let mut svc = manager();
    let pending = match svc.mint_ticket(id(ADMIN), 1, id(ALICE), None, 50) {
        Progress::Call { pending, .. } => pending,
        other => panic!("unexpected {:?}", other),
    };
    assert_eq!(
        svc.mint_ticket_reply(pending, Err(String::from("out of gas"))),
        refused(TicketErrors::MintFailed(String::from("out of gas")))
    );
    assert_eq!(svc.get_ticket(num(1)), TicketQueryEvents::Error(TicketErrors::TicketNotFound));
    assert_eq!(svc.get_event_tickets(1), TicketQueryEvents::EventTickets(vec![]));
    assert_eq!(mint(&mut svc, ALICE), num(2));
}

#[test]
fn mint_needs_an_active_event_and_a_contract() {
    let mut svc = TicketService::seed(id(ADMIN));
    assert_eq!(
        svc.create_event(id(ADMIN), id(ORGANIZER), [9; 32], 1_000, resale(), commission(), 10),
        TicketEvents::EventCreated(1)
    );
    assert_eq!(
        svc.mint_ticket(id(ORGANIZER), 1, id(ALICE), None, 50),
        Progress::Done(refused(TicketErrors::VnftContractNotSet))
    );
    assert_eq!(
        svc.batch_mint_tickets(id(ORGANIZER), 1, vec![(id(ALICE), None)], 50),
        Progress::Done(refused(TicketErrors::VnftContractNotSet))
    );
    assert_eq!(
        svc.get_ticket_owner(num(1)),
        Err(TicketQueryEvents::Error(TicketErrors::VnftContractNotSet))
    );
    assert_eq!(svc.deactivate_event(id(ADMIN), 1), TicketEvents::EventDeactivated(1));
    assert_eq!(
        svc.mint_ticket(id(ORGANIZER), 1, id(ALICE), None, 50),
        Progress::Done(refused(TicketErrors::EventInactive))
    );
}

#[test]
fn batch_mint_goes_recipient_by_recipient() {
    let mut svc = manager();
    assert_eq!(
        svc.batch_mint_tickets(id(ORGANIZER), 1, Vec::new(), 60),
        Progress::Done(TicketEvents::TicketsBatchMinted { event_id: 1, count: 0, tickets: vec![] })
    );
    assert_eq!(
        svc.batch_mint_tickets(id(ALICE), 1, vec![(id(ALICE), None)], 60),
        Progress::Done(refused(TicketErrors::Unauthorized))
    );
    let recipients =
        vec![(id(ALICE), Some(String::from("R1"))), (id(BOB), None), (id(ALICE), Some(String::from("R3")))];
    let first = svc.batch_mint_tickets(id(ORGANIZER), 1, recipients.clone(), 60);
    let batch = match first {
        Progress::Call { pending, call } => {
            assert_eq!(call, VnftCall::Mint { contract: id(VNFT), to: id(ALICE) });
            assert_eq!(
                pending,
                BatchMint {
                    contract: id(VNFT),
                    event_id: 1,
                    minted_at: 60,
                    recipients: recipients.clone(),
                    position: 0,
                    ticket_id: num(1),
                    minted: vec![],
                }
            );
            pending
        }
        other => panic!("unexpected {:?}", other),
    };
    let batch = match svc.batch_mint_reply(batch, Ok(())) {
        Progress::Call { pending, call } => {
            assert_eq!(call, VnftCall::Mint { contract: id(VNFT), to: id(BOB) });
            assert_eq!(pending.position, 1);
            assert_eq!(pending.ticket_id, num(2));
            assert_eq!(pending.minted, vec![(num(1), id(ALICE))]);
            pending
        }
        other => panic!("unexpected {:?}", other),
    };
    let batch = match svc.batch_mint_reply(batch, Ok(())) {
        Progress::Call { pending, call } => {
            assert_eq!(call, VnftCall::Mint { contract: id(VNFT), to: id(ALICE) });
            assert_eq!(pending.ticket_id, num(3));
            pending
        }
        other => panic!("unexpected {:?}", other),
    };
    assert_eq!(
        svc.batch_mint_reply(batch, Ok(())),
        Progress::Done(TicketEvents::TicketsBatchMinted {
            event_id: 1,
            count: 3,
            tickets: vec![(num(1), id(ALICE)), (num(2), id(BOB)), (num(3), id(ALICE))],
        })
    );
    match svc.get_user_tickets(id(ALICE)) {
        TicketQueryEvents::UserTickets(tickets) => {
            assert_eq!(tickets.len(), 2);
            assert_eq!(tickets[0].zone_seat, Some(String::from("R1")));
            assert_eq!(tickets[1].zone_seat, Some(String::from("R3")));
            assert_eq!(tickets[1].ticket_id, num(3));
            assert_eq!(tickets[1].minted_at, 60);
        }
        other => panic!("unexpected {:?}", other),
    }
    assert_eq!(svc.state_ref().next_ticket_id, num(4));
}

#[test]
fn batch_mint_stops_at_the_first_failure() {
    let mut svc = manager();
    let recipients = vec![(id(ALICE), None), (id(BOB), None), (id(ALICE), None)];
    let batch = match svc.batch_mint_tickets(id(ORGANIZER), 1, recipients, 60) {
        Progress::Call { pending, .. } => pending,
        other => panic!("unexpected {:?}", other),
    };
    let batch = match svc.batch_mint_reply(batch, Ok(())) {
        Progress::Call { pending, .. } => pending,
        other => panic!("unexpected {:?}", other),
    };
    assert_eq!(
        svc.batch_mint_reply(batch, Err(String::from("no"))),
        Progress::Done(refused(TicketErrors::MintFailed(String::from("no"))))
    );
    // the ticket before the failure stays
    match svc.get_event_tickets(1) {
        TicketQueryEvents::EventTickets(tickets) => {
            assert_eq!(tickets.len(), 1);
            assert_eq!(tickets[0].ticket_id, num(1));
        }
        other => panic!("unexpected {:?}", other),
    }
    assert_eq!(svc.get_user_tickets(id(BOB)), TicketQueryEvents::UserTickets(vec![]));
}

#[test]
fn batch_behind_its_last_recipient_is_reported_as_it_is() {
    let mut svc = manager();
    let stale = BatchMint {
        contract: id(VNFT),
        event_id: 1,
        minted_at: 60,
        recipients: vec![(id(ALICE), None)],
        position: 1,
        ticket_id: num(9),
        minted: vec![(num(8), id(ALICE))],
    };
    assert_eq!(
        svc.batch_mint_reply(stale, Ok(())),
        Progress::Done(TicketEvents::TicketsBatchMinted {
            event_id: 1,
            count: 1,
            tickets: vec![(num(8), id(ALICE))],
        })
    );
    assert_eq!(svc.get_ticket(num(9)), TicketQueryEvents::Error(TicketErrors::TicketNotFound));
}

#[test]
fn list_ticket_for_resale_reports_and_changes_nothing() {
    let mut svc = manager();
    let ticket = mint(&mut svc, ALICE);
    assert_eq!(
        svc.list_ticket_for_resale(id(ALICE), num(5), 10, 150),
        refused(TicketErrors::TicketNotFound)
    );
    assert_eq!(
        svc.list_ticket_for_resale(id(ALICE), ticket, 10, 99),
        refused(TicketErrors::ResaleNotAllowed)
    );
    assert_eq!(
        svc.list_ticket_for_resale(id(ALICE), ticket, 1_000_000_000_001, 150),
        refused(TicketErrors::ResaleNotAllowed)
    );
    assert_eq!(
        svc.list_ticket_for_resale(id(ALICE), ticket, 10, 150),
        TicketEvents::TicketListedForResale { ticket_id: ticket, price: 10, seller: id(ALICE) }
    );
    assert_eq!(svc.add_authorized_scanner(id(ADMIN), id(SCANNER)), TicketEvents::AuthorizedScannerAdded(id(SCANNER)));
    assert_eq!(svc.mark_ticket_as_used(id(SCANNER), ticket), TicketEvents::TicketMarkedAsUsed(ticket));
    assert_eq!(
        svc.list_ticket_for_resale(id(ALICE), ticket, 10, 150),
        refused(TicketErrors::TicketAlreadyUsed)
    );
}

#[test]
fn purchase_goes_through_approval_owner_and_transfer() {
    let mut svc = manager();
    let ticket = mint(&mut svc, ALICE);
    let price: u128 = 500_000_000_000;
    assert_eq!(
        svc.buy_resale_ticket(id(BOB), price - 1, ticket, price, 150, id(PROGRAM)),
        Progress::Done(refused(TicketErrors::InsufficientPayment))
    );
    assert_eq!(
        svc.buy_resale_ticket(id(BOB), price, num(9), price, 150, id(PROGRAM)),
        Progress::Done(refused(TicketErrors::TicketNotFound))
    );
    assert_eq!(
        svc.buy_resale_ticket(id(BOB), price, ticket, price, 250, id(PROGRAM)),
        Progress::Done(refused(TicketErrors::ResaleNotAllowed))
    );
    let pending = PendingResale {
        contract: id(VNFT),
        ticket_id: ticket,
        price,
        buyer: id(BOB),
        program_id: id(PROGRAM),
        commission_config: commission(),
    };
    assert_eq!(
        svc.buy_resale_ticket(id(BOB), price, ticket, price, 150, id(PROGRAM)),
        Progress::Call {
            pending,
            call: VnftCall::GetApproved { contract: id(VNFT), token_id: ticket },
        }
    );
    assert_eq!(
        TicketService::buy_resale_approved(pending, Err(String::from("?"))),
        Progress::Done(refused(TicketErrors::ContractNotApproved))
    );
    assert_eq!(
        TicketService::buy_resale_approved(pending, Ok(id(ALICE))),
        Progress::Done(refused(TicketErrors::ContractNotApproved))
    );
    assert_eq!(
        TicketService::buy_resale_approved(pending, Ok(id(PROGRAM))),
        Progress::Call { pending, call: VnftCall::OwnerOf { contract: id(VNFT), token_id: ticket } }
    );
    assert_eq!(
        TicketService::buy_resale_owner(pending, Err(String::from("?"))),
        Progress::Done(refused(TicketErrors::FailedToGetOwner))
    );
    assert_eq!(
        TicketService::buy_resale_owner(pending, Ok(id(BOB))),
        Progress::Done(refused(TicketErrors::CannotBuyOwnTicket))
    );
    let transfer = PendingTransfer {
        ticket_id: ticket,
        price,
        buyer: id(BOB),
        seller: id(ALICE),
        commission_config: commission(),
    };
    assert_eq!(
        TicketService::buy_resale_owner(pending, Ok(id(ALICE))),
        Progress::Call {
            pending: transfer,
            call: VnftCall::TransferFrom {
                contract: id(VNFT),
                from: id(ALICE),
                to: id(BOB),
                token_id: ticket,
            },
        }
    );
    assert_eq!(
        svc.buy_resale_transferred(transfer, Err(String::from("locked"))),
        refused(TicketErrors::TransferFailed(String::from("locked")))
    );
    match svc.get_user_tickets(id(ALICE)) {
        TicketQueryEvents::UserTickets(tickets) => assert_eq!(tickets.len(), 1),
        other => panic!("unexpected {:?}", other),
    }
    assert_eq!(
        svc.buy_resale_transferred(transfer, Ok(())),
        TicketEvents::TicketResold {
            ticket_id: ticket,
            seller: id(ALICE),
            buyer: id(BOB),
            price,
            organizer_amount: 50_000_000_000,
            platform_amount: 25_000_000_000,
            seller_amount: 425_000_000_000,
        }
    );
    assert_eq!(svc.get_user_tickets(id(ALICE)), TicketQueryEvents::UserTickets(vec![]));
    match svc.get_user_tickets(id(BOB)) {
        TicketQueryEvents::UserTickets(tickets) => {
            assert_eq!(tickets.len(), 1);
            assert_eq!(tickets[0].ticket_id, ticket);
            assert_eq!(tickets[0].original_buyer, id(ALICE));
        }
        other => panic!("unexpected {:?}", other),
    }
}

#[test]
fn seller_gets_what_rounding_leaves() {
    let mut svc = manager();
    let ticket = mint(&mut svc, ALICE);
    let config = CommissionConfig::new(3333, 3333).unwrap();
    let transfer =
        PendingTransfer { ticket_id: ticket, price: 10, buyer: id(BOB), seller: id(ALICE), commission_config: config };
    assert_eq!(
        svc.buy_resale_transferred(transfer, Ok(())),
        TicketEvents::TicketResold {
            ticket_id: ticket,
            seller: id(ALICE),
            buyer: id(BOB),
            price: 10,
            organizer_amount: 3,
            platform_amount: 3,
            seller_amount: 4,
        }
    );
    // the largest price divides without overflow
    let whole = PendingTransfer {
        ticket_id: ticket,
        price: u128::MAX,
        buyer: id(ALICE),
        seller: id(BOB),
        commission_config: CommissionConfig::new(10000, 0).unwrap(),
    };
    assert_eq!(
        svc.buy_resale_transferred(whole, Ok(())),
        TicketEvents::TicketResold {
            ticket_id: ticket,
            seller: id(BOB),
            buyer: id(ALICE),
            price: u128::MAX,
            organizer_amount: u128::MAX,
            platform_amount: 0,
            seller_amount: 0,
        }
    );
    let greedy = PendingTransfer {
        ticket_id: ticket,
        price: 100,
        buyer: id(BOB),
        seller: id(ALICE),
        commission_config: CommissionConfig {
            organizer_percentage: 6000,
            platform_percentage: 6000,
            seller_percentage: 0,
        },
    };
    assert_eq!(
        svc.buy_resale_transferred(greedy, Ok(())),
        refused(TicketErrors::InvalidCommissionConfig)
    );
}

#[test]
fn marking_used_is_for_scanners_and_admins() {
    let mut svc = manager();
    let ticket = mint(&mut svc, ALICE);
    assert_eq!(svc.mark_ticket_as_used(id(ALICE), ticket), refused(TicketErrors::Unauthorized));
    assert_eq!(svc.mark_ticket_as_used(id(ADMIN), num(9)), refused(TicketErrors::TicketNotFound));
    assert_eq!(svc.mark_ticket_as_used(id(ADMIN), ticket), TicketEvents::TicketMarkedAsUsed(ticket));
    assert_eq!(svc.mark_ticket_as_used(id(ADMIN), ticket), refused(TicketErrors::TicketAlreadyUsed));
    match svc.get_ticket(ticket) {
        TicketQueryEvents::Ticket(t) => assert!(t.used),
        other => panic!("unexpected {:?}", other),
    }
    assert_eq!(
        svc.buy_resale_ticket(id(BOB), 10, ticket, 10, 150, id(PROGRAM)),
        Progress::Done(refused(TicketErrors::TicketAlreadyUsed))
    );
}

#[test]
fn batch_marking_reports_each_ticket() {
    let mut svc = manager();
    let a = mint(&mut svc, ALICE);
    let b = mint(&mut svc, BOB);
    let c = mint(&mut svc, BOB);
    assert_eq!(
        svc.batch_mark_tickets_as_used(id(ALICE), vec![a]),
        refused(TicketErrors::Unauthorized)
    );
    assert_eq!(svc.mark_ticket_as_used(id(ADMIN), b), TicketEvents::TicketMarkedAsUsed(b));
    assert_eq!(
        svc.batch_mark_tickets_as_used(id(ADMIN), vec![a, b, num(77), a, c]),
        TicketEvents::TicketsBatchMarkedAsUsed {
            marked: vec![a, c],
            errors: vec![
                (b, String::from("Already used")),
                (num(77), String::from("Not found")),
                (a, String::from("Already used")),
            ],
        }
    );
    for ticket in [a, b, c] {
        match svc.get_ticket(ticket) {
            TicketQueryEvents::Ticket(t) => assert!(t.used),
            other => panic!("unexpected {:?}", other),
        }
    }
    assert_eq!(
        svc.batch_mark_tickets_as_used(id(ADMIN), vec![]),
        TicketEvents::TicketsBatchMarkedAsUsed { marked: vec![], errors: vec![] }
    );
}

#[test]
fn ticket_owner_is_the_contracts_to_tell() {
    let svc = manager();
    assert_eq!(
        svc.get_ticket_owner(num(4)),
        Ok(VnftCall::OwnerOf { contract: id(VNFT), token_id: num(4) })
    );
    assert_eq!(
        TicketService::ticket_owner_reply(Ok(id(ALICE))),
        TicketQueryEvents::TicketOwner(id(ALICE))
    );
    assert_eq!(
        TicketService::ticket_owner_reply(Err(String::from("timeout"))),
        TicketQueryEvents::Error(TicketErrors::QueryFailed(String::from("timeout")))
    );
}

#[test]
fn numbers_that_are_used_up_are_refused() {
    let mut state = TicketState::new_with_vnft(id(ADMIN), id(VNFT));
    state.next_event_id = u64::MAX;
    let mut svc = TicketService::from_state(state);
    // the other checks come first
    assert_eq!(
        svc.create_event(id(ALICE), id(ORGANIZER), [9; 32], 1_000, resale(), commission(), 10),
        refused(TicketErrors::Unauthorized)
    );
    assert_eq!(
        svc.create_event(id(ADMIN), id(ORGANIZER), [9; 32], 5, resale(), commission(), 10),
        refused(TicketErrors::InvalidEventStart)
    );
    assert_eq!(
        svc.create_event(id(ADMIN), id(ORGANIZER), [9; 32], 1_000, resale(), commission(), 10),
        refused(TicketErrors::NumbersExhausted)
    );
    assert_eq!(svc.state_ref().next_event_id, u64::MAX);
    assert_eq!(svc.get_event(u64::MAX), TicketQueryEvents::Error(TicketErrors::EventNotFound));

    let mut state = TicketState::new_with_vnft(id(ADMIN), id(VNFT));
    state.next_event_id = u64::MAX - 1;
    state.next_ticket_id = U256::max_value();
    let mut svc = TicketService::from_state(state);
    // the last event number but one is handed out
    assert_eq!(
        svc.create_event(id(ADMIN), id(ORGANIZER), [9; 32], 1_000, resale(), commission(), 10),
        TicketEvents::EventCreated(u64::MAX - 1)
    );
    let event = u64::MAX - 1;
    assert_eq!(
        svc.mint_ticket(id(ALICE), event, id(ALICE), None, 50),
        Progress::Done(refused(TicketErrors::Unauthorized))
    );
    assert_eq!(
        svc.mint_ticket(id(ORGANIZER), event, id(ALICE), None, 50),
        Progress::Done(refused(TicketErrors::NumbersExhausted))
    );
    assert_eq!(
        svc.batch_mint_tickets(id(ORGANIZER), event, vec![(id(ALICE), None)], 50),
        Progress::Done(refused(TicketErrors::NumbersExhausted))
    );
    // a batch without recipients needs no number
    assert_eq!(
        svc.batch_mint_tickets(id(ORGANIZER), event, Vec::new(), 50),
        Progress::Done(TicketEvents::TicketsBatchMinted { event_id: event, count: 0, tickets: vec![] })
    );
    assert_eq!(svc.state_ref().next_ticket_id, U256::max_value());
}

#[test]
fn batch_ends_where_the_numbers_end() {
    let mut state = TicketState::new_with_vnft(id(ADMIN), id(VNFT));
    let last = U256 { w0: u64::MAX - 1, w1: u64::MAX, w2: u64::MAX, w3: u64::MAX };
    state.next_ticket_id = last;
    let mut svc = TicketService::from_state(state);
    assert_eq!(
        svc.create_event(id(ADMIN), id(ORGANIZER), [9; 32], 1_000, resale(), commission(), 10),
        TicketEvents::EventCreated(1)
    );
    let batch = match svc.batch_mint_tickets(id(ORGANIZER), 1, vec![(id(ALICE), None), (id(BOB), None)], 60) {
        Progress::Call { pending, .. } => pending,
        other => panic!("unexpected {:?}", other),
    };
    assert_eq!(batch.ticket_id, last);
    assert_eq!(svc.state_ref().next_ticket_id, U256::max_value());
    assert_eq!(
        svc.batch_mint_reply(batch, Ok(())),
        Progress::Done(refused(TicketErrors::NumbersExhausted))
    );
    // the ticket that was minted stays
    match svc.get_ticket(last) {
        TicketQueryEvents::Ticket(ticket) => assert_eq!(ticket.original_buyer, id(ALICE)),
        other => panic!("unexpected {:?}", other),
    }
    assert_eq!(svc.get_user_tickets(id(BOB)), TicketQueryEvents::UserTickets(vec![]));
    // a single ticket as the last of a batch needs no further number
    let mut state = TicketState::new_with_vnft(id(ADMIN), id(VNFT));
    state.next_ticket_id = last;
    let mut svc = TicketService::from_state(state);
    assert_eq!(
        svc.create_event(id(ADMIN), id(ORGANIZER), [9; 32], 1_000, resale(), commission(), 10),
        TicketEvents::EventCreated(1)
    );
    let batch = match svc.batch_mint_tickets(id(ORGANIZER), 1, vec![(id(ALICE), None)], 60) {
        Progress::Call { pending, .. } => pending,
        other => panic!("unexpected {:?}", other),
    };
    assert_eq!(
        svc.batch_mint_reply(batch, Ok(())),
        Progress::Done(TicketEvents::TicketsBatchMinted {
            event_id: 1,
            count: 1,
            tickets: vec![(last, id(ALICE))],
        })
    );
}
