use ticketing::actor::ActorId;
use ticketing::concert::service::TicketService;
use ticketing::concert::types::{
    AssetCall, CommissionConfig, Event, ResaleConfig, TicketError,
};
use ticketing::num::U256;

fn actor(n: u64) -> ActorId {
    ActorId::new(U256::from_u64(n))
}

fn num(n: u64) -> U256 {
    U256::from_u64(n)
}

const ADMIN: u64 = 1;
const VMT: u64 = 2;
const PLATFORM: u64 = 3;
const ORGANIZER: u64 = 10;
const BUYER: u64 = 20;
const SECOND_BUYER: u64 = 21;
const SCANNER: u64 = 30;

fn open_resale() -> ResaleConfig {
    ResaleConfig { enabled: true, max_price: None, resale_start_time: None, resale_end_time: None }
}

fn commission() -> CommissionConfig {
    CommissionConfig { seller_percentage: 8500, organizer_percentage: 1000, platform_percentage: 500 }
}

fn service() -> TicketService {
    TicketService::init(actor(ADMIN), actor(VMT), actor(PLATFORM))
}

fn service_with_event(resale: ResaleConfig) -> TicketService {
    let mut svc = service();
    let created = svc.create_event(
        actor(ADMIN),
        actor(ORGANIZER),
        [7u8; 32],
        1_000,
        num(100),
        resale,
        commission(),
    );
    assert_eq!(
        created,
        Ok(Event::EventCreated {
            event_id: num(1),
            organizer: actor(ORGANIZER),
            metadata_hash: [7u8; 32],
            event_start_time: 1_000,
        })
    );
    svc
}

fn mint(svc: &mut TicketService, amount: u64) -> Vec<U256> {
    let call = svc
        .mint_tickets(actor(ORGANIZER), num(1), actor(BUYER), num(amount), Vec::new(), 5)
        .unwrap();
    let ids = match call {
        AssetCall::MintBatch { token_ids, .. } => token_ids,
        other => panic!("unexpected call {:?}", other),
    };
    match svc.settle(true) {
        Ok(Event::TicketsMinted { ticket_ids, .. }) => assert_eq!(ticket_ids, ids),
        other => panic!("unexpected result {:?}", other),
    }
    ids
}

#[test]
fn mint_three_labelled_tickets() {
    let mut svc = service_with_event(open_resale());
    let zones = vec![
        Some(String::from("VIP A1")),
        Some(String::from("VIP A2")),
        Some(String::from("VIP A3")),
    ];
    let call = svc.mint_tickets(actor(ORGANIZER), num(1), actor(BUYER), num(3), zones, 42);
    assert_eq!(
        call,
        Ok(AssetCall::MintBatch {
            contract: actor(VMT),
            to: actor(BUYER),
            token_ids: vec![num(1), num(2), num(3)],
            amounts: vec![num(1), num(1), num(1)],
        })
    );
    assert!(svc.get().is_locked());
    // nothing is minted before the asset service has answered
    assert_eq!(svc.get_event(num(1)).unwrap().tickets_minted, num(0));
    assert_eq!(svc.get_ticket(num(1)), None);

    let settled = svc.settle(true);
    assert_eq!(
        settled,
        Ok(Event::TicketsMinted {
            event_id: num(1),
            ticket_ids: vec![num(1), num(2), num(3)],
            buyer: actor(BUYER),
            amount: num(3),
        })
    );
    assert!(!svc.get().is_locked());
    assert_eq!(svc.get_event(num(1)).unwrap().tickets_minted, num(3));
    assert_eq!(svc.get_event_tickets(num(1)), vec![num(1), num(2), num(3)]);
    let labels = ["VIP A1", "VIP A2", "VIP A3"];
    for (i, id) in [1u64, 2, 3].iter().enumerate() {
        let ticket = svc.get_ticket(num(*id)).unwrap();
        assert_eq!(ticket.ticket_id, num(*id));
        assert_eq!(ticket.event_id, num(1));
        assert!(!ticket.used);
        assert_eq!(ticket.zone, Some(String::from(labels[i])));
        assert_eq!(ticket.original_buyer, actor(BUYER));
        assert_eq!(ticket.current_owner, actor(BUYER));
        assert_eq!(ticket.minted_at, 42);
    }
    assert_eq!(svc.get_user_tickets(actor(BUYER)).len(), 3);
    assert_eq!(svc.get_user_tickets(actor(SECOND_BUYER)).len(), 0);
}

#[test]
fn resale_divides_the_price() {
    let mut svc = service_with_event(open_resale());
    mint(&mut svc, 1);
    let price = U256::from_u128(500_000_000_000);
    let call = svc.resell_ticket(actor(BUYER), num(1), actor(SECOND_BUYER), price, 7);
    assert_eq!(
        call,
        Ok(AssetCall::TransferFrom {
            contract: actor(VMT),
            from: actor(BUYER),
            to: actor(SECOND_BUYER),
            token_id: num(1),
            amount: num(1),
        })
    );
    // the ticket changes hands only when the transfer went through
    assert_eq!(svc.get_ticket(num(1)).unwrap().current_owner, actor(BUYER));
    let settled = svc.settle(true);
    assert_eq!(
        settled,
        Ok(Event::TicketResold {
            ticket_id: num(1),
            event_id: num(1),
            seller: actor(BUYER),
            buyer: actor(SECOND_BUYER),
            price,
            seller_share: U256::from_u128(425_000_000_000),
            organizer_share: U256::from_u128(50_000_000_000),
            platform_share: U256::from_u128(25_000_000_000),
        })
    );
    let ticket = svc.get_ticket(num(1)).unwrap();
    assert_eq!(ticket.current_owner, actor(SECOND_BUYER));
    assert_eq!(ticket.original_buyer, actor(BUYER));
}

#[test]
fn create_event_checks_in_order() {
    let mut svc = service();
    let bad_commission =
        CommissionConfig { seller_percentage: 8500, organizer_percentage: 1000, platform_percentage: 501 };
    let bad_resale = ResaleConfig {
        enabled: true,
        max_price: None,
        resale_start_time: Some(10),
        resale_end_time: Some(10),
    };
    let stranger = actor(99);
    assert_eq!(
        svc.create_event(stranger, actor(0), [0; 32], 0, num(0), bad_resale, bad_commission),
        Err(TicketError::Unauthorized)
    );
    assert_eq!(
        svc.create_event(actor(ADMIN), actor(0), [0; 32], 0, num(0), bad_resale, bad_commission),
        Err(TicketError::InvalidInput)
    );
    assert_eq!(
        svc.create_event(actor(ADMIN), actor(ORGANIZER), [0; 32], 0, num(0), bad_resale, bad_commission),
        Err(TicketError::InvalidAmount)
    );
    assert_eq!(
        svc.create_event(actor(ADMIN), actor(ORGANIZER), [0; 32], 0, num(5), bad_resale, bad_commission),
        Err(TicketError::InvalidResaleConfig)
    );
    assert_eq!(
        svc.create_event(actor(ADMIN), actor(ORGANIZER), [0; 32], 0, num(5), open_resale(), bad_commission),
        Err(TicketError::InvalidCommissionConfig)
    );
    assert_eq!(svc.get_event(num(1)), None);
    assert!(!svc.is_organizer(actor(ORGANIZER)));
    assert!(svc
        .create_event(actor(ADMIN), actor(ORGANIZER), [0; 32], 0, num(5), open_resale(), commission())
        .is_ok());
    // the event's organizer is an organizer now, and may create events of its own
    assert!(svc.is_organizer(actor(ORGANIZER)));
    assert_eq!(
        svc.create_event(actor(ORGANIZER), actor(ORGANIZER), [1; 32], 0, num(5), open_resale(), commission()),
        Ok(Event::EventCreated {
            event_id: num(2),
            organizer: actor(ORGANIZER),
            metadata_hash: [1; 32],
            event_start_time: 0,
        })
    );
    let state = svc.get_storage();
    assert_eq!(state.event_id_counter, num(2));
    assert_eq!(state.events.len(), 2);
    assert_eq!(state.events[0].0, num(1));
    assert_eq!(state.events[1].0, num(2));
    assert_eq!(state.event_tickets, vec![(num(1), vec![]), (num(2), vec![])]);
    assert_eq!(state.organizers, vec![actor(ORGANIZER)]);
}

#[test]
fn commission_sum_is_checked_on_update() {
    let mut svc = service_with_event(open_resale());
    let short = CommissionConfig { seller_percentage: 8000, organizer_percentage: 1000, platform_percentage: 500 };
    assert_eq!(
        svc.update_commission_config(actor(ORGANIZER), num(1), short),
        Err(TicketError::InvalidCommissionConfig)
    );
    assert_eq!(svc.get_event(num(1)).unwrap().commission_config, commission());
    let other = CommissionConfig { seller_percentage: 9000, organizer_percentage: 600, platform_percentage: 400 };
    assert_eq!(
        svc.update_commission_config(actor(ORGANIZER), num(1), other),
        Ok(Event::EventConfigUpdated { event_id: num(1) })
    );
    assert_eq!(svc.get_event(num(1)).unwrap().commission_config, other);
    assert_eq!(
        svc.update_commission_config(actor(ORGANIZER), num(9), other),
        Err(TicketError::EventNotFound)
    );
    assert_eq!(
        svc.update_commission_config(actor(77), num(1), other),
        Err(TicketError::Unauthorized)
    );
}

#[test]
fn mint_never_exceeds_capacity() {
    let mut svc = service_with_event(open_resale());
    mint(&mut svc, 60);
    mint(&mut svc, 40);
    assert_eq!(svc.get_event(num(1)).unwrap().tickets_minted, num(100));
    assert_eq!(
        svc.mint_tickets(actor(ORGANIZER), num(1), actor(BUYER), num(1), Vec::new(), 5),
        Err(TicketError::NotEnoughTickets)
    );
    assert!(!svc.get().is_locked());
    let state = svc.get_storage();
    assert_eq!(state.tickets.len(), 100);
    assert_eq!(state.ticket_id_counter, num(100));
    assert_eq!(svc.get_event(num(1)).unwrap().tickets_minted, num(100));
}

#[test]
fn mint_checks_in_order() {
    let mut svc = service_with_event(open_resale());
    let org = actor(ORGANIZER);
    assert_eq!(
        svc.mint_tickets(org, num(1), actor(0), num(0), Vec::new(), 0),
        Err(TicketError::InvalidInput)
    );
    assert_eq!(
        svc.mint_tickets(org, num(1), actor(BUYER), num(0), Vec::new(), 0),
        Err(TicketError::InvalidAmount)
    );
    assert_eq!(
        svc.mint_tickets(org, num(2), actor(BUYER), num(1), Vec::new(), 0),
        Err(TicketError::EventNotFound)
    );
    assert_eq!(
        svc.mint_tickets(actor(BUYER), num(1), actor(BUYER), num(1), Vec::new(), 0),
        Err(TicketError::Unauthorized)
    );
    assert_eq!(
        svc.mint_tickets(org, num(1), actor(BUYER), num(101), Vec::new(), 0),
        Err(TicketError::NotEnoughTickets)
    );
    assert_eq!(
        svc.mint_tickets(org, num(1), actor(BUYER), num(2), vec![None], 0),
        Err(TicketError::InvalidInput)
    );
    assert_eq!(svc.set_event_active(org, num(1), false), Ok(Event::EventConfigUpdated { event_id: num(1) }));
    assert_eq!(
        svc.mint_tickets(org, num(1), actor(BUYER), num(1), Vec::new(), 0),
        Err(TicketError::EventNotActive)
    );
    assert!(!svc.get().is_locked());
    assert_eq!(svc.get_storage().tickets.len(), 0);
}

#[test]
fn failed_mint_leaves_no_tickets() {
    let mut svc = service_with_event(open_resale());
    assert!(svc
        .mint_tickets(actor(ORGANIZER), num(1), actor(BUYER), num(4), Vec::new(), 5)
        .is_ok());
    assert_eq!(svc.settle(false), Err(TicketError::TransferFailed));
    assert!(!svc.get().is_locked());
    assert_eq!(svc.get_event(num(1)).unwrap().tickets_minted, num(0));
    assert_eq!(svc.get_storage().tickets.len(), 0);
    assert_eq!(svc.get_storage().ticket_id_counter, num(0));
    // the identifiers are handed out again
    assert_eq!(mint(&mut svc, 2), vec![num(1), num(2)]);
}

#[test]
fn overlapping_calls_are_refused() {
    let mut svc = service_with_event(open_resale());
    mint(&mut svc, 2);
    assert!(svc
        .mint_tickets(actor(ORGANIZER), num(1), actor(BUYER), num(1), Vec::new(), 5)
        .is_ok());
    assert_eq!(
        svc.mint_tickets(actor(ORGANIZER), num(1), actor(BUYER), num(1), Vec::new(), 5),
        Err(TicketError::ReentrancyDetected)
    );
    assert_eq!(
        svc.resell_ticket(actor(BUYER), num(1), actor(SECOND_BUYER), num(10), 5),
        Err(TicketError::ReentrancyDetected)
    );
    // the first call still holds the lock
    assert!(svc.get().is_locked());
    assert!(svc.settle(true).is_ok());
    assert!(svc
        .resell_ticket(actor(BUYER), num(1), actor(SECOND_BUYER), num(10), 5)
        .is_ok());
    assert_eq!(
        svc.resell_ticket(actor(BUYER), num(2), actor(SECOND_BUYER), num(10), 5),
        Err(TicketError::ReentrancyDetected)
    );
    assert_eq!(svc.settle(false), Err(TicketError::TransferFailed));
    assert_eq!(svc.get_ticket(num(1)).unwrap().current_owner, actor(BUYER));
    assert_eq!(svc.settle(true), Err(TicketError::InvalidInput));
}

#[test]
fn used_ticket_is_refused() {
    let mut svc = service_with_event(open_resale());
    mint(&mut svc, 1);
    assert_eq!(svc.add_scanner(actor(ADMIN), actor(SCANNER)), Ok(Event::ScannerAdded { scanner: actor(SCANNER) }));
    assert_eq!(
        svc.mark_ticket_used(actor(BUYER), num(1)),
        Err(TicketError::Unauthorized)
    );
    assert_eq!(
        svc.mark_ticket_used(actor(SCANNER), num(5)),
        Err(TicketError::TicketNotFound)
    );
    assert_eq!(
        svc.mark_ticket_used(actor(SCANNER), num(1)),
        Ok(Event::TicketUsed { ticket_id: num(1), event_id: num(1), scanner: actor(SCANNER) })
    );
    assert!(svc.get_ticket(num(1)).unwrap().used);
    assert_eq!(
        svc.mark_ticket_used(actor(SCANNER), num(1)),
        Err(TicketError::TicketAlreadyUsed)
    );
    assert_eq!(
        svc.mark_ticket_used(actor(ADMIN), num(1)),
        Err(TicketError::TicketAlreadyUsed)
    );
    assert_eq!(
        svc.resell_ticket(actor(BUYER), num(1), actor(SECOND_BUYER), num(10), 5),
        Err(TicketError::TicketAlreadyUsed)
    );
    assert!(!svc.get().is_locked());
    let stats = svc.get_event_stats(num(1)).unwrap();
    assert_eq!(stats.tickets_used, 1);
    assert_eq!(stats.tickets_minted, num(1));
    assert_eq!(stats.tickets_total, num(100));
    assert!(stats.active);
    assert_eq!(svc.get_event_stats(num(2)), None);
}

#[test]
fn resale_checks_in_order() {
    let window = ResaleConfig {
        enabled: true,
        max_price: Some(num(1_000)),
        resale_start_time: Some(100),
        resale_end_time: Some(200),
    };
    let mut svc = service_with_event(window);
    mint(&mut svc, 1);
    let owner = actor(BUYER);
    let next = actor(SECOND_BUYER);
    assert_eq!(svc.resell_ticket(owner, num(1), actor(0), num(0), 150), Err(TicketError::InvalidInput));
    assert_eq!(svc.resell_ticket(owner, num(1), next, num(0), 150), Err(TicketError::InvalidAmount));
    assert_eq!(svc.resell_ticket(owner, num(9), next, num(10), 150), Err(TicketError::TicketNotFound));
    assert_eq!(svc.resell_ticket(next, num(1), next, num(10), 150), Err(TicketError::TicketNotOwned));
    assert_eq!(svc.resell_ticket(owner, num(1), owner, num(10), 150), Err(TicketError::InvalidInput));
    assert_eq!(
        svc.resell_ticket(owner, num(1), next, num(1_001), 150),
        Err(TicketError::PriceExceedsMaximum)
    );
    assert_eq!(svc.resell_ticket(owner, num(1), next, num(1_000), 99), Err(TicketError::ResaleWindowClosed));
    // the end of the window is no part of it
    assert_eq!(svc.resell_ticket(owner, num(1), next, num(1_000), 200), Err(TicketError::ResaleWindowClosed));
    let closed = ResaleConfig { enabled: false, ..window };
    assert!(svc.update_resale_config(actor(ORGANIZER), num(1), closed).is_ok());
    assert_eq!(svc.resell_ticket(owner, num(1), next, num(10), 150), Err(TicketError::ResaleDisabled));
    assert!(svc.update_resale_config(actor(ORGANIZER), num(1), window).is_ok());
    assert!(!svc.get().is_locked());
    assert!(svc.resell_ticket(owner, num(1), next, num(1_000), 100).is_ok());
    assert!(svc.settle(true).is_ok());
    assert!(svc.resell_ticket(next, num(1), owner, num(1_000), 199).is_ok());
}

#[test]
fn resale_config_is_checked_on_update() {
    let mut svc = service_with_event(open_resale());
    let backwards = ResaleConfig {
        enabled: true,
        max_price: None,
        resale_start_time: Some(20),
        resale_end_time: Some(10),
    };
    assert_eq!(
        svc.update_resale_config(actor(ADMIN), num(1), backwards),
        Err(TicketError::InvalidResaleConfig)
    );
    assert_eq!(svc.get_event(num(1)).unwrap().resale_config, open_resale());
}

#[test]
fn roles_are_the_admins_to_give() {
    let mut svc = service();
    assert_eq!(svc.add_organizer(actor(5), actor(6)), Err(TicketError::Unauthorized));
    assert_eq!(svc.add_organizer(actor(ADMIN), actor(0)), Err(TicketError::InvalidInput));
    assert_eq!(svc.add_scanner(actor(ADMIN), actor(0)), Err(TicketError::InvalidInput));
    assert_eq!(
        svc.add_organizer(actor(ADMIN), actor(6)),
        Ok(Event::OrganizerAdded { organizer: actor(6) })
    );
    assert!(svc.add_organizer(actor(ADMIN), actor(7)).is_ok());
    assert!(svc.add_organizer(actor(ADMIN), actor(8)).is_ok());
    assert!(svc.is_organizer(actor(6)));
    assert!(svc.is_organizer(actor(ADMIN)));
    assert!(!svc.is_scanner(actor(6)));
    assert!(svc.is_scanner(actor(ADMIN)));
    assert_eq!(svc.remove_organizer(actor(6), actor(6)), Err(TicketError::Unauthorized));
    assert_eq!(
        svc.remove_organizer(actor(ADMIN), actor(6)),
        Ok(Event::OrganizerRemoved { organizer: actor(6) })
    );
    assert!(!svc.is_organizer(actor(6)));
    assert!(svc.is_organizer(actor(7)));
    assert!(svc.is_organizer(actor(8)));
    let organizers = |svc: &TicketService| {
        let mut list = svc.get_storage().organizers;
        list.sort_by_key(|who| who.value.key());
        list
    };
    assert_eq!(organizers(&svc), vec![actor(7), actor(8)]);
    // removing one who is no member changes nothing
    assert_eq!(
        svc.remove_organizer(actor(ADMIN), actor(6)),
        Ok(Event::OrganizerRemoved { organizer: actor(6) })
    );
    assert_eq!(organizers(&svc), vec![actor(7), actor(8)]);
    assert!(svc.add_scanner(actor(ADMIN), actor(SCANNER)).is_ok());
    assert!(svc.is_scanner(actor(SCANNER)));
    assert_eq!(
        svc.remove_scanner(actor(ADMIN), actor(SCANNER)),
        Ok(Event::ScannerRemoved { scanner: actor(SCANNER) })
    );
    assert!(!svc.is_scanner(actor(SCANNER)));
}

#[test]
fn queries_on_missing_keys_return_nothing() {
    let svc = service();
    assert_eq!(svc.get_ticket(num(1)), None);
    assert_eq!(svc.get_event(num(1)), None);
    assert_eq!(svc.get_event_tickets(num(1)), Vec::<U256>::new());
    assert_eq!(svc.get_user_tickets(actor(BUYER)), Vec::new());
    assert_eq!(svc.get_event_stats(num(1)), None);
    let state = svc.get_storage();
    assert_eq!(state.admin, actor(ADMIN));
    assert_eq!(state.vmt_contract_id, actor(VMT));
    assert_eq!(state.platform_fee_recipient, actor(PLATFORM));
    assert_eq!(svc.get().admin(), actor(ADMIN));
    assert_eq!(svc.get().vmt_contract_id(), actor(VMT));
    assert_eq!(svc.get().platform_fee_recipient(), actor(PLATFORM));
}

#[test]
fn event_belongs_to_its_organizer_whatever_the_roles() {
    let mut svc = service_with_event(open_resale());
    let owner = actor(ORGANIZER);
    assert!(svc.is_organizer(owner));
    assert_eq!(
        svc.remove_organizer(actor(ADMIN), owner),
        Ok(Event::OrganizerRemoved { organizer: owner })
    );
    assert_eq!(svc.get_storage().organizers, vec![]);
    // the event is still its organizer's to change
    let other = CommissionConfig { seller_percentage: 9000, organizer_percentage: 600, platform_percentage: 400 };
    assert_eq!(
        svc.update_commission_config(owner, num(1), other),
        Ok(Event::EventConfigUpdated { event_id: num(1) })
    );
    assert_eq!(svc.get_event(num(1)).unwrap().commission_config, other);
    let capped = ResaleConfig { max_price: Some(num(5)), ..open_resale() };
    assert_eq!(
        svc.update_resale_config(owner, num(1), capped),
        Ok(Event::EventConfigUpdated { event_id: num(1) })
    );
    assert_eq!(svc.set_event_active(owner, num(1), false), Ok(Event::EventConfigUpdated { event_id: num(1) }));
    assert!(!svc.get_event(num(1)).unwrap().active);
    assert_eq!(svc.set_event_active(owner, num(1), true), Ok(Event::EventConfigUpdated { event_id: num(1) }));
    assert!(svc.mint_tickets(owner, num(1), actor(BUYER), num(1), Vec::new(), 0).is_ok());
    assert!(svc.settle(true).is_ok());
    // and who owns an event keeps the role of an organizer
    assert!(svc.is_organizer(owner));
    assert_eq!(
        svc.create_event(owner, owner, [2; 32], 0, num(5), open_resale(), commission()),
        Ok(Event::EventCreated {
            event_id: num(2),
            organizer: owner,
            metadata_hash: [2; 32],
            event_start_time: 0,
        })
    );
    // the organizer of another event has no say in this one
    assert!(svc
        .create_event(actor(ADMIN), actor(11), [3; 32], 0, num(5), open_resale(), commission())
        .is_ok());
    assert_eq!(svc.update_commission_config(actor(11), num(1), other), Err(TicketError::Unauthorized));
    assert_eq!(svc.set_event_active(actor(11), num(1), false), Err(TicketError::Unauthorized));
    assert_eq!(svc.set_event_active(actor(11), num(9), false), Err(TicketError::EventNotFound));
    assert_eq!(svc.set_event_active(actor(11), num(3), false), Ok(Event::EventConfigUpdated { event_id: num(3) }));
}

#[test]
fn malformed_configuration_is_refused_before_anything_else() {
    let mut svc = service_with_event(open_resale());
    let short = CommissionConfig { seller_percentage: 8000, organizer_percentage: 1000, platform_percentage: 500 };
    let backwards = ResaleConfig {
        enabled: true,
        max_price: None,
        resale_start_time: Some(20),
        resale_end_time: Some(10),
    };
    // whoever asks, and whatever event is named
    assert_eq!(
        svc.update_commission_config(actor(77), num(1), short),
        Err(TicketError::InvalidCommissionConfig)
    );
    assert_eq!(
        svc.update_commission_config(actor(77), num(9), short),
        Err(TicketError::InvalidCommissionConfig)
    );
    assert_eq!(
        svc.update_resale_config(actor(77), num(9), backwards),
        Err(TicketError::InvalidResaleConfig)
    );
    assert_eq!(svc.update_resale_config(actor(77), num(9), open_resale()), Err(TicketError::EventNotFound));
    assert_eq!(svc.update_resale_config(actor(77), num(1), open_resale()), Err(TicketError::Unauthorized));
    assert_eq!(svc.get_event(num(1)).unwrap().commission_config, commission());
}

#[test]
fn batch_beyond_what_a_list_holds_is_refused_last() {
    let mut svc = service();
    let vast = U256 { w0: 0, w1: 0, w2: 0, w3: 1 };
    assert!(svc
        .create_event(actor(ADMIN), actor(ORGANIZER), [0; 32], 0, vast, open_resale(), commission())
        .is_ok());
    let many = U256 { w0: 0, w1: 0, w2: 1, w3: 0 };
    assert_eq!(
        svc.mint_tickets(actor(ORGANIZER), num(1), actor(BUYER), many, Vec::new(), 0),
        Err(TicketError::InvalidAmount)
    );
    // the other checks come first
    assert_eq!(
        svc.mint_tickets(actor(BUYER), num(1), actor(BUYER), many, Vec::new(), 0),
        Err(TicketError::Unauthorized)
    );
    assert_eq!(
        svc.mint_tickets(actor(ORGANIZER), num(1), actor(BUYER), many, vec![None], 0),
        Err(TicketError::InvalidInput)
    );
    let more = U256 { w0: 1, w1: 0, w2: 0, w3: 1 };
    assert_eq!(
        svc.mint_tickets(actor(ORGANIZER), num(1), actor(BUYER), more, Vec::new(), 0),
        Err(TicketError::NotEnoughTickets)
    );
    assert!(!svc.get().is_locked());
    assert_eq!(svc.get_storage().tickets.len(), 0);
    assert!(svc.mint_tickets(actor(ORGANIZER), num(1), actor(BUYER), num(2), Vec::new(), 0).is_ok());
    // while the lock is held the amount is not looked at
    assert_eq!(
        svc.mint_tickets(actor(ORGANIZER), num(1), actor(BUYER), many, Vec::new(), 0),
        Err(TicketError::ReentrancyDetected)
    );
    assert!(svc.get().is_locked());
}
