use ticketing::actor::ActorId;
use ticketing::concert::service::TicketService;
use ticketing::concert::types::{
    AssetCall, CommissionConfig, EventConfig, ResaleConfig, Ticket,
};
use ticketing::marketplace::service::{
    get_event_info, get_ticket_info, transfer_ticket, validate_event_for_listing,
    validate_ticket_for_listing, MarketplaceService,
};
use ticketing::marketplace::types::{
    Event, EventInfo, Listing, MarketplaceError, State, Step, TicketContractMessage,
    TicketContractReply, TicketInfo,
};
use ticketing::num::U256;

fn who(n: u64) -> ActorId {
    ActorId::new(U256::from_u64(n))
}

fn n(v: u64) -> U256 {
    U256::from_u64(v)
}

const MARKET_ADMIN: u64 = 1;
const REGISTRY: u64 = 2;
const PLATFORM: u64 = 3;
const SELLER: u64 = 40;
const BUYER: u64 = 41;
const ORGANIZER: u64 = 10;

fn market() -> MarketplaceService {
    MarketplaceService::init(who(MARKET_ADMIN), who(REGISTRY), who(PLATFORM))
}

fn ticket(id: u64, owner: u64, used: bool) -> Ticket {
    Ticket {
        ticket_id: n(id),
        event_id: n(1),
        zone: None,
        original_buyer: who(SELLER),
        current_owner: who(owner),
        used,
        minted_at: 0,
    }
}

fn event(max_price: Option<u64>, enabled: bool) -> EventConfig {
    EventConfig {
        event_id: n(1),
        organizer: who(ORGANIZER),
        metadata_hash: [0; 32],
        event_start_time: 0,
        tickets_minted: n(10),
        tickets_total: n(100),
        resale_config: ResaleConfig {
            enabled,
            max_price: max_price.map(n),
            resale_start_time: Some(100),
            resale_end_time: Some(200),
        },
        commission_config: CommissionConfig {
            seller_percentage: 8500,
            organizer_percentage: 1000,
            platform_percentage: 500,
        },
        active: true,
    }
}

fn ticket_reply(id: u64, owner: u64) -> TicketContractReply {
    TicketContractReply::Ticket(Some(ticket(id, owner, false)))
}

fn event_reply(max_price: Option<u64>) -> TicketContractReply {
    TicketContractReply::Event(Some(event(max_price, true)))
}

fn list(mkt: &mut MarketplaceService, id: u64, price: u64) {
    assert_eq!(
        mkt.list_ticket(who(SELLER), n(id), n(price)),
        Ok(TicketContractMessage::GetTicketAsync { ticket_id: n(id) })
    );
    assert_eq!(
        mkt.resume(ticket_reply(id, SELLER), 150),
        Ok(Step::Call(TicketContractMessage::GetEventAsync { event_id: n(1) }))
    );
    assert_eq!(
        mkt.resume(event_reply(None), 150),
        Ok(Step::Done(Event::TicketListed {
            ticket_id: n(id),
            event_id: n(1),
            seller: who(SELLER),
            price: n(price),
        }))
    );
}

fn listing(id: u64, price: u64) -> Listing {
    Listing { ticket_id: n(id), seller: who(SELLER), price: n(price), listed_at: 150, event_id: n(1) }
}

#[test]
fn listing_goes_through_two_questions() {
    let mut mkt = market();
    list(&mut mkt, 7, 1_000);
    assert!(!mkt.get().is_locked());
    assert_eq!(mkt.get_listing(n(7)), Some(listing(7, 1_000)));
    assert_eq!(mkt.get_all_listings(), vec![listing(7, 1_000)]);
    assert_eq!(mkt.get_seller_listings(who(SELLER)), vec![listing(7, 1_000)]);
    assert_eq!(mkt.get_seller_listings(who(BUYER)), vec![]);
    assert_eq!(
        mkt.get_storage(),
        State {
            admin: who(MARKET_ADMIN),
            platform_fee_recipient: who(PLATFORM),
            ticket_contract_id: who(REGISTRY),
            listings: vec![(n(7), listing(7, 1_000))],
        }
    );
}

#[test]
fn list_ticket_checks_in_order() {
    let mut mkt = market();
    assert_eq!(mkt.list_ticket(who(0), n(7), n(0)), Err(MarketplaceError::InvalidPrice));
    assert_eq!(mkt.list_ticket(who(0), n(7), n(5)), Err(MarketplaceError::InvalidInput));
    list(&mut mkt, 7, 5);
    assert_eq!(mkt.list_ticket(who(SELLER), n(7), n(5)), Err(MarketplaceError::TicketAlreadyListed));
    assert!(!mkt.get().is_locked());
}

#[test]
fn listing_is_checked_against_the_registry() {
    let mut mkt = market();
    let begin = |mkt: &mut MarketplaceService| {
        assert!(mkt.list_ticket(who(SELLER), n(7), n(500)).is_ok());
        assert!(mkt.get().is_locked());
    };
    begin(&mut mkt);
    assert_eq!(mkt.resume(TicketContractReply::Ticket(None), 150), Err(MarketplaceError::TicketNotFound));
    assert!(!mkt.get().is_locked());
    begin(&mut mkt);
    assert_eq!(
        mkt.resume(TicketContractReply::Error(String::from("no answer")), 150),
        Err(MarketplaceError::TicketNotFound)
    );
    begin(&mut mkt);
    assert_eq!(
        mkt.resume(TicketContractReply::Ticket(Some(ticket(7, SELLER, true))), 150),
        Err(MarketplaceError::TicketAlreadyUsed)
    );
    begin(&mut mkt);
    assert_eq!(mkt.resume(ticket_reply(7, BUYER), 150), Err(MarketplaceError::TicketNotOwned));

    let to_event = |mkt: &mut MarketplaceService| {
        begin(mkt);
        assert!(mkt.resume(ticket_reply(7, SELLER), 150).is_ok());
    };
    to_event(&mut mkt);
    assert_eq!(mkt.resume(TicketContractReply::Event(None), 150), Err(MarketplaceError::TicketNotFound));
    to_event(&mut mkt);
    assert_eq!(
        mkt.resume(TicketContractReply::Event(Some(event(None, false))), 150),
        Err(MarketplaceError::ResaleDisabled)
    );
    to_event(&mut mkt);
    assert_eq!(mkt.resume(event_reply(None), 99), Err(MarketplaceError::ResaleWindowClosed));
    to_event(&mut mkt);
    // the end of the window is no part of it
    assert_eq!(mkt.resume(event_reply(None), 200), Err(MarketplaceError::ResaleWindowClosed));
    to_event(&mut mkt);
    assert_eq!(mkt.resume(event_reply(Some(499)), 150), Err(MarketplaceError::PriceExceedsMaximum));
    assert!(!mkt.get().is_locked());
    assert_eq!(mkt.get_all_listings(), vec![]);
    to_event(&mut mkt);
    assert!(mkt.resume(event_reply(Some(500)), 199).is_ok());
    assert_eq!(mkt.get_listing(n(7)).map(|l| l.listed_at), Some(199));
}

#[test]
fn purchase_settles_the_shares() {
    let mut mkt = market();
    let price = 500_000_000_000u64;
    list(&mut mkt, 7, price);
    assert_eq!(
        mkt.buy_ticket(who(BUYER), n(7)),
        Ok(TicketContractMessage::GetTicketAsync { ticket_id: n(7) })
    );
    assert_eq!(
        mkt.resume(ticket_reply(7, SELLER), 160),
        Ok(Step::Call(TicketContractMessage::GetEventAsync { event_id: n(1) }))
    );
    // the listing is still in the book while the registry is asked
    assert_eq!(mkt.get_listing(n(7)), Some(listing(7, price)));
    assert_eq!(
        mkt.resume(event_reply(None), 160),
        Ok(Step::Call(TicketContractMessage::TransferFromMarketplace {
            ticket_id: n(7),
            buyer: who(BUYER),
            seller: who(SELLER),
            price: n(price),
        }))
    );
    // and out of it before the transfer is asked for
    assert_eq!(mkt.get_listing(n(7)), None);
    assert!(mkt.get().is_locked());
    assert_eq!(
        mkt.resume(TicketContractReply::Success, 161),
        Ok(Step::Done(Event::TicketSold {
            ticket_id: n(7),
            event_id: n(1),
            seller: who(SELLER),
            buyer: who(BUYER),
            price: n(price),
            seller_share: n(425_000_000_000),
            organizer_share: n(50_000_000_000),
            platform_share: n(25_000_000_000),
        }))
    );
    assert!(!mkt.get().is_locked());
    assert_eq!(mkt.get_listing(n(7)), None);
}

#[test]
fn second_purchase_finds_no_listing() {
    let mut mkt = market();
    list(&mut mkt, 7, 1_000);
    assert!(mkt.buy_ticket(who(BUYER), n(7)).is_ok());
    assert!(mkt.resume(ticket_reply(7, SELLER), 160).is_ok());
    assert!(mkt.resume(event_reply(None), 160).is_ok());
    assert!(matches!(mkt.resume(TicketContractReply::Success, 160), Ok(Step::Done(_))));
    assert_eq!(mkt.buy_ticket(who(BUYER), n(7)), Err(MarketplaceError::ListingNotFound));
    assert_eq!(mkt.buy_ticket(who(55), n(7)), Err(MarketplaceError::ListingNotFound));
    assert!(!mkt.get().is_locked());
}

#[test]
fn lowered_limit_refuses_purchase_and_keeps_listing() {
    // the registry's answers come from a registry
    let admin = who(100);
    let mut registry = TicketService::init(admin, who(101), who(PLATFORM));
    let resale = ResaleConfig {
        enabled: true,
        max_price: Some(n(2_000)),
        resale_start_time: None,
        resale_end_time: None,
    };
    let commission =
        CommissionConfig { seller_percentage: 8500, organizer_percentage: 1000, platform_percentage: 500 };
    assert!(registry
        .create_event(admin, who(ORGANIZER), [0; 32], 0, n(100), resale, commission)
        .is_ok());
    match registry.mint_tickets(who(ORGANIZER), n(1), who(SELLER), n(1), Vec::new(), 0) {
        Ok(AssetCall::MintBatch { .. }) => {}
        other => panic!("unexpected {:?}", other),
    }
    assert!(registry.settle(true).is_ok());

    let mut mkt = market();
    let price = 1_500;
    assert!(mkt.list_ticket(who(SELLER), n(1), n(price)).is_ok());
    assert!(mkt.resume(TicketContractReply::Ticket(registry.get_ticket(n(1))), 10).is_ok());
    assert!(matches!(
        mkt.resume(TicketContractReply::Event(registry.get_event(n(1))), 10),
        Ok(Step::Done(Event::TicketListed { .. }))
    ));

    let lowered = ResaleConfig { max_price: Some(n(1_000)), ..resale };
    assert!(registry.update_resale_config(who(ORGANIZER), n(1), lowered).is_ok());

    assert!(mkt.buy_ticket(who(BUYER), n(1)).is_ok());
    assert!(mkt.resume(TicketContractReply::Ticket(registry.get_ticket(n(1))), 20).is_ok());
    assert_eq!(
        mkt.resume(TicketContractReply::Event(registry.get_event(n(1))), 20),
        Err(MarketplaceError::PriceExceedsMaximum)
    );
    assert!(!mkt.get().is_locked());
    let kept = mkt.get_listing(n(1)).unwrap();
    assert_eq!(kept.price, n(price));
    assert_eq!(kept.seller, who(SELLER));
    assert_eq!(mkt.get_all_listings().len(), 1);
}

#[test]
fn failed_transfer_puts_the_listing_back() {
    let mut mkt = market();
    list(&mut mkt, 7, 1_000);
    list(&mut mkt, 8, 2_000);
    assert!(mkt.buy_ticket(who(BUYER), n(7)).is_ok());
    assert!(mkt.resume(ticket_reply(7, SELLER), 160).is_ok());
    assert!(mkt.resume(event_reply(None), 160).is_ok());
    assert_eq!(mkt.get_listing(n(7)), None);
    assert_eq!(
        mkt.resume(TicketContractReply::Error(String::from("refused")), 160),
        Err(MarketplaceError::TransferFailed)
    );
    assert!(!mkt.get().is_locked());
    assert_eq!(mkt.get_listing(n(7)), Some(listing(7, 1_000)));
    assert_eq!(mkt.get_listing(n(8)), Some(listing(8, 2_000)));
    assert_eq!(mkt.get_all_listings().len(), 2);
}

#[test]
fn buy_ticket_checks_in_order() {
    let mut mkt = market();
    list(&mut mkt, 7, 1_000);
    assert_eq!(mkt.buy_ticket(who(0), n(9)), Err(MarketplaceError::InvalidInput));
    assert_eq!(mkt.buy_ticket(who(BUYER), n(9)), Err(MarketplaceError::ListingNotFound));
    assert_eq!(mkt.buy_ticket(who(SELLER), n(7)), Err(MarketplaceError::InvalidInput));
    assert!(!mkt.get().is_locked());
}

#[test]
fn purchase_is_checked_against_the_registry() {
    let mut mkt = market();
    list(&mut mkt, 7, 1_000);
    assert!(mkt.buy_ticket(who(BUYER), n(7)).is_ok());
    // the ticket was used in the meantime
    assert_eq!(
        mkt.resume(TicketContractReply::Ticket(Some(ticket(7, SELLER, true))), 160),
        Err(MarketplaceError::TicketAlreadyUsed)
    );
    assert!(!mkt.get().is_locked());
    assert_eq!(mkt.get_listing(n(7)), Some(listing(7, 1_000)));
    assert!(mkt.buy_ticket(who(BUYER), n(7)).is_ok());
    // the seller has given it away in the meantime
    assert_eq!(mkt.resume(ticket_reply(7, 99), 160), Err(MarketplaceError::TicketNotOwned));
    assert!(mkt.buy_ticket(who(BUYER), n(7)).is_ok());
    assert!(mkt.resume(ticket_reply(7, SELLER), 160).is_ok());
    // percentages that claim more than the whole
    let mut greedy = event(None, true);
    greedy.commission_config.platform_percentage = 600;
    assert_eq!(
        mkt.resume(TicketContractReply::Event(Some(greedy)), 160),
        Err(MarketplaceError::InvalidPrice)
    );
    assert!(!mkt.get().is_locked());
    assert_eq!(mkt.get_listing(n(7)), Some(listing(7, 1_000)));
}

#[test]
fn overlapping_marketplace_calls_are_refused() {
    let mut mkt = market();
    list(&mut mkt, 7, 1_000);
    assert!(mkt.buy_ticket(who(BUYER), n(7)).is_ok());
    assert_eq!(mkt.buy_ticket(who(55), n(7)), Err(MarketplaceError::ReentrancyDetected));
    assert_eq!(mkt.list_ticket(who(SELLER), n(8), n(5)), Err(MarketplaceError::ReentrancyDetected));
    assert!(mkt.get().is_locked());
    assert!(mkt.resume(ticket_reply(7, SELLER), 160).is_ok());
    assert_eq!(mkt.list_ticket(who(SELLER), n(8), n(5)), Err(MarketplaceError::ReentrancyDetected));
    assert!(mkt.resume(event_reply(None), 160).is_ok());
    assert_eq!(mkt.buy_ticket(who(55), n(7)), Err(MarketplaceError::ReentrancyDetected));
    assert!(mkt.resume(TicketContractReply::Success, 160).is_ok());
    assert_eq!(mkt.resume(TicketContractReply::Success, 160), Err(MarketplaceError::InvalidInput));
    assert!(mkt.list_ticket(who(SELLER), n(8), n(5)).is_ok());
}

#[test]
fn cancel_listing_belongs_to_the_seller() {
    let mut mkt = market();
    list(&mut mkt, 7, 1_000);
    list(&mut mkt, 8, 1_000);
    list(&mut mkt, 9, 1_000);
    assert_eq!(mkt.cancel_listing(who(SELLER), n(6)), Err(MarketplaceError::ListingNotFound));
    assert_eq!(mkt.cancel_listing(who(BUYER), n(7)), Err(MarketplaceError::TicketNotOwned));
    assert_eq!(
        mkt.cancel_listing(who(SELLER), n(7)),
        Ok(Event::ListingCancelled { ticket_id: n(7), event_id: n(1), seller: who(SELLER) })
    );
    assert_eq!(mkt.get_listing(n(7)), None);
    let mut left: Vec<U256> = mkt.get_all_listings().iter().map(|l| l.ticket_id).collect();
    left.sort_by_key(|id| id.key());
    assert_eq!(left, vec![n(8), n(9)]);
    assert_eq!(mkt.get_storage().listings.len(), 2);
    for (ticket_id, listing) in mkt.get_storage().listings {
        assert_eq!(listing.ticket_id, ticket_id);
        assert_eq!(mkt.get_listing(ticket_id), Some(listing));
    }
    assert_eq!(mkt.cancel_listing(who(SELLER), n(7)), Err(MarketplaceError::ListingNotFound));
}

#[test]
fn settings_are_the_admins_to_change() {
    let mut mkt = market();
    assert_eq!(mkt.set_admin(who(9), who(9)), Err(MarketplaceError::Unauthorized));
    assert_eq!(mkt.set_admin(who(MARKET_ADMIN), who(0)), Err(MarketplaceError::InvalidInput));
    assert_eq!(mkt.set_ticket_contract(who(9), who(5)), Err(MarketplaceError::Unauthorized));
    assert_eq!(mkt.set_ticket_contract(who(MARKET_ADMIN), who(0)), Err(MarketplaceError::InvalidInput));
    assert_eq!(mkt.set_platform_fee_recipient(who(9), who(5)), Err(MarketplaceError::Unauthorized));
    assert_eq!(
        mkt.set_platform_fee_recipient(who(MARKET_ADMIN), who(0)),
        Err(MarketplaceError::InvalidInput)
    );
    assert_eq!(mkt.set_ticket_contract(who(MARKET_ADMIN), who(5)), Ok(()));
    assert_eq!(mkt.set_platform_fee_recipient(who(MARKET_ADMIN), who(6)), Ok(()));
    assert_eq!(mkt.set_admin(who(MARKET_ADMIN), who(9)), Ok(()));
    assert_eq!(mkt.get().admin(), who(9));
    assert_eq!(mkt.get().ticket_contract_id(), who(5));
    assert_eq!(mkt.get().platform_fee_recipient(), who(6));
    // the former admin has no say any more
    assert_eq!(mkt.set_admin(who(MARKET_ADMIN), who(1)), Err(MarketplaceError::Unauthorized));
}

#[test]
fn facts_are_read_from_replies() {
    assert_eq!(
        get_ticket_info(&ticket_reply(7, SELLER)),
        Some(TicketInfo { ticket_id: n(7), event_id: n(1), current_owner: who(SELLER), used: false })
    );
    assert_eq!(get_ticket_info(&TicketContractReply::Success), None);
    assert_eq!(get_ticket_info(&event_reply(None)), None);
    assert_eq!(
        get_event_info(&event_reply(Some(5))),
        Some(EventInfo {
            event_id: n(1),
            organizer: who(ORGANIZER),
            resale_enabled: true,
            max_price: Some(n(5)),
            resale_start_time: Some(100),
            resale_end_time: Some(200),
            seller_percentage: 8500,
            organizer_percentage: 1000,
            platform_percentage: 500,
        })
    );
    assert_eq!(get_event_info(&ticket_reply(7, SELLER)), None);
    assert_eq!(transfer_ticket(&TicketContractReply::Success), Ok(()));
    assert_eq!(
        transfer_ticket(&TicketContractReply::Ticket(None)),
        Err(MarketplaceError::TransferFailed)
    );
    let info = get_ticket_info(&ticket_reply(7, SELLER));
    assert_eq!(validate_ticket_for_listing(info, who(SELLER)), Ok(info.unwrap()));
    assert_eq!(validate_ticket_for_listing(None, who(SELLER)), Err(MarketplaceError::TicketNotFound));
    let facts = get_event_info(&event_reply(Some(5)));
    assert_eq!(validate_event_for_listing(facts, &n(5), 100), Ok(facts.unwrap()));
    assert_eq!(
        validate_event_for_listing(facts, &n(6), 100),
        Err(MarketplaceError::PriceExceedsMaximum)
    );
}
