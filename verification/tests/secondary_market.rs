use pulse::error::{ErrorKind, TixError};
use pulse::identity::Identity;
use pulse::secondary_market::{
    accept_offer, buy_listed_ticket, cancel_listing, claim_expired_listing,
    execute_dutch_auction_purchase, list_ticket_for_sale, make_offer, update_listing,
    AcceptOffer, BuyListedTicket, CancelListing, ClaimExpiredListing,
    ExecuteDutchAuctionPurchase, ListTicketForSale, MakeOffer, UpdateListing,
};
use pulse::settlement::{split_sale_price, FeeSplit, Settlement};
use pulse::state::{
    Event, GlobalConfig, MarketListing, Offer, SaleType, Ticket, TicketStatus,
};

fn id(n: u8) -> Identity {
    Identity::new([n; 32])
}

fn config() -> GlobalConfig {
    GlobalConfig {
        admin: id(9),
        protocol_fee_bps: 250,
        default_price_cap_bps: 5_000,
        min_listing_duration: 3_600,
        max_listing_duration: 2_592_000,
        allow_agent_coordination: true,
        require_verification: false,
        treasury: id(10),
        bump: 255,
    }
}

fn event() -> Event {
    Event {
        organizer: id(1),
        event_id: String::from("concert-1"),
        name: String::from("Concert"),
        description: String::from("An evening of music"),
        image_url: String::from("https://example.org/c.png"),
        venue: String::from("Town hall"),
        event_start_time: 10_000_000,
        event_end_time: 10_020_000,
        sale_start_time: 1_000,
        sale_end_time: 5_000,
        is_active: true,
        is_cancelled: false,
        max_tickets_per_user: 4,
        royalty_bps: 500,
        total_tickets_sold: 7,
        total_revenue: 700_000,
        bump: 254,
    }
}

fn ticket() -> Ticket {
    Ticket {
        mint: id(30),
        event: id(20),
        tier_id: String::from("vip"),
        owner: id(3),
        original_price: 1_000_000,
        status: TicketStatus::Active,
        purchased_at: 2_000,
        validated_at: None,
        seat_info: None,
        bump: 247,
    }
}

fn listing_ctx() -> ListTicketForSale {
    ListTicketForSale {
        config: config(),
        event: event(),
        event_key: id(20),
        ticket: ticket(),
        seller: id(3),
        bump: 245,
    }
}

fn list(
    ctx: &ListTicketForSale,
    list_price: u64,
    sale_type: u8,
    min_price: u64,
    max_price: u64,
    duration: i64,
    now: i64,
) -> Result<MarketListing, TixError> {
    list_ticket_for_sale(
        ctx,
        String::from("listing-1"),
        list_price,
        900_000,
        true,
        sale_type,
        500,
        min_price,
        max_price,
        duration,
        now,
    )
}

fn listing() -> MarketListing {
    MarketListing {
        listing_id: String::from("listing-1"),
        seller: id(3),
        ticket_mint: id(30),
        event: id(20),
        tier_id: String::from("vip"),
        list_price: 1_000_000,
        minimum_offer: 900_000,
        accept_offers: true,
        original_purchase_price: 1_000_000,
        price_adjustment_rate: 500,
        last_price_adjustment: 6_000,
        min_price: 0,
        max_price: 0,
        is_active: true,
        sale_type: SaleType::Fixed,
        created_at: 6_000,
        expires_at: 92_400,
        view_count: 0,
        offer_count: 0,
        bump: 245,
    }
}

fn dutch() -> MarketListing {
    MarketListing {
        list_price: 100_000,
        min_price: 50_000,
        max_price: 100_000,
        original_purchase_price: 100_000,
        sale_type: SaleType::Dutch,
        ..listing()
    }
}

fn offer() -> Offer {
    Offer {
        listing: id(70),
        buyer: id(4),
        offer_amount: 950_000,
        created_at: 7_000,
        expires_at: 50_000,
        is_active: true,
        bump: 244,
    }
}

fn settlement(buyer: u8, sale_price: u64, fee: u64, royalty: u64, payout: u64) -> Settlement {
    Settlement {
        buyer: id(buyer),
        seller: id(3),
        treasury: id(10),
        organizer: id(1),
        split: FeeSplit {
            sale_price,
            protocol_fee: fee,
            organizer_royalty: royalty,
            seller_payout: payout,
        },
    }
}

#[test]
fn fee_split_is_exact() {
    let split = split_sale_price(1_000_000, 250, 500).unwrap();
    assert_eq!(
        split,
        FeeSplit {
            sale_price: 1_000_000,
            protocol_fee: 25_000,
            organizer_royalty: 50_000,
            seller_payout: 925_000,
        }
    );
    assert_eq!(split.protocol_fee + split.organizer_royalty + split.seller_payout, 1_000_000);
}

#[test]
fn fee_split_gives_the_remainder_to_the_seller() {
    // Each fee rounds down: 999 * 250 / 10_000 = 24 and 999 * 500 / 10_000 = 49.
    let split = split_sale_price(999, 250, 500).unwrap();
    assert_eq!(
        split,
        FeeSplit { sale_price: 999, protocol_fee: 24, organizer_royalty: 49, seller_payout: 926 }
    );
    assert_eq!(split_sale_price(0, 250, 500).map(|s| s.seller_payout), Ok(0));
    assert_eq!(split_sale_price(u64::MAX, 5_000, 5_000).map(|s| s.seller_payout), Ok(1));
}

#[test]
fn fee_split_fails_when_the_fees_exceed_the_price() {
    assert_eq!(split_sale_price(1_000_000, 6_000, 4_001), Err(TixError::MathUnderflow));
    assert_eq!(split_sale_price(1_000_000, 6_000, 4_000).map(|s| s.seller_payout), Ok(0));
    assert_eq!(split_sale_price(u64::MAX, 10_001, 0), Err(TixError::MathOverflow));
    assert_eq!(split_sale_price(u64::MAX, 10_000, 10_000), Err(TixError::MathOverflow));
    assert_eq!(TixError::MathOverflow.kind(), ErrorKind::Arithmetic);
}

#[test]
fn listed_ticket_is_open_until_it_expires() {
    let l = list(&listing_ctx(), 1_000_000, 0, 0, 0, 86_400, 6_000).unwrap();
    assert_eq!(l, listing());
}

#[test]
fn listing_kinds_are_decoded() {
    assert_eq!(list(&listing_ctx(), 1, 0, 0, 0, 3_600, 0).map(|l| l.sale_type), Ok(SaleType::Fixed));
    assert_eq!(list(&listing_ctx(), 1, 1, 0, 0, 3_600, 0).map(|l| l.sale_type), Ok(SaleType::Auction));
    assert_eq!(list(&listing_ctx(), 3, 2, 2, 3, 3_600, 0).map(|l| l.sale_type), Ok(SaleType::Dutch));
    assert_eq!(list(&listing_ctx(), 1, 3, 0, 0, 3_600, 0), Err(TixError::InvalidPrice));
    assert_eq!(list(&listing_ctx(), 1, 255, 0, 0, 3_600, 0), Err(TixError::InvalidPrice));
}

#[test]
fn dutch_listing_needs_ordered_prices() {
    let ok = list(&listing_ctx(), 100_000, 2, 50_000, 100_000, 3_600, 0).unwrap();
    assert_eq!((ok.min_price, ok.list_price, ok.max_price), (50_000, 100_000, 100_000));
    assert_eq!(list(&listing_ctx(), 100_000, 2, 0, 100_000, 3_600, 0), Err(TixError::InvalidPrice));
    assert_eq!(list(&listing_ctx(), 100_000, 2, 100_000, 100_000, 3_600, 0), Err(TixError::InvalidPrice));
    assert_eq!(list(&listing_ctx(), 100_000, 2, 50_000, 99_999, 3_600, 0), Err(TixError::InvalidPrice));
    assert!(list(&listing_ctx(), 100_000, 2, 99_999, 200_000, 3_600, 0).is_ok());
    // The other kinds do not look at the two bounds.
    assert!(list(&listing_ctx(), 100_000, 0, 100_000, 0, 3_600, 0).is_ok());
}

#[test]
fn only_active_tickets_are_listed() {
    let used = ListTicketForSale {
        ticket: Ticket { status: TicketStatus::Consumed, ..ticket() },
        ..listing_ctx()
    };
    assert_eq!(list(&used, 1_000_000, 0, 0, 0, 86_400, 6_000), Err(TixError::TicketConsumed));
    let cancelled = ListTicketForSale {
        ticket: Ticket { status: TicketStatus::Cancelled, ..ticket() },
        ..listing_ctx()
    };
    assert_eq!(list(&cancelled, 1_000_000, 0, 0, 0, 86_400, 6_000), Err(TixError::TicketConsumed));
}

#[test]
fn listing_needs_a_price_and_a_duration_within_bounds() {
    assert_eq!(list(&listing_ctx(), 0, 0, 0, 0, 86_400, 6_000), Err(TixError::InvalidPrice));
    assert_eq!(list(&listing_ctx(), 1, 0, 0, 0, 3_599, 6_000), Err(TixError::InvalidPrice));
    assert_eq!(list(&listing_ctx(), 1, 0, 0, 0, 2_592_001, 6_000), Err(TixError::InvalidPrice));
    assert_eq!(list(&listing_ctx(), 1, 0, 0, 0, 3_600, 6_000).map(|l| l.expires_at), Ok(9_600));
    assert_eq!(
        list(&listing_ctx(), 1, 0, 0, 0, 2_592_000, 6_000).map(|l| l.expires_at),
        Ok(2_598_000)
    );
    let long = "x".repeat(31);
    let r = list_ticket_for_sale(&listing_ctx(), long, 1, 0, false, 0, 0, 0, 0, 3_600, 0);
    assert_eq!(r, Err(TixError::InvalidEventTiming));
}

#[test]
fn listing_stops_when_the_event_begins() {
    assert!(list(&listing_ctx(), 1, 0, 0, 0, 3_600, 9_999_999).is_ok());
    assert_eq!(
        list(&listing_ctx(), 1, 0, 0, 0, 3_600, 10_000_000),
        Err(TixError::CannotListAfterEventStart)
    );
    assert_eq!(TixError::CannotListAfterEventStart.kind(), ErrorKind::TimingState);
}

#[test]
fn listing_price_is_capped() {
    assert!(list(&listing_ctx(), 1_500_000, 0, 0, 0, 3_600, 0).is_ok());
    assert_eq!(list(&listing_ctx(), 1_500_001, 0, 0, 0, 3_600, 0), Err(TixError::PriceCapExceeded));
    assert_eq!(TixError::PriceCapExceeded.kind(), ErrorKind::InputValidation);
}

#[test]
fn listing_whose_expiry_cannot_be_told_is_refused() {
    let far = ListTicketForSale {
        config: GlobalConfig { max_listing_duration: i64::MAX, ..config() },
        event: Event { event_start_time: i64::MAX, ..event() },
        ..listing_ctx()
    };
    assert_eq!(list(&far, 1, 0, 0, 0, i64::MAX, 1), Err(TixError::MathOverflow));
    assert_eq!(list(&far, 1, 0, 0, 0, i64::MAX - 1, 1).map(|l| l.expires_at), Ok(i64::MAX));
}

#[test]
fn listing_then_cancelling_leaves_a_closed_listing() {
    let ctx = listing_ctx();
    let l = list(&ctx, 1_000_000, 0, 0, 0, 86_400, 6_000).unwrap();
    assert!(l.is_active);
    let mut cancel = CancelListing { listing: l.clone(), seller: ctx.seller };
    assert_eq!(cancel_listing(&mut cancel), Ok(()));
    assert!(!cancel.listing.is_active);
    assert_eq!(cancel.listing, MarketListing { is_active: false, ..l });
    assert_eq!(ctx.ticket, ticket());
    assert_eq!(ctx.ticket.status, TicketStatus::Active);
}

#[test]
fn cancelling_is_for_the_seller() {
    let mut ctx = CancelListing { listing: listing(), seller: id(4) };
    assert_eq!(cancel_listing(&mut ctx), Err(TixError::InvalidAuthority));
    assert_eq!(ctx.listing, listing());
    let mut ctx = CancelListing { listing: MarketListing { is_active: false, ..listing() }, seller: id(3) };
    assert_eq!(cancel_listing(&mut ctx), Ok(()));
    assert!(!ctx.listing.is_active);
}

#[test]
fn listing_update_changes_only_what_is_supplied() {
    let mut ctx = UpdateListing { config: config(), listing: listing(), seller: id(3) };
    assert_eq!(update_listing(&mut ctx, Some(1_200_000), None, Some(false), None, Some(7)), Ok(()));
    assert_eq!(
        ctx.listing,
        MarketListing { list_price: 1_200_000, accept_offers: false, max_price: 7, ..listing() }
    );
    assert_eq!(update_listing(&mut ctx, None, Some(5), None, Some(6), None), Ok(()));
    assert_eq!(
        ctx.listing,
        MarketListing {
            list_price: 1_200_000,
            minimum_offer: 5,
            accept_offers: false,
            min_price: 6,
            max_price: 7,
            ..listing()
        }
    );
}

#[test]
fn listing_update_keeps_the_price_under_the_cap() {
    let mut ctx = UpdateListing { config: config(), listing: listing(), seller: id(3) };
    assert_eq!(
        update_listing(&mut ctx, Some(1_500_001), Some(1), None, None, None),
        Err(TixError::PriceCapExceeded)
    );
    assert_eq!(ctx.listing, listing());
    assert_eq!(update_listing(&mut ctx, Some(1_500_000), None, None, None, None), Ok(()));
    assert_eq!(ctx.listing.list_price, 1_500_000);
    let mut ctx = UpdateListing { config: config(), listing: listing(), seller: id(4) };
    assert_eq!(
        update_listing(&mut ctx, Some(1), None, None, None, None),
        Err(TixError::InvalidAuthority)
    );
    assert_eq!(ctx.listing, listing());
}

#[test]
fn fixed_price_sale_divides_the_price() {
    let mut ctx = BuyListedTicket { config: config(), event: event(), listing: listing(), buyer: id(4) };
    let r = buy_listed_ticket(&mut ctx, 92_400);
    assert_eq!(r, Ok(settlement(4, 1_000_000, 25_000, 50_000, 925_000)));
    assert_eq!(ctx.listing, MarketListing { is_active: false, ..listing() });
    assert_eq!(buy_listed_ticket(&mut ctx, 92_400), Err(TixError::ListingExpired));
}

#[test]
fn expired_listing_cannot_be_bought() {
    let mut ctx = BuyListedTicket { config: config(), event: event(), listing: listing(), buyer: id(4) };
    let r = buy_listed_ticket(&mut ctx, 92_401);
    assert_eq!(r, Err(TixError::ListingExpired));
    assert_eq!(r.unwrap_err().kind(), ErrorKind::TimingState);
    assert_eq!(ctx.listing, listing());
}

#[test]
fn sale_whose_fees_exceed_the_price_changes_nothing() {
    let greedy = BuyListedTicket {
        config: GlobalConfig { protocol_fee_bps: 9_000, ..config() },
        event: Event { royalty_bps: 2_000, ..event() },
        listing: listing(),
        buyer: id(4),
    };
    let mut ctx = greedy.clone();
    assert_eq!(buy_listed_ticket(&mut ctx, 7_000), Err(TixError::MathUnderflow));
    assert_eq!(ctx, greedy);
}

#[test]
fn offer_is_counted_on_the_listing() {
    let mut ctx = MakeOffer { listing: listing(), listing_key: id(70), buyer: id(4), bump: 244 };
    let r = make_offer(&mut ctx, String::from("offer-1"), 950_000, 43_000, 7_000);
    assert_eq!(r, Ok(offer()));
    assert_eq!(ctx.listing, MarketListing { offer_count: 1, ..listing() });
}

#[test]
fn offer_needs_a_listing_that_takes_offers() {
    let closed = MarketListing { is_active: false, ..listing() };
    let mut ctx = MakeOffer { listing: closed.clone(), listing_key: id(70), buyer: id(4), bump: 244 };
    assert_eq!(make_offer(&mut ctx, String::new(), 950_000, 1, 7_000), Err(TixError::ListingExpired));
    assert_eq!(ctx.listing, closed);
    let deaf = MarketListing { accept_offers: false, ..listing() };
    let mut ctx = MakeOffer { listing: deaf.clone(), listing_key: id(70), buyer: id(4), bump: 244 };
    let r = make_offer(&mut ctx, String::new(), 950_000, 1, 7_000);
    assert_eq!(r, Err(TixError::NoActiveOffer));
    assert_eq!(r.unwrap_err().kind(), ErrorKind::TimingState);
    assert_eq!(ctx.listing, deaf);
    let mut ctx = MakeOffer { listing: listing(), listing_key: id(70), buyer: id(4), bump: 244 };
    assert_eq!(make_offer(&mut ctx, String::new(), 950_000, 1, 92_401), Err(TixError::ListingExpired));
    assert_eq!(ctx.listing, listing());
}

#[test]
fn offer_must_reach_the_minimum() {
    let mut ctx = MakeOffer { listing: listing(), listing_key: id(70), buyer: id(4), bump: 244 };
    assert_eq!(make_offer(&mut ctx, String::new(), 899_999, 1, 7_000), Err(TixError::InvalidPrice));
    assert_eq!(ctx.listing, listing());
    assert_eq!(make_offer(&mut ctx, String::new(), 900_000, 1, 7_000).map(|o| o.offer_amount), Ok(900_000));
    assert_eq!(
        make_offer(&mut ctx, "x".repeat(31), 900_000, 1, 7_000),
        Err(TixError::InvalidEventTiming)
    );
    assert_eq!(ctx.listing.offer_count, 1);
}

#[test]
fn offer_that_cannot_be_counted_or_dated_is_refused() {
    let full = MarketListing { offer_count: u32::MAX, ..listing() };
    let mut ctx = MakeOffer { listing: full.clone(), listing_key: id(70), buyer: id(4), bump: 244 };
    assert_eq!(make_offer(&mut ctx, String::new(), 950_000, 1, 7_000), Err(TixError::MathOverflow));
    assert_eq!(ctx.listing, full);
    let mut ctx = MakeOffer { listing: listing(), listing_key: id(70), buyer: id(4), bump: 244 };
    assert_eq!(
        make_offer(&mut ctx, String::new(), 950_000, i64::MAX, 7_000),
        Err(TixError::MathOverflow)
    );
    assert_eq!(ctx.listing, listing());
}

#[test]
fn accepted_offer_sells_at_the_amount_offered() {
    let mut ctx = AcceptOffer {
        config: config(),
        event: event(),
        listing: listing(),
        offer: offer(),
        seller: id(3),
    };
    let r = accept_offer(&mut ctx, 50_000);
    // 950_000 * 250 / 10_000 = 23_750 and 950_000 * 500 / 10_000 = 47_500.
    assert_eq!(r, Ok(settlement(4, 950_000, 23_750, 47_500, 878_750)));
    assert_eq!(ctx.listing, MarketListing { is_active: false, ..listing() });
    assert_eq!(ctx.offer, Offer { is_active: false, ..offer() });
    assert_eq!(accept_offer(&mut ctx, 50_000), Err(TixError::ListingExpired));
}

#[test]
fn offer_is_accepted_by_the_seller_while_both_are_open() {
    let before = AcceptOffer {
        config: config(),
        event: event(),
        listing: listing(),
        offer: offer(),
        seller: id(3),
    };
    let mut ctx = AcceptOffer { seller: id(4), ..before.clone() };
    assert_eq!(accept_offer(&mut ctx, 8_000), Err(TixError::InvalidAuthority));
    let mut ctx = before.clone();
    let r = accept_offer(&mut ctx, 50_001);
    assert_eq!(r, Err(TixError::OfferExpired));
    assert_eq!(r.unwrap_err().kind(), ErrorKind::TimingState);
    assert_eq!(ctx, before);
    let mut ctx = AcceptOffer { offer: Offer { is_active: false, ..offer() }, ..before.clone() };
    assert_eq!(accept_offer(&mut ctx, 8_000), Err(TixError::OfferExpired));
    let mut ctx = AcceptOffer {
        listing: MarketListing { is_active: false, ..listing() },
        ..before.clone()
    };
    assert_eq!(accept_offer(&mut ctx, 8_000), Err(TixError::ListingExpired));
    let mut ctx = AcceptOffer {
        offer: Offer { expires_at: 200_000, ..offer() },
        ..before.clone()
    };
    assert_eq!(accept_offer(&mut ctx, 92_401), Err(TixError::ListingExpired));
    assert!(ctx.listing.is_active && ctx.offer.is_active);
}

#[test]
fn dutch_sale_takes_the_price_of_the_moment() {
    let mut ctx = ExecuteDutchAuctionPurchase {
        config: config(),
        event: event(),
        listing: dutch(),
        buyer: id(4),
    };
    let r = execute_dutch_auction_purchase(&mut ctx, 6_000 + 3 * 3_600);
    // 85_000 * 250 / 10_000 = 2_125 and 85_000 * 500 / 10_000 = 4_250.
    assert_eq!(r, Ok(settlement(4, 85_000, 2_125, 4_250, 78_625)));
    assert_eq!(ctx.listing, MarketListing { is_active: false, ..dutch() });
}

#[test]
fn dutch_sale_floors_at_the_minimum() {
    let mut ctx = ExecuteDutchAuctionPurchase {
        config: config(),
        event: event(),
        listing: dutch(),
        buyer: id(4),
    };
    let r = execute_dutch_auction_purchase(&mut ctx, 6_000 + 20 * 3_600);
    assert_eq!(r, Ok(settlement(4, 50_000, 1_250, 2_500, 46_250)));
}

#[test]
fn dutch_sale_needs_an_open_dutch_listing() {
    let before = ExecuteDutchAuctionPurchase {
        config: config(),
        event: event(),
        listing: dutch(),
        buyer: id(4),
    };
    let mut ctx = before.clone();
    assert_eq!(execute_dutch_auction_purchase(&mut ctx, 92_401), Err(TixError::ListingExpired));
    assert_eq!(ctx, before);
    let mut ctx = ExecuteDutchAuctionPurchase { listing: listing(), ..before.clone() };
    assert_eq!(execute_dutch_auction_purchase(&mut ctx, 7_000), Err(TixError::InvalidPrice));
    assert!(ctx.listing.is_active);
    let mut ctx = ExecuteDutchAuctionPurchase {
        listing: MarketListing { is_active: false, ..dutch() },
        ..before.clone()
    };
    assert_eq!(execute_dutch_auction_purchase(&mut ctx, 7_000), Err(TixError::ListingExpired));
    let mut ctx = before.clone();
    assert_eq!(execute_dutch_auction_purchase(&mut ctx, 5_999), Err(TixError::MathUnderflow));
    assert_eq!(ctx, before);
}

#[test]
fn expired_listing_is_claimed_by_its_seller() {
    let mut ctx = ClaimExpiredListing { listing: listing(), seller: id(3) };
    assert_eq!(claim_expired_listing(&mut ctx, 92_400), Err(TixError::ListingExpired));
    assert_eq!(ctx.listing, listing());
    assert_eq!(claim_expired_listing(&mut ctx, 92_401), Ok(()));
    assert_eq!(ctx.listing, MarketListing { is_active: false, ..listing() });
    assert_eq!(claim_expired_listing(&mut ctx, 92_402), Err(TixError::ListingExpired));
    let mut ctx = ClaimExpiredListing { listing: listing(), seller: id(4) };
    assert_eq!(claim_expired_listing(&mut ctx, 92_401), Err(TixError::InvalidAuthority));
    assert_eq!(ctx.listing, listing());
}
