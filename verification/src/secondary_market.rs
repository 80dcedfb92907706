//! Resale: listings at a fixed price, by offers, and at a declining price.
//!
//! Every sale divides its price in the same way among the seller, the
//! treasury of the protocol and the organizer of the event.

use vstd::prelude::*;
use crate::constraints::{
    calculate_dutch_auction_price, dutch_price, is_authorized, price_cap, validate_price_cap,
};
use crate::error::TixError;
use crate::identity::Identity;
use crate::settlement::{fee_split_error, fee_split_of, split_sale_price, Settlement};
use crate::state::{
    or_keep, pick, text_fits, text_len, Event, GlobalConfig, MarketListing, Offer, SaleType,
    Ticket, TicketStatus, MAX_SHORT_ID_LEN,
};

verus! {

/// The time `duration` seconds after `now`, where it can be told.
fn expiry_after(now: i64, duration: i64) -> (r: Result<i64, TixError>)
    ensures
        match r {
            Ok(expires_at) => expires_at == now + duration,
            Err(e) => e == TixError::MathOverflow && !(i64::MIN <= now + duration <= i64::MAX),
        },
{
    let expires_at: i128 = now as i128 + duration as i128;
    if expires_at < i64::MIN as i128 || expires_at > i64::MAX as i128 {
        Err(TixError::MathOverflow)
    } else {
        Ok(expires_at as i64)
    }
}

/// A listing can be acted on at `now`: it is active and has not expired.
pub open spec fn listing_open(listing: MarketListing, now: i64) -> bool {
    listing.is_active && now <= listing.expires_at
}

/// The listing once it is closed, by sale, withdrawal or expiry.
pub open spec fn listing_closed(listing: MarketListing) -> MarketListing {
    MarketListing { is_active: false, ..listing }
}

/// The sale of a listing at `sale_price`: the buyer pays, and the price is
/// divided among the seller of the listing, the treasury of the protocol and
/// the organizer of the event.
pub open spec fn settlement_of(
    buyer: Identity,
    listing: MarketListing,
    config: GlobalConfig,
    event: Event,
    sale_price: u64,
) -> Settlement {
    Settlement {
        buyer,
        seller: listing.seller,
        treasury: config.treasury,
        organizer: event.organizer,
        split: fee_split_of(sale_price, config.protocol_fee_bps, event.royalty_bps),
    }
}

/// The ticket to list, its event, the configuration, the caller, and the
/// bump of the address where the listing will be kept.
#[derive(Clone, Debug, PartialEq, Eq)]
pub struct ListTicketForSale {
    pub config: GlobalConfig,
    pub event: Event,
    /// Where the event record is kept.
    pub event_key: Identity,
    pub ticket: Ticket,
    /// The caller.
    pub seller: Identity,
    pub bump: u8,
}

/// Why a ticket cannot be listed at `now`, if it cannot. The checks come in
/// this order: the ticket is active, the id fits, the price is positive, the
/// duration lies within the configured bounds, the event has not begun, the
/// price is within the cap, the sale type is known, a Dutch listing has
/// `0 < min_price < list_price <= max_price`, the expiry can be told.
pub open spec fn list_ticket_for_sale_error(
    ctx: ListTicketForSale,
    listing_id: Seq<char>,
    list_price: u64,
    sale_type: u8,
    min_price: u64,
    max_price: u64,
    duration: i64,
    now: i64,
) -> Option<TixError> {
    if ctx.ticket.status != TicketStatus::Active {
        Some(TixError::TicketConsumed)
    } else if text_len(listing_id) > MAX_SHORT_ID_LEN {
        Some(TixError::InvalidEventTiming)
    } else if list_price == 0 {
        Some(TixError::InvalidPrice)
    } else if duration < ctx.config.min_listing_duration || duration
        > ctx.config.max_listing_duration {
        Some(TixError::InvalidPrice)
    } else if now >= ctx.event.event_start_time {
        Some(TixError::CannotListAfterEventStart)
    } else if list_price > price_cap(ctx.ticket.original_price, ctx.config.default_price_cap_bps) {
        Some(TixError::PriceCapExceeded)
    } else if SaleType::of_code(sale_type) is None {
        Some(TixError::InvalidPrice)
    } else if SaleType::of_code(sale_type) == Some(SaleType::Dutch) && !(0 < min_price < list_price
        <= max_price) {
        Some(TixError::InvalidPrice)
    } else if !(i64::MIN <= now + duration <= i64::MAX) {
        Some(TixError::MathOverflow)
    } else {
        None
    }
}

/// The listing that is made of a ticket at `now`: open for `duration`
/// seconds, on the terms given, with no views and no offers yet.
pub open spec fn new_listing(
    ctx: ListTicketForSale,
    listing_id: String,
    list_price: u64,
    minimum_offer: u64,
    accept_offers: bool,
    sale_type: u8,
    price_adjustment_rate: u16,
    min_price: u64,
    max_price: u64,
    duration: i64,
    now: i64,
) -> MarketListing {
    MarketListing {
        listing_id,
        seller: ctx.seller,
        ticket_mint: ctx.ticket.mint,
        event: ctx.event_key,
        tier_id: ctx.ticket.tier_id,
        list_price,
        minimum_offer,
        accept_offers,
        original_purchase_price: ctx.ticket.original_price,
        price_adjustment_rate,
        last_price_adjustment: now,
        min_price,
        max_price,
        is_active: true,
        sale_type: SaleType::of_code(sale_type)->Some_0,
        created_at: now,
        expires_at: (now + duration) as i64,
        view_count: 0,
        offer_count: 0,
        bump: ctx.bump,
    }
}

/// Lists an active ticket for resale from `now` for `duration` seconds.
pub fn list_ticket_for_sale(
    ctx: &ListTicketForSale,
    listing_id: String,
    list_price: u64,
    minimum_offer: u64,
    accept_offers: bool,
    sale_type: u8,
    price_adjustment_rate: u16,
    min_price: u64,
    max_price: u64,
    duration: i64,
    now: i64,
) -> (r: Result<MarketListing, TixError>)
    ensures
        match r {
            Ok(listing) => {
                &&& list_ticket_for_sale_error(
                    *ctx,
                    listing_id@,
                    list_price,
                    sale_type,
                    min_price,
                    max_price,
                    duration,
                    now,
                ) is None
                &&& listing == new_listing(
                    *ctx,
                    listing_id,
                    list_price,
                    minimum_offer,
                    accept_offers,
                    sale_type,
                    price_adjustment_rate,
                    min_price,
                    max_price,
                    duration,
                    now,
                )
                &&& listing.sale_type == SaleType::Dutch ==> listing.dutch_ordered()
                &&& ctx.ticket.wf() ==> listing.wf()
            },
            Err(e) => list_ticket_for_sale_error(
                *ctx,
                listing_id@,
                list_price,
                sale_type,
                min_price,
                max_price,
                duration,
                now,
            ) == Some(e),
        },
{
    match ctx.ticket.status {
        TicketStatus::Active => {},
        _ => {
            return Err(TixError::TicketConsumed);
        },
    }
    if !text_fits(&listing_id, MAX_SHORT_ID_LEN) {
        return Err(TixError::InvalidEventTiming);
    }
    if list_price == 0 {
        return Err(TixError::InvalidPrice);
    }
    if duration < ctx.config.min_listing_duration || duration > ctx.config.max_listing_duration {
        return Err(TixError::InvalidPrice);
    }
    if now >= ctx.event.event_start_time {
        return Err(TixError::CannotListAfterEventStart);
    }
    validate_price_cap(list_price, ctx.ticket.original_price, ctx.config.default_price_cap_bps)?;
    let sale_type_decoded = match SaleType::from_code(sale_type) {
        Some(decoded) => decoded,
        None => {
            return Err(TixError::InvalidPrice);
        },
    };
    match sale_type_decoded {
        SaleType::Dutch => {
            if min_price == 0 || max_price < list_price || min_price >= list_price {
                return Err(TixError::InvalidPrice);
            }
        },
        _ => {},
    }
    let expires_at = expiry_after(now, duration)?;
    Ok(
        MarketListing {
            listing_id,
            seller: ctx.seller,
            ticket_mint: ctx.ticket.mint,
            event: ctx.event_key,
            tier_id: ctx.ticket.tier_id.clone(),
            list_price,
            minimum_offer,
            accept_offers,
            original_purchase_price: ctx.ticket.original_price,
            price_adjustment_rate,
            last_price_adjustment: now,
            min_price,
            max_price,
            is_active: true,
            sale_type: sale_type_decoded,
            created_at: now,
            expires_at,
            view_count: 0,
            offer_count: 0,
            bump: ctx.bump,
        },
    )
}

/// A listing, the configuration, and the caller who wants to change the listing.
#[derive(Clone, Debug, PartialEq, Eq)]
pub struct UpdateListing {
    pub config: GlobalConfig,
    pub listing: MarketListing,
    /// The caller.
    pub seller: Identity,
}

/// Why a change of a listing is refused, if it is: the caller is not the
/// seller, or else a new price exceeds the cap.
pub open spec fn update_listing_error(ctx: UpdateListing, list_price: Option<u64>) -> Option<
    TixError,
> {
    if ctx.seller != ctx.listing.seller {
        Some(TixError::InvalidAuthority)
    } else if list_price is Some && list_price->Some_0 > price_cap(
        ctx.listing.original_purchase_price,
        ctx.config.default_price_cap_bps,
    ) {
        Some(TixError::PriceCapExceeded)
    } else {
        None
    }
}

/// Changes those terms of a listing for which a value is supplied. What is
/// sold, and how, stays as it was listed.
pub fn update_listing(
    ctx: &mut UpdateListing,
    list_price: Option<u64>,
    minimum_offer: Option<u64>,
    accept_offers: Option<bool>,
    min_price: Option<u64>,
    max_price: Option<u64>,
) -> (r: Result<(), TixError>)
    ensures
        match r {
            Ok(_) => {
                &&& update_listing_error(*old(ctx), list_price) is None
                &&& *final(ctx) == (UpdateListing {
                    listing: MarketListing {
                        list_price: or_keep(list_price, old(ctx).listing.list_price),
                        minimum_offer: or_keep(minimum_offer, old(ctx).listing.minimum_offer),
                        accept_offers: or_keep(accept_offers, old(ctx).listing.accept_offers),
                        min_price: or_keep(min_price, old(ctx).listing.min_price),
                        max_price: or_keep(max_price, old(ctx).listing.max_price),
                        ..old(ctx).listing
                    },
                    ..*old(ctx)
                })
            },
            Err(e) => update_listing_error(*old(ctx), list_price) == Some(e) && *final(ctx)
                == *old(ctx),
        },
{
    if !is_authorized(&ctx.seller, &ctx.listing.seller) {
        return Err(TixError::InvalidAuthority);
    }
    if let Some(new_price) = list_price {
        validate_price_cap(
            new_price,
            ctx.listing.original_purchase_price,
            ctx.config.default_price_cap_bps,
        )?;
    }
    ctx.listing.list_price = pick(list_price, ctx.listing.list_price);
    ctx.listing.minimum_offer = pick(minimum_offer, ctx.listing.minimum_offer);
    ctx.listing.accept_offers = pick(accept_offers, ctx.listing.accept_offers);
    ctx.listing.min_price = pick(min_price, ctx.listing.min_price);
    ctx.listing.max_price = pick(max_price, ctx.listing.max_price);
    Ok(())
}

/// A listing and the caller who wants to withdraw it.
#[derive(Clone, Debug, PartialEq, Eq)]
pub struct CancelListing {
    pub listing: MarketListing,
    /// The caller.
    pub seller: Identity,
}

/// Withdraws a listing for its seller. No value moves and the ticket is
/// not touched.
pub fn cancel_listing(ctx: &mut CancelListing) -> (r: Result<(), TixError>)
    ensures
        r is Ok <==> old(ctx).seller == old(ctx).listing.seller,
        match r {
            Ok(_) => *final(ctx) == (CancelListing {
                listing: listing_closed(old(ctx).listing),
                ..*old(ctx)
            }),
            Err(e) => e == TixError::InvalidAuthority && *final(ctx) == *old(ctx),
        },
{
    if !is_authorized(&ctx.seller, &ctx.listing.seller) {
        return Err(TixError::InvalidAuthority);
    }
    ctx.listing.is_active = false;
    Ok(())
}

/// A listing, its event, the configuration, and the caller who buys.
#[derive(Clone, Debug, PartialEq, Eq)]
pub struct BuyListedTicket {
    pub config: GlobalConfig,
    pub event: Event,
    pub listing: MarketListing,
    /// The caller.
    pub buyer: Identity,
}

/// Why a purchase at the list price at `now` is refused, if it is: the
/// listing is not open, or else its price cannot be divided.
pub open spec fn buy_listed_ticket_error(ctx: BuyListedTicket, now: i64) -> Option<TixError> {
    if !listing_open(ctx.listing, now) {
        Some(TixError::ListingExpired)
    } else {
        fee_split_error(ctx.listing.list_price, ctx.config.protocol_fee_bps, ctx.event.royalty_bps)
    }
}

/// Sells a listed ticket at its list price and closes the listing.
pub fn buy_listed_ticket(ctx: &mut BuyListedTicket, now: i64) -> (r: Result<
    Settlement,
    TixError,
>)
    ensures
        match r {
            Ok(settlement) => {
                &&& buy_listed_ticket_error(*old(ctx), now) is None
                &&& *final(ctx) == (BuyListedTicket {
                    listing: listing_closed(old(ctx).listing),
                    ..*old(ctx)
                })
                &&& settlement == settlement_of(
                    old(ctx).buyer,
                    old(ctx).listing,
                    old(ctx).config,
                    old(ctx).event,
                    old(ctx).listing.list_price,
                )
                &&& settlement.split.exact()
            },
            Err(e) => buy_listed_ticket_error(*old(ctx), now) == Some(e)
                && *final(ctx) == *old(ctx),
        },
{
    if !ctx.listing.is_active || now > ctx.listing.expires_at {
        return Err(TixError::ListingExpired);
    }
    let split = split_sale_price(
        ctx.listing.list_price,
        ctx.config.protocol_fee_bps,
        ctx.event.royalty_bps,
    )?;
    ctx.listing.is_active = false;
    Ok(
        Settlement {
            buyer: ctx.buyer,
            seller: ctx.listing.seller,
            treasury: ctx.config.treasury,
            organizer: ctx.event.organizer,
            split,
        },
    )
}

/// The listing bid on, the caller who bids, and the bump of the address
/// where the offer will be kept.
#[derive(Clone, Debug, PartialEq, Eq)]
pub struct MakeOffer {
    pub listing: MarketListing,
    /// Where the listing is kept.
    pub listing_key: Identity,
    /// The caller.
    pub buyer: Identity,
    pub bump: u8,
}

/// Why an offer at `now` is refused, if it is. The checks come in this
/// order: the listing is active, it accepts offers, it has not expired, the
/// amount reaches its minimum, the id of the offer fits, the expiry can be
/// told, the count of offers has room.
pub open spec fn make_offer_error(
    ctx: MakeOffer,
    offer_id: Seq<char>,
    offer_amount: u64,
    duration: i64,
    now: i64,
) -> Option<TixError> {
    if !ctx.listing.is_active {
        Some(TixError::ListingExpired)
    } else if !ctx.listing.accept_offers {
        Some(TixError::NoActiveOffer)
    } else if now > ctx.listing.expires_at {
        Some(TixError::ListingExpired)
    } else if offer_amount < ctx.listing.minimum_offer {
        Some(TixError::InvalidPrice)
    } else if text_len(offer_id) > MAX_SHORT_ID_LEN {
        Some(TixError::InvalidEventTiming)
    } else if !(i64::MIN <= now + duration <= i64::MAX) || ctx.listing.offer_count + 1
        > u32::MAX {
        Some(TixError::MathOverflow)
    } else {
        None
    }
}

/// Makes an offer on a listing from `now` for `duration` seconds, and
/// counts it on the listing.
pub fn make_offer(
    ctx: &mut MakeOffer,
    offer_id: String,
    offer_amount: u64,
    duration: i64,
    now: i64,
) -> (r: Result<Offer, TixError>)
    ensures
        match r {
            Ok(offer) => {
                &&& make_offer_error(*old(ctx), offer_id@, offer_amount, duration, now) is None
                &&& *final(ctx) == (MakeOffer {
                    listing: MarketListing {
                        offer_count: (old(ctx).listing.offer_count + 1) as u32,
                        ..old(ctx).listing
                    },
                    ..*old(ctx)
                })
                &&& offer == (Offer {
                    listing: old(ctx).listing_key,
                    buyer: old(ctx).buyer,
                    offer_amount,
                    created_at: now,
                    expires_at: (now + duration) as i64,
                    is_active: true,
                    bump: old(ctx).bump,
                })
            },
            Err(e) => make_offer_error(*old(ctx), offer_id@, offer_amount, duration, now) == Some(
                e,
            ) && *final(ctx) == *old(ctx),
        },
{
    if !ctx.listing.is_active {
        return Err(TixError::ListingExpired);
    }
    if !ctx.listing.accept_offers {
        return Err(TixError::NoActiveOffer);
    }
    if now > ctx.listing.expires_at {
        return Err(TixError::ListingExpired);
    }
    if offer_amount < ctx.listing.minimum_offer {
        return Err(TixError::InvalidPrice);
    }
    if !text_fits(&offer_id, MAX_SHORT_ID_LEN) {
        return Err(TixError::InvalidEventTiming);
    }
    let expires_at = expiry_after(now, duration)?;
    if ctx.listing.offer_count == u32::MAX {
        return Err(TixError::MathOverflow);
    }
    ctx.listing.offer_count = ctx.listing.offer_count + 1;
    Ok(
        Offer {
            listing: ctx.listing_key,
            buyer: ctx.buyer,
            offer_amount,
            created_at: now,
            expires_at,
            is_active: true,
            bump: ctx.bump,
        },
    )
}

/// A listing, an offer on it, its event, the configuration, and the caller
/// who accepts the offer.
#[derive(Clone, Debug, PartialEq, Eq)]
pub struct AcceptOffer {
    pub config: GlobalConfig,
    pub event: Event,
    pub listing: MarketListing,
    pub offer: Offer,
    /// The caller.
    pub seller: Identity,
}

/// Why an offer cannot be accepted at `now`, if it cannot. The checks come
/// in this order: the caller is the seller, the listing is open, the offer is
/// active and has not expired, the amount offered can be divided.
pub open spec fn accept_offer_error(ctx: AcceptOffer, now: i64) -> Option<TixError> {
    if ctx.seller != ctx.listing.seller {
        Some(TixError::InvalidAuthority)
    } else if !listing_open(ctx.listing, now) {
        Some(TixError::ListingExpired)
    } else if !ctx.offer.is_active || now > ctx.offer.expires_at {
        Some(TixError::OfferExpired)
    } else {
        fee_split_error(ctx.offer.offer_amount, ctx.config.protocol_fee_bps, ctx.event.royalty_bps)
    }
}

/// Sells a listed ticket to the maker of an offer at the amount offered,
/// and closes both the offer and the listing.
pub fn accept_offer(ctx: &mut AcceptOffer, now: i64) -> (r: Result<Settlement, TixError>)
    ensures
        match r {
            Ok(settlement) => {
                &&& accept_offer_error(*old(ctx), now) is None
                &&& *final(ctx) == (AcceptOffer {
                    listing: listing_closed(old(ctx).listing),
                    offer: Offer { is_active: false, ..old(ctx).offer },
                    ..*old(ctx)
                })
                &&& settlement == settlement_of(
                    old(ctx).offer.buyer,
                    old(ctx).listing,
                    old(ctx).config,
                    old(ctx).event,
                    old(ctx).offer.offer_amount,
                )
                &&& settlement.split.exact()
            },
            Err(e) => accept_offer_error(*old(ctx), now) == Some(e) && *final(ctx) == *old(ctx),
        },
{
    if !is_authorized(&ctx.seller, &ctx.listing.seller) {
        return Err(TixError::InvalidAuthority);
    }
    if !ctx.listing.is_active || now > ctx.listing.expires_at {
        return Err(TixError::ListingExpired);
    }
    if !ctx.offer.is_active || now > ctx.offer.expires_at {
        return Err(TixError::OfferExpired);
    }
    let split = split_sale_price(
        ctx.offer.offer_amount,
        ctx.config.protocol_fee_bps,
        ctx.event.royalty_bps,
    )?;
    ctx.offer.is_active = false;
    ctx.listing.is_active = false;
    Ok(
        Settlement {
            buyer: ctx.offer.buyer,
            seller: ctx.listing.seller,
            treasury: ctx.config.treasury,
            organizer: ctx.event.organizer,
            split,
        },
    )
}

/// A Dutch listing, its event, the configuration, and the caller who buys.
#[derive(Clone, Debug, PartialEq, Eq)]
pub struct ExecuteDutchAuctionPurchase {
    pub config: GlobalConfig,
    pub event: Event,
    pub listing: MarketListing,
    /// The caller.
    pub buyer: Identity,
}

/// Why a purchase at the Dutch price at `now` is refused, if it is. The
/// checks come in this order: the listing is open, it is a Dutch listing,
/// `now` is not before its creation, the price at `now` can be divided.
pub open spec fn execute_dutch_auction_purchase_error(ctx: ExecuteDutchAuctionPurchase, now: i64)
    -> Option<TixError> {
    if !listing_open(ctx.listing, now) {
        Some(TixError::ListingExpired)
    } else if ctx.listing.sale_type != SaleType::Dutch {
        Some(TixError::InvalidPrice)
    } else if now < ctx.listing.created_at {
        Some(TixError::MathUnderflow)
    } else {
        fee_split_error(
            dutch_price(ctx.listing, now as int) as u64,
            ctx.config.protocol_fee_bps,
            ctx.event.royalty_bps,
        )
    }
}

/// Sells a Dutch listing at the price it has at `now`, and closes it.
pub fn execute_dutch_auction_purchase(ctx: &mut ExecuteDutchAuctionPurchase, now: i64) -> (r:
    Result<Settlement, TixError>)
    ensures
        match r {
            Ok(settlement) => {
                &&& execute_dutch_auction_purchase_error(*old(ctx), now) is None
                &&& *final(ctx) == (ExecuteDutchAuctionPurchase {
                    listing: listing_closed(old(ctx).listing),
                    ..*old(ctx)
                })
                &&& settlement == settlement_of(
                    old(ctx).buyer,
                    old(ctx).listing,
                    old(ctx).config,
                    old(ctx).event,
                    dutch_price(old(ctx).listing, now as int) as u64,
                )
                &&& settlement.split.sale_price == dutch_price(old(ctx).listing, now as int)
                &&& settlement.split.exact()
            },
            Err(e) => execute_dutch_auction_purchase_error(*old(ctx), now) == Some(e)
                && *final(ctx) == *old(ctx),
        },
{
    if !ctx.listing.is_active || now > ctx.listing.expires_at {
        return Err(TixError::ListingExpired);
    }
    match ctx.listing.sale_type {
        SaleType::Dutch => {},
        _ => {
            return Err(TixError::InvalidPrice);
        },
    }
    let current_price = calculate_dutch_auction_price(&ctx.listing, now)?;
    let split = split_sale_price(
        current_price,
        ctx.config.protocol_fee_bps,
        ctx.event.royalty_bps,
    )?;
    ctx.listing.is_active = false;
    Ok(
        Settlement {
            buyer: ctx.buyer,
            seller: ctx.listing.seller,
            treasury: ctx.config.treasury,
            organizer: ctx.event.organizer,
            split,
        },
    )
}

/// An expired listing and the caller who wants to take it back.
#[derive(Clone, Debug, PartialEq, Eq)]
pub struct ClaimExpiredListing {
    pub listing: MarketListing,
    /// The caller.
    pub seller: Identity,
}

/// Why an expired listing cannot be taken back at `now`, if it cannot: the
/// caller is not the seller, or else the listing is closed already or has
/// not expired yet.
pub open spec fn claim_expired_listing_error(ctx: ClaimExpiredListing, now: i64) -> Option<
    TixError,
> {
    if ctx.seller != ctx.listing.seller {
        Some(TixError::InvalidAuthority)
    } else if !ctx.listing.is_active || now <= ctx.listing.expires_at {
        Some(TixError::ListingExpired)
    } else {
        None
    }
}

/// Closes a listing that expired without a sale, for its seller.
pub fn claim_expired_listing(ctx: &mut ClaimExpiredListing, now: i64) -> (r: Result<
    (),
    TixError,
>)
    ensures
        match r {
            Ok(_) => {
                &&& claim_expired_listing_error(*old(ctx), now) is None
                &&& *final(ctx) == (ClaimExpiredListing {
                    listing: listing_closed(old(ctx).listing),
                    ..*old(ctx)
                })
            },
            Err(e) => claim_expired_listing_error(*old(ctx), now) == Some(e) && *final(ctx)
                == *old(ctx),
        },
{
    if !is_authorized(&ctx.seller, &ctx.listing.seller) {
        return Err(TixError::InvalidAuthority);
    }
    if !ctx.listing.is_active || now <= ctx.listing.expires_at {
        return Err(TixError::ListingExpired);
    }
    ctx.listing.is_active = false;
    Ok(())
}

} // verus!
