//! The predicates that the operations share: who may act, when, and at what price.

use vstd::prelude::*;
use crate::error::TixError;
use crate::identity::Identity;
use crate::math::{lemma_percentage_bounded, lemma_product_bounds, marked_up, percentage_of};
use crate::state::{text_len, AIAgent, Event, MarketListing, MAX_BPS};

verus! {

/// Whether `caller` is the authority that a record names.
pub fn is_authorized(caller: &Identity, authority: &Identity) -> (allowed: bool)
    ensures
        allowed == (*caller == *authority),
{
    caller.same_as(authority)
}

/// The sale opens after time zero and closes after it opened and strictly
/// before the event begins; the event ends after it began.
pub open spec fn timing_valid(
    event_start: i64,
    event_end: i64,
    sale_start: i64,
    sale_end: i64,
) -> bool {
    &&& event_start > 0
    &&& event_end > event_start
    &&& sale_start > 0
    &&& sale_end > sale_start
    &&& sale_end < event_start
}

/// Accepts the four boundaries of an event exactly when they are ordered as
/// [`timing_valid`] says.
pub fn validate_event_timing(
    event_start: i64,
    event_end: i64,
    sale_start: i64,
    sale_end: i64,
) -> (r: Result<(), TixError>)
    ensures
        r is Ok <==> timing_valid(event_start, event_end, sale_start, sale_end),
        r is Err ==> r == Err::<(), TixError>(TixError::InvalidEventTiming),
{
    if event_start > 0 && event_end > event_start && sale_start > 0 && sale_end > sale_start
        && sale_end < event_start {
        Ok(())
    } else {
        Err(TixError::InvalidEventTiming)
    }
}

/// Accepts a royalty of at most one hundred percent.
pub fn validate_royalty_bps(royalty_bps: u16) -> (r: Result<(), TixError>)
    ensures
        r is Ok <==> royalty_bps <= MAX_BPS,
        r is Err ==> r == Err::<(), TixError>(TixError::InvalidRoyaltyBps),
{
    if royalty_bps <= MAX_BPS {
        Ok(())
    } else {
        Err(TixError::InvalidRoyaltyBps)
    }
}

/// Accepts a text of at most `max_len` bytes.
pub fn validate_string_length(s: &str, max_len: usize) -> (r: Result<(), TixError>)
    ensures
        r is Ok <==> text_len(s@) <= max_len,
        r is Err ==> r == Err::<(), TixError>(TixError::InvalidPrice),
{
    if s.as_bytes().len() <= max_len {
        Ok(())
    } else {
        Err(TixError::InvalidPrice)
    }
}

/// Tickets of the event are on sale at `now`: the event is active, not
/// cancelled, and `now` lies in the sale window, both ends included.
pub open spec fn event_on_sale(event: Event, now: i64) -> bool {
    &&& event.is_active
    &&& !event.is_cancelled
    &&& event.sale_start_time <= now <= event.sale_end_time
}

/// Whether tickets of the event are on sale at `now`.
pub fn is_event_active(event: &Event, now: i64) -> (active: bool)
    ensures
        active == event_on_sale(*event, now),
{
    event.is_active && !event.is_cancelled && now >= event.sale_start_time && now
        <= event.sale_end_time
}

/// The event takes place at `now`: it is not cancelled and `now` lies
/// between its start and its end, both included.
pub open spec fn event_taking_place(event: Event, now: i64) -> bool {
    &&& !event.is_cancelled
    &&& event.event_start_time <= now <= event.event_end_time
}

/// Whether the event takes place at `now`.
pub fn is_event_ongoing(event: &Event, now: i64) -> (ongoing: bool)
    ensures
        ongoing == event_taking_place(*event, now),
{
    !event.is_cancelled && now >= event.event_start_time && now <= event.event_end_time
}

/// The minute of the day, counted from midnight, at a time that is not negative.
pub open spec fn minute_of_day(now: int) -> int {
    (now % 86400) / 60
}

/// The day of the week as a number from 0 to 6, where 0 is the weekday of
/// time zero, at a time that is not negative.
pub open spec fn day_index(now: int) -> int {
    (now / 86400) % 7
}

/// Whether the bit of day `day` is set in the mask `days`.
pub open spec fn day_allowed(days: u8, day: u8) -> bool {
    days & (1u8 << day) != 0
}

/// Everything an agent asks of a purchase at `price` made at `now` with a
/// deal quality of `deal_bps`: the agent is active and buys on its own, the
/// price is within what is left of its budget and within its cap per
/// ticket, the time is not negative, the minute of the day lies in its
/// window and the weekday is one of its days, and the deal is good enough.
pub open spec fn preferences_match(agent: AIAgent, price: u64, deal_bps: u16, now: i64) -> bool {
    &&& agent.is_active
    &&& agent.auto_purchase_enabled
    &&& price <= agent.total_budget - agent.spent_budget
    &&& price <= agent.max_budget_per_ticket
    &&& now >= 0
    &&& agent.preferred_time_start <= minute_of_day(now as int) <= agent.preferred_time_end
    &&& day_allowed(agent.preferred_days, day_index(now as int) as u8)
    &&& deal_bps >= agent.auto_purchase_threshold
}

/// Whether the agent would make this purchase. A mismatch is an answer, not an error.
pub fn check_agent_preferences_match(
    agent: &AIAgent,
    price: u64,
    price_deal_bps: u16,
    now: i64,
) -> (matches: bool)
    ensures
        matches == preferences_match(*agent, price, price_deal_bps, now),
{
    if !agent.is_active || !agent.auto_purchase_enabled {
        return false;
    }
    if agent.total_budget < agent.spent_budget {
        return false;
    }
    let remaining_budget: u64 = agent.total_budget - agent.spent_budget;
    if price > remaining_budget || price > agent.max_budget_per_ticket {
        return false;
    }
    if now < 0 {
        return false;
    }
    let minute: i64 = (now % 86400) / 60;
    if minute < agent.preferred_time_start as i64 || minute > agent.preferred_time_end as i64 {
        return false;
    }
    let day: u8 = ((now / 86400) % 7) as u8;
    if agent.preferred_days & (1u8 << day) == 0 {
        return false;
    }
    price_deal_bps >= agent.auto_purchase_threshold
}

/// Whole hours between the creation of a listing and `now`.
pub open spec fn hours_elapsed(created_at: int, now: int) -> int {
    (now - created_at) / 3600
}

/// By how much the Dutch price has fallen at `now`: the list price times the
/// hourly rate times the whole hours elapsed, in basis points, rounded down.
pub open spec fn dutch_discount(listing: MarketListing, now: int) -> int {
    percentage_of(
        listing.list_price as int,
        hours_elapsed(listing.created_at as int, now) * listing.price_adjustment_rate,
    )
}

/// The Dutch price at `now`: the list price less the discount, but not less
/// than the floor.
pub open spec fn dutch_price(listing: MarketListing, now: int) -> int {
    let reduced = listing.list_price - dutch_discount(listing, now);
    if reduced >= listing.min_price {
        reduced
    } else {
        listing.min_price as int
    }
}

/// A discount of one hundred percent or more takes the whole amount.
pub proof fn lemma_full_discount(amount: int, bps: int)
    requires
        0 <= amount,
        10000 <= bps,
    ensures
        percentage_of(amount, bps) >= amount,
{
    assert(amount * bps >= amount * 10000) by (nonlinear_arith)
        requires
            0 <= amount,
            10000 <= bps,
    ;
}

/// The price of a Dutch listing at `now`, which is not before its creation.
pub fn calculate_dutch_auction_price(listing: &MarketListing, now: i64) -> (r: Result<
    u64,
    TixError,
>)
    ensures
        r is Ok <==> now >= listing.created_at,
        match r {
            Ok(price) => price == dutch_price(*listing, now as int),
            Err(e) => e == TixError::MathUnderflow,
        },
{
    if now < listing.created_at {
        return Err(TixError::MathUnderflow);
    }
    let elapsed: i128 = now as i128 - listing.created_at as i128;
    let hours: u128 = (elapsed / 3600) as u128;
    proof {
        lemma_product_bounds(hours as int, listing.price_adjustment_rate as int);
    }
    let discount_bps: u128 = hours * (listing.price_adjustment_rate as u128);
    if discount_bps >= 10000 {
        proof {
            lemma_full_discount(listing.list_price as int, discount_bps as int);
        }
        return Ok(listing.min_price);
    }
    proof {
        lemma_product_bounds(listing.list_price as int, discount_bps as int);
        lemma_percentage_bounded(listing.list_price as int, discount_bps as int);
    }
    let discount: u128 = (listing.list_price as u128) * discount_bps / 10000;
    let reduced: u64 = listing.list_price - (discount as u64);
    if reduced >= listing.min_price {
        Ok(reduced)
    } else {
        Ok(listing.min_price)
    }
}

/// The highest price at which a ticket bought at `original_price` may be
/// listed under a cap of `cap_bps` basis points.
pub open spec fn price_cap(original_price: u64, cap_bps: u16) -> int {
    marked_up(original_price as int, cap_bps as int)
}

/// Accepts a list price that does not exceed the cap.
pub fn validate_price_cap(list_price: u64, original_price: u64, price_cap_bps: u16) -> (r:
    Result<(), TixError>)
    ensures
        r is Ok <==> list_price <= price_cap(original_price, price_cap_bps),
        r is Err ==> r == Err::<(), TixError>(TixError::PriceCapExceeded),
{
    proof {
        lemma_product_bounds(original_price as int, 10000 + price_cap_bps as int);
    }
    let factor: u128 = 10000u128 + (price_cap_bps as u128);
    let max_price: u128 = (original_price as u128) * factor / 10000;
    if list_price as u128 <= max_price {
        Ok(())
    } else {
        Err(TixError::PriceCapExceeded)
    }
}

} // verus!
