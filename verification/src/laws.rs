//! What holds of the marketplace whatever is asked of it.
//!
//! Each law is stated over the functions that the contracts of the
//! operations use, so that it says of every call what those contracts say of
//! one.

use vstd::prelude::*;
use crate::constraints::{dutch_price, event_on_sale, hours_elapsed, timing_valid};
use crate::error::{ErrorKind, TixError};
use crate::escrow::{
    buy_ticket_with_escrow_effect, buy_ticket_with_escrow_error, deposit_to_escrow_error,
    escrow_after_deposit, escrow_after_spending, escrow_after_withdrawal,
    withdraw_from_escrow_error, BuyTicketWithEscrow, DepositToEscrow, WithdrawFromEscrow,
};
use crate::events::{event_after_update, update_event_error, UpdateEvent};
use crate::math::percentage_of;
use crate::primary_market::{
    buy_ticket_effect, buy_ticket_error, buy_ticket_with_agent_effect,
    buy_ticket_with_agent_error, ticket_after_validation, validate_ticket_error, BuyTicket,
    BuyTicketWithAgent, ValidateTicket,
};
use crate::secondary_market::{
    list_ticket_for_sale_error, listing_closed, new_listing, CancelListing, ListTicketForSale,
};
use crate::settlement::{fee_split_error, fee_split_of};
use crate::state::{Event, MarketListing, TicketStatus};

verus! {

/// Boundaries that pass validation are ordered as every event's are:
/// `0 < sale_start < sale_end <= event_start < event_end`.
pub proof fn law_valid_timing_is_ordered(event: Event)
    requires
        timing_valid(
            event.event_start_time,
            event.event_end_time,
            event.sale_start_time,
            event.sale_end_time,
        ),
    ensures
        event.timing_ordered(),
{
}

/// An event that is changed with success has ordered boundaries afterwards,
/// whichever of them were changed, and stays well-formed if it was.
pub proof fn law_update_keeps_event_timing(
    ctx: UpdateEvent,
    name: Option<String>,
    description: Option<String>,
    image_url: Option<String>,
    venue: Option<String>,
    event_start_time: Option<i64>,
    event_end_time: Option<i64>,
    sale_start_time: Option<i64>,
    sale_end_time: Option<i64>,
    max_tickets_per_user: Option<u32>,
    royalty_bps: Option<u16>,
    now: i64,
)
    requires
        update_event_error(
            ctx,
            name,
            description,
            image_url,
            venue,
            event_start_time,
            event_end_time,
            sale_start_time,
            sale_end_time,
            max_tickets_per_user,
            royalty_bps,
            now,
        ) is None,
    ensures
        event_after_update(
            ctx.event,
            name,
            description,
            image_url,
            venue,
            event_start_time,
            event_end_time,
            sale_start_time,
            sale_end_time,
            max_tickets_per_user,
            royalty_bps,
        ).timing_ordered(),
        ctx.event.wf() ==> event_after_update(
            ctx.event,
            name,
            description,
            image_url,
            venue,
            event_start_time,
            event_end_time,
            sale_start_time,
            sale_end_time,
            max_tickets_per_user,
            royalty_bps,
        ).wf(),
{
}

/// No purchase, direct, by an agent or from escrow, takes a tier beyond its
/// supply: after it the tier has sold one more ticket and at most its supply.
pub proof fn law_purchase_within_supply(
    direct: BuyTicket,
    by_agent: BuyTicketWithAgent,
    from_escrow: BuyTicketWithEscrow,
    deal_bps: u16,
    now: i64,
)
    ensures
        buy_ticket_error(direct, now) is None ==> {
            &&& buy_ticket_effect(direct).tier.current_supply == direct.tier.current_supply + 1
            &&& buy_ticket_effect(direct).tier.current_supply <= direct.tier.max_supply
            &&& buy_ticket_effect(direct).tier.max_supply == direct.tier.max_supply
        },
        buy_ticket_with_agent_error(by_agent, deal_bps, now) is None ==> {
            &&& buy_ticket_with_agent_effect(by_agent, deal_bps, now).tier.current_supply
                == by_agent.tier.current_supply + 1
            &&& buy_ticket_with_agent_effect(by_agent, deal_bps, now).tier.current_supply
                <= by_agent.tier.max_supply
            &&& buy_ticket_with_agent_effect(by_agent, deal_bps, now).tier.max_supply
                == by_agent.tier.max_supply
        },
        buy_ticket_with_escrow_error(from_escrow, now) is None ==> {
            &&& buy_ticket_with_escrow_effect(from_escrow, now).tier.current_supply
                == from_escrow.tier.current_supply + 1
            &&& buy_ticket_with_escrow_effect(from_escrow, now).tier.current_supply
                <= from_escrow.tier.max_supply
            &&& buy_ticket_with_escrow_effect(from_escrow, now).tier.max_supply
                == from_escrow.tier.max_supply
        },
{
}

/// A tier that has sold its whole supply sells no more: every purchase is
/// refused. Where the event is on sale and the tier active, the refusal is
/// `TierSoldOut`, an error of capacity; where they are not, that is said first.
pub proof fn law_sold_out_tier_refuses(
    direct: BuyTicket,
    by_agent: BuyTicketWithAgent,
    from_escrow: BuyTicketWithEscrow,
    deal_bps: u16,
    now: i64,
)
    ensures
        direct.tier.current_supply == direct.tier.max_supply ==> {
            &&& buy_ticket_error(direct, now) is Some
            &&& event_on_sale(direct.event, now) && direct.tier.is_active ==> buy_ticket_error(
                direct,
                now,
            ) == Some(TixError::TierSoldOut)
        },
        by_agent.tier.current_supply == by_agent.tier.max_supply ==> {
            &&& buy_ticket_with_agent_error(by_agent, deal_bps, now) is Some
            &&& event_on_sale(by_agent.event, now) && by_agent.tier.is_active
                ==> buy_ticket_with_agent_error(by_agent, deal_bps, now) == Some(
                TixError::TierSoldOut,
            )
        },
        from_escrow.tier.current_supply == from_escrow.tier.max_supply ==> {
            &&& buy_ticket_with_escrow_error(from_escrow, now) is Some
            &&& event_on_sale(from_escrow.event, now) && from_escrow.tier.is_active
                ==> buy_ticket_with_escrow_error(from_escrow, now) == Some(TixError::TierSoldOut)
        },
        TixError::TierSoldOut.kind_of() == ErrorKind::Capacity,
{
}

/// A purchase that an agent pays for, from its owner's balance or from its
/// escrow, never takes the agent beyond its budget.
pub proof fn law_agent_purchase_within_budget(
    by_agent: BuyTicketWithAgent,
    from_escrow: BuyTicketWithEscrow,
    deal_bps: u16,
    now: i64,
)
    ensures
        buy_ticket_with_agent_error(by_agent, deal_bps, now) is None ==> {
            &&& buy_ticket_with_agent_effect(by_agent, deal_bps, now).agent.within_budget()
            &&& buy_ticket_with_agent_effect(by_agent, deal_bps, now).agent.spent_budget
                == by_agent.agent.spent_budget + by_agent.tier.price
            &&& buy_ticket_with_agent_effect(by_agent, deal_bps, now).agent.total_budget
                == by_agent.agent.total_budget
        },
        buy_ticket_with_escrow_error(from_escrow, now) is None ==> {
            &&& buy_ticket_with_escrow_effect(from_escrow, now).agent.within_budget()
            &&& buy_ticket_with_escrow_effect(from_escrow, now).agent.spent_budget
                == from_escrow.agent.spent_budget + from_escrow.tier.price
            &&& buy_ticket_with_escrow_effect(from_escrow, now).agent.total_budget
                == from_escrow.agent.total_budget
        },
{
}

/// The balance of an escrow stays what was deposited less what was
/// withdrawn and what was spent, through every deposit, withdrawal and
/// purchase.
pub proof fn law_escrow_stays_balanced(
    deposit: DepositToEscrow,
    withdrawal: WithdrawFromEscrow,
    purchase: BuyTicketWithEscrow,
    amount: u64,
    now: i64,
)
    ensures
        deposit.escrow.balanced() && deposit_to_escrow_error(deposit, amount) is None
            ==> escrow_after_deposit(deposit.escrow, amount, now).balanced(),
        withdrawal.escrow.balanced() && withdraw_from_escrow_error(withdrawal, amount) is None
            ==> escrow_after_withdrawal(withdrawal.escrow, amount, now).balanced(),
        purchase.escrow.balanced() && buy_ticket_with_escrow_error(purchase, now) is None
            ==> escrow_after_spending(purchase.escrow, purchase.tier.price, now).balanced(),
{
}

/// A ticket that is listed and at once withdrawn by its seller leaves a
/// closed listing behind. The withdrawal is never refused, and the listing
/// differs from the one made only in being closed.
pub proof fn law_list_then_cancel(
    ctx: ListTicketForSale,
    listing_id: String,
    list_price: u64,
    minimum_offer: u64,
    accept_offers: bool,
    sale_type: u8,
    price_adjustment_rate: u16,
    min_price: u64,
    max_price: u64,
    duration: i64,
    now: i64,
)
    requires
        list_ticket_for_sale_error(
            ctx,
            listing_id@,
            list_price,
            sale_type,
            min_price,
            max_price,
            duration,
            now,
        ) is None,
    ensures
        ({
            let listing = new_listing(
                ctx,
                listing_id,
                list_price,
                minimum_offer,
                accept_offers,
                sale_type,
                price_adjustment_rate,
                min_price,
                max_price,
                duration,
                now,
            );
            let withdrawal = CancelListing { listing, seller: ctx.seller };
            &&& listing.is_active
            &&& withdrawal.seller == withdrawal.listing.seller
            &&& !listing_closed(listing).is_active
            &&& listing_closed(listing) == (MarketListing {
                is_active: false,
                ..listing
            })
            &&& ctx.ticket.status == TicketStatus::Active
        }),
{
}

/// A ticket is admitted once. After it was used, it is consumed, and
/// presenting it again for the same event, at whatever time, is refused with
/// `TicketConsumed`, an error of timing and state.
pub proof fn law_ticket_admits_once(ctx: ValidateTicket, first: i64, second: i64)
    requires
        validate_ticket_error(ctx, first) is None,
    ensures
        ticket_after_validation(ctx.ticket, first).status == TicketStatus::Consumed,
        validate_ticket_error(
            ValidateTicket { ticket: ticket_after_validation(ctx.ticket, first), ..ctx },
            second,
        ) == Some(TixError::TicketConsumed),
        TixError::TicketConsumed.kind_of() == ErrorKind::TimingState,
{
}

/// The sale window includes both of its ends. At the last second of the
/// sale the window does not stand in the way of a purchase; one second later
/// every purchase is refused with `EventNotActive`, an error of timing and state.
pub proof fn law_sale_window_ends_inclusive(ctx: BuyTicket)
    ensures
        ctx.event.is_active && !ctx.event.is_cancelled && ctx.event.sale_start_time
            <= ctx.event.sale_end_time ==> event_on_sale(ctx.event, ctx.event.sale_end_time),
        ctx.event.sale_end_time < i64::MAX ==> buy_ticket_error(
            ctx,
            (ctx.event.sale_end_time + 1) as i64,
        ) == Some(TixError::EventNotActive),
        TixError::EventNotActive.kind_of() == ErrorKind::TimingState,
{
}

/// The Dutch price never lies below the floor, and never above the list
/// price when the floor does not.
pub proof fn law_dutch_price_bounds(listing: MarketListing, now: int)
    requires
        now >= listing.created_at,
    ensures
        dutch_price(listing, now) >= listing.min_price,
        listing.min_price <= listing.list_price ==> dutch_price(listing, now)
            <= listing.list_price,
{
    let hours = hours_elapsed(listing.created_at as int, now);
    let bps = hours * listing.price_adjustment_rate;
    assert(bps >= 0) by (nonlinear_arith)
        requires
            hours >= 0,
            listing.price_adjustment_rate >= 0,
            bps == hours * listing.price_adjustment_rate,
    ;
    assert(listing.list_price * bps >= 0) by (nonlinear_arith)
        requires
            bps >= 0,
            listing.list_price >= 0,
    ;
}

/// The Dutch price does not rise with time.
pub proof fn law_dutch_price_never_rises(listing: MarketListing, earlier: int, later: int)
    requires
        listing.created_at <= earlier <= later,
    ensures
        dutch_price(listing, later) <= dutch_price(listing, earlier),
{
    let h1 = hours_elapsed(listing.created_at as int, earlier);
    let h2 = hours_elapsed(listing.created_at as int, later);
    let rate = listing.price_adjustment_rate as int;
    let price = listing.list_price as int;
    assert(h1 <= h2);
    assert(price * (h1 * rate) <= price * (h2 * rate)) by (nonlinear_arith)
        requires
            0 <= h1 <= h2,
            0 <= rate,
            0 <= price,
    ;
}

/// Where a price can be divided, the three parts make it up exactly, and
/// no part exceeds it.
pub proof fn law_fee_split_exact(sale_price: u64, protocol_fee_bps: u16, royalty_bps: u16)
    requires
        fee_split_error(sale_price, protocol_fee_bps, royalty_bps) is None,
    ensures
        fee_split_of(sale_price, protocol_fee_bps, royalty_bps).exact(),
        fee_split_of(sale_price, protocol_fee_bps, royalty_bps).protocol_fee <= sale_price,
        fee_split_of(sale_price, protocol_fee_bps, royalty_bps).organizer_royalty <= sale_price,
        fee_split_of(sale_price, protocol_fee_bps, royalty_bps).seller_payout <= sale_price,
{
    let fee = percentage_of(sale_price as int, protocol_fee_bps as int);
    let royalty = percentage_of(sale_price as int, royalty_bps as int);
    assert(sale_price * protocol_fee_bps >= 0) by (nonlinear_arith)
        requires
            sale_price >= 0,
            protocol_fee_bps >= 0,
    ;
    assert(sale_price * royalty_bps >= 0) by (nonlinear_arith)
        requires
            sale_price >= 0,
            royalty_bps >= 0,
    ;
    assert(fee >= 0 && royalty >= 0);
}

/// Rates that together are at most one hundred percent can divide every price.
pub proof fn law_fee_split_possible(sale_price: u64, protocol_fee_bps: u16, royalty_bps: u16)
    requires
        protocol_fee_bps + royalty_bps <= 10000,
    ensures
        fee_split_error(sale_price, protocol_fee_bps, royalty_bps) is None,
{
    let p = sale_price as int;
    let a = protocol_fee_bps as int;
    let b = royalty_bps as int;
    assert(p * a + p * b == p * (a + b)) by (nonlinear_arith);
    assert(p * (a + b) <= p * 10000) by (nonlinear_arith)
        requires
            p >= 0,
            0 <= a + b <= 10000,
    ;
    assert(p * a >= 0 && p * b >= 0) by (nonlinear_arith)
        requires
            p >= 0,
            a >= 0,
            b >= 0,
    ;
    assert((p * a) / 10000 + (p * b) / 10000 <= (p * a + p * b) / 10000) by {
        vstd::arithmetic::div_mod::lemma_fundamental_div_mod(p * a, 10000);
        vstd::arithmetic::div_mod::lemma_fundamental_div_mod(p * b, 10000);
        vstd::arithmetic::div_mod::lemma_fundamental_div_mod(p * a + p * b, 10000);
    }
}

} // verus!
