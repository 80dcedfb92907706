//! First sale of tickets, their use at the door and their cancellation.

use vstd::prelude::*;
use crate::constraints::{
    check_agent_preferences_match, event_on_sale, event_taking_place, is_authorized,
    is_event_active, preferences_match,
};
use crate::error::TixError;
use crate::identity::Identity;
use crate::math::{calculate_markup, marked_up, safe_add};
use crate::settlement::Transfer;
use crate::state::{AIAgent, Event, Ticket, TicketStatus, TicketTier, User, UserTicketCounter};

verus! {

/// Whether the buyer may hold one more ticket of the event. Where no
/// counter is kept for the buyer, nothing limits them.
pub open spec fn counter_allows(counter: Option<UserTicketCounter>, max_tickets_per_user: u32)
    -> bool {
    match counter {
        Some(c) => c.ticket_count < max_tickets_per_user,
        None => true,
    }
}

/// The counter after one more ticket.
pub open spec fn counter_after_purchase(counter: Option<UserTicketCounter>) -> Option<
    UserTicketCounter,
> {
    match counter {
        Some(c) => Some(UserTicketCounter { ticket_count: (c.ticket_count + 1) as u32, ..c }),
        None => None,
    }
}

/// Whether a tier has tickets left to sell.
pub open spec fn tier_has_supply(tier: TicketTier) -> bool {
    tier.current_supply < tier.max_supply
}

/// The tier after the sale of one ticket.
pub open spec fn tier_after_sale(tier: TicketTier) -> TicketTier {
    TicketTier { current_supply: (tier.current_supply + 1) as u64, ..tier }
}

/// Whether the totals of the event have room for one more sale at `price`.
pub open spec fn event_can_record_sale(event: Event, price: u64) -> bool {
    &&& event.total_tickets_sold + 1 <= u64::MAX
    &&& event.total_revenue + price <= u64::MAX
}

/// The event after the sale of one ticket at `price`.
pub open spec fn event_after_sale(event: Event, price: u64) -> Event {
    Event {
        total_tickets_sold: (event.total_tickets_sold + 1) as u64,
        total_revenue: (event.total_revenue + price) as u64,
        ..event
    }
}

/// Whether the statistics of the user have room for one more purchase at `price`.
pub open spec fn user_can_record_purchase(user: User, price: u64) -> bool {
    &&& user.tickets_owned + 1 <= u64::MAX
    &&& user.total_spent + price <= u64::MAX
    &&& user.tickets_purchased + 1 <= u64::MAX
}

/// The user after the purchase of one ticket at `price`.
pub open spec fn user_after_purchase(user: User, price: u64) -> User {
    User {
        tickets_owned: (user.tickets_owned + 1) as u64,
        total_spent: (user.total_spent + price) as u64,
        tickets_purchased: (user.tickets_purchased + 1) as u64,
        ..user
    }
}

/// The new totals of an event for one more sale at `price`.
fn next_event_totals(event: &Event, price: u64) -> (r: Result<(u64, u64), TixError>)
    ensures
        match r {
            Ok(totals) => {
                &&& event_can_record_sale(*event, price)
                &&& totals.0 == event.total_tickets_sold + 1
                &&& totals.1 == event.total_revenue + price
            },
            Err(e) => e == TixError::MathOverflow && !event_can_record_sale(*event, price),
        },
{
    let sold = safe_add(event.total_tickets_sold, 1)?;
    let revenue = safe_add(event.total_revenue, price)?;
    Ok((sold, revenue))
}

/// The new statistics of a user for one more purchase at `price`.
fn next_user_totals(user: &User, price: u64) -> (r: Result<(u64, u64, u64), TixError>)
    ensures
        match r {
            Ok(totals) => {
                &&& user_can_record_purchase(*user, price)
                &&& totals.0 == user.tickets_owned + 1
                &&& totals.1 == user.total_spent + price
                &&& totals.2 == user.tickets_purchased + 1
            },
            Err(e) => e == TixError::MathOverflow && !user_can_record_purchase(*user, price),
        },
{
    let owned = safe_add(user.tickets_owned, 1)?;
    let spent = safe_add(user.total_spent, price)?;
    let purchased = safe_add(user.tickets_purchased, 1)?;
    Ok((owned, spent, purchased))
}

/// The records of a direct purchase and the buyer who pays.
#[derive(Clone, Debug, PartialEq, Eq)]
pub struct BuyTicket {
    pub event: Event,
    pub tier: TicketTier,
    pub user: User,
    /// The buyer's counter for this event, where one is kept.
    pub user_ticket_counter: Option<UserTicketCounter>,
    pub buyer: Identity,
}

/// Why a direct purchase at `now` is refused, if it is. The checks come in
/// this order: the event is on sale, the tier is active, the tier has supply,
/// the buyer is under the limit per user, the totals have room.
pub open spec fn buy_ticket_error(ctx: BuyTicket, now: i64) -> Option<TixError> {
    if !event_on_sale(ctx.event, now) {
        Some(TixError::EventNotActive)
    } else if !ctx.tier.is_active {
        Some(TixError::TierNotActive)
    } else if !tier_has_supply(ctx.tier) {
        Some(TixError::TierSoldOut)
    } else if !counter_allows(ctx.user_ticket_counter, ctx.event.max_tickets_per_user) {
        Some(TixError::MaxTicketsPerUserExceeded)
    } else if !event_can_record_sale(ctx.event, ctx.tier.price) || !user_can_record_purchase(
        ctx.user,
        ctx.tier.price,
    ) {
        Some(TixError::MathOverflow)
    } else {
        None
    }
}

/// The records after a direct purchase.
pub open spec fn buy_ticket_effect(ctx: BuyTicket) -> BuyTicket {
    BuyTicket {
        event: event_after_sale(ctx.event, ctx.tier.price),
        tier: tier_after_sale(ctx.tier),
        user: user_after_purchase(ctx.user, ctx.tier.price),
        user_ticket_counter: counter_after_purchase(ctx.user_ticket_counter),
        buyer: ctx.buyer,
    }
}

/// Sells one ticket of the tier to the buyer at the tier's price, which the
/// buyer pays to the organizer.
pub fn buy_ticket(ctx: &mut BuyTicket, now: i64) -> (r: Result<Transfer, TixError>)
    ensures
        match r {
            Ok(payment) => {
                &&& buy_ticket_error(*old(ctx), now) is None
                &&& *final(ctx) == buy_ticket_effect(*old(ctx))
                &&& payment == (Transfer {
                    from: old(ctx).buyer,
                    to: old(ctx).event.organizer,
                    amount: old(ctx).tier.price,
                })
            },
            Err(e) => buy_ticket_error(*old(ctx), now) == Some(e) && *final(ctx) == *old(ctx),
        },
        old(ctx).tier.current_supply <= old(ctx).tier.max_supply ==> final(ctx).tier.current_supply
            <= final(ctx).tier.max_supply,
{
    if !is_event_active(&ctx.event, now) {
        return Err(TixError::EventNotActive);
    }
    if !ctx.tier.is_active {
        return Err(TixError::TierNotActive);
    }
    if ctx.tier.current_supply >= ctx.tier.max_supply {
        return Err(TixError::TierSoldOut);
    }
    let next_counter = match ctx.user_ticket_counter {
        Some(counter) => {
            if counter.ticket_count >= ctx.event.max_tickets_per_user {
                return Err(TixError::MaxTicketsPerUserExceeded);
            }
            Some(UserTicketCounter { ticket_count: counter.ticket_count + 1, ..counter })
        },
        None => None,
    };
    let price = ctx.tier.price;
    let (sold, revenue) = next_event_totals(&ctx.event, price)?;
    let (owned, spent, purchased) = next_user_totals(&ctx.user, price)?;

    ctx.tier.current_supply = ctx.tier.current_supply + 1;
    ctx.event.total_tickets_sold = sold;
    ctx.event.total_revenue = revenue;
    ctx.user.tickets_owned = owned;
    ctx.user.total_spent = spent;
    ctx.user.tickets_purchased = purchased;
    ctx.user_ticket_counter = next_counter;
    Ok(Transfer { from: ctx.buyer, to: ctx.event.organizer, amount: price })
}

/// The records of a purchase that an agent makes for its owner.
#[derive(Clone, Debug, PartialEq, Eq)]
pub struct BuyTicketWithAgent {
    pub event: Event,
    pub tier: TicketTier,
    pub agent: AIAgent,
    /// The profile of the agent's owner.
    pub user: User,
    /// The owner's counter for this event, where one is kept.
    pub user_ticket_counter: Option<UserTicketCounter>,
}

/// What the agent saved on a ticket bought at `price` that is `deal_bps`
/// basis points below the market: the market price, which is the price
/// marked up by `deal_bps`, less the price. Nothing where `deal_bps` is zero.
pub open spec fn deal_saving(price: u64, deal_bps: u16) -> int {
    if deal_bps > 0 {
        marked_up(price as int, deal_bps as int) - price
    } else {
        0
    }
}

/// Whether the statistics of the agent have room for a purchase at `price`.
pub open spec fn agent_can_record_purchase(agent: AIAgent, price: u64, deal_bps: u16) -> bool {
    &&& agent.spent_budget + price <= u64::MAX
    &&& agent.tickets_purchased + 1 <= u64::MAX
    &&& deal_bps > 0 ==> marked_up(price as int, deal_bps as int) <= u64::MAX
    &&& agent.money_saved + deal_saving(price, deal_bps) <= u64::MAX
}

/// The agent after a purchase at `price` made at `now`.
pub open spec fn agent_after_purchase(agent: AIAgent, price: u64, deal_bps: u16, now: i64)
    -> AIAgent {
    AIAgent {
        spent_budget: (agent.spent_budget + price) as u64,
        tickets_purchased: (agent.tickets_purchased + 1) as u64,
        money_saved: (agent.money_saved + deal_saving(price, deal_bps)) as u64,
        last_active: now,
        ..agent
    }
}

/// Why a purchase by an agent at `now` is refused, if it is. The checks come
/// in this order: the event is on sale, the tier is active, the tier has
/// supply, the agent is active, the agent buys on its own, the purchase
/// matches the agent's preferences and budget, the owner is under the limit
/// per user, the totals have room.
pub open spec fn buy_ticket_with_agent_error(ctx: BuyTicketWithAgent, deal_bps: u16, now: i64)
    -> Option<TixError> {
    if !event_on_sale(ctx.event, now) {
        Some(TixError::EventNotActive)
    } else if !ctx.tier.is_active {
        Some(TixError::TierNotActive)
    } else if !tier_has_supply(ctx.tier) {
        Some(TixError::TierSoldOut)
    } else if !ctx.agent.is_active {
        Some(TixError::AgentInactive)
    } else if !ctx.agent.auto_purchase_enabled {
        Some(TixError::AgentAutoPurchaseDisabled)
    } else if !preferences_match(ctx.agent, ctx.tier.price, deal_bps, now) {
        Some(TixError::PreferenceMismatch)
    } else if !counter_allows(ctx.user_ticket_counter, ctx.event.max_tickets_per_user) {
        Some(TixError::MaxTicketsPerUserExceeded)
    } else if !agent_can_record_purchase(ctx.agent, ctx.tier.price, deal_bps)
        || !event_can_record_sale(ctx.event, ctx.tier.price) || !user_can_record_purchase(
        ctx.user,
        ctx.tier.price,
    ) {
        Some(TixError::MathOverflow)
    } else {
        None
    }
}

/// The records after a purchase by an agent.
pub open spec fn buy_ticket_with_agent_effect(ctx: BuyTicketWithAgent, deal_bps: u16, now: i64)
    -> BuyTicketWithAgent {
    BuyTicketWithAgent {
        event: event_after_sale(ctx.event, ctx.tier.price),
        tier: tier_after_sale(ctx.tier),
        agent: agent_after_purchase(ctx.agent, ctx.tier.price, deal_bps, now),
        user: user_after_purchase(ctx.user, ctx.tier.price),
        user_ticket_counter: counter_after_purchase(ctx.user_ticket_counter),
    }
}

/// The new statistics of an agent for a purchase at `price` within its budget:
/// budget spent, tickets purchased, money saved.
fn next_agent_totals(agent: &AIAgent, price: u64, deal_bps: u16) -> (r: Result<
    (u64, u64, u64),
    TixError,
>)
    requires
        price <= agent.total_budget - agent.spent_budget,
    ensures
        match r {
            Ok(totals) => {
                &&& agent_can_record_purchase(*agent, price, deal_bps)
                &&& totals.0 == agent.spent_budget + price
                &&& totals.1 == agent.tickets_purchased + 1
                &&& totals.2 == agent.money_saved + deal_saving(price, deal_bps)
            },
            Err(e) => e == TixError::MathOverflow && !agent_can_record_purchase(
                *agent,
                price,
                deal_bps,
            ),
        },
{
    let spent: u64 = agent.spent_budget + price;
    let purchased = safe_add(agent.tickets_purchased, 1)?;
    let mut saved_total: u64 = agent.money_saved;
    if deal_bps > 0 {
        let market_price = calculate_markup(price, deal_bps)?;
        proof {
            assert(price * (10000 + deal_bps) >= price * 10000) by (nonlinear_arith)
                requires
                    price >= 0,
                    deal_bps >= 0,
            ;
        }
        let saved: u64 = market_price - price;
        saved_total = safe_add(agent.money_saved, saved)?;
    }
    Ok((spent, purchased, saved_total))
}

/// Sells one ticket of the tier to an agent, which buys for its owner within
/// its budget and preferences. The owner pays the tier's price to the
/// organizer. `price_deal_bps` says by how many basis points the price lies
/// below the market; it is taken on trust and only counted as money saved.
pub fn buy_ticket_with_agent(ctx: &mut BuyTicketWithAgent, price_deal_bps: u16, now: i64) -> (r:
    Result<Transfer, TixError>)
    ensures
        match r {
            Ok(payment) => {
                &&& buy_ticket_with_agent_error(*old(ctx), price_deal_bps, now) is None
                &&& *final(ctx) == buy_ticket_with_agent_effect(*old(ctx), price_deal_bps, now)
                &&& payment == (Transfer {
                    from: old(ctx).agent.owner,
                    to: old(ctx).event.organizer,
                    amount: old(ctx).tier.price,
                })
            },
            Err(e) => buy_ticket_with_agent_error(*old(ctx), price_deal_bps, now) == Some(e)
                && *final(ctx) == *old(ctx),
        },
        old(ctx).tier.current_supply <= old(ctx).tier.max_supply ==> final(ctx).tier.current_supply
            <= final(ctx).tier.max_supply,
        old(ctx).agent.within_budget() ==> final(ctx).agent.within_budget(),
{
    if !is_event_active(&ctx.event, now) {
        return Err(TixError::EventNotActive);
    }
    if !ctx.tier.is_active {
        return Err(TixError::TierNotActive);
    }
    if ctx.tier.current_supply >= ctx.tier.max_supply {
        return Err(TixError::TierSoldOut);
    }
    if !ctx.agent.is_active {
        return Err(TixError::AgentInactive);
    }
    if !ctx.agent.auto_purchase_enabled {
        return Err(TixError::AgentAutoPurchaseDisabled);
    }
    let price = ctx.tier.price;
    if !check_agent_preferences_match(&ctx.agent, price, price_deal_bps, now) {
        return Err(TixError::PreferenceMismatch);
    }
    let next_counter = match ctx.user_ticket_counter {
        Some(counter) => {
            if counter.ticket_count >= ctx.event.max_tickets_per_user {
                return Err(TixError::MaxTicketsPerUserExceeded);
            }
            Some(UserTicketCounter { ticket_count: counter.ticket_count + 1, ..counter })
        },
        None => None,
    };
    let (agent_spent, agent_purchased, agent_saved) = next_agent_totals(
        &ctx.agent,
        price,
        price_deal_bps,
    )?;
    let (sold, revenue) = next_event_totals(&ctx.event, price)?;
    let (owned, spent, purchased) = next_user_totals(&ctx.user, price)?;

    ctx.agent.spent_budget = agent_spent;
    ctx.agent.tickets_purchased = agent_purchased;
    ctx.agent.money_saved = agent_saved;
    ctx.agent.last_active = now;
    ctx.tier.current_supply = ctx.tier.current_supply + 1;
    ctx.event.total_tickets_sold = sold;
    ctx.event.total_revenue = revenue;
    ctx.user.tickets_owned = owned;
    ctx.user.total_spent = spent;
    ctx.user.tickets_purchased = purchased;
    ctx.user_ticket_counter = next_counter;
    Ok(Transfer { from: ctx.agent.owner, to: ctx.event.organizer, amount: price })
}

/// A ticket presented at the door of an event.
#[derive(Clone, Debug, PartialEq, Eq)]
pub struct ValidateTicket {
    pub event: Event,
    /// Where the event record is kept.
    pub event_key: Identity,
    pub ticket: Ticket,
}

/// Why a ticket is turned away at `now`, if it is. The checks come in this
/// order: the ticket is for this event, it is active, the event takes place
/// now, the event is not cancelled.
pub open spec fn validate_ticket_error(ctx: ValidateTicket, now: i64) -> Option<TixError> {
    if ctx.ticket.event != ctx.event_key {
        Some(TixError::TicketNotValid)
    } else if ctx.ticket.status != TicketStatus::Active {
        Some(TixError::TicketConsumed)
    } else if !(ctx.event.event_start_time <= now <= ctx.event.event_end_time) {
        Some(TixError::EventNotOngoing)
    } else if ctx.event.is_cancelled {
        Some(TixError::TicketCancelled)
    } else {
        None
    }
}

/// The ticket after it was used at `now`.
pub open spec fn ticket_after_validation(ticket: Ticket, now: i64) -> Ticket {
    Ticket { status: TicketStatus::Consumed, validated_at: Some(now), ..ticket }
}

/// Admits the holder of an active ticket to an event that takes place now,
/// and consumes the ticket.
pub fn validate_ticket(ctx: &mut ValidateTicket, now: i64) -> (r: Result<(), TixError>)
    ensures
        match r {
            Ok(_) => {
                &&& validate_ticket_error(*old(ctx), now) is None
                &&& *final(ctx) == (ValidateTicket {
                    ticket: ticket_after_validation(old(ctx).ticket, now),
                    ..*old(ctx)
                })
            },
            Err(e) => validate_ticket_error(*old(ctx), now) == Some(e) && *final(ctx) == *old(ctx),
        },
        validate_ticket_error(*old(ctx), now) is None <==> {
            &&& old(ctx).ticket.event == old(ctx).event_key
            &&& old(ctx).ticket.status == TicketStatus::Active
            &&& event_taking_place(old(ctx).event, now)
        },
{
    if !ctx.ticket.event.same_as(&ctx.event_key) {
        return Err(TixError::TicketNotValid);
    }
    match ctx.ticket.status {
        TicketStatus::Active => {},
        _ => {
            return Err(TixError::TicketConsumed);
        },
    }
    if now < ctx.event.event_start_time || now > ctx.event.event_end_time {
        return Err(TixError::EventNotOngoing);
    }
    if ctx.event.is_cancelled {
        return Err(TixError::TicketCancelled);
    }
    ctx.ticket.status = TicketStatus::Consumed;
    ctx.ticket.validated_at = Some(now);
    Ok(())
}

/// A ticket that the organizer of its event takes back.
#[derive(Clone, Debug, PartialEq, Eq)]
pub struct CancelTicketByAdmin {
    pub event: Event,
    /// Where the event record is kept.
    pub event_key: Identity,
    pub ticket: Ticket,
    /// The caller.
    pub organizer: Identity,
}

/// Why a cancellation is refused, if it is. The checks come in this order:
/// the ticket is for this event, the caller is its organizer, the ticket is
/// active.
pub open spec fn cancel_ticket_error(ctx: CancelTicketByAdmin) -> Option<TixError> {
    if ctx.ticket.event != ctx.event_key {
        Some(TixError::TicketNotValid)
    } else if ctx.organizer != ctx.event.organizer {
        Some(TixError::InvalidAuthority)
    } else if ctx.ticket.status != TicketStatus::Active {
        Some(TixError::TicketConsumed)
    } else {
        None
    }
}

/// Cancels an active ticket for the organizer of its event.
pub fn cancel_ticket_by_admin(ctx: &mut CancelTicketByAdmin) -> (r: Result<(), TixError>)
    ensures
        match r {
            Ok(_) => {
                &&& cancel_ticket_error(*old(ctx)) is None
                &&& *final(ctx) == (CancelTicketByAdmin {
                    ticket: Ticket { status: TicketStatus::Cancelled, ..old(ctx).ticket },
                    ..*old(ctx)
                })
            },
            Err(e) => cancel_ticket_error(*old(ctx)) == Some(e) && *final(ctx) == *old(ctx),
        },
{
    if !ctx.ticket.event.same_as(&ctx.event_key) {
        return Err(TixError::TicketNotValid);
    }
    if !is_authorized(&ctx.organizer, &ctx.event.organizer) {
        return Err(TixError::InvalidAuthority);
    }
    match ctx.ticket.status {
        TicketStatus::Active => {},
        _ => {
            return Err(TixError::TicketConsumed);
        },
    }
    ctx.ticket.status = TicketStatus::Cancelled;
    Ok(())
}

} // verus!
