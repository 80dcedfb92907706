//! Escrow: what an owner sets aside for an agent, and purchases paid from it.
//!
//! A purchase from escrow may be started by anybody. It can only pay the
//! tier's price to the organizer of the event, out of what the owner
//! deposited, and only within the agent's budget.

use vstd::prelude::*;
use crate::constraints::{event_on_sale, is_authorized, is_event_active};
use crate::error::TixError;
use crate::identity::Identity;
use crate::math::safe_add;
use crate::primary_market::{
    event_after_sale, event_can_record_sale, tier_after_sale, tier_has_supply,
};
use crate::settlement::Transfer;
use crate::state::{AIAgent, AgentEscrow, Event, TicketTier};

verus! {

/// The agent that gets an escrow, the caller, and the bump of the address
/// where the escrow will be kept.
#[derive(Clone, Debug, PartialEq, Eq)]
pub struct CreateEscrow {
    pub agent: AIAgent,
    /// Where the agent record is kept.
    pub agent_key: Identity,
    /// The caller.
    pub owner: Identity,
    pub bump: u8,
}

/// Creates the empty escrow of an agent for the agent's owner.
pub fn create_escrow(ctx: &CreateEscrow, now: i64) -> (r: Result<AgentEscrow, TixError>)
    ensures
        r is Ok <==> ctx.owner == ctx.agent.owner,
        match r {
            Ok(escrow) => escrow == (AgentEscrow {
                agent: ctx.agent_key,
                owner: ctx.owner,
                balance: 0,
                total_deposited: 0,
                total_withdrawn: 0,
                total_spent: 0,
                created_at: now,
                last_activity: now,
                bump: ctx.bump,
            }) && escrow.balanced(),
            Err(e) => e == TixError::Unauthorized,
        },
{
    if !is_authorized(&ctx.owner, &ctx.agent.owner) {
        return Err(TixError::Unauthorized);
    }
    Ok(
        AgentEscrow {
            agent: ctx.agent_key,
            owner: ctx.owner,
            balance: 0,
            total_deposited: 0,
            total_withdrawn: 0,
            total_spent: 0,
            created_at: now,
            last_activity: now,
            bump: ctx.bump,
        },
    )
}

/// An escrow, its agent, and the caller who wants to pay in.
#[derive(Clone, Debug, PartialEq, Eq)]
pub struct DepositToEscrow {
    pub escrow: AgentEscrow,
    /// Where the escrow is kept, and its balance held.
    pub escrow_key: Identity,
    pub agent: AIAgent,
    /// The caller.
    pub owner: Identity,
}

/// Why a deposit is refused, if it is. The checks come in this order: the
/// caller owns the agent, the amount is positive, the new totals fit.
pub open spec fn deposit_to_escrow_error(ctx: DepositToEscrow, amount: u64) -> Option<TixError> {
    if ctx.owner != ctx.agent.owner {
        Some(TixError::Unauthorized)
    } else if amount == 0 {
        Some(TixError::InvalidBudget)
    } else if ctx.escrow.balance + amount > u64::MAX || ctx.escrow.total_deposited + amount
        > u64::MAX {
        Some(TixError::MathOverflow)
    } else {
        None
    }
}

/// The escrow after a deposit of `amount` at `now`.
pub open spec fn escrow_after_deposit(escrow: AgentEscrow, amount: u64, now: i64) -> AgentEscrow {
    AgentEscrow {
        balance: (escrow.balance + amount) as u64,
        total_deposited: (escrow.total_deposited + amount) as u64,
        last_activity: now,
        ..escrow
    }
}

/// Pays `amount` from the owner into the escrow.
pub fn deposit_to_escrow(ctx: &mut DepositToEscrow, amount: u64, now: i64) -> (r: Result<
    Transfer,
    TixError,
>)
    ensures
        match r {
            Ok(payment) => {
                &&& deposit_to_escrow_error(*old(ctx), amount) is None
                &&& *final(ctx) == (DepositToEscrow {
                    escrow: escrow_after_deposit(old(ctx).escrow, amount, now),
                    ..*old(ctx)
                })
                &&& payment == (Transfer {
                    from: old(ctx).owner,
                    to: old(ctx).escrow_key,
                    amount,
                })
            },
            Err(e) => deposit_to_escrow_error(*old(ctx), amount) == Some(e)
                && *final(ctx) == *old(ctx),
        },
        old(ctx).escrow.balanced() ==> final(ctx).escrow.balanced(),
{
    if !is_authorized(&ctx.owner, &ctx.agent.owner) {
        return Err(TixError::Unauthorized);
    }
    if amount == 0 {
        return Err(TixError::InvalidBudget);
    }
    let balance = safe_add(ctx.escrow.balance, amount)?;
    let deposited = safe_add(ctx.escrow.total_deposited, amount)?;
    ctx.escrow.balance = balance;
    ctx.escrow.total_deposited = deposited;
    ctx.escrow.last_activity = now;
    Ok(Transfer { from: ctx.owner, to: ctx.escrow_key, amount })
}

/// An escrow, its agent, and the caller who wants to take out.
#[derive(Clone, Debug, PartialEq, Eq)]
pub struct WithdrawFromEscrow {
    pub escrow: AgentEscrow,
    /// Where the escrow is kept, and its balance held.
    pub escrow_key: Identity,
    pub agent: AIAgent,
    /// The caller.
    pub owner: Identity,
}

/// Why a withdrawal is refused, if it is. The checks come in this order:
/// the caller owns the agent, the amount is positive, the balance covers it,
/// the new total fits.
pub open spec fn withdraw_from_escrow_error(ctx: WithdrawFromEscrow, amount: u64) -> Option<
    TixError,
> {
    if ctx.owner != ctx.agent.owner {
        Some(TixError::Unauthorized)
    } else if amount == 0 {
        Some(TixError::InvalidBudget)
    } else if ctx.escrow.balance < amount {
        Some(TixError::InsufficientEscrowBalance)
    } else if ctx.escrow.total_withdrawn + amount > u64::MAX {
        Some(TixError::MathOverflow)
    } else {
        None
    }
}

/// The escrow after a withdrawal of `amount` at `now`.
pub open spec fn escrow_after_withdrawal(escrow: AgentEscrow, amount: u64, now: i64)
    -> AgentEscrow {
    AgentEscrow {
        balance: (escrow.balance - amount) as u64,
        total_withdrawn: (escrow.total_withdrawn + amount) as u64,
        last_activity: now,
        ..escrow
    }
}

/// Pays `amount` from the escrow back to the owner.
pub fn withdraw_from_escrow(ctx: &mut WithdrawFromEscrow, amount: u64, now: i64) -> (r: Result<
    Transfer,
    TixError,
>)
    ensures
        match r {
            Ok(payment) => {
                &&& withdraw_from_escrow_error(*old(ctx), amount) is None
                &&& *final(ctx) == (WithdrawFromEscrow {
                    escrow: escrow_after_withdrawal(old(ctx).escrow, amount, now),
                    ..*old(ctx)
                })
                &&& payment == (Transfer {
                    from: old(ctx).escrow_key,
                    to: old(ctx).owner,
                    amount,
                })
            },
            Err(e) => withdraw_from_escrow_error(*old(ctx), amount) == Some(e) && *final(ctx)
                == *old(ctx),
        },
        old(ctx).escrow.balanced() ==> final(ctx).escrow.balanced(),
{
    if !is_authorized(&ctx.owner, &ctx.agent.owner) {
        return Err(TixError::Unauthorized);
    }
    if amount == 0 {
        return Err(TixError::InvalidBudget);
    }
    if ctx.escrow.balance < amount {
        return Err(TixError::InsufficientEscrowBalance);
    }
    let withdrawn = safe_add(ctx.escrow.total_withdrawn, amount)?;
    ctx.escrow.balance = ctx.escrow.balance - amount;
    ctx.escrow.total_withdrawn = withdrawn;
    ctx.escrow.last_activity = now;
    Ok(Transfer { from: ctx.escrow_key, to: ctx.owner, amount })
}

/// The records of a purchase paid from the escrow of an agent.
#[derive(Clone, Debug, PartialEq, Eq)]
pub struct BuyTicketWithEscrow {
    pub event: Event,
    pub tier: TicketTier,
    pub agent: AIAgent,
    pub escrow: AgentEscrow,
    /// Where the escrow is kept, and its balance held.
    pub escrow_key: Identity,
}

/// Whether the price lies within what is left of the agent's budget and
/// within its cap per ticket.
pub open spec fn within_agent_limits(agent: AIAgent, price: u64) -> bool {
    &&& price <= agent.total_budget - agent.spent_budget
    &&& price <= agent.max_budget_per_ticket
}

/// Why a purchase from escrow at `now` is refused, if it is. The checks
/// come in this order: the event is on sale, the tier is active, the tier has
/// supply, the agent is active, the agent buys on its own, the escrow covers
/// the price, the price is within the agent's limits, the totals have room.
pub open spec fn buy_ticket_with_escrow_error(ctx: BuyTicketWithEscrow, now: i64) -> Option<
    TixError,
> {
    if !event_on_sale(ctx.event, now) {
        Some(TixError::EventNotActive)
    } else if !ctx.tier.is_active {
        Some(TixError::TierNotActive)
    } else if !tier_has_supply(ctx.tier) {
        Some(TixError::TierSoldOut)
    } else if !ctx.agent.is_active {
        Some(TixError::AgentInactive)
    } else if !ctx.agent.auto_purchase_enabled {
        Some(TixError::AgentAutoPurchaseDisabled)
    } else if ctx.escrow.balance < ctx.tier.price {
        Some(TixError::InsufficientEscrowBalance)
    } else if !within_agent_limits(ctx.agent, ctx.tier.price) {
        Some(TixError::InsufficientAgentBudget)
    } else if ctx.escrow.total_spent + ctx.tier.price > u64::MAX || ctx.agent.tickets_purchased
        + 1 > u64::MAX || !event_can_record_sale(ctx.event, ctx.tier.price) {
        Some(TixError::MathOverflow)
    } else {
        None
    }
}

/// The escrow after it paid `price` at `now`.
pub open spec fn escrow_after_spending(escrow: AgentEscrow, price: u64, now: i64) -> AgentEscrow {
    AgentEscrow {
        balance: (escrow.balance - price) as u64,
        total_spent: (escrow.total_spent + price) as u64,
        last_activity: now,
        ..escrow
    }
}

/// The agent after a purchase at `price` paid from its escrow.
pub open spec fn agent_after_escrow_purchase(agent: AIAgent, price: u64) -> AIAgent {
    AIAgent {
        spent_budget: (agent.spent_budget + price) as u64,
        tickets_purchased: (agent.tickets_purchased + 1) as u64,
        ..agent
    }
}

/// The records after a purchase from escrow at `now`.
pub open spec fn buy_ticket_with_escrow_effect(ctx: BuyTicketWithEscrow, now: i64)
    -> BuyTicketWithEscrow {
    BuyTicketWithEscrow {
        event: event_after_sale(ctx.event, ctx.tier.price),
        tier: tier_after_sale(ctx.tier),
        agent: agent_after_escrow_purchase(ctx.agent, ctx.tier.price),
        escrow: escrow_after_spending(ctx.escrow, ctx.tier.price, now),
        escrow_key: ctx.escrow_key,
    }
}

/// Sells one ticket of the tier to an agent and pays the tier's price from
/// the agent's escrow to the organizer.
pub fn buy_ticket_with_escrow(ctx: &mut BuyTicketWithEscrow, now: i64) -> (r: Result<
    Transfer,
    TixError,
>)
    ensures
        match r {
            Ok(payment) => {
                &&& buy_ticket_with_escrow_error(*old(ctx), now) is None
                &&& *final(ctx) == buy_ticket_with_escrow_effect(*old(ctx), now)
                &&& payment == (Transfer {
                    from: old(ctx).escrow_key,
                    to: old(ctx).event.organizer,
                    amount: old(ctx).tier.price,
                })
            },
            Err(e) => buy_ticket_with_escrow_error(*old(ctx), now) == Some(e) && *final(ctx)
                == *old(ctx),
        },
        old(ctx).tier.current_supply <= old(ctx).tier.max_supply ==> final(ctx).tier.current_supply
            <= final(ctx).tier.max_supply,
        old(ctx).agent.within_budget() ==> final(ctx).agent.within_budget(),
        old(ctx).escrow.balanced() ==> final(ctx).escrow.balanced(),
{
    if !is_event_active(&ctx.event, now) {
        return Err(TixError::EventNotActive);
    }
    if !ctx.tier.is_active {
        return Err(TixError::TierNotActive);
    }
    if ctx.tier.current_supply >= ctx.tier.max_supply {
        return Err(TixError::TierSoldOut);
    }
    if !ctx.agent.is_active {
        return Err(TixError::AgentInactive);
    }
    if !ctx.agent.auto_purchase_enabled {
        return Err(TixError::AgentAutoPurchaseDisabled);
    }
    let price = ctx.tier.price;
    if ctx.escrow.balance < price {
        return Err(TixError::InsufficientEscrowBalance);
    }
    if ctx.agent.total_budget < ctx.agent.spent_budget {
        return Err(TixError::InsufficientAgentBudget);
    }
    let remaining_budget: u64 = ctx.agent.total_budget - ctx.agent.spent_budget;
    if price > remaining_budget || price > ctx.agent.max_budget_per_ticket {
        return Err(TixError::InsufficientAgentBudget);
    }
    let escrow_spent = safe_add(ctx.escrow.total_spent, price)?;
    let agent_purchased = safe_add(ctx.agent.tickets_purchased, 1)?;
    let sold = safe_add(ctx.event.total_tickets_sold, 1)?;
    let revenue = safe_add(ctx.event.total_revenue, price)?;

    ctx.escrow.balance = ctx.escrow.balance - price;
    ctx.escrow.total_spent = escrow_spent;
    ctx.escrow.last_activity = now;
    ctx.agent.spent_budget = ctx.agent.spent_budget + price;
    ctx.agent.tickets_purchased = agent_purchased;
    ctx.tier.current_supply = ctx.tier.current_supply + 1;
    ctx.event.total_tickets_sold = sold;
    ctx.event.total_revenue = revenue;
    Ok(Transfer { from: ctx.escrow_key, to: ctx.event.organizer, amount: price })
}

} // verus!
