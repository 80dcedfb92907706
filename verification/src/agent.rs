//! Agents: their creation, their preferences and their budget.

use vstd::prelude::*;
use crate::constraints::is_authorized;
use crate::error::TixError;
use crate::identity::Identity;
use crate::math::safe_add;
use crate::state::{
    or_keep, pick, text_fits, text_len, AIAgent, MAX_AGENT_NAME_LEN, MAX_BPS,
    MAX_MINUTE_OF_DAY, MAX_SHORT_ID_LEN,
};

verus! {

/// Who creates an agent, and the bump of the address where it will be kept.
#[derive(Clone, Copy, Debug, PartialEq, Eq)]
pub struct CreateAIAgent {
    pub owner: Identity,
    pub bump: u8,
}

/// Why an agent cannot be created with these values, if it cannot. The
/// checks come in this order: the id fits, the name fits, the cap per ticket
/// is positive, the budget is positive, both ends of the time window are
/// minutes of a day, the threshold is at most one hundred percent.
pub open spec fn create_ai_agent_error(
    agent_id: Seq<char>,
    name: Seq<char>,
    max_budget_per_ticket: u64,
    total_budget: u64,
    preferred_time_start: u32,
    preferred_time_end: u32,
    auto_purchase_threshold: u16,
) -> Option<TixError> {
    if text_len(agent_id) > MAX_SHORT_ID_LEN || text_len(name) > MAX_AGENT_NAME_LEN {
        Some(TixError::InvalidEventTiming)
    } else if max_budget_per_ticket == 0 || total_budget == 0 {
        Some(TixError::InsufficientAgentBudget)
    } else if preferred_time_start > MAX_MINUTE_OF_DAY || preferred_time_end > MAX_MINUTE_OF_DAY {
        Some(TixError::InvalidEventTiming)
    } else if auto_purchase_threshold > MAX_BPS {
        Some(TixError::InvalidRoyaltyBps)
    } else {
        None
    }
}

/// Creates an active agent for its owner with nothing spent, nothing bought
/// and no group, and with the budget and preferences given.
pub fn create_ai_agent(
    ctx: &CreateAIAgent,
    agent_id: String,
    name: String,
    max_budget_per_ticket: u64,
    total_budget: u64,
    preference_flags: u64,
    preferred_genres: [u8; 10],
    preferred_venues: [Identity; 5],
    min_event_duration: u32,
    max_event_duration: u32,
    allowed_locations: [Identity; 5],
    max_distance: u32,
    preferred_days: u8,
    preferred_time_start: u32,
    preferred_time_end: u32,
    auto_purchase_enabled: bool,
    auto_purchase_threshold: u16,
    max_tickets_per_event: u8,
    require_verification: bool,
    allow_agent_coordination: bool,
    now: i64,
) -> (r: Result<AIAgent, TixError>)
    ensures
        match r {
            Ok(agent) => {
                &&& create_ai_agent_error(
                    agent_id@,
                    name@,
                    max_budget_per_ticket,
                    total_budget,
                    preferred_time_start,
                    preferred_time_end,
                    auto_purchase_threshold,
                ) is None
                &&& agent == (AIAgent {
                    owner: ctx.owner,
                    agent_id,
                    name,
                    is_active: true,
                    max_budget_per_ticket,
                    total_budget,
                    spent_budget: 0,
                    preference_flags,
                    preferred_genres,
                    preferred_venues,
                    min_event_duration,
                    max_event_duration,
                    allowed_locations,
                    max_distance,
                    preferred_days,
                    preferred_time_start,
                    preferred_time_end,
                    auto_purchase_enabled,
                    auto_purchase_threshold,
                    max_tickets_per_event,
                    require_verification,
                    allow_agent_coordination,
                    coordination_group_id: None,
                    tickets_purchased: 0,
                    money_saved: 0,
                    created_at: now,
                    last_active: now,
                    bump: ctx.bump,
                })
                &&& agent.wf()
            },
            Err(e) => create_ai_agent_error(
                agent_id@,
                name@,
                max_budget_per_ticket,
                total_budget,
                preferred_time_start,
                preferred_time_end,
                auto_purchase_threshold,
            ) == Some(e),
        },
{
    if !text_fits(&agent_id, MAX_SHORT_ID_LEN) || !text_fits(&name, MAX_AGENT_NAME_LEN) {
        return Err(TixError::InvalidEventTiming);
    }
    if max_budget_per_ticket == 0 || total_budget == 0 {
        return Err(TixError::InsufficientAgentBudget);
    }
    if preferred_time_start > MAX_MINUTE_OF_DAY || preferred_time_end > MAX_MINUTE_OF_DAY {
        return Err(TixError::InvalidEventTiming);
    }
    if auto_purchase_threshold > MAX_BPS {
        return Err(TixError::InvalidRoyaltyBps);
    }
    Ok(
        AIAgent {
            owner: ctx.owner,
            agent_id,
            name,
            is_active: true,
            max_budget_per_ticket,
            total_budget,
            spent_budget: 0,
            preference_flags,
            preferred_genres,
            preferred_venues,
            min_event_duration,
            max_event_duration,
            allowed_locations,
            max_distance,
            preferred_days,
            preferred_time_start,
            preferred_time_end,
            auto_purchase_enabled,
            auto_purchase_threshold,
            max_tickets_per_event,
            require_verification,
            allow_agent_coordination,
            coordination_group_id: None,
            tickets_purchased: 0,
            money_saved: 0,
            created_at: now,
            last_active: now,
            bump: ctx.bump,
        },
    )
}

/// The agent that is created where only its budget and its switches are
/// given: every day is allowed, the time window is the whole day, events may
/// last up to a day and lie up to a hundred kilometres away, and no genre,
/// venue or location is preferred.
pub open spec fn agent_with_default_preferences(
    ctx: CreateAIAgent,
    agent_id: String,
    name: String,
    max_budget_per_ticket: u64,
    total_budget: u64,
    auto_purchase_enabled: bool,
    auto_purchase_threshold: u16,
    max_tickets_per_event: u8,
    now: i64,
) -> AIAgent {
    AIAgent {
        owner: ctx.owner,
        agent_id,
        name,
        is_active: true,
        max_budget_per_ticket,
        total_budget,
        spent_budget: 0,
        preference_flags: 0,
        preferred_genres: vstd::array::spec_array_fill_for_copy_type::<u8, 10>(0u8),
        preferred_venues: vstd::array::spec_array_fill_for_copy_type::<Identity, 5>(
            Identity::nobody(),
        ),
        min_event_duration: 0,
        max_event_duration: 86400,
        allowed_locations: vstd::array::spec_array_fill_for_copy_type::<Identity, 5>(
            Identity::nobody(),
        ),
        max_distance: 100,
        preferred_days: 127,
        preferred_time_start: 0,
        preferred_time_end: MAX_MINUTE_OF_DAY,
        auto_purchase_enabled,
        auto_purchase_threshold,
        max_tickets_per_event,
        require_verification: false,
        allow_agent_coordination: false,
        coordination_group_id: None,
        tickets_purchased: 0,
        money_saved: 0,
        created_at: now,
        last_active: now,
        bump: ctx.bump,
    }
}

/// Creates an agent from its budget and its switches alone, with the
/// default preferences.
pub fn create_ai_agent_with_defaults(
    ctx: &CreateAIAgent,
    agent_id: String,
    name: String,
    max_budget_per_ticket: u64,
    total_budget: u64,
    auto_purchase_enabled: bool,
    auto_purchase_threshold: u16,
    max_tickets_per_event: u8,
    now: i64,
) -> (r: Result<AIAgent, TixError>)
    ensures
        match r {
            Ok(agent) => {
                &&& create_ai_agent_error(
                    agent_id@,
                    name@,
                    max_budget_per_ticket,
                    total_budget,
                    0,
                    MAX_MINUTE_OF_DAY,
                    auto_purchase_threshold,
                ) is None
                &&& agent == agent_with_default_preferences(
                    *ctx,
                    agent_id,
                    name,
                    max_budget_per_ticket,
                    total_budget,
                    auto_purchase_enabled,
                    auto_purchase_threshold,
                    max_tickets_per_event,
                    now,
                )
                &&& agent.wf()
            },
            Err(e) => create_ai_agent_error(
                agent_id@,
                name@,
                max_budget_per_ticket,
                total_budget,
                0,
                MAX_MINUTE_OF_DAY,
                auto_purchase_threshold,
            ) == Some(e),
        },
{
    let nobody = Identity::default();
    create_ai_agent(
        ctx,
        agent_id,
        name,
        max_budget_per_ticket,
        total_budget,
        0,
        [0u8; 10],
        [nobody; 5],
        0,
        86400,
        [nobody; 5],
        100,
        127,
        0,
        MAX_MINUTE_OF_DAY,
        auto_purchase_enabled,
        auto_purchase_threshold,
        max_tickets_per_event,
        false,
        false,
        now,
    )
}

/// An agent and the caller who wants to change its preferences.
#[derive(Clone, Debug, PartialEq, Eq)]
pub struct UpdateAIAgent {
    pub agent: AIAgent,
    /// The caller.
    pub owner: Identity,
}

/// Why a change of preferences is refused, if it is. The checks come in this
/// order: the caller owns the agent, a new cap per ticket is positive, new
/// ends of the time window are minutes of a day, a new threshold is at most
/// one hundred percent.
pub open spec fn update_ai_agent_error(
    ctx: UpdateAIAgent,
    max_budget_per_ticket: Option<u64>,
    preferred_time_start: Option<u32>,
    preferred_time_end: Option<u32>,
    auto_purchase_threshold: Option<u16>,
) -> Option<TixError> {
    if ctx.owner != ctx.agent.owner {
        Some(TixError::InvalidAuthority)
    } else if max_budget_per_ticket == Some(0u64) {
        Some(TixError::InsufficientAgentBudget)
    } else if or_keep(preferred_time_start, 0) > MAX_MINUTE_OF_DAY || or_keep(preferred_time_end, 0)
        > MAX_MINUTE_OF_DAY {
        Some(TixError::InvalidEventTiming)
    } else if or_keep(auto_purchase_threshold, 0) > MAX_BPS {
        Some(TixError::InvalidRoyaltyBps)
    } else {
        None
    }
}

/// Changes those preferences of an agent for which a value is supplied and
/// leaves the others as they are.
pub fn update_ai_agent(
    ctx: &mut UpdateAIAgent,
    max_budget_per_ticket: Option<u64>,
    preference_flags: Option<u64>,
    preferred_genres: Option<[u8; 10]>,
    preferred_venues: Option<[Identity; 5]>,
    min_event_duration: Option<u32>,
    max_event_duration: Option<u32>,
    allowed_locations: Option<[Identity; 5]>,
    max_distance: Option<u32>,
    preferred_days: Option<u8>,
    preferred_time_start: Option<u32>,
    preferred_time_end: Option<u32>,
    auto_purchase_threshold: Option<u16>,
    max_tickets_per_event: Option<u8>,
    require_verification: Option<bool>,
    allow_agent_coordination: Option<bool>,
) -> (r: Result<(), TixError>)
    ensures
        match r {
            Ok(_) => {
                &&& update_ai_agent_error(
                    *old(ctx),
                    max_budget_per_ticket,
                    preferred_time_start,
                    preferred_time_end,
                    auto_purchase_threshold,
                ) is None
                &&& final(ctx).owner == old(ctx).owner
                &&& final(ctx).agent == (AIAgent {
                    max_budget_per_ticket: or_keep(
                        max_budget_per_ticket,
                        old(ctx).agent.max_budget_per_ticket,
                    ),
                    preference_flags: or_keep(preference_flags, old(ctx).agent.preference_flags),
                    preferred_genres: or_keep(preferred_genres, old(ctx).agent.preferred_genres),
                    preferred_venues: or_keep(preferred_venues, old(ctx).agent.preferred_venues),
                    min_event_duration: or_keep(
                        min_event_duration,
                        old(ctx).agent.min_event_duration,
                    ),
                    max_event_duration: or_keep(
                        max_event_duration,
                        old(ctx).agent.max_event_duration,
                    ),
                    allowed_locations: or_keep(
                        allowed_locations,
                        old(ctx).agent.allowed_locations,
                    ),
                    max_distance: or_keep(max_distance, old(ctx).agent.max_distance),
                    preferred_days: or_keep(preferred_days, old(ctx).agent.preferred_days),
                    preferred_time_start: or_keep(
                        preferred_time_start,
                        old(ctx).agent.preferred_time_start,
                    ),
                    preferred_time_end: or_keep(
                        preferred_time_end,
                        old(ctx).agent.preferred_time_end,
                    ),
                    auto_purchase_threshold: or_keep(
                        auto_purchase_threshold,
                        old(ctx).agent.auto_purchase_threshold,
                    ),
                    max_tickets_per_event: or_keep(
                        max_tickets_per_event,
                        old(ctx).agent.max_tickets_per_event,
                    ),
                    require_verification: or_keep(
                        require_verification,
                        old(ctx).agent.require_verification,
                    ),
                    allow_agent_coordination: or_keep(
                        allow_agent_coordination,
                        old(ctx).agent.allow_agent_coordination,
                    ),
                    ..old(ctx).agent
                })
            },
            Err(e) => update_ai_agent_error(
                *old(ctx),
                max_budget_per_ticket,
                preferred_time_start,
                preferred_time_end,
                auto_purchase_threshold,
            ) == Some(e) && *final(ctx) == *old(ctx),
        },
        old(ctx).agent.wf() ==> final(ctx).agent.wf(),
{
    if !is_authorized(&ctx.owner, &ctx.agent.owner) {
        return Err(TixError::InvalidAuthority);
    }
    if let Some(new_max) = max_budget_per_ticket {
        if new_max == 0 {
            return Err(TixError::InsufficientAgentBudget);
        }
    }
    if pick(preferred_time_start, 0) > MAX_MINUTE_OF_DAY || pick(preferred_time_end, 0)
        > MAX_MINUTE_OF_DAY {
        return Err(TixError::InvalidEventTiming);
    }
    if pick(auto_purchase_threshold, 0) > MAX_BPS {
        return Err(TixError::InvalidRoyaltyBps);
    }
    ctx.agent.max_budget_per_ticket = pick(max_budget_per_ticket, ctx.agent.max_budget_per_ticket);
    ctx.agent.preference_flags = pick(preference_flags, ctx.agent.preference_flags);
    ctx.agent.preferred_genres = pick(preferred_genres, ctx.agent.preferred_genres);
    ctx.agent.preferred_venues = pick(preferred_venues, ctx.agent.preferred_venues);
    ctx.agent.min_event_duration = pick(min_event_duration, ctx.agent.min_event_duration);
    ctx.agent.max_event_duration = pick(max_event_duration, ctx.agent.max_event_duration);
    ctx.agent.allowed_locations = pick(allowed_locations, ctx.agent.allowed_locations);
    ctx.agent.max_distance = pick(max_distance, ctx.agent.max_distance);
    ctx.agent.preferred_days = pick(preferred_days, ctx.agent.preferred_days);
    ctx.agent.preferred_time_start = pick(preferred_time_start, ctx.agent.preferred_time_start);
    ctx.agent.preferred_time_end = pick(preferred_time_end, ctx.agent.preferred_time_end);
    ctx.agent.auto_purchase_threshold = pick(
        auto_purchase_threshold,
        ctx.agent.auto_purchase_threshold,
    );
    ctx.agent.max_tickets_per_event = pick(max_tickets_per_event, ctx.agent.max_tickets_per_event);
    ctx.agent.require_verification = pick(require_verification, ctx.agent.require_verification);
    ctx.agent.allow_agent_coordination = pick(
        allow_agent_coordination,
        ctx.agent.allow_agent_coordination,
    );
    Ok(())
}

/// An agent and the caller who wants to change its limits.
#[derive(Clone, Debug, PartialEq, Eq)]
pub struct UpdateAgentConfig {
    pub agent: AIAgent,
    /// The caller.
    pub owner: Identity,
}

/// Why a change of limits is refused, if it is. The checks come in this
/// order: the caller owns the agent, a new cap per ticket is positive, a new
/// threshold is at most one hundred percent.
pub open spec fn update_agent_config_error(
    ctx: UpdateAgentConfig,
    max_budget_per_ticket: Option<u64>,
    auto_purchase_threshold: Option<u16>,
) -> Option<TixError> {
    if ctx.owner != ctx.agent.owner {
        Some(TixError::Unauthorized)
    } else if max_budget_per_ticket == Some(0u64) {
        Some(TixError::InvalidBudget)
    } else if or_keep(auto_purchase_threshold, 0) > MAX_BPS {
        Some(TixError::InvalidInput)
    } else {
        None
    }
}

/// Changes the cap per ticket and the threshold of an agent, each where a
/// value is supplied.
pub fn update_agent_config(
    ctx: &mut UpdateAgentConfig,
    max_budget_per_ticket: Option<u64>,
    auto_purchase_threshold: Option<u16>,
) -> (r: Result<(), TixError>)
    ensures
        match r {
            Ok(_) => {
                &&& update_agent_config_error(
                    *old(ctx),
                    max_budget_per_ticket,
                    auto_purchase_threshold,
                ) is None
                &&& final(ctx).owner == old(ctx).owner
                &&& final(ctx).agent == (AIAgent {
                    max_budget_per_ticket: or_keep(
                        max_budget_per_ticket,
                        old(ctx).agent.max_budget_per_ticket,
                    ),
                    auto_purchase_threshold: or_keep(
                        auto_purchase_threshold,
                        old(ctx).agent.auto_purchase_threshold,
                    ),
                    ..old(ctx).agent
                })
            },
            Err(e) => update_agent_config_error(
                *old(ctx),
                max_budget_per_ticket,
                auto_purchase_threshold,
            ) == Some(e) && *final(ctx) == *old(ctx),
        },
        old(ctx).agent.wf() ==> final(ctx).agent.wf(),
{
    if !is_authorized(&ctx.owner, &ctx.agent.owner) {
        return Err(TixError::Unauthorized);
    }
    if let Some(new_max) = max_budget_per_ticket {
        if new_max == 0 {
            return Err(TixError::InvalidBudget);
        }
    }
    if pick(auto_purchase_threshold, 0) > MAX_BPS {
        return Err(TixError::InvalidInput);
    }
    ctx.agent.max_budget_per_ticket = pick(max_budget_per_ticket, ctx.agent.max_budget_per_ticket);
    ctx.agent.auto_purchase_threshold = pick(
        auto_purchase_threshold,
        ctx.agent.auto_purchase_threshold,
    );
    Ok(())
}

/// An agent and the caller who wants to switch it on.
#[derive(Clone, Debug, PartialEq, Eq)]
pub struct ActivateAgent {
    pub agent: AIAgent,
    /// The caller.
    pub owner: Identity,
}

/// Switches an agent on for its owner. Nothing else changes.
pub fn activate_agent(ctx: &mut ActivateAgent) -> (r: Result<(), TixError>)
    ensures
        r is Ok <==> old(ctx).owner == old(ctx).agent.owner,
        match r {
            Ok(_) => *final(ctx) == (ActivateAgent {
                agent: AIAgent { is_active: true, ..old(ctx).agent },
                ..*old(ctx)
            }),
            Err(e) => e == TixError::InvalidAuthority && *final(ctx) == *old(ctx),
        },
{
    if !is_authorized(&ctx.owner, &ctx.agent.owner) {
        return Err(TixError::InvalidAuthority);
    }
    ctx.agent.is_active = true;
    Ok(())
}

/// An agent and the caller who wants to switch it off.
#[derive(Clone, Debug, PartialEq, Eq)]
pub struct DeactivateAgent {
    pub agent: AIAgent,
    /// The caller.
    pub owner: Identity,
}

/// Switches an agent off for its owner. Nothing else changes.
pub fn deactivate_agent(ctx: &mut DeactivateAgent) -> (r: Result<(), TixError>)
    ensures
        r is Ok <==> old(ctx).owner == old(ctx).agent.owner,
        match r {
            Ok(_) => *final(ctx) == (DeactivateAgent {
                agent: AIAgent { is_active: false, ..old(ctx).agent },
                ..*old(ctx)
            }),
            Err(e) => e == TixError::InvalidAuthority && *final(ctx) == *old(ctx),
        },
{
    if !is_authorized(&ctx.owner, &ctx.agent.owner) {
        return Err(TixError::InvalidAuthority);
    }
    ctx.agent.is_active = false;
    Ok(())
}

/// An agent and the caller who wants to let it buy on its own, or stop it.
#[derive(Clone, Debug, PartialEq, Eq)]
pub struct ToggleAutoPurchase {
    pub agent: AIAgent,
    /// The caller.
    pub owner: Identity,
}

/// Lets an agent buy on its own, or stops it. Nothing else changes.
pub fn toggle_auto_purchase(ctx: &mut ToggleAutoPurchase, enabled: bool) -> (r: Result<
    (),
    TixError,
>)
    ensures
        r is Ok <==> old(ctx).owner == old(ctx).agent.owner,
        match r {
            Ok(_) => *final(ctx) == (ToggleAutoPurchase {
                agent: AIAgent { auto_purchase_enabled: enabled, ..old(ctx).agent },
                ..*old(ctx)
            }),
            Err(e) => e == TixError::InvalidAuthority && *final(ctx) == *old(ctx),
        },
{
    if !is_authorized(&ctx.owner, &ctx.agent.owner) {
        return Err(TixError::InvalidAuthority);
    }
    ctx.agent.auto_purchase_enabled = enabled;
    Ok(())
}

/// An agent and the caller who wants to raise its budget.
#[derive(Clone, Debug, PartialEq, Eq)]
pub struct AddAgentBudget {
    pub agent: AIAgent,
    /// The caller.
    pub owner: Identity,
}

/// Why a budget is not raised, if it is not. The checks come in this order:
/// the caller owns the agent, the amount is positive, the new budget fits.
pub open spec fn add_agent_budget_error(ctx: AddAgentBudget, amount: u64) -> Option<TixError> {
    if ctx.owner != ctx.agent.owner {
        Some(TixError::InvalidAuthority)
    } else if amount == 0 {
        Some(TixError::InsufficientAgentBudget)
    } else if ctx.agent.total_budget + amount > u64::MAX {
        Some(TixError::MathOverflow)
    } else {
        None
    }
}

/// Raises the budget of an agent by `amount`.
pub fn add_agent_budget(ctx: &mut AddAgentBudget, amount: u64) -> (r: Result<(), TixError>)
    ensures
        match r {
            Ok(_) => {
                &&& add_agent_budget_error(*old(ctx), amount) is None
                &&& *final(ctx) == (AddAgentBudget {
                    agent: AIAgent {
                        total_budget: (old(ctx).agent.total_budget + amount) as u64,
                        ..old(ctx).agent
                    },
                    ..*old(ctx)
                })
            },
            Err(e) => add_agent_budget_error(*old(ctx), amount) == Some(e)
                && *final(ctx) == *old(ctx),
        },
        old(ctx).agent.within_budget() ==> final(ctx).agent.within_budget(),
{
    if !is_authorized(&ctx.owner, &ctx.agent.owner) {
        return Err(TixError::InvalidAuthority);
    }
    if amount == 0 {
        return Err(TixError::InsufficientAgentBudget);
    }
    let total = safe_add(ctx.agent.total_budget, amount)?;
    ctx.agent.total_budget = total;
    Ok(())
}

/// An agent and the caller who wants to lower its budget.
#[derive(Clone, Debug, PartialEq, Eq)]
pub struct DecreaseAgentBudget {
    pub agent: AIAgent,
    /// The caller.
    pub owner: Identity,
}

/// Why a budget is not lowered, if it is not. The checks come in this
/// order: the caller owns the agent, the amount is at most the budget, what
/// is left of the budget covers what was spent already.
pub open spec fn decrease_agent_budget_error(ctx: DecreaseAgentBudget, amount: u64) -> Option<
    TixError,
> {
    if ctx.owner != ctx.agent.owner {
        Some(TixError::Unauthorized)
    } else if amount > ctx.agent.total_budget {
        Some(TixError::MathUnderflow)
    } else if ctx.agent.total_budget - amount < ctx.agent.spent_budget {
        Some(TixError::InsufficientAgentBudget)
    } else {
        None
    }
}

/// Lowers the budget of an agent by `amount`, but never below what the
/// agent has spent.
pub fn decrease_agent_budget(ctx: &mut DecreaseAgentBudget, amount: u64) -> (r: Result<
    (),
    TixError,
>)
    ensures
        match r {
            Ok(_) => {
                &&& decrease_agent_budget_error(*old(ctx), amount) is None
                &&& *final(ctx) == (DecreaseAgentBudget {
                    agent: AIAgent {
                        total_budget: (old(ctx).agent.total_budget - amount) as u64,
                        ..old(ctx).agent
                    },
                    ..*old(ctx)
                })
                &&& final(ctx).agent.within_budget()
            },
            Err(e) => decrease_agent_budget_error(*old(ctx), amount) == Some(e) && *final(ctx)
                == *old(ctx),
        },
{
    if !is_authorized(&ctx.owner, &ctx.agent.owner) {
        return Err(TixError::Unauthorized);
    }
    if amount > ctx.agent.total_budget {
        return Err(TixError::MathUnderflow);
    }
    let total: u64 = ctx.agent.total_budget - amount;
    if total < ctx.agent.spent_budget {
        return Err(TixError::InsufficientAgentBudget);
    }
    ctx.agent.total_budget = total;
    Ok(())
}

} // verus!
