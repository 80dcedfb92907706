//! Ticket tiers: their creation, their change before the sale opens, their closing.

use vstd::prelude::*;
use crate::constraints::is_authorized;
use crate::error::TixError;
use crate::identity::Identity;
use crate::state::{
    optional_text_fits, or_keep, pick, supplied_text_fits, text_fits, text_len, Event,
    TicketTier, MAX_TIER_DESCRIPTION_LEN, MAX_TIER_ID_LEN, MAX_TIER_NAME_LEN,
};

verus! {

/// The event that gets a new tier, the caller, and the bump of the address
/// where the tier will be kept.
#[derive(Clone, Debug, PartialEq, Eq)]
pub struct CreateTicketTier {
    pub event: Event,
    /// Where the event record is kept.
    pub event_key: Identity,
    /// The caller.
    pub organizer: Identity,
    pub bump: u8,
}

/// Why a tier cannot be created at `now`, if it cannot. The checks come in
/// this order: the event is active, the caller is its organizer, the texts
/// fit, price and supply are positive, the sale has not opened.
pub open spec fn create_ticket_tier_error(
    ctx: CreateTicketTier,
    tier_id: Seq<char>,
    name: Seq<char>,
    description: Seq<char>,
    price: u64,
    max_supply: u64,
    now: i64,
) -> Option<TixError> {
    if !ctx.event.is_active {
        Some(TixError::EventNotActive)
    } else if ctx.organizer != ctx.event.organizer {
        Some(TixError::InvalidAuthority)
    } else if text_len(tier_id) > MAX_TIER_ID_LEN || text_len(name) > MAX_TIER_NAME_LEN
        || text_len(description) > MAX_TIER_DESCRIPTION_LEN {
        Some(TixError::InvalidEventTiming)
    } else if price == 0 || max_supply == 0 {
        Some(TixError::InvalidTierPrice)
    } else if now >= ctx.event.sale_start_time {
        Some(TixError::SaleAlreadyStarted)
    } else {
        None
    }
}

/// Creates an active tier of an event, with nothing sold yet.
pub fn create_ticket_tier(
    ctx: &CreateTicketTier,
    tier_id: String,
    name: String,
    description: String,
    price: u64,
    max_supply: u64,
    now: i64,
) -> (r: Result<TicketTier, TixError>)
    ensures
        match r {
            Ok(tier) => {
                &&& create_ticket_tier_error(
                    *ctx,
                    tier_id@,
                    name@,
                    description@,
                    price,
                    max_supply,
                    now,
                ) is None
                &&& tier == (TicketTier {
                    event: ctx.event_key,
                    tier_id,
                    name,
                    description,
                    price,
                    max_supply,
                    current_supply: 0,
                    is_active: true,
                    bump: ctx.bump,
                })
                &&& tier.wf()
            },
            Err(e) => create_ticket_tier_error(
                *ctx,
                tier_id@,
                name@,
                description@,
                price,
                max_supply,
                now,
            ) == Some(e),
        },
{
    if !ctx.event.is_active {
        return Err(TixError::EventNotActive);
    }
    if !is_authorized(&ctx.organizer, &ctx.event.organizer) {
        return Err(TixError::InvalidAuthority);
    }
    if !text_fits(&tier_id, MAX_TIER_ID_LEN) || !text_fits(&name, MAX_TIER_NAME_LEN)
        || !text_fits(&description, MAX_TIER_DESCRIPTION_LEN) {
        return Err(TixError::InvalidEventTiming);
    }
    if price == 0 || max_supply == 0 {
        return Err(TixError::InvalidTierPrice);
    }
    if now >= ctx.event.sale_start_time {
        return Err(TixError::SaleAlreadyStarted);
    }
    Ok(
        TicketTier {
            event: ctx.event_key,
            tier_id,
            name,
            description,
            price,
            max_supply,
            current_supply: 0,
            is_active: true,
            bump: ctx.bump,
        },
    )
}

/// A tier, its event, and the caller who wants to change the tier.
#[derive(Clone, Debug, PartialEq, Eq)]
pub struct UpdateTicketTier {
    pub event: Event,
    pub tier: TicketTier,
    /// The caller.
    pub organizer: Identity,
}

/// Why a change of a tier at `now` is refused, if it is. The checks come in
/// this order: the caller is the organizer of the event, the sale has not
/// opened, a new supply is positive and covers what was sold, the new texts
/// fit, a new price is positive.
pub open spec fn update_ticket_tier_error(
    ctx: UpdateTicketTier,
    name: Option<String>,
    description: Option<String>,
    price: Option<u64>,
    max_supply: Option<u64>,
    now: i64,
) -> Option<TixError> {
    if ctx.organizer != ctx.event.organizer {
        Some(TixError::InvalidAuthority)
    } else if now >= ctx.event.sale_start_time {
        Some(TixError::SaleAlreadyStarted)
    } else if max_supply is Some && (max_supply->Some_0 < ctx.tier.current_supply
        || max_supply->Some_0 == 0) {
        Some(TixError::InvalidTierPrice)
    } else if !supplied_text_fits(name, MAX_TIER_NAME_LEN) || !supplied_text_fits(
        description,
        MAX_TIER_DESCRIPTION_LEN,
    ) {
        Some(TixError::InvalidEventTiming)
    } else if price == Some(0u64) {
        Some(TixError::InvalidTierPrice)
    } else {
        None
    }
}

/// Changes those fields of a tier for which a value is supplied, before the
/// sale of its event opens.
pub fn update_ticket_tier(
    ctx: &mut UpdateTicketTier,
    name: Option<String>,
    description: Option<String>,
    price: Option<u64>,
    max_supply: Option<u64>,
    now: i64,
) -> (r: Result<(), TixError>)
    ensures
        match r {
            Ok(_) => {
                &&& update_ticket_tier_error(*old(ctx), name, description, price, max_supply, now)
                    is None
                &&& *final(ctx) == (UpdateTicketTier {
                    tier: TicketTier {
                        name: or_keep(name, old(ctx).tier.name),
                        description: or_keep(description, old(ctx).tier.description),
                        price: or_keep(price, old(ctx).tier.price),
                        max_supply: or_keep(max_supply, old(ctx).tier.max_supply),
                        ..old(ctx).tier
                    },
                    ..*old(ctx)
                })
                &&& old(ctx).tier.wf() ==> final(ctx).tier.wf()
            },
            Err(e) => update_ticket_tier_error(
                *old(ctx),
                name,
                description,
                price,
                max_supply,
                now,
            ) == Some(e) && *final(ctx) == *old(ctx),
        },
{
    if !is_authorized(&ctx.organizer, &ctx.event.organizer) {
        return Err(TixError::InvalidAuthority);
    }
    if now >= ctx.event.sale_start_time {
        return Err(TixError::SaleAlreadyStarted);
    }
    if let Some(new_max) = max_supply {
        if new_max < ctx.tier.current_supply || new_max == 0 {
            return Err(TixError::InvalidTierPrice);
        }
    }
    if !optional_text_fits(&name, MAX_TIER_NAME_LEN) || !optional_text_fits(
        &description,
        MAX_TIER_DESCRIPTION_LEN,
    ) {
        return Err(TixError::InvalidEventTiming);
    }
    if let Some(new_price) = price {
        if new_price == 0 {
            return Err(TixError::InvalidTierPrice);
        }
    }
    if let Some(new_name) = name {
        ctx.tier.name = new_name;
    }
    if let Some(new_description) = description {
        ctx.tier.description = new_description;
    }
    ctx.tier.price = pick(price, ctx.tier.price);
    ctx.tier.max_supply = pick(max_supply, ctx.tier.max_supply);
    Ok(())
}

/// A tier, its event, and the caller who wants to close the tier.
#[derive(Clone, Debug, PartialEq, Eq)]
pub struct DisableTier {
    pub event: Event,
    pub tier: TicketTier,
    /// The caller.
    pub organizer: Identity,
}

/// Closes a tier for the organizer of its event. Tickets sold before stay
/// as they are.
pub fn disable_tier(ctx: &mut DisableTier) -> (r: Result<(), TixError>)
    ensures
        r is Ok <==> old(ctx).organizer == old(ctx).event.organizer,
        match r {
            Ok(_) => *final(ctx) == (DisableTier {
                tier: TicketTier { is_active: false, ..old(ctx).tier },
                ..*old(ctx)
            }),
            Err(e) => e == TixError::InvalidAuthority && *final(ctx) == *old(ctx),
        },
{
    if !is_authorized(&ctx.organizer, &ctx.event.organizer) {
        return Err(TixError::InvalidAuthority);
    }
    ctx.tier.is_active = false;
    Ok(())
}

} // verus!
