//! The configuration of the marketplace: made once, changed by its admin.

use vstd::prelude::*;
use crate::constraints::is_authorized;
use crate::error::TixError;
use crate::identity::Identity;
use crate::state::{or_keep, pick, GlobalConfig, MAX_BPS};

verus! {

/// The place of the configuration, which is empty until it is made, the
/// caller who makes it, and the bump of the address where it is kept.
#[derive(Clone, Copy, Debug, PartialEq, Eq)]
pub struct InitializeConfig {
    pub config: Option<GlobalConfig>,
    /// The caller, who becomes the admin.
    pub admin: Identity,
    pub bump: u8,
}

/// Why the configuration cannot be made, if it cannot. The checks come in
/// this order: none exists yet, both rates are at most one hundred percent,
/// the shortest duration is positive and below the longest.
pub open spec fn initialize_config_error(
    ctx: InitializeConfig,
    protocol_fee_bps: u16,
    default_price_cap_bps: u16,
    min_listing_duration: i64,
    max_listing_duration: i64,
) -> Option<TixError> {
    if ctx.config is Some {
        Some(TixError::ConfigAlreadyInitialized)
    } else if protocol_fee_bps > MAX_BPS || default_price_cap_bps > MAX_BPS {
        Some(TixError::InvalidRoyaltyBps)
    } else if min_listing_duration <= 0 || max_listing_duration <= min_listing_duration {
        Some(TixError::InvalidEventTiming)
    } else {
        None
    }
}

/// Makes the configuration. The caller becomes its admin, and fees go to
/// the caller until another treasury is named.
pub fn initialize_config(
    ctx: &mut InitializeConfig,
    protocol_fee_bps: u16,
    default_price_cap_bps: u16,
    min_listing_duration: i64,
    max_listing_duration: i64,
    allow_agent_coordination: bool,
    require_verification: bool,
) -> (r: Result<(), TixError>)
    ensures
        match r {
            Ok(_) => {
                &&& initialize_config_error(
                    *old(ctx),
                    protocol_fee_bps,
                    default_price_cap_bps,
                    min_listing_duration,
                    max_listing_duration,
                ) is None
                &&& *final(ctx) == (InitializeConfig {
                    config: Some(
                        GlobalConfig {
                            admin: old(ctx).admin,
                            protocol_fee_bps,
                            default_price_cap_bps,
                            min_listing_duration,
                            max_listing_duration,
                            allow_agent_coordination,
                            require_verification,
                            treasury: old(ctx).admin,
                            bump: old(ctx).bump,
                        },
                    ),
                    ..*old(ctx)
                })
                &&& final(ctx).config->Some_0.wf()
            },
            Err(e) => initialize_config_error(
                *old(ctx),
                protocol_fee_bps,
                default_price_cap_bps,
                min_listing_duration,
                max_listing_duration,
            ) == Some(e) && *final(ctx) == *old(ctx),
        },
{
    if ctx.config.is_some() {
        return Err(TixError::ConfigAlreadyInitialized);
    }
    if protocol_fee_bps > MAX_BPS || default_price_cap_bps > MAX_BPS {
        return Err(TixError::InvalidRoyaltyBps);
    }
    if min_listing_duration <= 0 || max_listing_duration <= min_listing_duration {
        return Err(TixError::InvalidEventTiming);
    }
    ctx.config = Some(
        GlobalConfig {
            admin: ctx.admin,
            protocol_fee_bps,
            default_price_cap_bps,
            min_listing_duration,
            max_listing_duration,
            allow_agent_coordination,
            require_verification,
            treasury: ctx.admin,
            bump: ctx.bump,
        },
    );
    Ok(())
}

/// The configuration and the caller who wants to change it.
#[derive(Clone, Copy, Debug, PartialEq, Eq)]
pub struct UpdateConfig {
    pub config: GlobalConfig,
    /// The caller.
    pub admin: Identity,
}

/// Why a change of the configuration is refused, if it is. The checks come
/// in this order: the caller is the admin, new rates are at most one hundred
/// percent, the durations as they will stand are positive and ordered.
pub open spec fn update_config_error(
    ctx: UpdateConfig,
    protocol_fee_bps: Option<u16>,
    default_price_cap_bps: Option<u16>,
    min_listing_duration: Option<i64>,
    max_listing_duration: Option<i64>,
) -> Option<TixError> {
    if ctx.admin != ctx.config.admin {
        Some(TixError::InvalidAuthority)
    } else if or_keep(protocol_fee_bps, 0) > MAX_BPS || or_keep(default_price_cap_bps, 0)
        > MAX_BPS {
        Some(TixError::InvalidRoyaltyBps)
    } else if or_keep(min_listing_duration, ctx.config.min_listing_duration) <= 0 || or_keep(
        max_listing_duration,
        ctx.config.max_listing_duration,
    ) <= or_keep(min_listing_duration, ctx.config.min_listing_duration) {
        Some(TixError::InvalidEventTiming)
    } else {
        None
    }
}

/// Changes those settings for which a value is supplied. The durations are
/// judged as they stand after all changes.
pub fn update_config(
    ctx: &mut UpdateConfig,
    protocol_fee_bps: Option<u16>,
    default_price_cap_bps: Option<u16>,
    min_listing_duration: Option<i64>,
    max_listing_duration: Option<i64>,
    allow_agent_coordination: Option<bool>,
    require_verification: Option<bool>,
    treasury: Option<Identity>,
) -> (r: Result<(), TixError>)
    ensures
        match r {
            Ok(_) => {
                &&& update_config_error(
                    *old(ctx),
                    protocol_fee_bps,
                    default_price_cap_bps,
                    min_listing_duration,
                    max_listing_duration,
                ) is None
                &&& *final(ctx) == (UpdateConfig {
                    config: GlobalConfig {
                        protocol_fee_bps: or_keep(
                            protocol_fee_bps,
                            old(ctx).config.protocol_fee_bps,
                        ),
                        default_price_cap_bps: or_keep(
                            default_price_cap_bps,
                            old(ctx).config.default_price_cap_bps,
                        ),
                        min_listing_duration: or_keep(
                            min_listing_duration,
                            old(ctx).config.min_listing_duration,
                        ),
                        max_listing_duration: or_keep(
                            max_listing_duration,
                            old(ctx).config.max_listing_duration,
                        ),
                        allow_agent_coordination: or_keep(
                            allow_agent_coordination,
                            old(ctx).config.allow_agent_coordination,
                        ),
                        require_verification: or_keep(
                            require_verification,
                            old(ctx).config.require_verification,
                        ),
                        treasury: or_keep(treasury, old(ctx).config.treasury),
                        ..old(ctx).config
                    },
                    ..*old(ctx)
                })
                &&& old(ctx).config.wf() ==> final(ctx).config.wf()
            },
            Err(e) => update_config_error(
                *old(ctx),
                protocol_fee_bps,
                default_price_cap_bps,
                min_listing_duration,
                max_listing_duration,
            ) == Some(e) && *final(ctx) == *old(ctx),
        },
{
    if !is_authorized(&ctx.admin, &ctx.config.admin) {
        return Err(TixError::InvalidAuthority);
    }
    if pick(protocol_fee_bps, 0) > MAX_BPS || pick(default_price_cap_bps, 0) > MAX_BPS {
        return Err(TixError::InvalidRoyaltyBps);
    }
    let min_duration = pick(min_listing_duration, ctx.config.min_listing_duration);
    let max_duration = pick(max_listing_duration, ctx.config.max_listing_duration);
    if min_duration <= 0 || max_duration <= min_duration {
        return Err(TixError::InvalidEventTiming);
    }
    ctx.config.protocol_fee_bps = pick(protocol_fee_bps, ctx.config.protocol_fee_bps);
    ctx.config.default_price_cap_bps = pick(
        default_price_cap_bps,
        ctx.config.default_price_cap_bps,
    );
    ctx.config.min_listing_duration = min_duration;
    ctx.config.max_listing_duration = max_duration;
    ctx.config.allow_agent_coordination = pick(
        allow_agent_coordination,
        ctx.config.allow_agent_coordination,
    );
    ctx.config.require_verification = pick(require_verification, ctx.config.require_verification);
    ctx.config.treasury = pick(treasury, ctx.config.treasury);
    Ok(())
}

} // verus!
