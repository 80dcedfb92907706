//! Events: their creation, their change before the sale opens, their cancellation.

use vstd::prelude::*;
use crate::constraints::{is_authorized, timing_valid, validate_event_timing};
use crate::error::TixError;
use crate::identity::Identity;
use crate::state::{
    optional_text_fits, or_keep, pick, supplied_text_fits, text_fits, text_len, Event,
    MAX_BPS, MAX_EVENT_DESCRIPTION_LEN, MAX_EVENT_ID_LEN, MAX_EVENT_NAME_LEN,
};

verus! {

/// Who creates an event, and the bump of the address where it will be kept.
#[derive(Clone, Copy, Debug, PartialEq, Eq)]
pub struct CreateEvent {
    pub organizer: Identity,
    pub bump: u8,
}

/// Why an event cannot be created with these values, if it cannot. The
/// checks come in this order: the texts fit and at least one ticket per user
/// is allowed, the four boundaries are ordered, the royalty is at most one
/// hundred percent.
pub open spec fn create_event_error(
    event_id: Seq<char>,
    name: Seq<char>,
    description: Seq<char>,
    image_url: Seq<char>,
    venue: Seq<char>,
    event_start_time: i64,
    event_end_time: i64,
    sale_start_time: i64,
    sale_end_time: i64,
    max_tickets_per_user: u32,
    royalty_bps: u16,
) -> Option<TixError> {
    if text_len(event_id) > MAX_EVENT_ID_LEN || text_len(name) > MAX_EVENT_NAME_LEN || text_len(
        description,
    ) > MAX_EVENT_DESCRIPTION_LEN || text_len(image_url) > MAX_EVENT_NAME_LEN || text_len(venue)
        > MAX_EVENT_NAME_LEN || max_tickets_per_user == 0 {
        Some(TixError::InvalidEventTiming)
    } else if !timing_valid(event_start_time, event_end_time, sale_start_time, sale_end_time) {
        Some(TixError::InvalidEventTiming)
    } else if royalty_bps > MAX_BPS {
        Some(TixError::InvalidRoyaltyBps)
    } else {
        None
    }
}

/// Creates an active event for its organizer, with nothing sold yet.
pub fn create_event(
    ctx: &CreateEvent,
    event_id: String,
    name: String,
    description: String,
    image_url: String,
    venue: String,
    event_start_time: i64,
    event_end_time: i64,
    sale_start_time: i64,
    sale_end_time: i64,
    max_tickets_per_user: u32,
    royalty_bps: u16,
) -> (r: Result<Event, TixError>)
    ensures
        match r {
            Ok(event) => {
                &&& create_event_error(
                    event_id@,
                    name@,
                    description@,
                    image_url@,
                    venue@,
                    event_start_time,
                    event_end_time,
                    sale_start_time,
                    sale_end_time,
                    max_tickets_per_user,
                    royalty_bps,
                ) is None
                &&& event == (Event {
                    organizer: ctx.organizer,
                    event_id,
                    name,
                    description,
                    image_url,
                    venue,
                    event_start_time,
                    event_end_time,
                    sale_start_time,
                    sale_end_time,
                    is_active: true,
                    is_cancelled: false,
                    max_tickets_per_user,
                    royalty_bps,
                    total_tickets_sold: 0,
                    total_revenue: 0,
                    bump: ctx.bump,
                })
                &&& event.wf()
            },
            Err(e) => create_event_error(
                event_id@,
                name@,
                description@,
                image_url@,
                venue@,
                event_start_time,
                event_end_time,
                sale_start_time,
                sale_end_time,
                max_tickets_per_user,
                royalty_bps,
            ) == Some(e),
        },
{
    if !text_fits(&event_id, MAX_EVENT_ID_LEN) || !text_fits(&name, MAX_EVENT_NAME_LEN)
        || !text_fits(&description, MAX_EVENT_DESCRIPTION_LEN) || !text_fits(
        &image_url,
        MAX_EVENT_NAME_LEN,
    ) || !text_fits(&venue, MAX_EVENT_NAME_LEN) || max_tickets_per_user == 0 {
        return Err(TixError::InvalidEventTiming);
    }
    validate_event_timing(event_start_time, event_end_time, sale_start_time, sale_end_time)?;
    if royalty_bps > MAX_BPS {
        return Err(TixError::InvalidRoyaltyBps);
    }
    Ok(
        Event {
            organizer: ctx.organizer,
            event_id,
            name,
            description,
            image_url,
            venue,
            event_start_time,
            event_end_time,
            sale_start_time,
            sale_end_time,
            is_active: true,
            is_cancelled: false,
            max_tickets_per_user,
            royalty_bps,
            total_tickets_sold: 0,
            total_revenue: 0,
            bump: ctx.bump,
        },
    )
}

/// An event and the caller who wants to change it.
#[derive(Clone, Debug, PartialEq, Eq)]
pub struct UpdateEvent {
    pub event: Event,
    /// The caller.
    pub organizer: Identity,
}

/// Why a change of an event at `now` is refused, if it is. The checks come
/// in this order: the caller is the organizer, the sale has not opened, the
/// new texts fit and a new limit per user is positive, a new royalty is at
/// most one hundred percent, the four boundaries as they will stand are
/// ordered.
pub open spec fn update_event_error(
    ctx: UpdateEvent,
    name: Option<String>,
    description: Option<String>,
    image_url: Option<String>,
    venue: Option<String>,
    event_start_time: Option<i64>,
    event_end_time: Option<i64>,
    sale_start_time: Option<i64>,
    sale_end_time: Option<i64>,
    max_tickets_per_user: Option<u32>,
    royalty_bps: Option<u16>,
    now: i64,
) -> Option<TixError> {
    if ctx.organizer != ctx.event.organizer {
        Some(TixError::InvalidAuthority)
    } else if now >= ctx.event.sale_start_time {
        Some(TixError::SaleAlreadyStarted)
    } else if !supplied_text_fits(name, MAX_EVENT_NAME_LEN) || !supplied_text_fits(
        description,
        MAX_EVENT_DESCRIPTION_LEN,
    ) || !supplied_text_fits(image_url, MAX_EVENT_NAME_LEN) || !supplied_text_fits(
        venue,
        MAX_EVENT_NAME_LEN,
    ) || max_tickets_per_user == Some(0u32) {
        Some(TixError::InvalidEventTiming)
    } else if or_keep(royalty_bps, 0) > MAX_BPS {
        Some(TixError::InvalidRoyaltyBps)
    } else if !timing_valid(
        or_keep(event_start_time, ctx.event.event_start_time),
        or_keep(event_end_time, ctx.event.event_end_time),
        or_keep(sale_start_time, ctx.event.sale_start_time),
        or_keep(sale_end_time, ctx.event.sale_end_time),
    ) {
        Some(TixError::InvalidEventTiming)
    } else {
        None
    }
}

/// The event after a change: each field takes the value supplied for it and
/// keeps its own where none is.
pub open spec fn event_after_update(
    event: Event,
    name: Option<String>,
    description: Option<String>,
    image_url: Option<String>,
    venue: Option<String>,
    event_start_time: Option<i64>,
    event_end_time: Option<i64>,
    sale_start_time: Option<i64>,
    sale_end_time: Option<i64>,
    max_tickets_per_user: Option<u32>,
    royalty_bps: Option<u16>,
) -> Event {
    Event {
        name: or_keep(name, event.name),
        description: or_keep(description, event.description),
        image_url: or_keep(image_url, event.image_url),
        venue: or_keep(venue, event.venue),
        event_start_time: or_keep(event_start_time, event.event_start_time),
        event_end_time: or_keep(event_end_time, event.event_end_time),
        sale_start_time: or_keep(sale_start_time, event.sale_start_time),
        sale_end_time: or_keep(sale_end_time, event.sale_end_time),
        max_tickets_per_user: or_keep(max_tickets_per_user, event.max_tickets_per_user),
        royalty_bps: or_keep(royalty_bps, event.royalty_bps),
        ..event
    }
}

/// Changes those fields of an event for which a value is supplied, before
/// its sale opens. The boundaries are judged as they stand after all changes.
pub fn update_event(
    ctx: &mut UpdateEvent,
    name: Option<String>,
    description: Option<String>,
    image_url: Option<String>,
    venue: Option<String>,
    event_start_time: Option<i64>,
    event_end_time: Option<i64>,
    sale_start_time: Option<i64>,
    sale_end_time: Option<i64>,
    max_tickets_per_user: Option<u32>,
    royalty_bps: Option<u16>,
    now: i64,
) -> (r: Result<(), TixError>)
    ensures
        match r {
            Ok(_) => {
                &&& update_event_error(
                    *old(ctx),
                    name,
                    description,
                    image_url,
                    venue,
                    event_start_time,
                    event_end_time,
                    sale_start_time,
                    sale_end_time,
                    max_tickets_per_user,
                    royalty_bps,
                    now,
                ) is None
                &&& final(ctx).organizer == old(ctx).organizer
                &&& final(ctx).event == event_after_update(
                    old(ctx).event,
                    name,
                    description,
                    image_url,
                    venue,
                    event_start_time,
                    event_end_time,
                    sale_start_time,
                    sale_end_time,
                    max_tickets_per_user,
                    royalty_bps,
                )
                &&& final(ctx).event.timing_ordered()
                &&& old(ctx).event.wf() ==> final(ctx).event.wf()
            },
            Err(e) => update_event_error(
                *old(ctx),
                name,
                description,
                image_url,
                venue,
                event_start_time,
                event_end_time,
                sale_start_time,
                sale_end_time,
                max_tickets_per_user,
                royalty_bps,
                now,
            ) == Some(e) && *final(ctx) == *old(ctx),
        },
{
    if !is_authorized(&ctx.organizer, &ctx.event.organizer) {
        return Err(TixError::InvalidAuthority);
    }
    if now >= ctx.event.sale_start_time {
        return Err(TixError::SaleAlreadyStarted);
    }
    if !optional_text_fits(&name, MAX_EVENT_NAME_LEN) || !optional_text_fits(
        &description,
        MAX_EVENT_DESCRIPTION_LEN,
    ) || !optional_text_fits(&image_url, MAX_EVENT_NAME_LEN) || !optional_text_fits(
        &venue,
        MAX_EVENT_NAME_LEN,
    ) {
        return Err(TixError::InvalidEventTiming);
    }
    if let Some(new_max) = max_tickets_per_user {
        if new_max == 0 {
            return Err(TixError::InvalidEventTiming);
        }
    }
    if pick(royalty_bps, 0) > MAX_BPS {
        return Err(TixError::InvalidRoyaltyBps);
    }
    let event_start = pick(event_start_time, ctx.event.event_start_time);
    let event_end = pick(event_end_time, ctx.event.event_end_time);
    let sale_start = pick(sale_start_time, ctx.event.sale_start_time);
    let sale_end = pick(sale_end_time, ctx.event.sale_end_time);
    validate_event_timing(event_start, event_end, sale_start, sale_end)?;

    if let Some(new_name) = name {
        ctx.event.name = new_name;
    }
    if let Some(new_description) = description {
        ctx.event.description = new_description;
    }
    if let Some(new_image_url) = image_url {
        ctx.event.image_url = new_image_url;
    }
    if let Some(new_venue) = venue {
        ctx.event.venue = new_venue;
    }
    ctx.event.event_start_time = event_start;
    ctx.event.event_end_time = event_end;
    ctx.event.sale_start_time = sale_start;
    ctx.event.sale_end_time = sale_end;
    ctx.event.max_tickets_per_user = pick(max_tickets_per_user, ctx.event.max_tickets_per_user);
    ctx.event.royalty_bps = pick(royalty_bps, ctx.event.royalty_bps);
    Ok(())
}

/// An event and the caller who wants to cancel it.
#[derive(Clone, Debug, PartialEq, Eq)]
pub struct CancelEvent {
    pub event: Event,
    /// The caller.
    pub organizer: Identity,
}

/// Why a cancellation is refused, if it is: the caller is not the
/// organizer, or else the event is cancelled already.
pub open spec fn cancel_event_error(ctx: CancelEvent) -> Option<TixError> {
    if ctx.organizer != ctx.event.organizer {
        Some(TixError::InvalidAuthority)
    } else if ctx.event.is_cancelled {
        Some(TixError::EventAlreadyCancelled)
    } else {
        None
    }
}

/// Cancels an event for good: it is cancelled and no longer active.
pub fn cancel_event(ctx: &mut CancelEvent) -> (r: Result<(), TixError>)
    ensures
        match r {
            Ok(_) => {
                &&& cancel_event_error(*old(ctx)) is None
                &&& *final(ctx) == (CancelEvent {
                    event: Event { is_cancelled: true, is_active: false, ..old(ctx).event },
                    ..*old(ctx)
                })
            },
            Err(e) => cancel_event_error(*old(ctx)) == Some(e) && *final(ctx) == *old(ctx),
        },
{
    if !is_authorized(&ctx.organizer, &ctx.event.organizer) {
        return Err(TixError::InvalidAuthority);
    }
    if ctx.event.is_cancelled {
        return Err(TixError::EventAlreadyCancelled);
    }
    ctx.event.is_cancelled = true;
    ctx.event.is_active = false;
    Ok(())
}

} // verus!
