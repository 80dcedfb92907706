use pulse::error::TixError;
use pulse::events::{
    cancel_event, create_event, update_event, CancelEvent, CreateEvent, UpdateEvent,
};
use pulse::identity::Identity;
use pulse::state::Event;

fn id(n: u8) -> Identity {
    Identity::new([n; 32])
}

fn organizer() -> CreateEvent {
    CreateEvent { organizer: id(1), bump: 254 }
}

fn text(len: usize) -> String {
    "x".repeat(len)
}

fn create(
    event_start: i64,
    event_end: i64,
    sale_start: i64,
    sale_end: i64,
    max_per_user: u32,
    royalty_bps: u16,
) -> Result<Event, TixError> {
    create_event(
        &organizer(),
        String::from("concert-1"),
        String::from("Concert"),
        String::from("An evening of music"),
        String::from("https://example.org/c.png"),
        String::from("Town hall"),
        event_start,
        event_end,
        sale_start,
        sale_end,
        max_per_user,
        royalty_bps,
    )
}

fn event() -> Event {
    create(10_000, 20_000, 1_000, 5_000, 4, 500).unwrap()
}

fn no_change(ctx: &mut UpdateEvent, now: i64) -> Result<(), TixError> {
    update_event(ctx, None, None, None, None, None, None, None, None, None, None, now)
}

#[test]
fn created_event_is_active_and_empty() {
    let e = event();
    assert_eq!(
        e,
        Event {
            organizer: id(1),
            event_id: String::from("concert-1"),
            name: String::from("Concert"),
            description: String::from("An evening of music"),
            image_url: String::from("https://example.org/c.png"),
            venue: String::from("Town hall"),
            event_start_time: 10_000,
            event_end_time: 20_000,
            sale_start_time: 1_000,
            sale_end_time: 5_000,
            is_active: true,
            is_cancelled: false,
            max_tickets_per_user: 4,
            royalty_bps: 500,
            total_tickets_sold: 0,
            total_revenue: 0,
            bump: 254,
        }
    );
}

#[test]
fn created_event_has_ordered_boundaries() {
    let e = event();
    assert!(0 < e.sale_start_time);
    assert!(e.sale_start_time < e.sale_end_time);
    assert!(e.sale_end_time <= e.event_start_time);
    assert!(e.event_start_time < e.event_end_time);
}

#[test]
fn event_needs_ordered_boundaries() {
    assert_eq!(create(10_000, 20_000, 1_000, 10_000, 4, 500), Err(TixError::InvalidEventTiming));
    assert_eq!(create(10_000, 20_000, 1_000, 9_999, 4, 500).map(|e| e.sale_end_time), Ok(9_999));
    assert_eq!(create(10_000, 10_000, 1_000, 5_000, 4, 500), Err(TixError::InvalidEventTiming));
    assert_eq!(create(10_000, 20_000, 0, 5_000, 4, 500), Err(TixError::InvalidEventTiming));
    assert_eq!(create(10_000, 20_000, 5_000, 5_000, 4, 500), Err(TixError::InvalidEventTiming));
    assert_eq!(create(0, 20_000, -10, -5, 4, 500), Err(TixError::InvalidEventTiming));
}

#[test]
fn event_needs_a_limit_per_user() {
    assert_eq!(create(10_000, 20_000, 1_000, 5_000, 0, 500), Err(TixError::InvalidEventTiming));
    assert_eq!(create(10_000, 20_000, 1_000, 5_000, 1, 500).map(|e| e.max_tickets_per_user), Ok(1));
}

#[test]
fn event_royalty_is_at_most_the_whole() {
    assert_eq!(create(10_000, 20_000, 1_000, 5_000, 4, 10_001), Err(TixError::InvalidRoyaltyBps));
    assert_eq!(create(10_000, 20_000, 1_000, 5_000, 4, 10_000).map(|e| e.royalty_bps), Ok(10_000));
}

#[test]
fn event_timing_is_judged_before_the_royalty() {
    assert_eq!(create(10_000, 20_000, 1_000, 10_000, 4, 10_001), Err(TixError::InvalidEventTiming));
}

#[test]
fn event_texts_must_fit() {
    let make = |id_len: usize, name: usize, description: usize, image: usize, venue: usize| {
        create_event(
            &organizer(),
            text(id_len),
            text(name),
            text(description),
            text(image),
            text(venue),
            10_000,
            20_000,
            1_000,
            5_000,
            4,
            500,
        )
        .map(|_| ())
    };
    assert_eq!(make(50, 100, 200, 100, 100), Ok(()));
    assert_eq!(make(51, 100, 200, 100, 100), Err(TixError::InvalidEventTiming));
    assert_eq!(make(50, 101, 200, 100, 100), Err(TixError::InvalidEventTiming));
    assert_eq!(make(50, 100, 201, 100, 100), Err(TixError::InvalidEventTiming));
    assert_eq!(make(50, 100, 200, 101, 100), Err(TixError::InvalidEventTiming));
    assert_eq!(make(50, 100, 200, 100, 101), Err(TixError::InvalidEventTiming));
}

#[test]
fn event_text_bounds_count_bytes() {
    // Twenty-six letters of two bytes each take fifty-two bytes.
    let r = create_event(
        &organizer(),
        "\u{e9}".repeat(26),
        String::new(),
        String::new(),
        String::new(),
        String::new(),
        10_000,
        20_000,
        1_000,
        5_000,
        4,
        500,
    );
    assert_eq!(r, Err(TixError::InvalidEventTiming));
}

#[test]
fn update_changes_only_what_is_supplied() {
    let mut ctx = UpdateEvent { event: event(), organizer: id(1) };
    let r = update_event(
        &mut ctx,
        Some(String::from("Gala")),
        None,
        None,
        Some(String::from("Opera house")),
        None,
        Some(30_000),
        None,
        None,
        Some(2),
        None,
        999,
    );
    assert_eq!(r, Ok(()));
    assert_eq!(
        ctx.event,
        Event {
            name: String::from("Gala"),
            venue: String::from("Opera house"),
            event_end_time: 30_000,
            max_tickets_per_user: 2,
            ..event()
        }
    );
    assert_eq!(ctx.organizer, id(1));
}

#[test]
fn update_without_changes_changes_nothing() {
    let mut ctx = UpdateEvent { event: event(), organizer: id(1) };
    assert_eq!(no_change(&mut ctx, 0), Ok(()));
    assert_eq!(ctx.event, event());
}

#[test]
fn update_is_for_the_organizer() {
    let mut ctx = UpdateEvent { event: event(), organizer: id(9) };
    assert_eq!(no_change(&mut ctx, 0), Err(TixError::InvalidAuthority));
    assert_eq!(ctx.event, event());
}

#[test]
fn update_stops_when_the_sale_opens() {
    let mut ctx = UpdateEvent { event: event(), organizer: id(1) };
    assert_eq!(no_change(&mut ctx, 999), Ok(()));
    assert_eq!(no_change(&mut ctx, 1_000), Err(TixError::SaleAlreadyStarted));
    assert_eq!(no_change(&mut ctx, 1_001), Err(TixError::SaleAlreadyStarted));
}

#[test]
fn update_judges_the_boundaries_as_they_will_stand() {
    // Moving the end of the sale alone past the start of the event is refused.
    let mut ctx = UpdateEvent { event: event(), organizer: id(1) };
    let r = update_event(
        &mut ctx, None, None, None, None, None, None, None, Some(10_000), None, None, 0,
    );
    assert_eq!(r, Err(TixError::InvalidEventTiming));
    assert_eq!(ctx.event, event());
    // Moving it together with the event is accepted.
    let r = update_event(
        &mut ctx,
        None,
        None,
        None,
        None,
        Some(50_000),
        Some(60_000),
        None,
        Some(10_000),
        None,
        None,
        0,
    );
    assert_eq!(r, Ok(()));
    assert_eq!(
        ctx.event,
        Event {
            event_start_time: 50_000,
            event_end_time: 60_000,
            sale_end_time: 10_000,
            ..event()
        }
    );
    assert!(0 < ctx.event.sale_start_time);
    assert!(ctx.event.sale_start_time < ctx.event.sale_end_time);
    assert!(ctx.event.sale_end_time <= ctx.event.event_start_time);
    assert!(ctx.event.event_start_time < ctx.event.event_end_time);
}

#[test]
fn update_that_fails_leaves_the_event_alone() {
    let mut ctx = UpdateEvent { event: event(), organizer: id(1) };
    let r = update_event(
        &mut ctx,
        Some(String::from("Gala")),
        None,
        None,
        None,
        None,
        None,
        None,
        None,
        None,
        Some(10_001),
        0,
    );
    assert_eq!(r, Err(TixError::InvalidRoyaltyBps));
    assert_eq!(ctx.event, event());
    let r = update_event(
        &mut ctx,
        Some(String::from("Gala")),
        None,
        None,
        None,
        None,
        None,
        None,
        None,
        Some(0),
        None,
        0,
    );
    assert_eq!(r, Err(TixError::InvalidEventTiming));
    assert_eq!(ctx.event, event());
    let r = update_event(
        &mut ctx, None, Some(text(201)), None, None, None, None, None, None, None, None, 0,
    );
    assert_eq!(r, Err(TixError::InvalidEventTiming));
    assert_eq!(ctx.event, event());
}

#[test]
fn cancel_is_final() {
    let mut ctx = CancelEvent { event: event(), organizer: id(1) };
    assert_eq!(cancel_event(&mut ctx), Ok(()));
    assert_eq!(ctx.event, Event { is_cancelled: true, is_active: false, ..event() });
    assert_eq!(cancel_event(&mut ctx), Err(TixError::EventAlreadyCancelled));
    assert_eq!(ctx.event, Event { is_cancelled: true, is_active: false, ..event() });
}

#[test]
fn cancel_is_for_the_organizer() {
    let mut ctx = CancelEvent { event: event(), organizer: id(2) };
    assert_eq!(cancel_event(&mut ctx), Err(TixError::InvalidAuthority));
    assert_eq!(ctx.event, event());
}
