//! The persistent records and what holds of each of them.
//!
//! A record is a plain value. Text fields are bounded by their length in
//! bytes, so that every record fits the storage reserved for it when it was
//! created.

use vstd::prelude::*;
use vstd::utf8::encode_utf8;
use crate::identity::Identity;

verus! {

/// Longest event id, in bytes.
pub const MAX_EVENT_ID_LEN: usize = 50;

/// Longest event name, image address or venue, in bytes.
pub const MAX_EVENT_NAME_LEN: usize = 100;

/// Longest event description, in bytes.
pub const MAX_EVENT_DESCRIPTION_LEN: usize = 200;

/// Longest tier id, in bytes.
pub const MAX_TIER_ID_LEN: usize = 20;

/// Longest tier name, in bytes.
pub const MAX_TIER_NAME_LEN: usize = 50;

/// Longest tier description, in bytes.
pub const MAX_TIER_DESCRIPTION_LEN: usize = 100;

/// Longest user name, agent id, listing id, offer id or group id, in bytes.
pub const MAX_SHORT_ID_LEN: usize = 30;

/// Longest e-mail address, in bytes.
pub const MAX_EMAIL_LEN: usize = 100;

/// Longest agent name or seat description, in bytes.
pub const MAX_AGENT_NAME_LEN: usize = 50;

/// Last minute of a day, counted from midnight.
pub const MAX_MINUTE_OF_DAY: u32 = 1439;

/// Largest value of a field that holds basis points.
pub const MAX_BPS: u16 = 10000;

/// Most agents that one coordination group holds.
pub const MAX_PARTICIPANTS: usize = 10;

/// The length of a text in bytes, as it is stored.
pub open spec fn text_len(s: Seq<char>) -> nat {
    encode_utf8(s).len()
}

/// Whether a text takes at most `max` bytes.
pub fn text_fits(s: &String, max: usize) -> (fits: bool)
    ensures
        fits == (text_len(s@) <= max),
{
    s.as_str().as_bytes().len() <= max
}

/// Whether a text that may be supplied takes at most `max` bytes. No text fits.
pub open spec fn supplied_text_fits(text: Option<String>, max: usize) -> bool {
    match text {
        Some(t) => text_len(t@) <= max,
        None => true,
    }
}

/// Whether a text that may be supplied takes at most `max` bytes.
pub fn optional_text_fits(text: &Option<String>, max: usize) -> (fits: bool)
    ensures
        fits == supplied_text_fits(*text, max),
{
    match text {
        Some(t) => text_fits(t, max),
        None => true,
    }
}

/// The value of a field after a partial update: the new value where one is
/// supplied, the old one where none is.
pub open spec fn or_keep<T>(supplied: Option<T>, current: T) -> T {
    match supplied {
        Some(value) => value,
        None => current,
    }
}

/// The new value of a field under a partial update.
pub fn pick<T: Copy>(supplied: Option<T>, current: T) -> (value: T)
    ensures
        value == or_keep(supplied, current),
{
    match supplied {
        Some(value) => value,
        None => current,
    }
}

/// The singleton configuration of the marketplace.
#[derive(Clone, Copy, Debug, PartialEq, Eq)]
pub struct GlobalConfig {
    pub admin: Identity,
    /// Protocol fee on secondary sales, in basis points.
    pub protocol_fee_bps: u16,
    /// By how many basis points a resale price may exceed the purchase price.
    pub default_price_cap_bps: u16,
    /// Shortest listing duration, in seconds.
    pub min_listing_duration: i64,
    /// Longest listing duration, in seconds.
    pub max_listing_duration: i64,
    pub allow_agent_coordination: bool,
    pub require_verification: bool,
    /// Where protocol fees are sent.
    pub treasury: Identity,
    pub bump: u8,
}

impl GlobalConfig {
    /// Both rates are at most one hundred percent and the duration bounds
    /// are positive and ordered.
    pub open spec fn wf(self) -> bool {
        &&& self.protocol_fee_bps <= MAX_BPS
        &&& self.default_price_cap_bps <= MAX_BPS
        &&& 0 < self.min_listing_duration < self.max_listing_duration
    }
}

/// An event for which tickets are sold.
#[derive(Clone, Debug, PartialEq, Eq)]
pub struct Event {
    pub organizer: Identity,
    pub event_id: String,
    pub name: String,
    pub description: String,
    pub image_url: String,
    pub venue: String,
    pub event_start_time: i64,
    pub event_end_time: i64,
    pub sale_start_time: i64,
    pub sale_end_time: i64,
    pub is_active: bool,
    pub is_cancelled: bool,
    pub max_tickets_per_user: u32,
    /// Share of every resale that goes to the organizer, in basis points.
    pub royalty_bps: u16,
    pub total_tickets_sold: u64,
    pub total_revenue: u64,
    pub bump: u8,
}

impl Event {
    /// The four boundaries are ordered: the sale opens after time zero,
    /// closes after it opened and no later than the event begins, and the
    /// event ends after it began.
    pub open spec fn timing_ordered(self) -> bool {
        0 < self.sale_start_time < self.sale_end_time <= self.event_start_time
            < self.event_end_time
    }

    /// The text fields fit their storage.
    pub open spec fn texts_fit(self) -> bool {
        &&& text_len(self.event_id@) <= MAX_EVENT_ID_LEN
        &&& text_len(self.name@) <= MAX_EVENT_NAME_LEN
        &&& text_len(self.description@) <= MAX_EVENT_DESCRIPTION_LEN
        &&& text_len(self.image_url@) <= MAX_EVENT_NAME_LEN
        &&& text_len(self.venue@) <= MAX_EVENT_NAME_LEN
    }

    /// What holds of every event that the operations produce.
    pub open spec fn wf(self) -> bool {
        &&& self.texts_fit()
        &&& self.timing_ordered()
        &&& self.max_tickets_per_user > 0
        &&& self.royalty_bps <= MAX_BPS
        &&& self.is_cancelled ==> !self.is_active
    }
}

/// One price class of an event.
#[derive(Clone, Debug, PartialEq, Eq)]
pub struct TicketTier {
    /// The event this tier belongs to.
    pub event: Identity,
    pub tier_id: String,
    pub name: String,
    pub description: String,
    pub price: u64,
    pub max_supply: u64,
    /// Tickets sold so far; it only grows.
    pub current_supply: u64,
    pub is_active: bool,
    pub bump: u8,
}

impl TicketTier {
    /// The text fields fit their storage.
    pub open spec fn texts_fit(self) -> bool {
        &&& text_len(self.tier_id@) <= MAX_TIER_ID_LEN
        &&& text_len(self.name@) <= MAX_TIER_NAME_LEN
        &&& text_len(self.description@) <= MAX_TIER_DESCRIPTION_LEN
    }

    /// What holds of every tier that the operations produce.
    pub open spec fn wf(self) -> bool {
        &&& self.texts_fit()
        &&& self.price > 0
        &&& self.max_supply > 0
        &&& self.current_supply <= self.max_supply
    }
}

/// The profile and purchase statistics of one owner.
#[derive(Clone, Debug, PartialEq, Eq)]
pub struct User {
    pub owner: Identity,
    pub username: String,
    pub email: String,
    pub tickets_owned: u64,
    pub total_spent: u64,
    pub tickets_purchased: u64,
    pub is_verified: bool,
    pub bump: u8,
}

impl User {
    /// The text fields fit their storage.
    pub open spec fn wf(self) -> bool {
        &&& text_len(self.username@) <= MAX_SHORT_ID_LEN
        &&& text_len(self.email@) <= MAX_EMAIL_LEN
    }
}

/// An autonomous buyer acting for its owner within a budget.
#[derive(Clone, Debug, PartialEq, Eq)]
pub struct AIAgent {
    pub owner: Identity,
    pub agent_id: String,
    pub name: String,
    pub is_active: bool,
    /// Most that one ticket may cost.
    pub max_budget_per_ticket: u64,
    pub total_budget: u64,
    pub spent_budget: u64,
    pub preference_flags: u64,
    pub preferred_genres: [u8; 10],
    pub preferred_venues: [Identity; 5],
    pub min_event_duration: u32,
    pub max_event_duration: u32,
    pub allowed_locations: [Identity; 5],
    /// In kilometres.
    pub max_distance: u32,
    /// One bit per day of the week.
    pub preferred_days: u8,
    /// In minutes from midnight.
    pub preferred_time_start: u32,
    /// In minutes from midnight.
    pub preferred_time_end: u32,
    pub auto_purchase_enabled: bool,
    /// Least deal quality, in basis points, at which the agent buys.
    pub auto_purchase_threshold: u16,
    pub max_tickets_per_event: u8,
    pub require_verification: bool,
    pub allow_agent_coordination: bool,
    pub coordination_group_id: Option<String>,
    pub tickets_purchased: u64,
    pub money_saved: u64,
    pub created_at: i64,
    pub last_active: i64,
    pub bump: u8,
}

impl AIAgent {
    /// The agent never spent more than its budget.
    pub open spec fn within_budget(self) -> bool {
        self.spent_budget <= self.total_budget
    }

    /// The text fields fit their storage.
    pub open spec fn texts_fit(self) -> bool {
        &&& text_len(self.agent_id@) <= MAX_SHORT_ID_LEN
        &&& text_len(self.name@) <= MAX_AGENT_NAME_LEN
        &&& match self.coordination_group_id {
            Some(id) => text_len(id@) <= MAX_SHORT_ID_LEN,
            None => true,
        }
    }

    /// What holds of every agent that the operations produce.
    pub open spec fn wf(self) -> bool {
        &&& self.texts_fit()
        &&& self.within_budget()
        &&& self.max_budget_per_ticket > 0
        &&& self.preferred_time_start <= MAX_MINUTE_OF_DAY
        &&& self.preferred_time_end <= MAX_MINUTE_OF_DAY
        &&& self.auto_purchase_threshold <= MAX_BPS
    }
}

/// The balance that an owner set aside for one agent to spend.
#[derive(Clone, Debug, PartialEq, Eq)]
pub struct AgentEscrow {
    pub agent: Identity,
    /// Who may withdraw.
    pub owner: Identity,
    pub balance: u64,
    pub total_deposited: u64,
    pub total_withdrawn: u64,
    pub total_spent: u64,
    pub created_at: i64,
    pub last_activity: i64,
    pub bump: u8,
}

impl AgentEscrow {
    /// The balance is what was deposited less what left again.
    pub open spec fn balanced(self) -> bool {
        self.balance == self.total_deposited - self.total_withdrawn - self.total_spent
    }

    /// What holds of every escrow that the operations produce.
    pub open spec fn wf(self) -> bool {
        self.balanced()
    }
}

/// Where a ticket stands. `Active` is the only state that can be left.
#[derive(Clone, Copy, Debug, PartialEq, Eq, Structural)]
pub enum TicketStatus {
    /// The ticket can be used and sold.
    Active,
    /// The ticket was scanned at the venue.
    Consumed,
    /// The organizer cancelled the ticket.
    Cancelled,
}

/// One purchased admission.
#[derive(Clone, Debug, PartialEq, Eq)]
pub struct Ticket {
    pub mint: Identity,
    pub event: Identity,
    pub tier_id: String,
    pub owner: Identity,
    /// What the ticket cost at first sale; it never changes.
    pub original_price: u64,
    pub status: TicketStatus,
    pub purchased_at: i64,
    pub validated_at: Option<i64>,
    pub seat_info: Option<String>,
    pub bump: u8,
}

impl Ticket {
    /// The text fields fit their storage.
    pub open spec fn wf(self) -> bool {
        &&& text_len(self.tier_id@) <= MAX_TIER_ID_LEN
        &&& match self.seat_info {
            Some(seat) => text_len(seat@) <= MAX_AGENT_NAME_LEN,
            None => true,
        }
    }
}

/// How a listing is sold.
#[derive(Clone, Copy, Debug, PartialEq, Eq, Structural)]
pub enum SaleType {
    /// At the list price.
    Fixed,
    /// Buyers make offers and the seller accepts one.
    Auction,
    /// At a price that declines with time.
    Dutch,
}

impl SaleType {
    /// The sale type that a wire code stands for.
    pub open spec fn of_code(code: u8) -> Option<SaleType> {
        if code == 0 {
            Some(SaleType::Fixed)
        } else if code == 1 {
            Some(SaleType::Auction)
        } else if code == 2 {
            Some(SaleType::Dutch)
        } else {
            None
        }
    }

    /// Decodes a wire code: 0 is fixed, 1 auction, 2 Dutch.
    pub fn from_code(code: u8) -> (r: Option<SaleType>)
        ensures
            r == SaleType::of_code(code),
    {
        if code == 0 {
            Some(SaleType::Fixed)
        } else if code == 1 {
            Some(SaleType::Auction)
        } else if code == 2 {
            Some(SaleType::Dutch)
        } else {
            None
        }
    }
}

/// A ticket offered for resale.
#[derive(Clone, Debug, PartialEq, Eq)]
pub struct MarketListing {
    pub listing_id: String,
    pub seller: Identity,
    pub ticket_mint: Identity,
    pub event: Identity,
    pub tier_id: String,
    pub list_price: u64,
    pub minimum_offer: u64,
    pub accept_offers: bool,
    pub original_purchase_price: u64,
    /// By how many basis points of the list price the Dutch price falls each hour.
    pub price_adjustment_rate: u16,
    pub last_price_adjustment: i64,
    /// Below this the Dutch price does not fall.
    pub min_price: u64,
    pub max_price: u64,
    pub is_active: bool,
    pub sale_type: SaleType,
    pub created_at: i64,
    pub expires_at: i64,
    pub view_count: u32,
    pub offer_count: u32,
    pub bump: u8,
}

impl MarketListing {
    /// The text fields fit their storage.
    pub open spec fn wf(self) -> bool {
        &&& text_len(self.listing_id@) <= MAX_SHORT_ID_LEN
        &&& text_len(self.tier_id@) <= MAX_TIER_ID_LEN
    }

    /// The Dutch parameters are ordered: `0 < min_price < list_price <= max_price`.
    pub open spec fn dutch_ordered(self) -> bool {
        0 < self.min_price < self.list_price <= self.max_price
    }
}

/// A bid on a listing that accepts offers.
#[derive(Clone, Debug, PartialEq, Eq)]
pub struct Offer {
    pub listing: Identity,
    pub buyer: Identity,
    pub offer_amount: u64,
    pub created_at: i64,
    pub expires_at: i64,
    pub is_active: bool,
    pub bump: u8,
}

/// A group of agents that pool their budgets toward tickets of one tier.
#[derive(Clone, Debug, PartialEq, Eq)]
pub struct AgentCoordination {
    pub group_id: String,
    pub coordinator: Identity,
    pub event: Identity,
    pub tier_id: String,
    pub target_ticket_count: u32,
    pub current_ticket_count: u32,
    pub max_budget_per_ticket: u64,
    pub total_budget_committed: u64,
    pub participants: Vec<Identity>,
    pub expires_at: i64,
    pub is_active: bool,
    pub is_completed: bool,
    pub bump: u8,
}

impl AgentCoordination {
    /// The text fields fit their storage and the group is not over-full.
    pub open spec fn wf(self) -> bool {
        &&& text_len(self.group_id@) <= MAX_SHORT_ID_LEN
        &&& text_len(self.tier_id@) <= MAX_TIER_ID_LEN
        &&& self.participants@.len() <= MAX_PARTICIPANTS
    }
}

/// How many tickets of one event one user holds.
#[derive(Clone, Copy, Debug, PartialEq, Eq)]
pub struct UserTicketCounter {
    pub user: Identity,
    pub event: Identity,
    pub ticket_count: u32,
    pub bump: u8,
}

} // verus!
