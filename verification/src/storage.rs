//! How much storage each record takes, and that the reserved space suffices.
//!
//! A record is stored behind a tag of eight bytes. An integer takes its
//! width, a flag or a choice one byte, an identity thirty-two, a text four
//! bytes and then its own, a value that may be missing one byte and then, if
//! it is there, its own, and a list four bytes and then its items'.

use vstd::prelude::*;
use crate::state::{
    text_len, AIAgent, AgentCoordination, AgentEscrow, Event, GlobalConfig, MarketListing,
    Offer, Ticket, TicketTier, User, UserTicketCounter,
};

verus! {

/// What a text takes in storage.
pub open spec fn stored_text_len(text: Seq<char>) -> nat {
    4 + text_len(text)
}

/// What a text that may be missing takes in storage.
pub open spec fn stored_optional_text_len(text: Option<String>) -> nat {
    match text {
        Some(t) => 1 + stored_text_len(t@),
        None => 1,
    }
}

impl GlobalConfig {
    /// The space reserved for the configuration.
    pub const SPACE: usize = 8 + 32 + 2 + 2 + 8 + 8 + 1 + 1 + 32 + 1;

    /// What the configuration takes in storage.
    pub open spec fn stored_len(self) -> nat {
        95
    }
}

impl Event {
    /// The space reserved for an event.
    pub const SPACE: usize = 8 + 32 + 4 + 50 + 4 + 100 + 4 + 200 + 4 + 100 + 4 + 100 + 8 + 8 + 8
        + 8 + 1 + 1 + 4 + 2 + 8 + 8 + 1;

    /// What this event takes in storage.
    pub open spec fn stored_len(self) -> nat {
        8 + 32 + stored_text_len(self.event_id@) + stored_text_len(self.name@) + stored_text_len(
            self.description@,
        ) + stored_text_len(self.image_url@) + stored_text_len(self.venue@) + 8 + 8 + 8 + 8 + 1
            + 1 + 4 + 2 + 8 + 8 + 1
    }
}

impl TicketTier {
    /// The space reserved for a tier.
    pub const SPACE: usize = 8 + 32 + 4 + 20 + 4 + 50 + 4 + 100 + 8 + 8 + 8 + 1 + 1;

    /// What this tier takes in storage.
    pub open spec fn stored_len(self) -> nat {
        8 + 32 + stored_text_len(self.tier_id@) + stored_text_len(self.name@) + stored_text_len(
            self.description@,
        ) + 8 + 8 + 8 + 1 + 1
    }
}

impl User {
    /// The space reserved for a profile.
    pub const SPACE: usize = 8 + 32 + 4 + 30 + 4 + 100 + 8 + 8 + 8 + 1 + 1;

    /// What this profile takes in storage.
    pub open spec fn stored_len(self) -> nat {
        8 + 32 + stored_text_len(self.username@) + stored_text_len(self.email@) + 8 + 8 + 8 + 1
            + 1
    }
}

impl AIAgent {
    /// The space reserved for an agent.
    pub const SPACE: usize = 8 + 32 + 4 + 30 + 4 + 50 + 1 + 8 + 8 + 8 + 8 + 10 + 160 + 4 + 4
        + 160 + 4 + 1 + 4 + 4 + 1 + 2 + 1 + 1 + 1 + 1 + 4 + 30 + 8 + 8 + 8 + 8 + 1;

    /// What this agent takes in storage.
    pub open spec fn stored_len(self) -> nat {
        8 + 32 + stored_text_len(self.agent_id@) + stored_text_len(self.name@) + 1 + 8 + 8 + 8 + 8
            + 10 + 160 + 4 + 4 + 160 + 4 + 1 + 4 + 4 + 1 + 2 + 1 + 1 + 1
            + stored_optional_text_len(self.coordination_group_id) + 8 + 8 + 8 + 8 + 1
    }
}

impl AgentEscrow {
    /// The space reserved for an escrow.
    pub const SPACE: usize = 8 + 32 + 32 + 8 + 8 + 8 + 8 + 8 + 8 + 1;

    /// What an escrow takes in storage.
    pub open spec fn stored_len(self) -> nat {
        121
    }
}

impl Ticket {
    /// The space reserved for a ticket.
    pub const SPACE: usize = 8 + 32 + 32 + 4 + 20 + 32 + 8 + 1 + 8 + 1 + 8 + 1 + 4 + 50 + 1;

    /// What this ticket takes in storage.
    pub open spec fn stored_len(self) -> nat {
        8 + 32 + 32 + stored_text_len(self.tier_id@) + 32 + 8 + 1 + 8 + (if self.validated_at
            is Some {
            9nat
        } else {
            1nat
        }) + stored_optional_text_len(self.seat_info) + 1
    }
}

impl MarketListing {
    /// The space reserved for a listing.
    pub const SPACE: usize = 8 + 4 + 30 + 32 + 32 + 32 + 4 + 20 + 8 + 8 + 1 + 8 + 2 + 8 + 8 + 8
        + 1 + 1 + 8 + 8 + 4 + 4 + 1;

    /// What this listing takes in storage.
    pub open spec fn stored_len(self) -> nat {
        8 + stored_text_len(self.listing_id@) + 32 + 32 + 32 + stored_text_len(self.tier_id@) + 8
            + 8 + 1 + 8 + 2 + 8 + 8 + 8 + 1 + 1 + 8 + 8 + 4 + 4 + 1
    }
}

impl Offer {
    /// The space reserved for an offer.
    pub const SPACE: usize = 8 + 32 + 32 + 8 + 8 + 8 + 1 + 1;

    /// What an offer takes in storage.
    pub open spec fn stored_len(self) -> nat {
        98
    }
}

impl AgentCoordination {
    /// The space reserved for a coordination group.
    pub const SPACE: usize = 8 + 4 + 30 + 32 + 32 + 4 + 20 + 4 + 4 + 8 + 8 + 4 + 320 + 8 + 1 + 1
        + 1;

    /// What this group takes in storage.
    pub open spec fn stored_len(self) -> nat {
        8 + stored_text_len(self.group_id@) + 32 + 32 + stored_text_len(self.tier_id@) + 4 + 4 + 8
            + 8 + 4 + 32 * self.participants@.len() + 8 + 1 + 1 + 1
    }
}

impl UserTicketCounter {
    /// The space reserved for a ticket counter.
    pub const SPACE: usize = 8 + 32 + 32 + 4 + 1;

    /// What a ticket counter takes in storage.
    pub open spec fn stored_len(self) -> nat {
        77
    }
}

/// Every record whose texts and lists are within their bounds fits the
/// space reserved for its kind; records of fixed size fill it exactly.
pub proof fn law_records_fit_storage(
    config: GlobalConfig,
    event: Event,
    tier: TicketTier,
    user: User,
    agent: AIAgent,
    escrow: AgentEscrow,
    ticket: Ticket,
    listing: MarketListing,
    offer: Offer,
    group: AgentCoordination,
    counter: UserTicketCounter,
)
    ensures
        config.stored_len() == GlobalConfig::SPACE,
        event.texts_fit() ==> event.stored_len() <= Event::SPACE,
        tier.texts_fit() ==> tier.stored_len() <= TicketTier::SPACE,
        user.wf() ==> user.stored_len() <= User::SPACE,
        agent.texts_fit() ==> agent.stored_len() <= AIAgent::SPACE,
        escrow.stored_len() == AgentEscrow::SPACE,
        ticket.wf() ==> ticket.stored_len() <= Ticket::SPACE,
        listing.wf() ==> listing.stored_len() <= MarketListing::SPACE,
        offer.stored_len() == Offer::SPACE,
        group.wf() ==> group.stored_len() <= AgentCoordination::SPACE,
        counter.stored_len() == UserTicketCounter::SPACE,
{
}

} // verus!
