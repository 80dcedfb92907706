//! The error vocabulary shared by every operation.

use vstd::prelude::*;

verus! {

/// The five families an error belongs to. Callers decide by family whether
/// resubmitting can help.
#[derive(Clone, Copy, Debug, PartialEq, Eq, Structural)]
pub enum ErrorKind {
    /// The caller is not the authority the record names.
    Authorization,
    /// The operation came outside the window or state in which it is valid.
    TimingState,
    /// A supply, a per-user limit, a budget or a balance is exhausted.
    Capacity,
    /// An argument is out of bounds or malformed.
    InputValidation,
    /// A checked arithmetic step would have wrapped.
    Arithmetic,
}

/// Why an operation was aborted.
#[derive(Clone, Copy, Debug, PartialEq, Eq, Structural)]
pub enum TixError {
    // Administration
    InvalidAuthority,
    ConfigAlreadyInitialized,
    // Events
    InvalidEventTiming,
    EventAlreadyCancelled,
    SaleAlreadyStarted,
    InvalidRoyaltyBps,
    EventNotActive,
    // Tiers
    TierNotFound,
    TierSoldOut,
    InvalidTierPrice,
    TierNotActive,
    InvalidSupply,
    // Users
    MaxTicketsPerUserExceeded,
    InsufficientFunds,
    AlreadyHasTicket,
    // Agents and escrow
    AgentInactive,
    InsufficientAgentBudget,
    PreferenceMismatch,
    AgentNotCoordinator,
    AgentAutoPurchaseDisabled,
    InvalidBudget,
    InsufficientEscrowBalance,
    // Marketplace
    ListingExpired,
    InvalidPrice,
    PriceCapExceeded,
    OfferExpired,
    NoActiveOffer,
    AlreadyListed,
    CannotListAfterEventStart,
    TicketConsumed,
    // Ticket validation
    TicketNotValid,
    EventNotOngoing,
    TicketAlreadyConsumed,
    TicketCancelled,
    // Arithmetic
    MathOverflow,
    MathUnderflow,
    // General
    InvalidInput,
    InvalidFeeBps,
    InvalidPDA,
    Unauthorized,
}

impl TixError {
    /// The family of each error.
    pub open spec fn kind_of(self) -> ErrorKind {
        match self {
            TixError::InvalidAuthority
            | TixError::AgentNotCoordinator
            | TixError::Unauthorized => ErrorKind::Authorization,
            TixError::ConfigAlreadyInitialized
            | TixError::EventAlreadyCancelled
            | TixError::SaleAlreadyStarted
            | TixError::EventNotActive
            | TixError::TierNotActive
            | TixError::AgentInactive
            | TixError::PreferenceMismatch
            | TixError::AgentAutoPurchaseDisabled
            | TixError::ListingExpired
            | TixError::OfferExpired
            | TixError::NoActiveOffer
            | TixError::AlreadyListed
            | TixError::CannotListAfterEventStart
            | TixError::TicketConsumed
            | TixError::TicketNotValid
            | TixError::EventNotOngoing
            | TixError::TicketAlreadyConsumed
            | TixError::TicketCancelled => ErrorKind::TimingState,
            TixError::TierSoldOut
            | TixError::MaxTicketsPerUserExceeded
            | TixError::InsufficientFunds
            | TixError::AlreadyHasTicket
            | TixError::InsufficientAgentBudget
            | TixError::InsufficientEscrowBalance => ErrorKind::Capacity,
            TixError::InvalidEventTiming
            | TixError::InvalidRoyaltyBps
            | TixError::TierNotFound
            | TixError::InvalidTierPrice
            | TixError::InvalidSupply
            | TixError::InvalidBudget
            | TixError::InvalidPrice
            | TixError::PriceCapExceeded
            | TixError::InvalidInput
            | TixError::InvalidFeeBps
            | TixError::InvalidPDA => ErrorKind::InputValidation,
            TixError::MathOverflow | TixError::MathUnderflow => ErrorKind::Arithmetic,
        }
    }

    /// The family this error belongs to.
    pub fn kind(&self) -> (k: ErrorKind)
        ensures
            k == self.kind_of(),
    {
        match self {
            TixError::InvalidAuthority
            | TixError::AgentNotCoordinator
            | TixError::Unauthorized => ErrorKind::Authorization,
            TixError::ConfigAlreadyInitialized
            | TixError::EventAlreadyCancelled
            | TixError::SaleAlreadyStarted
            | TixError::EventNotActive
            | TixError::TierNotActive
            | TixError::AgentInactive
            | TixError::PreferenceMismatch
            | TixError::AgentAutoPurchaseDisabled
            | TixError::ListingExpired
            | TixError::OfferExpired
            | TixError::NoActiveOffer
            | TixError::AlreadyListed
            | TixError::CannotListAfterEventStart
            | TixError::TicketConsumed
            | TixError::TicketNotValid
            | TixError::EventNotOngoing
            | TixError::TicketAlreadyConsumed
            | TixError::TicketCancelled => ErrorKind::TimingState,
            TixError::TierSoldOut
            | TixError::MaxTicketsPerUserExceeded
            | TixError::InsufficientFunds
            | TixError::AlreadyHasTicket
            | TixError::InsufficientAgentBudget
            | TixError::InsufficientEscrowBalance => ErrorKind::Capacity,
            TixError::InvalidEventTiming
            | TixError::InvalidRoyaltyBps
            | TixError::TierNotFound
            | TixError::InvalidTierPrice
            | TixError::InvalidSupply
            | TixError::InvalidBudget
            | TixError::InvalidPrice
            | TixError::PriceCapExceeded
            | TixError::InvalidInput
            | TixError::InvalidFeeBps
            | TixError::InvalidPDA => ErrorKind::InputValidation,
            TixError::MathOverflow | TixError::MathUnderflow => ErrorKind::Arithmetic,
        }
    }
}

} // verus!
