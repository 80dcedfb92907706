//! Value that an operation moves. The operations only say what is to be
//! moved; the host moves it, in the same atomic step as it stores the
//! records.

use vstd::prelude::*;
use crate::error::TixError;
use crate::identity::Identity;
use crate::math::{calculate_percentage, percentage_of, safe_add, safe_sub};

verus! {

/// One movement of value between two balances.
#[derive(Clone, Copy, Debug, PartialEq, Eq)]
pub struct Transfer {
    pub from: Identity,
    pub to: Identity,
    pub amount: u64,
}

/// How the price of a resale is divided.
#[derive(Clone, Copy, Debug, PartialEq, Eq)]
pub struct FeeSplit {
    pub sale_price: u64,
    pub protocol_fee: u64,
    pub organizer_royalty: u64,
    pub seller_payout: u64,
}

/// A resale: one debit of the buyer, divided among seller, treasury and organizer.
#[derive(Clone, Copy, Debug, PartialEq, Eq)]
pub struct Settlement {
    pub buyer: Identity,
    pub seller: Identity,
    pub treasury: Identity,
    pub organizer: Identity,
    pub split: FeeSplit,
}

impl FeeSplit {
    /// The three parts make up the price, to the unit.
    pub open spec fn exact(self) -> bool {
        self.seller_payout + self.protocol_fee + self.organizer_royalty == self.sale_price
    }
}

/// Why a price cannot be divided at the given rates, if it cannot: a fee or
/// their sum does not fit, or the fees exceed the price.
pub open spec fn fee_split_error(sale_price: u64, protocol_fee_bps: u16, royalty_bps: u16)
    -> Option<TixError> {
    let fee = percentage_of(sale_price as int, protocol_fee_bps as int);
    let royalty = percentage_of(sale_price as int, royalty_bps as int);
    if fee > u64::MAX || royalty > u64::MAX || fee + royalty > u64::MAX {
        Some(TixError::MathOverflow)
    } else if fee + royalty > sale_price {
        Some(TixError::MathUnderflow)
    } else {
        None
    }
}

/// The division of a price at the given rates: each fee is its percentage of
/// the price, rounded down, and the seller receives the rest.
pub open spec fn fee_split_of(sale_price: u64, protocol_fee_bps: u16, royalty_bps: u16)
    -> FeeSplit {
    let fee = percentage_of(sale_price as int, protocol_fee_bps as int);
    let royalty = percentage_of(sale_price as int, royalty_bps as int);
    FeeSplit {
        sale_price,
        protocol_fee: fee as u64,
        organizer_royalty: royalty as u64,
        seller_payout: (sale_price - fee - royalty) as u64,
    }
}

/// Divides a sale price into protocol fee, organizer royalty and seller payout.
pub fn split_sale_price(sale_price: u64, protocol_fee_bps: u16, royalty_bps: u16) -> (r: Result<
    FeeSplit,
    TixError,
>)
    ensures
        match r {
            Ok(split) => {
                &&& fee_split_error(sale_price, protocol_fee_bps, royalty_bps) is None
                &&& split == fee_split_of(sale_price, protocol_fee_bps, royalty_bps)
                &&& split.exact()
            },
            Err(e) => fee_split_error(sale_price, protocol_fee_bps, royalty_bps) == Some(e),
        },
{
    let protocol_fee = calculate_percentage(sale_price, protocol_fee_bps)?;
    let organizer_royalty = calculate_percentage(sale_price, royalty_bps)?;
    let total_fees = safe_add(protocol_fee, organizer_royalty)?;
    let seller_payout = safe_sub(sale_price, total_fees)?;
    Ok(FeeSplit { sale_price, protocol_fee, organizer_royalty, seller_payout })
}

} // verus!
